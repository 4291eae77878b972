//! Screen managers: the single owner of the output sink and of the
//! alternate-screen bookkeeping. Written bytes wait in `output` until the
//! program hands them to the terminal with `flush`.

use vstd::prelude::*;
use vstd::string::{StrSliceExecFns, StringSliceAdditionalSpecFns};

verus! {

/// Appends `buf` to `out`.
fn append_bytes(out: &mut Vec<u8>, buf: &[u8])
    ensures
        final(out)@ == old(out)@ + buf@,
{
    let ghost start = out@;
    let mut i: usize = 0;
    while i < buf.len()
        invariant
            i <= buf@.len(),
            out@ == start + buf@.subrange(0, i as int),
        decreases buf@.len() - i,
    {
        out.push(buf[i]);
        i = i + 1;
        assert(out@ =~= start + buf@.subrange(0, i as int));
    }
    assert(buf@.subrange(0, buf@.len() as int) =~= buf@);
}

/// Screen manager for a terminal that understands escape sequences; the
/// alternate screen is entered with an escape sequence, not a new buffer.
pub struct AnsiScreenManager {
    pub is_alternate_screen: bool,
    pub output: Vec<u8>,
}

impl AnsiScreenManager {
    pub fn new() -> (r: Self)
        ensures
            !r.is_alternate_screen,
            r.output@.len() == 0,
    {
        AnsiScreenManager { is_alternate_screen: false, output: Vec::new() }
    }

    pub fn toggle_is_alternate_screen(&mut self, is_alternate_screen: bool)
        ensures
            final(self).is_alternate_screen == is_alternate_screen,
            final(self).output@ == old(self).output@,
    {
        self.is_alternate_screen = is_alternate_screen;
    }

    /// Queues `buf` for the terminal; returns the number of bytes taken.
    pub fn write(&mut self, buf: &[u8]) -> (n: usize)
        ensures
            n == buf@.len(),
            final(self).output@ == old(self).output@ + buf@,
            final(self).is_alternate_screen == old(self).is_alternate_screen,
    {
        append_bytes(&mut self.output, buf);
        buf.len()
    }

    /// Queues the UTF-8 bytes of `string`; returns their number.
    pub fn write_str(&mut self, string: &str) -> (n: usize)
        ensures
            n == string.spec_bytes().len(),
            final(self).output@ == old(self).output@ + string.spec_bytes(),
            final(self).is_alternate_screen == old(self).is_alternate_screen,
    {
        let bytes = string.as_bytes_vec();
        self.write(bytes.as_slice())
    }

    /// As `write_str`, taking the string by value.
    pub fn write_string(&mut self, string: String) -> (n: usize)
        ensures
            n == vstd::utf8::encode_utf8(string@).len(),
            final(self).output@ == old(self).output@ + vstd::utf8::encode_utf8(string@),
            final(self).is_alternate_screen == old(self).is_alternate_screen,
    {
        self.write_str(string.as_str())
    }

    /// Hands out every queued byte, in order, and empties the queue.
    pub fn flush(&mut self) -> (r: Vec<u8>)
        ensures
            r@ == old(self).output@,
            final(self).output@.len() == 0,
            final(self).is_alternate_screen == old(self).is_alternate_screen,
    {
        let mut r: Vec<u8> = Vec::new();
        core::mem::swap(&mut r, &mut self.output);
        r
    }
}

/// Screen manager for a native console: besides the flag it keeps the
/// handle of the alternate screen buffer while that buffer is shown.
pub struct WinApiScreenManager {
    pub is_alternate_screen: bool,
    pub alternate_handle: Option<u32>,
    pub output: Vec<u8>,
}

impl WinApiScreenManager {
    pub open spec fn wf(&self) -> bool {
        self.alternate_handle is Some <==> self.is_alternate_screen
    }

    pub fn new() -> (r: Self)
        ensures
            r.wf(),
            !r.is_alternate_screen,
            r.alternate_handle is None,
            r.output@.len() == 0,
    {
        WinApiScreenManager { is_alternate_screen: false, alternate_handle: None, output: Vec::new() }
    }
}

/// The screen manager of one of the two backends.
pub enum ScreenManager {
    Ansi(AnsiScreenManager),
    WinApi(WinApiScreenManager),
}

impl ScreenManager {
    pub open spec fn wf(&self) -> bool {
        match self {
            ScreenManager::Ansi(_) => true,
            ScreenManager::WinApi(m) => m.wf(),
        }
    }

    pub open spec fn spec_is_alternate_screen(&self) -> bool {
        match self {
            ScreenManager::Ansi(m) => m.is_alternate_screen,
            ScreenManager::WinApi(m) => m.is_alternate_screen,
        }
    }

    pub open spec fn spec_alternate_handle(&self) -> Option<u32> {
        match self {
            ScreenManager::Ansi(_) => None,
            ScreenManager::WinApi(m) => m.alternate_handle,
        }
    }

    pub open spec fn spec_output(&self) -> Seq<u8> {
        match self {
            ScreenManager::Ansi(m) => m.output@,
            ScreenManager::WinApi(m) => m.output@,
        }
    }

    pub fn is_alternate_screen(&self) -> (r: bool)
        ensures
            r == self.spec_is_alternate_screen(),
    {
        match self {
            ScreenManager::Ansi(m) => m.is_alternate_screen,
            ScreenManager::WinApi(m) => m.is_alternate_screen,
        }
    }

    /// The alternate buffer's handle; an escape-sequence manager has none.
    pub fn alternate_handle(&self) -> (r: Option<u32>)
        ensures
            r == self.spec_alternate_handle(),
    {
        match self {
            ScreenManager::Ansi(_) => None,
            ScreenManager::WinApi(m) => m.alternate_handle,
        }
    }

    /// Sets the flag only; swapping the shown buffer is up to the caller.
    pub fn toggle_is_alternate_screen(&mut self, is_alternate_screen: bool)
        ensures
            final(self).spec_is_alternate_screen() == is_alternate_screen,
            final(self).spec_alternate_handle() == old(self).spec_alternate_handle(),
            final(self).spec_output() == old(self).spec_output(),
            *final(self) is Ansi <==> *old(self) is Ansi,
    {
        match self {
            ScreenManager::Ansi(m) => m.toggle_is_alternate_screen(is_alternate_screen),
            ScreenManager::WinApi(m) => m.is_alternate_screen = is_alternate_screen,
        }
    }

    /// Queues `buf` for the terminal; returns the number of bytes taken.
    pub fn write(&mut self, buf: &[u8]) -> (n: usize)
        requires
            old(self).wf(),
        ensures
            final(self).wf(),
            n == buf@.len(),
            final(self).spec_output() == old(self).spec_output() + buf@,
            final(self).spec_is_alternate_screen() == old(self).spec_is_alternate_screen(),
            final(self).spec_alternate_handle() == old(self).spec_alternate_handle(),
            *final(self) is Ansi <==> *old(self) is Ansi,
    {
        match self {
            ScreenManager::Ansi(m) => m.write(buf),
            ScreenManager::WinApi(m) => {
                append_bytes(&mut m.output, buf);
                buf.len()
            },
        }
    }

    /// Hands out every queued byte, in order, and empties the queue.
    pub fn flush(&mut self) -> (r: Vec<u8>)
        requires
            old(self).wf(),
        ensures
            final(self).wf(),
            r@ == old(self).spec_output(),
            final(self).spec_output().len() == 0,
            final(self).spec_is_alternate_screen() == old(self).spec_is_alternate_screen(),
            final(self).spec_alternate_handle() == old(self).spec_alternate_handle(),
            *final(self) is Ansi <==> *old(self) is Ansi,
    {
        match self {
            ScreenManager::Ansi(m) => m.flush(),
            ScreenManager::WinApi(m) => {
                let mut r: Vec<u8> = Vec::new();
                core::mem::swap(&mut r, &mut m.output);
                r
            },
        }
    }
}

} // verus!
