//! Reversible commands on the terminal's modes, and the state manager that
//! records them under increasing keys and undoes them, newest first.

use vstd::prelude::*;
use crate::console::{Console, ENABLE_VIRTUAL_TERMINAL_PROCESSING};
use crate::manager::ScreenManager;

verus! {

/// The input mode bits that raw mode clears: line input, processed input and echo.
pub const RAW_MODE_MASK: u32 = 0x0007;

/// Whether enabling escape-sequence processing was attempted, and whether it
/// is on; kept so that a console without support is not asked again.
#[derive(Clone, Copy, Debug, PartialEq, Eq, Structural)]
pub struct AnsiSupport {
    pub tried: bool,
    pub enabled: bool,
}

/// The terminal state that commands change: the console, the screen
/// manager and what is known of escape-sequence support.
pub struct Session {
    pub console: Console,
    pub screen_manager: ScreenManager,
    pub ansi: AnsiSupport,
}

impl Session {
    pub open spec fn wf(&self) -> bool {
        &&& self.console.wf()
        &&& self.screen_manager.wf()
        &&& self.ansi.enabled ==> self.ansi.tried
    }

    /// The input and output mode words.
    pub open spec fn modes(&self) -> (u32, u32) {
        (self.console.input_mode, self.console.output_mode)
    }

    /// The shown buffer, the alternate-screen flag and the alternate handle.
    pub open spec fn alternate_view(&self) -> (u32, bool, Option<u32>) {
        (self.console.active, self.screen_manager.spec_is_alternate_screen(),
            self.screen_manager.spec_alternate_handle())
    }

    /// What commands never take back: the console's support for escape
    /// sequences stays, and handles are never handed out twice.
    pub open spec fn grows_to(&self, later: &Session) -> bool {
        &&& later.console.vt_supported == self.console.vt_supported
        &&& self.console.next_handle <= later.console.next_handle
    }

    pub open spec fn with_input_mode(self, mode: u32) -> Session {
        Session { console: Console { input_mode: mode, ..self.console }, ..self }
    }

    pub open spec fn with_output_mode(self, mode: u32) -> Session {
        Session { console: Console { output_mode: mode, ..self.console }, ..self }
    }

    pub fn new(console: Console, screen_manager: ScreenManager) -> (r: Session)
        ensures
            r == (Session { console, screen_manager, ansi: AnsiSupport { tried: false, enabled: false } }),
    {
        Session { console, screen_manager, ansi: AnsiSupport { tried: false, enabled: false } }
    }
}

/// Turns on escape-sequence processing of the console's output.
#[derive(Clone, Copy, Debug, PartialEq, Eq, Structural)]
pub struct EnableAnsiCommand {
    /// The processing bit as it was before this command set it.
    pub saved: Option<u32>,
}

/// Clears the line-buffering, processing and echo bits of the input mode.
#[derive(Clone, Copy, Debug, PartialEq, Eq, Structural)]
pub struct EnableRawModeCommand {
    pub key: u16,
    /// The raw-mode bits as they were before this command cleared them.
    pub saved: Option<u32>,
}

/// What the alternate-screen switch replaced.
#[derive(Clone, Copy, Debug, PartialEq, Eq, Structural)]
pub struct AlternateSaved {
    pub active: u32,
    pub is_alternate_screen: bool,
    pub alternate_handle: Option<u32>,
}

/// What an alternate-screen switch in `s` saves.
pub open spec fn alternate_saved_from(s: &Session) -> AlternateSaved {
    AlternateSaved {
        active: s.console.active,
        is_alternate_screen: s.screen_manager.spec_is_alternate_screen(),
        alternate_handle: s.screen_manager.spec_alternate_handle(),
    }
}

/// Shows a new screen buffer in place of the current one.
#[derive(Clone, Copy, Debug, PartialEq, Eq, Structural)]
pub struct ToAlternateScreenBufferCommand {
    pub saved: Option<AlternateSaved>,
}

/// Clearing the raw-mode bits and putting back what they were gives back
/// the input mode word.
pub proof fn lemma_raw_round_trip(m: u32)
    ensures
        ((m & !RAW_MODE_MASK) & !RAW_MODE_MASK) | (m & RAW_MODE_MASK) == m,
{
    assert(((m & !7u32) & !7u32) | (m & 7u32) == m) by (bit_vector);
}

/// Setting the processing bit and putting back what it was gives back the
/// output mode word.
pub proof fn lemma_ansi_round_trip(m: u32)
    ensures
        ((m | ENABLE_VIRTUAL_TERMINAL_PROCESSING) & !ENABLE_VIRTUAL_TERMINAL_PROCESSING)
            | (m & ENABLE_VIRTUAL_TERMINAL_PROCESSING) == m,
        (m | ENABLE_VIRTUAL_TERMINAL_PROCESSING) & ENABLE_VIRTUAL_TERMINAL_PROCESSING != 0,
{
    assert(((m | 4u32) & !4u32) | (m & 4u32) == m) by (bit_vector);
    assert((m | 4u32) & 4u32 != 0) by (bit_vector);
}

impl EnableAnsiCommand {
    pub fn new() -> (r: EnableAnsiCommand)
        ensures
            r.saved is None,
    {
        EnableAnsiCommand { saved: None }
    }

    /// Sets the processing bit, unless an earlier attempt already turned it
    /// on. Fails, leaving the mode as it was, on a console without support.
    pub fn execute(&mut self, s: &mut Session) -> (ok: bool)
        requires
            old(s).wf(),
        ensures
            final(s).wf(),
            old(self).saved is Some || (old(s).ansi.tried && old(s).ansi.enabled) ==> {
                &&& ok
                &&& *final(self) == *old(self)
                &&& *final(s) == *old(s)
            },
            old(self).saved is None && !(old(s).ansi.tried && old(s).ansi.enabled) ==> {
                let o = old(s).console.output_mode;
                &&& ok == old(s).console.vt_supported
                &&& ok ==> *final(s) == (Session {
                    ansi: AnsiSupport { tried: true, enabled: true },
                    ..old(s).with_output_mode(o | ENABLE_VIRTUAL_TERMINAL_PROCESSING)
                })
                &&& ok ==> final(self).saved == Some(o & ENABLE_VIRTUAL_TERMINAL_PROCESSING)
                &&& !ok ==> *final(s) == (Session { ansi: AnsiSupport { tried: true, ..old(s).ansi }, ..*old(s) })
                &&& !ok ==> *final(self) == *old(self)
            },
    {
        if self.saved.is_some() || (s.ansi.tried && s.ansi.enabled) {
            return true;
        }
        let o = s.console.get_output_mode();
        proof {
            lemma_ansi_round_trip(o);
        }
        let ok = s.console.set_output_mode(o | ENABLE_VIRTUAL_TERMINAL_PROCESSING);
        s.ansi.tried = true;
        if ok {
            s.ansi.enabled = true;
            self.saved = Some(o & ENABLE_VIRTUAL_TERMINAL_PROCESSING);
        }
        ok
    }

    /// Puts the processing bit back as it was before `execute` set it, and
    /// records whether it is on now. Acts only while processing is marked
    /// enabled; otherwise, or when `execute` changed nothing, it changes nothing.
    pub fn undo(&mut self, s: &mut Session) -> (ok: bool)
        requires
            old(s).wf(),
            old(self).saved is Some && old(s).ansi.enabled ==> old(s).console.vt_supported,
        ensures
            final(s).wf(),
            ok,
            final(self).saved is None,
            !(old(self).saved is Some && old(s).ansi.enabled) ==> *final(s) == *old(s),
            old(self).saved is Some && old(s).ansi.enabled ==> {
                let p = old(self).saved->0;
                *final(s) == (Session {
                    ansi: AnsiSupport { enabled: p != 0, ..old(s).ansi },
                    ..old(s).with_output_mode(
                        (old(s).console.output_mode & !ENABLE_VIRTUAL_TERMINAL_PROCESSING) | p)
                })
            },
    {
        if let Some(p) = self.saved {
            if s.ansi.enabled {
                let o = s.console.get_output_mode();
                let ok = s.console.set_output_mode((o & !ENABLE_VIRTUAL_TERMINAL_PROCESSING) | p);
                s.ansi.enabled = p != 0;
                self.saved = None;
                return ok;
            }
        }
        self.saved = None;
        true
    }
}

impl EnableRawModeCommand {
    /// Registers a raw-mode switch with `manager`, which runs it at once;
    /// returns the key it was given.
    pub fn new(manager: &mut StateManager, s: &mut Session) -> (r: Result<u16, RegisterError>)
        requires
            old(manager).wf(),
            old(manager).consistent_with(old(s)),
            old(s).wf(),
        ensures
            final(manager).registered(old(manager), old(s), final(s), r),
            old(manager).changes_count < u16::MAX ==> r == Ok::<u16, RegisterError>(old(manager).changes_count)
                && final(s).modes() == (old(s).console.input_mode & !RAW_MODE_MASK, old(s).console.output_mode),
            old(manager).changes_count < u16::MAX ==> final(manager).changes@.last().command == Command::EnableRawMode(
                EnableRawModeCommand { key: old(manager).changes_count, saved: Some(old(s).console.input_mode & RAW_MODE_MASK) }),
            old(manager).changes_count < u16::MAX ==> *final(s) == old(s).with_input_mode(old(s).console.input_mode & !RAW_MODE_MASK),
    {
        let key = manager.get_changes_count();
        let command = EnableRawModeCommand { key, saved: None };
        manager.register_change(Command::EnableRawMode(command), s)
    }

    /// Clears the raw-mode bits, remembering what they were.
    pub fn execute(&mut self, s: &mut Session) -> (ok: bool)
        requires
            old(s).wf(),
        ensures
            final(s).wf(),
            ok,
            final(self).key == old(self).key,
            old(self).saved is Some ==> *final(self) == *old(self) && *final(s) == *old(s),
            old(self).saved is None ==> {
                let m = old(s).console.input_mode;
                &&& final(self).saved == Some(m & RAW_MODE_MASK)
                &&& *final(s) == old(s).with_input_mode(m & !RAW_MODE_MASK)
            },
    {
        if self.saved.is_some() {
            return true;
        }
        let m = s.console.get_input_mode();
        s.console.set_input_mode(m & !RAW_MODE_MASK);
        self.saved = Some(m & RAW_MODE_MASK);
        true
    }

    /// Puts the raw-mode bits back as they were, leaving the other bits.
    pub fn undo(&mut self, s: &mut Session) -> (ok: bool)
        requires
            old(s).wf(),
        ensures
            final(s).wf(),
            ok,
            final(self).key == old(self).key,
            final(self).saved is None,
            old(self).saved is None ==> *final(s) == *old(s),
            old(self).saved is Some ==> *final(s) == old(s).with_input_mode(
                (old(s).console.input_mode & !RAW_MODE_MASK) | old(self).saved->0),
    {
        match self.saved {
            None => true,
            Some(p) => {
                let m = s.console.get_input_mode();
                s.console.set_input_mode((m & !RAW_MODE_MASK) | p);
                self.saved = None;
                true
            },
        }
    }
}

impl ToAlternateScreenBufferCommand {
    /// Registers an alternate-screen switch with `manager`, which runs it at
    /// once; returns the key it was given.
    pub fn new(manager: &mut StateManager, s: &mut Session) -> (r: Result<u16, RegisterError>)
        requires
            old(manager).wf(),
            old(manager).consistent_with(old(s)),
            old(s).wf(),
        ensures
            final(manager).registered(old(manager), old(s), final(s), r),
            old(manager).changes_count < u16::MAX ==> (r is Ok <==> (old(s).screen_manager is Ansi
                || old(s).console.next_handle < u32::MAX)),
            old(manager).changes_count < u16::MAX ==> final(manager).changes@.last().command
                == executed(Command::ToAlternateScreen(ToAlternateScreenBufferCommand { saved: None }), old(s)),
            old(manager).changes_count < u16::MAX ==> executed_session(
                Command::ToAlternateScreen(ToAlternateScreenBufferCommand { saved: None }), old(s), final(s)),
    {
        let command = ToAlternateScreenBufferCommand { saved: None };
        manager.register_change(Command::ToAlternateScreen(command), s)
    }

    /// On a native console: creates a screen buffer, shows it, and marks the
    /// screen manager as on the alternate screen with that handle. With an
    /// escape-sequence screen manager there is no buffer to create, and this
    /// succeeds without changing anything.
    pub fn execute(&mut self, s: &mut Session) -> (ok: bool)
        requires
            old(s).wf(),
        ensures
            final(s).wf(),
            old(s).grows_to(final(s)),
            final(s).modes() == old(s).modes(),
            final(s).ansi == old(s).ansi,
            final(s).screen_manager is Ansi <==> old(s).screen_manager is Ansi,
            old(self).saved is Some || old(s).screen_manager is Ansi ==> ok && *final(self) == *old(self)
                && *final(s) == *old(s),
            old(self).saved is None && old(s).screen_manager is WinApi ==> {
                let h = old(s).console.next_handle;
                &&& ok == (h < u32::MAX)
                &&& ok ==> final(s).alternate_view() == (h, true, Some(h))
                &&& ok ==> final(s).console.next_handle == h + 1
                &&& ok ==> final(self).saved == Some(alternate_saved_from(old(s)))
                &&& !ok ==> *final(self) == *old(self) && *final(s) == *old(s)
            },
    {
        if self.saved.is_some() {
            return true;
        }
        match &mut s.screen_manager {
            ScreenManager::Ansi(_) => true,
            ScreenManager::WinApi(m) => {
                let prior = AlternateSaved {
                    active: s.console.active,
                    is_alternate_screen: m.is_alternate_screen,
                    alternate_handle: m.alternate_handle,
                };
                match s.console.create_screen_buffer() {
                    None => false,
                    Some(h) => {
                        s.console.set_active_screen_buffer(h);
                        m.is_alternate_screen = true;
                        m.alternate_handle = Some(h);
                        self.saved = Some(prior);
                        true
                    },
                }
            },
        }
    }

    /// Shows the buffer that was shown before `execute` and restores the
    /// screen manager's flag and handle; does nothing when `execute` changed
    /// nothing.
    pub fn undo(&mut self, s: &mut Session) -> (ok: bool)
        requires
            old(s).wf(),
            old(self).saved is Some ==> old(self).saved->0.active < old(s).console.next_handle,
            old(self).saved is Some ==> old(s).screen_manager is WinApi,
            old(self).saved is Some ==> (old(self).saved->0.alternate_handle is Some
                <==> old(self).saved->0.is_alternate_screen),
        ensures
            final(s).wf(),
            ok,
            final(self).saved is None,
            old(s).grows_to(final(s)),
            final(s).modes() == old(s).modes(),
            final(s).ansi == old(s).ansi,
            final(s).screen_manager is Ansi <==> old(s).screen_manager is Ansi,
            old(self).saved is None ==> final(s).alternate_view() == old(s).alternate_view(),
            old(self).saved is Some ==> {
                let p = old(self).saved->0;
                final(s).alternate_view() == (p.active, p.is_alternate_screen, p.alternate_handle)
            },
    {
        match self.saved {
            None => true,
            Some(p) => {
                s.console.set_active_screen_buffer(p.active);
                match &mut s.screen_manager {
                    ScreenManager::Ansi(_) => {},
                    ScreenManager::WinApi(m) => {
                        m.is_alternate_screen = p.is_alternate_screen;
                        m.alternate_handle = p.alternate_handle;
                    },
                }
                self.saved = None;
                true
            },
        }
    }
}

/// A reversible change of the terminal's modes.
#[derive(Clone, Copy, Debug, PartialEq, Eq, Structural)]
pub enum Command {
    EnableAnsi(EnableAnsiCommand),
    EnableRawMode(EnableRawModeCommand),
    ToAlternateScreen(ToAlternateScreenBufferCommand),
}

/// The mode words after undoing `c`, from mode words `m`.
pub open spec fn undo_modes(c: Command, m: (u32, u32)) -> (u32, u32) {
    match c {
        Command::EnableAnsi(a) => match a.saved {
            Some(p) => (m.0, (m.1 & !ENABLE_VIRTUAL_TERMINAL_PROCESSING) | p),
            None => m,
        },
        Command::EnableRawMode(r) => match r.saved {
            Some(p) => ((m.0 & !RAW_MODE_MASK) | p, m.1),
            None => m,
        },
        Command::ToAlternateScreen(_) => m,
    }
}

/// Whether `c` is an escape-sequence switch that changed the output mode.
pub open spec fn holds_ansi(c: Command) -> bool {
    match c {
        Command::EnableAnsi(a) => a.saved is Some,
        _ => false,
    }
}

/// The shown buffer, flag and handle after undoing `c`, from `v`.
pub open spec fn undo_view(c: Command, v: (u32, bool, Option<u32>)) -> (u32, bool, Option<u32>) {
    match c {
        Command::ToAlternateScreen(t) => match t.saved {
            Some(p) => (p.active, p.is_alternate_screen, p.alternate_handle),
            None => v,
        },
        _ => v,
    }
}

/// What a fresh command `c` holds after running in `s`.
pub open spec fn executed(c: Command, s: &Session) -> Command {
    match c {
        Command::EnableAnsi(a) => if !(s.ansi.tried && s.ansi.enabled) && s.console.vt_supported {
            Command::EnableAnsi(EnableAnsiCommand {
                saved: Some(s.console.output_mode & ENABLE_VIRTUAL_TERMINAL_PROCESSING),
            })
        } else {
            c
        },
        Command::EnableRawMode(r) => Command::EnableRawMode(EnableRawModeCommand {
            key: r.key,
            saved: Some(s.console.input_mode & RAW_MODE_MASK),
        }),
        Command::ToAlternateScreen(_) => if s.screen_manager is WinApi && s.console.next_handle < u32::MAX {
            Command::ToAlternateScreen(ToAlternateScreenBufferCommand { saved: Some(alternate_saved_from(s)) })
        } else {
            c
        },
    }
}

/// What running a fresh command `c` in `s0` made of the session `s1`.
pub open spec fn executed_session(c: Command, s0: &Session, s1: &Session) -> bool {
    match c {
        Command::EnableAnsi(_) => if s0.ansi.tried && s0.ansi.enabled {
            *s1 == *s0
        } else if s0.console.vt_supported {
            *s1 == (Session {
                ansi: AnsiSupport { tried: true, enabled: true },
                ..s0.with_output_mode(s0.console.output_mode | ENABLE_VIRTUAL_TERMINAL_PROCESSING)
            })
        } else {
            *s1 == (Session { ansi: AnsiSupport { tried: true, ..s0.ansi }, ..*s0 })
        },
        Command::EnableRawMode(_) => *s1 == s0.with_input_mode(s0.console.input_mode & !RAW_MODE_MASK),
        Command::ToAlternateScreen(_) => if s0.screen_manager is WinApi && s0.console.next_handle < u32::MAX {
            let h = s0.console.next_handle;
            &&& s1.alternate_view() == (h, true, Some(h))
            &&& s1.console.next_handle == h + 1
            &&& s1.modes() == s0.modes()
            &&& s1.ansi == s0.ansi
            &&& s1.screen_manager is WinApi
        } else {
            *s1 == *s0
        },
    }
}

impl Command {
    /// Not run yet: nothing saved to restore.
    pub open spec fn is_fresh(&self) -> bool {
        match self {
            Command::EnableAnsi(a) => a.saved is None,
            Command::EnableRawMode(r) => r.saved is None,
            Command::ToAlternateScreen(t) => t.saved is None,
        }
    }

    /// Whether running this command in `s` succeeds.
    pub open spec fn succeeds_in(&self, s: &Session) -> bool {
        match self {
            Command::EnableAnsi(a) => a.saved is Some || (s.ansi.tried && s.ansi.enabled) || s.console.vt_supported,
            Command::EnableRawMode(_) => true,
            Command::ToAlternateScreen(t) => t.saved is Some || s.screen_manager is Ansi
                || s.console.next_handle < u32::MAX,
        }
    }

    /// What undoing this command needs of the session.
    pub open spec fn consistent_with(&self, s: &Session) -> bool {
        match self {
            Command::EnableAnsi(a) => a.saved is Some ==> s.console.vt_supported && s.ansi.enabled,
            Command::EnableRawMode(_) => true,
            Command::ToAlternateScreen(t) => t.saved is Some ==> {
                &&& t.saved->0.active < s.console.next_handle
                &&& s.screen_manager is WinApi
                &&& (t.saved->0.alternate_handle is Some <==> t.saved->0.is_alternate_screen)
            },
        }
    }

    pub fn execute(&mut self, s: &mut Session) -> (ok: bool)
        requires
            old(s).wf(),
            old(self).consistent_with(old(s)),
        ensures
            final(s).wf(),
            old(s).grows_to(final(s)),
            ok == old(self).succeeds_in(old(s)),
            old(self).is_fresh() ==> *final(self) == executed(*old(self), old(s))
                && executed_session(*old(self), old(s), final(s)),
            final(s).screen_manager is Ansi <==> old(s).screen_manager is Ansi,
            final(self).consistent_with(final(s)),
            old(s).ansi.enabled ==> final(s).ansi.enabled,
            holds_ansi(*final(self)) && !holds_ansi(*old(self)) ==> !old(s).ansi.enabled,
            undo_modes(*final(self), final(s).modes()) == undo_modes(*old(self), old(s).modes()),
            undo_view(*final(self), final(s).alternate_view()) == undo_view(*old(self), old(s).alternate_view()),
    {
        match self {
            Command::EnableAnsi(a) => {
                proof {
                    lemma_ansi_round_trip(old(s).console.output_mode);
                }
                a.execute(s)
            },
            Command::EnableRawMode(r) => {
                proof {
                    lemma_raw_round_trip(old(s).console.input_mode);
                }
                r.execute(s)
            },
            Command::ToAlternateScreen(t) => {
                let ghost was_ansi = s.screen_manager is Ansi;
                let ok = t.execute(s);
                proof {
                    if t.saved is Some && !was_ansi {
                        assert(s.screen_manager is WinApi);
                    }
                }
                ok
            },
        }
    }

    pub fn undo(&mut self, s: &mut Session) -> (ok: bool)
        requires
            old(s).wf(),
            old(self).consistent_with(old(s)),
        ensures
            final(s).wf(),
            ok,
            old(s).grows_to(final(s)),
            final(s).screen_manager is Ansi <==> old(s).screen_manager is Ansi,
            final(s).modes() == undo_modes(*old(self), old(s).modes()),
            final(s).alternate_view() == undo_view(*old(self), old(s).alternate_view()),
            !holds_ansi(*old(self)) ==> final(s).ansi == old(s).ansi,
    {
        match self {
            Command::EnableAnsi(a) => a.undo(s),
            Command::EnableRawMode(r) => r.undo(s),
            Command::ToAlternateScreen(t) => t.undo(s),
        }
    }
}

/// A registered command and the key it was given.
#[derive(Clone, Copy, Debug, PartialEq, Eq, Structural)]
pub struct ChangeRecord {
    pub key: u16,
    pub command: Command,
}

/// Why a registration did not go through cleanly.
#[derive(Clone, Copy, Debug, PartialEq, Eq, Structural)]
pub enum RegisterError {
    /// The command was registered under this key, but running it failed.
    ExecuteFailed(u16),
    /// Every key has been handed out; nothing was registered or run.
    KeysExhausted,
}

/// The mode words after undoing `records`, newest first, from mode words `m`.
pub open spec fn unwind(records: Seq<ChangeRecord>, m: (u32, u32)) -> (u32, u32)
    decreases records.len(),
{
    if records.len() == 0 {
        m
    } else {
        unwind(records.drop_last(), undo_modes(records.last().command, m))
    }
}

/// The shown buffer, flag and handle after undoing `records`, newest
/// first, from `v`.
pub open spec fn unwind_view(records: Seq<ChangeRecord>, v: (u32, bool, Option<u32>)) -> (u32, bool, Option<u32>)
    decreases records.len(),
{
    if records.len() == 0 {
        v
    } else {
        unwind_view(records.drop_last(), undo_view(records.last().command, v))
    }
}

/// A record stays undoable in `s1` when `s1` kept what undoing it relies on.
pub proof fn lemma_record_consistent_after(c: Command, s0: &Session, s1: &Session)
    requires
        c.consistent_with(s0),
        s0.grows_to(s1),
        s1.screen_manager is WinApi <==> s0.screen_manager is WinApi,
        holds_ansi(c) ==> s1.ansi.enabled,
    ensures
        c.consistent_with(s1),
{
}

/// Records terminal-mode changes so that they can be undone in reverse order.
pub struct StateManager {
    pub changes: Vec<ChangeRecord>,
    /// The key the next registration gets.
    pub changes_count: u16,
}

impl StateManager {
    pub open spec fn wf(&self) -> bool {
        &&& forall|i: int, j: int| 0 <= i < j < self.changes@.len()
            ==> (#[trigger] self.changes@[i]).key < (#[trigger] self.changes@[j]).key
        &&& forall|i: int| 0 <= i < self.changes@.len() ==> #[trigger] self.changes@[i].key < self.changes_count
        &&& forall|i: int, j: int| 0 <= i < self.changes@.len() && 0 <= j < self.changes@.len()
            && #[trigger] holds_ansi(self.changes@[i].command) && #[trigger] holds_ansi(self.changes@[j].command)
            ==> i == j
    }

    /// Every record can be undone in `s`.
    pub open spec fn consistent_with(&self, s: &Session) -> bool {
        forall|i: int| 0 <= i < self.changes@.len() ==> #[trigger] self.changes@[i].command.consistent_with(s)
    }

    /// The mode words that undoing every record would leave, from those of `s`.
    pub open spec fn restored_modes(&self, s: &Session) -> (u32, u32) {
        unwind(self.changes@, s.modes())
    }

    /// The shown buffer, flag and handle that undoing every record would
    /// leave, from those of `s`.
    pub open spec fn restored_view(&self, s: &Session) -> (u32, bool, Option<u32>) {
        unwind_view(self.changes@, s.alternate_view())
    }

    /// What a registration returning `r` did, from `self0` and `s0` to `self` and `s1`.
    pub open spec fn registered(&self, self0: &StateManager, s0: &Session, s1: &Session, r: Result<u16, RegisterError>) -> bool {
        &&& self.wf()
        &&& s1.wf()
        &&& self.consistent_with(s1)
        &&& s0.grows_to(s1)
        &&& (s1.screen_manager is Ansi <==> s0.screen_manager is Ansi)
        &&& self.restored_modes(s1) == self0.restored_modes(s0)
        &&& self.restored_view(s1) == self0.restored_view(s0)
        &&& self0.changes_count == u16::MAX ==> {
            &&& r == Err::<u16, RegisterError>(RegisterError::KeysExhausted)
            &&& self.changes@ == self0.changes@
            &&& self.changes_count == self0.changes_count
            &&& s1 == s0
        }
        &&& self0.changes_count < u16::MAX ==> {
            &&& self.changes_count == self0.changes_count + 1
            &&& self.changes@.len() == self0.changes@.len() + 1
            &&& self.changes@.drop_last() == self0.changes@
            &&& self.changes@.last().key == self0.changes_count
            &&& (r == Ok::<u16, RegisterError>(self0.changes_count)
                || r == Err::<u16, RegisterError>(RegisterError::ExecuteFailed(self0.changes_count)))
        }
    }

    pub fn new() -> (r: StateManager)
        ensures
            r.wf(),
            r.changes@.len() == 0,
            r.changes_count == 0,
    {
        StateManager { changes: Vec::new(), changes_count: 0 }
    }

    /// The key the next registration gets; above every key given so far.
    pub fn get_changes_count(&self) -> (r: u16)
        requires
            self.wf(),
        ensures
            r == self.changes_count,
            forall|i: int| 0 <= i < self.changes@.len() ==> #[trigger] self.changes@[i].key < r,
    {
        self.changes_count
    }

    /// Records `command` under a fresh key and runs it. A command whose run
    /// fails stays recorded, so that teardown still visits it.
    pub fn register_change(&mut self, command: Command, s: &mut Session) -> (r: Result<u16, RegisterError>)
        requires
            old(self).wf(),
            old(self).consistent_with(old(s)),
            old(s).wf(),
            command.is_fresh(),
        ensures
            final(self).registered(old(self), old(s), final(s), r),
            old(self).changes_count < u16::MAX ==> final(self).changes@.last().command.consistent_with(final(s)),
            old(self).changes_count < u16::MAX ==> (r is Ok <==> command.succeeds_in(old(s))),
            old(self).changes_count < u16::MAX ==> final(self).changes@.last().command == executed(command, old(s)),
            old(self).changes_count < u16::MAX ==> executed_session(command, old(s), final(s)),
    {
        if self.changes_count == u16::MAX {
            return Err(RegisterError::KeysExhausted);
        }
        let key = self.changes_count;
        let mut command = command;
        let ghost s0 = *s;
        let ok = command.execute(s);
        proof {
            assert forall|i: int| 0 <= i < self.changes@.len() implies #[trigger] self.changes@[i].command.consistent_with(s) by {
                assert(self.changes@[i].command.consistent_with(&s0));
                lemma_record_consistent_after(self.changes@[i].command, &s0, s);
            }
        }
        let ghost before = self.changes@;
        self.changes.push(ChangeRecord { key, command });
        self.changes_count = key + 1;
        proof {
            assert(self.changes@.drop_last() =~= old(self).changes@);
            assert forall|i: int, j: int| 0 <= i < self.changes@.len() && 0 <= j < self.changes@.len()
                && #[trigger] holds_ansi(self.changes@[i].command) && #[trigger] holds_ansi(self.changes@[j].command)
                implies i == j by {
                if i < before.len() {
                    assert(before[i].command.consistent_with(&s0));
                }
                if j < before.len() {
                    assert(before[j].command.consistent_with(&s0));
                }
                if i < before.len() && j < before.len() {
                    assert(before[i] == self.changes@[i] && before[j] == self.changes@[j]);
                }
            }
        }
        if ok {
            Ok(key)
        } else {
            Err(RegisterError::ExecuteFailed(key))
        }
    }

    /// Undoes every record, newest first, and forgets them. A failed undo
    /// does not stop the ones after it; returns how many failed.
    pub fn undo_all(&mut self, s: &mut Session) -> (failures: usize)
        requires
            old(self).wf(),
            old(self).consistent_with(old(s)),
            old(s).wf(),
        ensures
            failures == 0,
            final(self).wf(),
            final(self).changes@.len() == 0,
            final(self).changes_count == old(self).changes_count,
            final(s).wf(),
            old(s).grows_to(final(s)),
            final(s).modes() == old(self).restored_modes(old(s)),
            final(s).alternate_view() == old(self).restored_view(old(s)),
            old(self).changes@.len() == 0 ==> *final(s) == *old(s),
    {
        let mut failures: usize = 0;
        let ghost target = unwind(self.changes@, s.modes());
        let ghost target_view = unwind_view(self.changes@, s.alternate_view());
        let ghost s_start = *s;
        while self.changes.len() > 0
            invariant
                self.wf(),
                self.consistent_with(s),
                s.wf(),
                s_start.grows_to(s),
                (s.screen_manager is Ansi <==> s_start.screen_manager is Ansi),
                unwind(self.changes@, s.modes()) == target,
                unwind_view(self.changes@, s.alternate_view()) == target_view,
                self.changes@.len() <= old(self).changes@.len(),
                old(self).changes@.len() == 0 ==> *s == s_start,
                failures == 0,
                self.changes_count == old(self).changes_count,
            decreases self.changes@.len(),
        {
            let ghost before = self.changes@;
            let ghost s0 = *s;
            let mut record = self.changes.pop().unwrap();
            assert(before[before.len() - 1].command.consistent_with(&s0));
            let ok = record.command.undo(s);
            if !ok {
                failures = failures + 1;
            }
            proof {
                assert forall|i: int| 0 <= i < self.changes@.len() implies #[trigger] self.changes@[i].command.consistent_with(s) by {
                    assert(before[i] == self.changes@[i]);
                    assert(before[i].command.consistent_with(&s0));
                    if holds_ansi(before[i].command) && holds_ansi(before[before.len() - 1].command) {
                        assert(i == before.len() - 1);
                    }
                    lemma_record_consistent_after(before[i].command, &s0, s);
                }
                assert(self.changes@ =~= before.drop_last());
            }
        }
        failures
    }
}

} // verus!

verus! {

/// The composition root: the terminal session and the record of the mode
/// changes made to it.
pub struct Context {
    pub session: Session,
    pub state_manager: StateManager,
}

/// A manager whose records can be undone in `s0` can still undo them in
/// `s1` when `s1` kept what undoing relies on.
pub proof fn lemma_consistent_after(sm: &StateManager, s0: &Session, s1: &Session)
    requires
        sm.consistent_with(s0),
        s0.grows_to(s1),
        s1.screen_manager is WinApi <==> s0.screen_manager is WinApi,
        s1.ansi == s0.ansi,
    ensures
        sm.consistent_with(s1),
{
    assert forall|i: int| 0 <= i < sm.changes@.len() implies #[trigger] sm.changes@[i].command.consistent_with(s1) by {
        assert(sm.changes@[i].command.consistent_with(s0));
    }
}

impl Context {
    pub open spec fn wf(&self) -> bool {
        &&& self.session.wf()
        &&& self.state_manager.wf()
        &&& self.state_manager.consistent_with(&self.session)
    }

    /// A context over `console` and `screen_manager`, with no changes recorded.
    pub fn new(console: Console, screen_manager: ScreenManager) -> (r: Context)
        requires
            console.wf(),
            screen_manager.wf(),
        ensures
            r.wf(),
            r.session == (Session { console, screen_manager, ansi: AnsiSupport { tried: false, enabled: false } }),
            r.state_manager.changes@.len() == 0,
            r.state_manager.changes_count == 0,
    {
        Context { session: Session::new(console, screen_manager), state_manager: StateManager::new() }
    }

    /// Registers and runs a raw-mode switch; returns its key.
    pub fn enable_raw_mode(&mut self) -> (r: Result<u16, RegisterError>)
        requires
            old(self).wf(),
        ensures
            final(self).wf(),
            final(self).state_manager.registered(&old(self).state_manager, &old(self).session, &final(self).session, r),
            old(self).state_manager.changes_count < u16::MAX ==> r == Ok::<u16, RegisterError>(old(self).state_manager.changes_count)
                && final(self).session.modes() == (old(self).session.console.input_mode & !RAW_MODE_MASK,
                    old(self).session.console.output_mode),
            old(self).state_manager.changes_count < u16::MAX ==> final(self).state_manager.changes@.last().command
                == executed(Command::EnableRawMode(EnableRawModeCommand { key: old(self).state_manager.changes_count, saved: None }),
                    &old(self).session),
    {
        EnableRawModeCommand::new(&mut self.state_manager, &mut self.session)
    }

    /// Registers and runs an escape-sequence switch; returns its key. It
    /// fails on a console without support, unless an earlier switch already
    /// turned the processing on.
    pub fn enable_ansi(&mut self) -> (r: Result<u16, RegisterError>)
        requires
            old(self).wf(),
        ensures
            final(self).wf(),
            final(self).state_manager.registered(&old(self).state_manager, &old(self).session, &final(self).session, r),
            old(self).state_manager.changes_count < u16::MAX ==> (r is Ok <==> (old(self).session.console.vt_supported
                || (old(self).session.ansi.tried && old(self).session.ansi.enabled))),
            old(self).state_manager.changes_count < u16::MAX ==> final(self).state_manager.changes@.last().command
                == executed(Command::EnableAnsi(EnableAnsiCommand { saved: None }), &old(self).session),
            old(self).state_manager.changes_count < u16::MAX ==> executed_session(
                Command::EnableAnsi(EnableAnsiCommand { saved: None }), &old(self).session, &final(self).session),
            old(self).state_manager.changes_count < u16::MAX && r is Ok ==> (final(self).session.ansi.enabled
                && final(self).session.console.output_mode & ENABLE_VIRTUAL_TERMINAL_PROCESSING != 0)
                    || (old(self).session.ansi.tried && old(self).session.ansi.enabled
                        && final(self).session == old(self).session),
    {
        proof {
            lemma_ansi_round_trip(self.session.console.output_mode);
        }
        self.state_manager.register_change(Command::EnableAnsi(EnableAnsiCommand::new()), &mut self.session)
    }

    /// Registers and runs an alternate-screen switch; returns its key. It
    /// fails only when the console has no handle left to give.
    pub fn to_alternate_screen(&mut self) -> (r: Result<u16, RegisterError>)
        requires
            old(self).wf(),
        ensures
            final(self).wf(),
            final(self).state_manager.registered(&old(self).state_manager, &old(self).session, &final(self).session, r),
            old(self).state_manager.changes_count < u16::MAX ==> (r is Ok <==> (old(self).session.screen_manager is Ansi
                || old(self).session.console.next_handle < u32::MAX)),
            old(self).state_manager.changes_count < u16::MAX ==> final(self).state_manager.changes@.last().command
                == executed(Command::ToAlternateScreen(ToAlternateScreenBufferCommand { saved: None }), &old(self).session),
            old(self).state_manager.changes_count < u16::MAX ==> executed_session(
                Command::ToAlternateScreen(ToAlternateScreenBufferCommand { saved: None }), &old(self).session,
                &final(self).session),
            old(self).session.screen_manager is Ansi ==> final(self).session == old(self).session,
    {
        ToAlternateScreenBufferCommand::new(&mut self.state_manager, &mut self.session)
    }

    /// Undoes every recorded change, newest first; returns how many failed.
    pub fn undo_all(&mut self) -> (failures: usize)
        requires
            old(self).wf(),
        ensures
            final(self).wf(),
            failures == 0,
            final(self).state_manager.changes@.len() == 0,
            final(self).state_manager.changes_count == old(self).state_manager.changes_count,
            final(self).session.modes() == old(self).state_manager.restored_modes(&old(self).session),
            final(self).session.alternate_view() == old(self).state_manager.restored_view(&old(self).session),
            old(self).state_manager.changes@.len() == 0 ==> final(self).session == old(self).session,
    {
        self.state_manager.undo_all(&mut self.session)
    }
}

} // verus!

verus! {

/// Teardown restores the modes and the shown screen: starting from a
/// manager with no records, any run of registrations leaves
/// `restored_modes` and `restored_view` where they were (that is
/// `registered`), and `undo_all` brings the session there; so the mode
/// words, the shown buffer, the alternate flag and handle end as they were
/// before the first registration.
pub proof fn lemma_teardown_restores(
    fresh: &StateManager,
    s0: &Session,
    later: &StateManager,
    s1: &Session,
    s2: &Session,
)
    requires
        fresh.changes@.len() == 0,
        later.restored_modes(s1) == fresh.restored_modes(s0),
        later.restored_view(s1) == fresh.restored_view(s0),
        s2.modes() == later.restored_modes(s1),
        s2.alternate_view() == later.restored_view(s1),
    ensures
        s2.modes() == s0.modes(),
        s2.alternate_view() == s0.alternate_view(),
{
}

/// A second teardown changes nothing: after `undo_all` the manager holds no
/// records, and undoing no records leaves the modes and the shown screen
/// as they are (`undo_all` on no records leaves the session unchanged).
pub proof fn lemma_teardown_idempotent(sm: &StateManager, s: &Session)
    requires
        sm.changes@.len() == 0,
    ensures
        sm.restored_modes(s) == s.modes(),
        sm.restored_view(s) == s.alternate_view(),
{
}

/// Keys are handed out in increasing order, and the next key is above all
/// of them, so it was never handed out before.
pub proof fn lemma_keys_fresh(sm: &StateManager)
    requires
        sm.wf(),
    ensures
        forall|i: int, j: int| 0 <= i < j < sm.changes@.len() ==> sm.changes@[i].key < sm.changes@[j].key,
        forall|i: int| 0 <= i < sm.changes@.len() ==> sm.changes@[i].key != sm.changes_count,
{
    assert forall|i: int, j: int| 0 <= i < j < sm.changes@.len() implies sm.changes@[i].key < sm.changes@[j].key by {
        assert(sm.changes@[i].key < sm.changes@[j].key);
    }
    assert forall|i: int| 0 <= i < sm.changes@.len() implies sm.changes@[i].key != sm.changes_count by {
        assert(sm.changes@[i].key < sm.changes_count);
    }
}

/// Alternate-screen round trip: what a successful switch in `s0` saved can
/// be undone in any later session `s1` (its handle still exists), and the
/// undo leaves the shown buffer, the flag and the handle as they were in `s0`.
pub proof fn lemma_alternate_round_trip(
    s0: &Session,
    t: ToAlternateScreenBufferCommand,
    s1: &Session,
    s2: &Session,
)
    requires
        s0.wf(),
        s0.grows_to(s1),
        t.saved == Some(alternate_saved_from(s0)),
        s2.alternate_view() == (t.saved->0.active, t.saved->0.is_alternate_screen, t.saved->0.alternate_handle),
    ensures
        t.saved->0.active < s1.console.next_handle,
        s0.screen_manager is WinApi ==> (t.saved->0.alternate_handle is Some <==> t.saved->0.is_alternate_screen),
        s2.alternate_view() == s0.alternate_view(),
{
}

} // verus!
