use crossterm::input::{AsyncReader, UnixInput, ASYNC_QUEUE_CAPACITY};
use crossterm::manager::{AnsiScreenManager, ScreenManager, WinApiScreenManager};

#[test]
fn async_read_on_empty_queue_returns_zero() {
    let mut reader = UnixInput::new().read_async();
    let mut buf = vec![9u8; 4];
    assert_eq!(reader.read(&mut buf), 0);
    assert_eq!(buf, vec![9, 9, 9, 9]);
    assert_eq!(reader.read(&mut buf), 0);
    assert_eq!(reader.capacity, ASYNC_QUEUE_CAPACITY);
}

#[test]
fn async_read_takes_oldest_bytes() {
    let mut reader = AsyncReader::new(8);
    assert_eq!(reader.push(b"abcdef"), 6);
    let mut buf = vec![0u8; 4];
    assert_eq!(reader.read(&mut buf), 4);
    assert_eq!(buf, b"abcd".to_vec());
    assert_eq!(reader.len(), 2);
    assert_eq!(reader.read(&mut buf), 2);
    assert_eq!(buf, b"efcd".to_vec());
    assert_eq!(reader.len(), 0);
}

#[test]
fn async_queue_is_bounded() {
    let mut reader = AsyncReader::new(3);
    assert_eq!(reader.push(b"abcdef"), 3);
    assert_eq!(reader.push(b"g"), 0);
    assert_eq!(reader.queue, b"abc".to_vec());
}

#[test]
fn ansi_manager_queues_and_flushes() {
    let mut m = AnsiScreenManager::new();
    assert!(!m.is_alternate_screen);
    assert_eq!(m.write_str("héllo"), 6);
    assert_eq!(m.write(b"!"), 1);
    assert_eq!(m.write_string(String::from("ok")), 2);
    assert_eq!(m.flush(), "héllo!ok".as_bytes().to_vec());
    assert!(m.flush().is_empty());
    m.toggle_is_alternate_screen(true);
    assert!(m.is_alternate_screen);
}

#[test]
fn screen_manager_variants() {
    let mut a = ScreenManager::Ansi(AnsiScreenManager::new());
    let mut w = ScreenManager::WinApi(WinApiScreenManager::new());
    assert_eq!(a.write(b"xy"), 2);
    assert_eq!(w.write(b"z"), 1);
    assert_eq!(a.flush(), b"xy".to_vec());
    assert_eq!(w.flush(), b"z".to_vec());
    w.toggle_is_alternate_screen(true);
    assert!(w.is_alternate_screen());
    assert_eq!(w.alternate_handle(), None);
    assert_eq!(a.alternate_handle(), None);
}
