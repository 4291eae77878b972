use crossterm::console::{Console, PRIMARY_HANDLE};
use crossterm::manager::{AnsiScreenManager, ScreenManager, WinApiScreenManager};
use crossterm::state::{
    Command, Context, EnableAnsiCommand, EnableRawModeCommand, RegisterError, StateManager,
    ToAlternateScreenBufferCommand, RAW_MODE_MASK,
};
use crossterm::terminal::WinApiTerminal;

fn native(vt: bool) -> Context {
    Context::new(Console::new(80, 24, 200, 60, vt), ScreenManager::WinApi(WinApiScreenManager::new()))
}

fn ansi(vt: bool) -> Context {
    Context::new(Console::new(80, 24, 200, 60, vt), ScreenManager::Ansi(AnsiScreenManager::new()))
}

fn modes(ctx: &Context) -> (u32, u32) {
    (ctx.session.console.input_mode, ctx.session.console.output_mode)
}

#[test]
fn raw_mode_clears_bits_and_teardown_restores() {
    let mut ctx = native(true);
    assert_eq!(modes(&ctx), (0x7, 0x3));
    assert_eq!(ctx.enable_raw_mode(), Ok(0));
    assert_eq!(modes(&ctx), (0x0, 0x3));
    assert_eq!(ctx.undo_all(), 0);
    assert_eq!(modes(&ctx), (0x7, 0x3));
}

#[test]
fn raw_mode_keeps_other_bits() {
    let mut ctx = native(true);
    ctx.session.console.set_input_mode(0x1f2);
    assert_eq!(ctx.enable_raw_mode(), Ok(0));
    assert_eq!(ctx.session.console.input_mode, 0x1f0);
    ctx.undo_all();
    assert_eq!(ctx.session.console.input_mode, 0x1f2);
}

#[test]
fn raw_mode_via_state_manager() {
    let mut ctx = native(false);
    let key = EnableRawModeCommand::new(&mut ctx.state_manager, &mut ctx.session);
    assert_eq!(key, Ok(0));
    assert_eq!(ctx.session.console.input_mode & RAW_MODE_MASK, 0);
}

#[test]
fn every_change_is_undone_in_reverse() {
    let mut ctx = native(true);
    let before = modes(&ctx);
    assert_eq!(ctx.enable_ansi(), Ok(0));
    assert_eq!(ctx.enable_raw_mode(), Ok(1));
    assert_eq!(ctx.to_alternate_screen(), Ok(2));
    assert_eq!(ctx.enable_raw_mode(), Ok(3));
    assert_eq!(modes(&ctx), (0x0, 0x7));
    assert_eq!(ctx.undo_all(), 0);
    assert_eq!(modes(&ctx), before);
    assert_eq!(ctx.session.console.active, PRIMARY_HANDLE);
    assert!(!ctx.session.screen_manager.is_alternate_screen());
    assert!(ctx.state_manager.changes.is_empty());
}

#[test]
fn second_teardown_touches_nothing() {
    let mut ctx = native(true);
    ctx.enable_ansi().unwrap();
    ctx.enable_raw_mode().unwrap();
    ctx.undo_all();
    let after_first = modes(&ctx);
    assert_eq!(ctx.undo_all(), 0);
    assert_eq!(modes(&ctx), after_first);
    assert_eq!(ctx.state_manager.get_changes_count(), 2);
}

#[test]
fn exit_undoes_changes() {
    let mut ctx = native(true);
    ctx.enable_raw_mode().unwrap();
    assert_eq!(WinApiTerminal::new().exit(&mut ctx), 0);
    assert_eq!(modes(&ctx), (0x7, 0x3));
}

#[test]
fn keys_increase_and_next_key_is_new() {
    let mut ctx = native(true);
    assert_eq!(ctx.state_manager.get_changes_count(), 0);
    assert_eq!(ctx.enable_raw_mode(), Ok(0));
    assert_eq!(ctx.enable_ansi(), Ok(1));
    assert_eq!(ctx.to_alternate_screen(), Ok(2));
    assert_eq!(ctx.state_manager.get_changes_count(), 3);
    let keys: Vec<u16> = ctx.state_manager.changes.iter().map(|r| r.key).collect();
    assert_eq!(keys, vec![0, 1, 2]);
    ctx.undo_all();
    assert_eq!(ctx.state_manager.get_changes_count(), 3);
    assert_eq!(ctx.enable_raw_mode(), Ok(3));
}

#[test]
fn keys_run_out() {
    let mut ctx = native(true);
    ctx.state_manager.changes_count = u16::MAX;
    assert_eq!(ctx.enable_raw_mode(), Err(RegisterError::KeysExhausted));
    assert_eq!(modes(&ctx), (0x7, 0x3));
    assert!(ctx.state_manager.changes.is_empty());
}

#[test]
fn ansi_on_unsupported_console_fails_but_stays_registered() {
    let mut ctx = native(false);
    assert_eq!(ctx.enable_ansi(), Err(RegisterError::ExecuteFailed(0)));
    assert_eq!(modes(&ctx), (0x7, 0x3));
    assert!(ctx.session.ansi.tried);
    assert!(!ctx.session.ansi.enabled);
    assert_eq!(ctx.state_manager.changes.len(), 1);
    assert_eq!(ctx.undo_all(), 0);
    assert_eq!(modes(&ctx), (0x7, 0x3));
}

#[test]
fn ansi_is_not_set_twice() {
    let mut ctx = native(true);
    assert_eq!(ctx.enable_ansi(), Ok(0));
    assert_eq!(ctx.enable_ansi(), Ok(1));
    assert_eq!(ctx.session.console.output_mode, 0x7);
    ctx.undo_all();
    assert_eq!(ctx.session.console.output_mode, 0x3);
    assert!(!ctx.session.ansi.enabled);
}

#[test]
fn ansi_already_on_is_left_on() {
    let mut ctx = native(true);
    assert!(ctx.session.console.set_output_mode(0x7));
    assert_eq!(ctx.enable_ansi(), Ok(0));
    ctx.undo_all();
    assert_eq!(ctx.session.console.output_mode, 0x7);
}

#[test]
fn alternate_screen_round_trip() {
    let mut ctx = native(true);
    let mut cmd = ToAlternateScreenBufferCommand { saved: None };
    assert!(cmd.execute(&mut ctx.session));
    assert_eq!(ctx.session.console.active, 1);
    assert!(ctx.session.screen_manager.is_alternate_screen());
    assert_eq!(ctx.session.screen_manager.alternate_handle(), Some(1));
    assert!(cmd.undo(&mut ctx.session));
    assert_eq!(ctx.session.console.active, PRIMARY_HANDLE);
    assert!(!ctx.session.screen_manager.is_alternate_screen());
    assert_eq!(ctx.session.screen_manager.alternate_handle(), None);
}

#[test]
fn alternate_screen_through_registration() {
    let mut ctx = native(true);
    let key = ToAlternateScreenBufferCommand::new(&mut ctx.state_manager, &mut ctx.session);
    assert_eq!(key, Ok(0));
    assert!(ctx.session.screen_manager.is_alternate_screen());
    ctx.undo_all();
    assert!(!ctx.session.screen_manager.is_alternate_screen());
    assert_eq!(ctx.session.console.active, PRIMARY_HANDLE);
}

#[test]
fn alternate_screen_on_ansi_backend_changes_nothing() {
    let mut ctx = ansi(true);
    assert_eq!(ctx.to_alternate_screen(), Ok(0));
    assert_eq!(ctx.session.console.active, PRIMARY_HANDLE);
    assert!(!ctx.session.screen_manager.is_alternate_screen());
    assert_eq!(ctx.session.screen_manager.alternate_handle(), None);
    assert_eq!(ctx.undo_all(), 0);
}

#[test]
fn commands_run_directly() {
    let mut ctx = native(true);
    let mut a = EnableAnsiCommand::new();
    assert!(a.execute(&mut ctx.session));
    assert_eq!(a.saved, Some(0));
    assert!(a.undo(&mut ctx.session));
    assert_eq!(ctx.session.console.output_mode, 0x3);
    let mut sm = StateManager::new();
    let r = sm.register_change(Command::EnableRawMode(EnableRawModeCommand { key: 0, saved: None }), &mut ctx.session);
    assert_eq!(r, Ok(0));
    assert_eq!(sm.undo_all(&mut ctx.session), 0);
    assert_eq!(ctx.session.console.input_mode, 0x7);
}

#[test]
fn ansi_undo_with_flag_off_changes_nothing() {
    let mut ctx = native(true);
    assert!(ctx.session.console.set_output_mode(0x7));
    let mut cmd = EnableAnsiCommand { saved: Some(0) };
    assert!(!ctx.session.ansi.enabled);
    assert!(cmd.undo(&mut ctx.session));
    assert_eq!(ctx.session.console.output_mode, 0x7);
    assert_eq!(cmd.saved, None);
}

#[test]
fn ansi_round_trip_clears_enabled_flag() {
    let mut ctx = native(true);
    assert_eq!(ctx.enable_ansi(), Ok(0));
    assert!(ctx.session.ansi.enabled);
    assert_eq!(ctx.session.console.output_mode & 0x4, 0x4);
    ctx.undo_all();
    assert_eq!(ctx.session.console.output_mode, 0x3);
    assert!(!ctx.session.ansi.enabled);
}

#[test]
fn registered_record_holds_the_executed_command() {
    let mut ctx = native(true);
    ctx.enable_raw_mode().unwrap();
    ctx.to_alternate_screen().unwrap();
    let cmds: Vec<Command> = ctx.state_manager.changes.iter().map(|r| r.command).collect();
    assert_eq!(cmds[0], Command::EnableRawMode(EnableRawModeCommand { key: 0, saved: Some(0x7) }));
    match cmds[1] {
        Command::ToAlternateScreen(t) => {
            let saved = t.saved.unwrap();
            assert_eq!(saved.active, PRIMARY_HANDLE);
            assert!(!saved.is_alternate_screen);
            assert_eq!(saved.alternate_handle, None);
        }
        _ => panic!("expected an alternate-screen record"),
    }
}

#[test]
fn teardown_shows_primary_buffer_again() {
    let mut ctx = native(true);
    ctx.to_alternate_screen().unwrap();
    ctx.to_alternate_screen().unwrap();
    assert_eq!(ctx.session.console.active, 2);
    assert_eq!(ctx.session.screen_manager.alternate_handle(), Some(2));
    assert_eq!(WinApiTerminal::new().exit(&mut ctx), 0);
    assert_eq!(ctx.session.console.active, PRIMARY_HANDLE);
    assert!(!ctx.session.screen_manager.is_alternate_screen());
    assert_eq!(ctx.session.screen_manager.alternate_handle(), None);
    assert_eq!(WinApiTerminal::new().exit(&mut ctx), 0);
    assert_eq!(ctx.session.console.active, PRIMARY_HANDLE);
}
