use editor_core::command::{
    should_process, Command, CommandError, Direction, Edit, EditCommand, Event, KeyCode, KeyEvent,
    KeyEventKind, KeyModifiers, Move, System,
};
use editor_core::position::Size;

const NONE: KeyModifiers = KeyModifiers { shift: false, control: false, alt: false, other: false };
const SHIFT: KeyModifiers = KeyModifiers { shift: true, control: false, alt: false, other: false };
const CONTROL: KeyModifiers = KeyModifiers { shift: false, control: true, alt: false, other: false };
const ALT: KeyModifiers = KeyModifiers { shift: false, control: false, alt: true, other: false };

fn key(code: KeyCode, modifiers: KeyModifiers) -> Event {
    Event::Key(KeyEvent { code, modifiers, kind: KeyEventKind::Press })
}

#[test]
fn characters_decode_into_insertions() {
    assert_eq!(Command::try_from(key(KeyCode::Char('a'), NONE)), Ok(Command::Edit(Edit::Insert('a'))));
    assert_eq!(Command::try_from(key(KeyCode::Char('A'), SHIFT)), Ok(Command::Edit(Edit::Insert('A'))));
    assert_eq!(Command::try_from(key(KeyCode::Tab, NONE)), Ok(Command::Edit(Edit::Insert('\t'))));
    assert_eq!(Command::try_from(key(KeyCode::Enter, NONE)), Ok(Command::Edit(Edit::InsertNewLine)));
    assert_eq!(Command::try_from(key(KeyCode::Backspace, NONE)), Ok(Command::Edit(Edit::DeleteBackward)));
    assert_eq!(Command::try_from(key(KeyCode::Delete, NONE)), Ok(Command::Edit(Edit::Delete)));
    assert_eq!(Command::try_from(key(KeyCode::Char('a'), ALT)), Err(CommandError::UnsupportedKey));
}

#[test]
fn navigation_keys_decode_into_movements() {
    let table = [
        (KeyCode::Up, Move::Up),
        (KeyCode::Down, Move::Down),
        (KeyCode::Left, Move::Left),
        (KeyCode::Right, Move::Right),
        (KeyCode::PageUp, Move::PageUp),
        (KeyCode::PageDown, Move::PageDown),
        (KeyCode::Home, Move::StartOfLine),
        (KeyCode::End, Move::EndOfLine),
    ];
    for (code, movement) in table {
        assert_eq!(Command::try_from(key(code, NONE)), Ok(Command::Move(movement)));
        assert_eq!(Move::try_from(KeyEvent { code, modifiers: NONE, kind: KeyEventKind::Press }), Ok(movement));
        assert_eq!(Command::try_from(key(code, SHIFT)), Err(CommandError::UnsupportedKey));
    }
}

#[test]
fn control_keys_decode_into_system_commands() {
    assert_eq!(Command::try_from(key(KeyCode::Char('q'), CONTROL)), Ok(Command::System(System::Quit)));
    assert_eq!(Command::try_from(key(KeyCode::Char('s'), CONTROL)), Ok(Command::System(System::Save)));
    assert_eq!(Command::try_from(key(KeyCode::Char('f'), CONTROL)), Ok(Command::System(System::Search)));
    assert_eq!(Command::try_from(key(KeyCode::Esc, NONE)), Ok(Command::System(System::Dismiss)));
    assert_eq!(Command::try_from(key(KeyCode::Char('x'), CONTROL)), Err(CommandError::UnsupportedKey));
    assert_eq!(System::try_from(KeyEvent { code: KeyCode::Esc, modifiers: CONTROL, kind: KeyEventKind::Press }), Err(CommandError::UnsupportedKey));
    assert_eq!(Edit::try_from(KeyEvent { code: KeyCode::Esc, modifiers: NONE, kind: KeyEventKind::Press }), Err(CommandError::UnsupportedKey));
}

#[test]
fn resize_events_carry_the_size() {
    assert_eq!(
        Command::try_from(Event::Resize(80, 24)),
        Ok(Command::System(System::Resize(Size { height: 24, width: 80 })))
    );
    assert_eq!(
        EditCommand::try_from(Event::Resize(120, 40)),
        Ok(EditCommand::Resize(Size { height: 40, width: 120 }))
    );
}

#[test]
fn other_events_decode_into_nothing() {
    assert_eq!(Command::try_from(Event::Other), Err(CommandError::UnsupportedEvent));
    assert_eq!(EditCommand::try_from(Event::Other), Err(CommandError::UnsupportedEvent));
    assert_eq!(Command::try_from(key(KeyCode::Other, NONE)), Err(CommandError::UnsupportedKey));
}

#[test]
fn flat_commands_ignore_modifiers_on_navigation_keys() {
    assert_eq!(EditCommand::try_from(key(KeyCode::Char('q'), CONTROL)), Ok(EditCommand::Quit));
    assert_eq!(EditCommand::try_from(key(KeyCode::Char('s'), CONTROL)), Ok(EditCommand::Save));
    assert_eq!(EditCommand::try_from(key(KeyCode::Char('q'), NONE)), Ok(EditCommand::Insert('q')));
    assert_eq!(EditCommand::try_from(key(KeyCode::Char('Q'), SHIFT)), Ok(EditCommand::Insert('Q')));
    assert_eq!(EditCommand::try_from(key(KeyCode::Char('f'), CONTROL)), Err(CommandError::UnsupportedKey));
    assert_eq!(EditCommand::try_from(key(KeyCode::Up, CONTROL)), Ok(EditCommand::Move(Direction::Up)));
    assert_eq!(EditCommand::try_from(key(KeyCode::End, ALT)), Ok(EditCommand::Move(Direction::End)));
    assert_eq!(EditCommand::try_from(key(KeyCode::Backspace, SHIFT)), Ok(EditCommand::Backspace));
    assert_eq!(EditCommand::try_from(key(KeyCode::Delete, NONE)), Ok(EditCommand::Delete));
    assert_eq!(EditCommand::try_from(key(KeyCode::Tab, NONE)), Ok(EditCommand::Insert('\t')));
    assert_eq!(EditCommand::try_from(key(KeyCode::Enter, NONE)), Ok(EditCommand::Enter));
    assert_eq!(EditCommand::try_from(key(KeyCode::Esc, NONE)), Err(CommandError::UnsupportedKey));
}

#[test]
fn directions_map_to_movements() {
    assert_eq!(Direction::Home.as_move(), Move::StartOfLine);
    assert_eq!(Direction::End.as_move(), Move::EndOfLine);
    assert_eq!(Direction::PageUp.as_move(), Move::PageUp);
    assert_eq!(Direction::Left.as_move(), Move::Left);
}

#[test]
fn only_key_presses_and_resizes_are_processed() {
    let event = |kind| Event::Key(KeyEvent { code: KeyCode::Char('a'), modifiers: NONE, kind });
    assert!(should_process(event(KeyEventKind::Press)));
    assert!(!should_process(event(KeyEventKind::Repeat)));
    assert!(!should_process(event(KeyEventKind::Release)));
    assert!(should_process(Event::Resize(1, 1)));
    assert!(!should_process(Event::Other));
}
