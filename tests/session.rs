use vitalis::foundation::Position;
use vitalis::patterns::commands::{Command, Direction, ExCommand};
use vitalis::patterns::modes::Mode;
use vitalis::patterns::session::{execute_command, handle_key, translate_key, Key};
use vitalis::tapestry::Tapestry;
use vitalis::threads::{Thread, ThreadId, ThreadKind};
use vitalis::weaver::properties::ThreadProperties;

fn world_with_player_at(pos: Option<Position>) -> (Tapestry<()>, ThreadId) {
    let mut tapestry = Tapestry::new();
    let id = tapestry.next_id();
    tapestry.add_thread(Thread {
        id,
        kind: ThreadKind::Player {
            name: "Wanderer".to_string(),
        },
        properties: ThreadProperties::default(),
        states: (),
        position: pos,
    });
    (tapestry, id)
}

fn player_pos(tapestry: &Tapestry<()>, id: ThreadId) -> Option<Position> {
    tapestry.get_thread(id).and_then(|t| t.position)
}

#[test]
fn quit_through_the_command_line() {
    let (mut tapestry, id) = world_with_player_at(Some(Position::new(0, 0)));
    let mut mode = Mode::default();
    assert!(handle_key(&mut tapestry, id, &mut mode, Key::Char(':')));
    assert_eq!(mode, Mode::Ex { command_buffer: String::new() });
    assert!(handle_key(&mut tapestry, id, &mut mode, Key::Char('q')));
    assert_eq!(mode.command_buffer(), Some("q"));
    assert_eq!(translate_key(&mode, Key::Enter), Command::ExCommand(ExCommand::Quit));
    assert!(!handle_key(&mut tapestry, id, &mut mode, Key::Enter));
    assert_eq!(mode, Mode::default());
}

#[test]
fn unknown_command_line_is_reported_unknown() {
    let (mut tapestry, id) = world_with_player_at(Some(Position::new(0, 0)));
    let mut mode = Mode::default();
    for c in [':', 'x', 'y', 'z'] {
        assert!(handle_key(&mut tapestry, id, &mut mode, Key::Char(c)));
    }
    assert_eq!(mode.command_buffer(), Some("xyz"));
    assert_eq!(translate_key(&mode, Key::Enter), Command::Unknown);
    assert_eq!(translate_key(&mode, Key::Char('\r')), Command::Unknown);
    assert!(handle_key(&mut tapestry, id, &mut mode, Key::Enter));
    // The text stays until it is edited or cancelled.
    assert_eq!(mode.command_buffer(), Some("xyz"));
    assert!(handle_key(&mut tapestry, id, &mut mode, Key::Esc));
    assert_eq!(mode, Mode::default());
}

#[test]
fn line_end_characters_run_the_command_line() {
    let (mut tapestry, id) = world_with_player_at(None);
    let mut mode = Mode::Ex { command_buffer: " quit ".to_string() };
    assert_eq!(translate_key(&mode, Key::Char('\n')), Command::ExCommand(ExCommand::Quit));
    assert!(!handle_key(&mut tapestry, id, &mut mode, Key::Char('\r')));
}

#[test]
fn backspace_edits_the_command_line() {
    let (mut tapestry, id) = world_with_player_at(None);
    let mut mode = Mode::Ex { command_buffer: "qx".to_string() };
    assert!(handle_key(&mut tapestry, id, &mut mode, Key::Backspace));
    assert_eq!(mode.command_buffer(), Some("q"));
    assert!(handle_key(&mut tapestry, id, &mut mode, Key::Backspace));
    assert!(handle_key(&mut tapestry, id, &mut mode, Key::Backspace));
    assert_eq!(mode.command_buffer(), Some(""));
    let mut normal = Mode::default();
    assert_eq!(translate_key(&normal, Key::Backspace), Command::Unknown);
    assert!(handle_key(&mut tapestry, id, &mut normal, Key::Backspace));
    assert_eq!(normal, Mode::default());
}

#[test]
fn keys_outside_ex_mode() {
    let mode = Mode::default();
    assert_eq!(translate_key(&mode, Key::Esc), Command::Unknown);
    assert_eq!(translate_key(&mode, Key::Enter), Command::Unknown);
    assert_eq!(translate_key(&mode, Key::Other), Command::Unknown);
    assert_eq!(translate_key(&mode, Key::Char('h')), Command::Move(Direction::Left));
    let ex = Mode::ex();
    assert_eq!(translate_key(&ex, Key::Char('h')), Command::ExInput('h'));
    assert_eq!(translate_key(&ex, Key::Char('\x1b')), Command::CancelEx);
    assert_eq!(translate_key(&ex, Key::Esc), Command::CancelEx);
    assert_eq!(translate_key(&ex, Key::Other), Command::Unknown);
}

#[test]
fn hjkl_moves_the_player() {
    let (mut tapestry, id) = world_with_player_at(Some(Position::new(0, 0)));
    let mut mode = Mode::default();
    assert!(handle_key(&mut tapestry, id, &mut mode, Key::Char('l')));
    assert_eq!(player_pos(&tapestry, id), Some(Position::new(1, 0)));
    assert!(handle_key(&mut tapestry, id, &mut mode, Key::Char('j')));
    assert_eq!(player_pos(&tapestry, id), Some(Position::new(1, 1)));
    assert!(handle_key(&mut tapestry, id, &mut mode, Key::Char('h')));
    assert_eq!(player_pos(&tapestry, id), Some(Position::new(0, 1)));
    assert!(handle_key(&mut tapestry, id, &mut mode, Key::Char('k')));
    assert_eq!(player_pos(&tapestry, id), Some(Position::new(0, 0)));
}

#[test]
fn movement_keys_are_text_in_ex_mode() {
    let (mut tapestry, id) = world_with_player_at(Some(Position::new(0, 0)));
    let mut mode = Mode::ex();
    assert!(handle_key(&mut tapestry, id, &mut mode, Key::Char('l')));
    assert_eq!(player_pos(&tapestry, id), Some(Position::new(0, 0)));
    assert_eq!(mode.command_buffer(), Some("l"));
}

#[test]
fn moves_that_cannot_happen_change_nothing() {
    let (mut tapestry, id) = world_with_player_at(None);
    let mut mode = Mode::default();
    assert!(execute_command(Command::Move(Direction::Left), &mut tapestry, id, &mut mode));
    assert_eq!(player_pos(&tapestry, id), None);
    assert!(execute_command(Command::Move(Direction::Left), &mut tapestry, ThreadId(9), &mut mode));

    let (mut edge, id) = world_with_player_at(Some(Position::new(i32::MIN, 0)));
    assert!(execute_command(Command::Move(Direction::Left), &mut edge, id, &mut mode));
    assert_eq!(player_pos(&edge, id), Some(Position::new(i32::MIN, 0)));
}

#[test]
fn execute_each_command() {
    let (mut tapestry, id) = world_with_player_at(None);
    let mut mode = Mode::default();
    assert!(execute_command(Command::ExInput('a'), &mut tapestry, id, &mut mode));
    assert_eq!(mode, Mode::default());
    assert!(execute_command(Command::EnterExMode, &mut tapestry, id, &mut mode));
    assert!(execute_command(Command::ExInput('a'), &mut tapestry, id, &mut mode));
    assert_eq!(mode.command_buffer(), Some("a"));
    assert!(execute_command(Command::Unknown, &mut tapestry, id, &mut mode));
    assert_eq!(mode.command_buffer(), Some("a"));
    assert!(execute_command(Command::CancelEx, &mut tapestry, id, &mut mode));
    assert_eq!(mode, Mode::default());
    assert!(!execute_command(Command::ExCommand(ExCommand::Quit), &mut tapestry, id, &mut mode));
    assert_eq!(mode, Mode::default());
}
