use vitalis::foundation::Position;
use vitalis::patterns::commands::{
    match_ex_command, parse_ex_command, parse_ex_input, parse_normal_command, Command, Direction,
    ExCommand,
};

#[test]
fn parse_movement_commands() {
    assert_eq!(parse_normal_command('h'), Command::Move(Direction::Left));
    assert_eq!(parse_normal_command('j'), Command::Move(Direction::Down));
    assert_eq!(parse_normal_command('k'), Command::Move(Direction::Up));
    assert_eq!(parse_normal_command('l'), Command::Move(Direction::Right));
}

#[test]
fn parse_ex_mode_entry() {
    assert_eq!(parse_normal_command(':'), Command::EnterExMode);
}

#[test]
fn parse_ex_commands() {
    assert_eq!(parse_ex_command("q"), Some(ExCommand::Quit));
    assert_eq!(parse_ex_command("quit"), Some(ExCommand::Quit));
    assert_eq!(parse_ex_command(" q "), Some(ExCommand::Quit));
    assert_eq!(parse_ex_command("unknown"), None);
}

#[test]
fn direction_to_delta() {
    assert_eq!(Direction::Left.to_delta(), (-1, 0));
    assert_eq!(Direction::Right.to_delta(), (1, 0));
}

#[test]
fn direction_apply_to_position() {
    let pos = Position::new(5, 5);
    assert_eq!(Direction::Left.apply_to(pos), Position::new(4, 5));
    assert_eq!(Direction::Up.apply_to(pos), Position::new(5, 4));
}

#[test]
fn all_deltas_are_unit_steps() {
    assert_eq!(Direction::Down.to_delta(), (0, 1));
    assert_eq!(Direction::Up.to_delta(), (0, -1));
}

#[test]
fn four_directions_return_to_start() {
    let start = Position::new(5, 5);
    let mut pos = start;
    for d in [Direction::Left, Direction::Down, Direction::Right, Direction::Up] {
        pos = d.apply_to(pos);
    }
    assert_eq!(pos, start);
    let mut pos = start;
    for d in [Direction::Up, Direction::Right, Direction::Left, Direction::Down] {
        pos = d.apply_to(pos);
    }
    assert_eq!(pos, start);
}

#[test]
fn checked_step_refuses_to_leave_the_grid() {
    let edge = Position::new(i32::MAX, 0);
    assert_eq!(Direction::Right.checked_apply_to(edge), None);
    assert_eq!(
        Direction::Left.checked_apply_to(edge),
        Some(Position::new(i32::MAX - 1, 0))
    );
    let top = Position::new(0, i32::MIN);
    assert_eq!(Direction::Up.checked_apply_to(top), None);
    assert_eq!(Direction::Down.checked_apply_to(top), Some(Position::new(0, i32::MIN + 1)));
}

#[test]
fn other_normal_keys_are_unknown() {
    assert_eq!(parse_normal_command('x'), Command::Unknown);
    assert_eq!(parse_normal_command('q'), Command::Unknown);
    assert_eq!(parse_normal_command('\n'), Command::Unknown);
}

#[test]
fn ex_input_keys() {
    assert_eq!(parse_ex_input('a'), Command::ExInput('a'));
    assert_eq!(parse_ex_input(' '), Command::ExInput(' '));
    assert_eq!(parse_ex_input('\x1b'), Command::CancelEx);
    assert_eq!(parse_ex_input('\n'), Command::Unknown);
    assert_eq!(parse_ex_input('\r'), Command::Unknown);
}

#[test]
fn ex_command_trimming() {
    assert_eq!(parse_ex_command("\tquit\n"), Some(ExCommand::Quit));
    assert_eq!(parse_ex_command(""), None);
    assert_eq!(parse_ex_command("   "), None);
    assert_eq!(parse_ex_command("q q"), None);
    assert_eq!(parse_ex_command("Q"), None);
    assert_eq!(parse_ex_command("qui"), None);
    assert_eq!(parse_ex_command("quitt"), None);
}

#[test]
fn trimmed_command_matching_is_exact() {
    assert_eq!(match_ex_command("q"), Some(ExCommand::Quit));
    assert_eq!(match_ex_command("quit"), Some(ExCommand::Quit));
    assert_eq!(match_ex_command(" q"), None);
    assert_eq!(match_ex_command(""), None);
}
