use door_sync::command::Direction;
use door_sync::command::DoorCommand;

#[test]
fn marking_executed_changes_only_that_field() {
    let mut c = DoorCommand {
        executed: false,
        direction: Direction::Down,
        amount: 42,
        override_flag: true,
        override_day: 300,
    };
    assert!(c.requires_action());
    c.mark_executed();
    assert!(c.executed);
    assert!(!c.requires_action());
    assert_eq!(c.direction, Direction::Down);
    assert_eq!(c.amount, 42);
    assert!(c.override_flag);
    assert_eq!(c.override_day, 300);
}
