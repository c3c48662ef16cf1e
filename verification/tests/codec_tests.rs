use door_sync::codec::decode_command;
use door_sync::codec::encode_command;
use door_sync::command::Direction;
use door_sync::command::DoorCommand;

fn cmd(
    executed: bool,
    direction: Direction,
    amount: u8,
    override_flag: bool,
    override_day: u16,
) -> DoorCommand {
    DoorCommand { executed, direction, amount, override_flag, override_day }
}

#[test]
fn encode_produces_canonical_text() {
    let c = cmd(false, Direction::Up, 5, false, 0);
    assert_eq!(
        encode_command(&c),
        "{\"executed\":0,\"up\":1,\"amount\":5,\"over_ride\":0,\"over_ride_day\":0}"
    );
}

#[test]
fn encode_marks_executed_as_one() {
    let c = cmd(true, Direction::Up, 5, false, 0);
    assert_eq!(
        encode_command(&c),
        "{\"executed\":1,\"up\":1,\"amount\":5,\"over_ride\":0,\"over_ride_day\":0}"
    );
}

#[test]
fn encode_down_direction_and_passthrough_fields() {
    let c = cmd(true, Direction::Down, 255, true, 65535);
    assert_eq!(
        encode_command(&c),
        "{\"executed\":1,\"up\":0,\"amount\":255,\"over_ride\":1,\"over_ride_day\":65535}"
    );
}

#[test]
fn round_trip_small_command() {
    let c = cmd(false, Direction::Up, 5, false, 0);
    assert_eq!(decode_command(&encode_command(&c)), Some(c));
}

#[test]
fn round_trip_every_amount() {
    for amount in 0..=255u8 {
        let c = cmd(false, Direction::Up, amount, false, 0);
        assert_eq!(decode_command(&encode_command(&c)), Some(c));
    }
}

#[test]
fn round_trip_extreme_fields() {
    for &c in &[
        cmd(false, Direction::Down, 0, false, 0),
        cmd(true, Direction::Up, 255, true, 65535),
        cmd(false, Direction::Down, 1, true, 1),
        cmd(true, Direction::Down, 128, false, 30000),
    ] {
        assert_eq!(decode_command(&encode_command(&c)), Some(c));
    }
}

#[test]
fn decode_accepts_whitespace_between_tokens() {
    let text = " {\n\t\"executed\" : 0 ,  \"up\"\t: 1 , \"amount\" : 42 , \"over_ride\" : 0 , \"over_ride_day\" : 7 } \r\n";
    assert_eq!(decode_command(text), Some(cmd(false, Direction::Up, 42, false, 7)));
}

#[test]
fn decode_maps_nonzero_flags_and_directions() {
    // any nonzero executed flag counts as done; only 1 selects the up lead
    let text = "{\"executed\":2,\"up\":0,\"amount\":9,\"over_ride\":5,\"over_ride_day\":1}";
    assert_eq!(decode_command(text), Some(cmd(true, Direction::Down, 9, true, 1)));
    let text2 = "{\"executed\":0,\"up\":7,\"amount\":9,\"over_ride\":0,\"over_ride_day\":1}";
    assert_eq!(decode_command(text2), Some(cmd(false, Direction::Down, 9, false, 1)));
}

#[test]
fn decode_rejects_malformed_bodies() {
    // empty and truncated input
    assert_eq!(decode_command(""), None);
    assert_eq!(decode_command("{"), None);
    assert_eq!(decode_command("{\"executed\":0"), None);
    // a missing member
    assert_eq!(decode_command("{\"executed\":0,\"up\":1,\"amount\":5,\"over_ride\":0}"), None);
    // members out of canonical order
    assert_eq!(
        decode_command("{\"up\":1,\"executed\":0,\"amount\":5,\"over_ride\":0,\"over_ride_day\":0}"),
        None
    );
    // an unknown member
    assert_eq!(
        decode_command(
            "{\"executed\":0,\"up\":1,\"amount\":5,\"over_ride\":0,\"over_ride_day\":0,\"x\":1}"
        ),
        None
    );
    // trailing garbage after the object
    assert_eq!(
        decode_command("{\"executed\":0,\"up\":1,\"amount\":5,\"over_ride\":0,\"over_ride_day\":0}x"),
        None
    );
}

#[test]
fn decode_rejects_malformed_numbers() {
    // a leading zero is not a JSON number
    assert_eq!(
        decode_command("{\"executed\":0,\"up\":1,\"amount\":05,\"over_ride\":0,\"over_ride_day\":0}"),
        None
    );
    // out of range for a one-byte field
    assert_eq!(
        decode_command(
            "{\"executed\":0,\"up\":1,\"amount\":256,\"over_ride\":0,\"over_ride_day\":0}"
        ),
        None
    );
    // out of range for the two-byte field
    assert_eq!(
        decode_command(
            "{\"executed\":0,\"up\":1,\"amount\":5,\"over_ride\":0,\"over_ride_day\":65536}"
        ),
        None
    );
    // a fraction is not an unsigned integer
    assert_eq!(
        decode_command(
            "{\"executed\":0,\"up\":1,\"amount\":5.0,\"over_ride\":0,\"over_ride_day\":0}"
        ),
        None
    );
    // a sign is not accepted
    assert_eq!(
        decode_command(
            "{\"executed\":-1,\"up\":1,\"amount\":5,\"over_ride\":0,\"over_ride_day\":0}"
        ),
        None
    );
}

#[test]
fn decode_accepts_boundary_values() {
    let text = "{\"executed\":255,\"up\":1,\"amount\":255,\"over_ride\":255,\"over_ride_day\":65535}";
    assert_eq!(decode_command(text), Some(cmd(true, Direction::Up, 255, true, 65535)));
    let zero = "{\"executed\":0,\"up\":0,\"amount\":0,\"over_ride\":0,\"over_ride_day\":0}";
    assert_eq!(decode_command(zero), Some(cmd(false, Direction::Down, 0, false, 0)));
}
