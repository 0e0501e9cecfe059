use chesscore::bitboard::Bitboard;
use chesscore::script::{ParseError, ScriptedSensor};

#[test]
fn test_parse_error_invalid_square() {
    let mut sensor = ScriptedSensor::new();
    let result = sensor.push_script("e2.  zz.");
    assert_eq!(result, Err(ParseError::InvalidSquare("zz".to_string())));
}

#[test]
fn test_parse_error_does_not_modify_state() {
    let mut sensor = ScriptedSensor::new();
    let initial = sensor.read_positions();

    // Push valid script
    sensor.push_script("e2. ").unwrap();

    // Invalid script should fail without modifying pending batches
    let result = sensor.push_script("xx.");
    assert!(result.is_err());

    // The valid batch should still be pending
    let occ = sensor.tick();
    assert!(occ.is_some());
    assert_ne!(occ.unwrap(), initial);
}

#[test]
fn from_bitboards_rejects_overlap() {
    let result = ScriptedSensor::from_bitboards(Bitboard::new(0b11), Bitboard::new(0b10));
    assert_eq!(result.err(), Some(ParseError::OverlappingSquares));

    let sensor = ScriptedSensor::from_bitboards(Bitboard::new(0b01), Bitboard::new(0b10)).unwrap();
    assert_eq!(sensor.read_positions().combined().value(), 0b11);
}

#[test]
fn bare_toggle_places_white_on_empty() {
    let mut sensor = ScriptedSensor::from_bitboard(Bitboard::new(0));
    sensor.push_script("a1.").unwrap();
    let occ = sensor.tick().expect("pending batch");
    assert_eq!(occ.white_board().value(), 1);
    assert_eq!(occ.black_board().value(), 0);
}

#[test]
fn prefixed_toggle_places_named_color() {
    let mut sensor = ScriptedSensor::from_bitboard(Bitboard::new(0));
    sensor.push_script("Ba1 Wb1.").unwrap();
    let occ = sensor.tick().expect("pending batch");
    assert_eq!(occ.black_board().value(), 0b01);
    assert_eq!(occ.white_board().value(), 0b10);
}

#[test]
fn prefix_is_ignored_on_occupied_square() {
    let mut sensor =
        ScriptedSensor::from_bitboards(Bitboard::new(0b1), Bitboard::new(0)).unwrap();
    sensor.push_script("Ba1.").unwrap();
    let occ = sensor.tick().expect("pending batch");
    assert_eq!(occ.white_board().value(), 0);
    assert_eq!(occ.black_board().value(), 0);
}

#[test]
fn tick_without_pending_batches_returns_none() {
    let mut sensor = ScriptedSensor::new();
    assert!(sensor.tick().is_none());
    sensor.push_script("e2.").unwrap();
    assert!(sensor.tick().is_some());
    assert!(sensor.tick().is_none());
}

#[test]
fn drain_returns_one_occupancy_per_tick() {
    let mut sensor = ScriptedSensor::new();
    sensor.push_script("e2. We4. d2.").unwrap();
    let occupancies = sensor.drain();
    assert_eq!(occupancies.len(), 3);
    assert_eq!(occupancies[0].white_board().value(), 0xFFFF & !(1 << 12));
    assert_eq!(occupancies[1].white_board().value(), (0xFFFF & !(1 << 12)) | (1 << 28));
    assert!(sensor.tick().is_none());
}
