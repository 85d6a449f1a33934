use vapor_telemetry::telemetry::udp::lapinfo::{read_lap, write_lap, LapInfo, LapType};
use vapor_telemetry::telemetry::udp::wire::ParseError;

#[test]
fn test_lapinfo_deserialize() {
    let input = [
        255, 255, 255, 127, 0, 0, 0, 0, 3, 255, 255, 255, 127, 255, 255, 255, 127, 255, 255, 255,
        127, 0, 1, 0, 0, 0, 0, 0, 0,
    ];

    let lapinfo = LapInfo {
        lap_type: LapType::Regular,
        laptime: None,
        car_index: 0,
        driver_index: 0,
        splits: vec![None, None, None],
        invalid: false,
        valid_for_best: true,
    };

    let (_input, parsed) = read_lap(&input).unwrap();
    assert_eq!(lapinfo, parsed)
}

#[test]
fn lap_leaves_the_bytes_behind_it() {
    let input = [
        255, 255, 255, 127, 0, 0, 0, 0, 3, 255, 255, 255, 127, 255, 255, 255, 127, 255, 255, 255,
        127, 0, 1, 0, 0, 9, 8, 7,
    ];
    let (rest, _lap) = read_lap(&input).unwrap();
    assert_eq!(rest, &[9u8, 8, 7][..]);
}

#[test]
fn lap_with_times_round_trips() {
    let lap = LapInfo {
        lap_type: LapType::Inlap,
        laptime: Some(95_123),
        car_index: 7,
        driver_index: 2,
        splits: vec![Some(30_000), None, Some(-5), Some(i32::MIN)],
        invalid: true,
        valid_for_best: false,
    };
    let bytes = write_lap(&lap);
    assert_eq!(bytes.len(), 8 + 1 + 16 + 4);
    assert_eq!(&bytes[0..4], &95_123i32.to_le_bytes()[..]);
    assert_eq!(bytes[8], 4);
    let (rest, parsed) = read_lap(&bytes).unwrap();
    assert!(rest.is_empty());
    assert_eq!(parsed, lap);
}

#[test]
fn lap_with_fewer_than_three_splits_is_filled_up() {
    let input = [10, 0, 0, 0, 1, 0, 2, 0, 1, 5, 0, 0, 0, 1, 0, 1, 0];
    let (rest, lap) = read_lap(&input).unwrap();
    assert!(rest.is_empty());
    assert_eq!(lap.laptime, Some(10));
    assert_eq!(lap.car_index, 1);
    assert_eq!(lap.driver_index, 2);
    assert_eq!(lap.splits, vec![Some(5), None, None]);
    assert!(lap.invalid);
    assert!(!lap.valid_for_best);
    assert_eq!(lap.lap_type, LapType::Outlap);
}

#[test]
fn out_lap_flag_wins_over_in_lap_flag() {
    assert_eq!(LapType::new(true, true), LapType::Outlap);
    assert_eq!(LapType::new(false, true), LapType::Inlap);
    assert_eq!(LapType::new(false, false), LapType::Regular);
}

#[test]
fn short_lap_is_incomplete() {
    let input = [255, 255, 255, 127, 0, 0, 0, 0, 3, 255, 255, 255, 127];
    assert_eq!(read_lap(&input).unwrap_err(), ParseError::Incomplete);
    assert_eq!(read_lap(&[]).unwrap_err(), ParseError::Incomplete);
    let whole = [10, 0, 0, 0, 1, 0, 2, 0, 1, 5, 0, 0, 0, 1, 0, 1, 0];
    for cut in 0..whole.len() {
        assert_eq!(read_lap(&whole[..cut]).unwrap_err(), ParseError::Incomplete);
    }
}
