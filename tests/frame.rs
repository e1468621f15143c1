use airsense::frame::{parse_frame, parse_trimmed, FrameError};
use airsense::models::{PmValues, NAN_BITS};

fn parse_token(t: &str) -> Option<u32> {
    t.parse::<f32>().ok().map(f32::to_bits)
}

#[test]
fn valid_frame_splits_into_id_and_fourteen_tokens() {
    let f = parse_frame("D1;1;2;3;4;5;6;7;8;9;10;11;12;13;14").unwrap();
    assert_eq!(f.device_id, "D1");
    assert_eq!(f.tokens.len(), 14);
    assert_eq!(f.tokens[0], "1");
    assert_eq!(f.tokens[13], "14");
}

#[test]
fn surrounding_whitespace_is_trimmed() {
    let f = parse_frame("  D7;1;2;3;4;5;6;7;8;9;10;11;12;13;14\r\n").unwrap();
    assert_eq!(f.device_id, "D7");
    assert_eq!(f.tokens[13], "14");
}

#[test]
fn wrong_field_counts_are_rejected() {
    assert_eq!(
        parse_frame("D1;1;2;3;4;5;6;7;8;9;10;11;12;13").unwrap_err(),
        FrameError::WrongFieldCount(14)
    );
    assert_eq!(
        parse_frame("D1;1;2;3;4;5;6;7;8;9;10;11;12;13;14;15").unwrap_err(),
        FrameError::WrongFieldCount(16)
    );
    assert_eq!(parse_frame("").unwrap_err(), FrameError::WrongFieldCount(1));
    assert_eq!(parse_frame("   ").unwrap_err(), FrameError::WrongFieldCount(1));
}

#[test]
fn empty_fields_still_count() {
    let f = parse_trimmed(";;;;;;;;;;;;;;").unwrap();
    assert_eq!(f.device_id, "");
    assert!(f.tokens.iter().all(|t| t.is_empty()));
}

#[test]
fn unreadable_token_becomes_nan_and_others_keep_their_values() {
    let f = parse_frame("D2;1;2;x;4;5;6;7;8;9;10;11;12;13;14").unwrap();
    let parsed: Vec<Option<u32>> = f.tokens.iter().map(|t| parse_token(t)).collect();
    assert_eq!(parsed[2], None);
    let ev = f.into_event(&parsed);
    assert_eq!(ev.id, "D2");
    assert_eq!(ev.data.temperature, NAN_BITS);
    assert!(f32::from_bits(ev.data.temperature).is_nan());
    assert_eq!(ev.data.co, 1.0f32.to_bits());
    assert_eq!(ev.data.co2, 2.0f32.to_bits());
    assert_eq!(ev.data.humidity, 4.0f32.to_bits());
    assert_eq!(ev.data.pm_particles_100, 14.0f32.to_bits());
}

#[test]
fn from_parsed_keeps_wire_order() {
    let parsed: Vec<Option<u32>> = (0..14u32).map(|i| Some(100 + i)).collect();
    let v = PmValues::from_parsed(&parsed);
    assert_eq!(v.co, 100);
    assert_eq!(v.noise, 104);
    assert_eq!(v.pm_10, 105);
    assert_eq!(v.pm_particles_03, 108);
    assert_eq!(v.pm_particles_100, 113);
    let mut none = parsed.clone();
    none[13] = None;
    assert_eq!(PmValues::from_parsed(&none).pm_particles_100, NAN_BITS);
    assert_eq!(PmValues::from_parsed(&none).pm_particles_50, 112);
}
