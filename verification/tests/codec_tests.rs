use netsync::behaviours::{decode_inputposvel, decode_posvel, encode_inputposvel, encode_posvel,
    InputPosVel, PosVel};
use netsync::codec::{DecodeError, ServerMessage};
use netsync::fixed::Vec2;

#[test]
fn server_message_round_trip() {
    let m = ServerMessage {
        server_secs: 12,
        server_nanos: 345_678_901,
        server_frame: 99,
        msg: vec![1, 2, 3, 4, 5],
    };
    let bytes = m.encode();
    assert_eq!(bytes.len(), 33);
    let d = ServerMessage::decode(&bytes).unwrap();
    assert_eq!(d.server_secs, 12);
    assert_eq!(d.server_nanos, 345_678_901);
    assert_eq!(d.server_frame, 99);
    assert_eq!(d.msg, vec![1, 2, 3, 4, 5]);
}

#[test]
fn server_message_layout_is_little_endian() {
    let m = ServerMessage { server_secs: 1, server_nanos: 2, server_frame: 3, msg: vec![0xaa] };
    let bytes = m.encode();
    assert_eq!(&bytes[0..8], &[1, 0, 0, 0, 0, 0, 0, 0]);
    assert_eq!(&bytes[8..12], &[2, 0, 0, 0]);
    assert_eq!(&bytes[12..20], &[3, 0, 0, 0, 0, 0, 0, 0]);
    assert_eq!(&bytes[20..28], &[1, 0, 0, 0, 0, 0, 0, 0]);
    assert_eq!(bytes[28], 0xaa);
}

#[test]
fn too_short_message_is_rejected() {
    assert_eq!(ServerMessage::decode(&[1, 2, 3]).err(), Some(DecodeError::TooShort));
}

#[test]
fn length_mismatch_is_rejected() {
    let m = ServerMessage { server_secs: 0, server_nanos: 0, server_frame: 0, msg: vec![7, 7] };
    let mut bytes = m.encode();
    bytes.push(0);
    assert_eq!(ServerMessage::decode(&bytes).err(), Some(DecodeError::LengthMismatch));
    bytes.pop();
    bytes.pop();
    assert_eq!(ServerMessage::decode(&bytes).err(), Some(DecodeError::LengthMismatch));
}

#[test]
fn posvel_round_trip() {
    let p = PosVel {
        pos: Vec2 { x: -123_456, y: 987_654 },
        velocity: Vec2 { x: i64::MIN, y: i64::MAX },
    };
    let bytes = encode_posvel(&p);
    assert_eq!(bytes.len(), 32);
    assert_eq!(decode_posvel(&bytes).unwrap(), p);
}

#[test]
fn posvel_wrong_length_is_rejected() {
    assert_eq!(decode_posvel(&[0u8; 31]).err(), Some(DecodeError::LengthMismatch));
    assert_eq!(decode_posvel(&[0u8; 33]).err(), Some(DecodeError::LengthMismatch));
}

#[test]
fn inputposvel_round_trip() {
    let p = InputPosVel {
        input_dir: Vec2 { x: -1_000_000, y: 0 },
        pos: Vec2 { x: 42, y: -42 },
        velocity: Vec2 { x: 0, y: 1 },
    };
    let bytes = encode_inputposvel(&p);
    assert_eq!(bytes.len(), 48);
    assert_eq!(decode_inputposvel(&bytes).unwrap(), p);
}

#[test]
fn inputposvel_wrong_length_is_rejected() {
    assert_eq!(decode_inputposvel(&[0u8; 32]).err(), Some(DecodeError::LengthMismatch));
}
