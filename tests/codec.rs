use smartcube_protocol::{
    crc16, encode_frame, handle_notification, make_app_hello, parse_c2a_message, seal_command, BlockCipher, C2aBody, Color,
    CubeState, ParseError, Revision, Turn,
};

const SOLVED_CODES: [u8; 6] = [3, 1, 4, 2, 0, 5];

fn solved_facelet_values() -> Vec<u8> {
    let mut v = Vec::new();
    for face in 0..6 {
        for _ in 0..9 {
            v.push(SOLVED_CODES[face]);
        }
    }
    v
}

fn pack(values: &[u8]) -> Vec<u8> {
    values.chunks(2).map(|p| p[0] | (p[1] << 4)).collect()
}

fn solved_raw() -> Vec<u8> {
    pack(&solved_facelet_values())
}

/// Body (opcode onward) of a one-byte-opcode state change.
fn state_change_body(ticks: u32, raw: &[u8], turn: u8) -> Vec<u8> {
    let mut b = vec![0x03];
    b.extend_from_slice(&ticks.to_be_bytes());
    b.extend_from_slice(raw);
    b.push(turn);
    b
}

#[test]
fn crc16_check_value() {
    assert_eq!(crc16(b"123456789"), 0x4B37);
}

#[test]
fn crc16_of_nothing_is_initial_value() {
    assert_eq!(crc16(&[]), 0xFFFF);
}

#[test]
fn crc16_sees_every_single_bit_flip() {
    let frame = encode_frame(&state_change_body(1234, &solved_raw(), 8));
    let covered = &frame[..frame[1] as usize - 2];
    let base = crc16(covered);
    for k in 0..covered.len() {
        for bit in 0..8 {
            let mut flipped = covered.to_vec();
            flipped[k] ^= 1 << bit;
            assert_ne!(crc16(&flipped), base, "flip at byte {k} bit {bit}");
        }
    }
}

#[test]
fn encode_frame_layout() {
    let f = encode_frame(&[1, 2, 3]);
    assert_eq!(f.len(), 16);
    let c = crc16(&[0xFE, 7, 1, 2, 3]);
    assert_eq!(&f[..7], &[0xFE, 7, 1, 2, 3, (c & 0xFF) as u8, (c >> 8) as u8]);
    assert!(f[7..].iter().all(|&b| b == 0));
}

#[test]
fn encode_frame_without_padding() {
    let f = encode_frame(&[9; 12]);
    assert_eq!(f.len(), 16);
    assert_eq!(f[1], 16);
}

#[test]
fn encode_frame_largest_body() {
    let f = encode_frame(&[7; 251]);
    assert_eq!(f.len(), 256);
    assert_eq!(f[1], 255);
}

#[test]
fn encode_then_parse_round_trip() {
    let body = state_change_body(1600, &solved_raw(), 5);
    let frame = encode_frame(&body);
    let m = parse_c2a_message(&frame, Revision::ByteOpcode).unwrap();
    assert_eq!(m.timestamp(), Some(1000));
    match m.body() {
        C2aBody::StateChange(sc) => {
            assert_eq!(sc.turn, Some(Turn::Di));
            assert!(sc.state.is_solved());
        }
        _ => panic!("expected a state change"),
    }
}

#[test]
fn aes_known_answer() {
    let cipher = BlockCipher { key: [0, 1, 2, 3, 4, 5, 6, 7, 8, 9, 10, 11, 12, 13, 14, 15] };
    let mut buf = vec![
        0x00, 0x11, 0x22, 0x33, 0x44, 0x55, 0x66, 0x77, 0x88, 0x99, 0xaa, 0xbb, 0xcc, 0xdd, 0xee, 0xff,
    ];
    cipher.encrypt_blocks(&mut buf).unwrap();
    assert_eq!(
        buf,
        vec![
            0x69, 0xc4, 0xe0, 0xd8, 0x6a, 0x7b, 0x04, 0x30, 0xd8, 0xcd, 0xb7, 0x80, 0x70, 0xb4, 0xc5,
            0x5a
        ]
    );
    cipher.decrypt_blocks(&mut buf).unwrap();
    assert_eq!(buf[0], 0x00);
    assert_eq!(buf[15], 0xff);
}

#[test]
fn encrypt_then_decrypt_is_identity() {
    let cipher = BlockCipher::new();
    for len in [0usize, 16, 32, 64] {
        let plain: Vec<u8> = (0..len).map(|i| (i * 7 + 3) as u8).collect();
        let mut buf = plain.clone();
        cipher.encrypt_blocks(&mut buf).unwrap();
        if len > 0 {
            assert_ne!(buf, plain);
        }
        cipher.decrypt_blocks(&mut buf).unwrap();
        assert_eq!(buf, plain);
    }
}

#[test]
fn blocks_are_independent() {
    let cipher = BlockCipher::new();
    let mut buf = vec![5u8; 32];
    cipher.encrypt_blocks(&mut buf).unwrap();
    assert_eq!(buf[..16], buf[16..]);
}

#[test]
fn partial_block_is_rejected() {
    let cipher = BlockCipher::new();
    let mut buf = vec![1u8; 15];
    assert_eq!(cipher.encrypt_blocks(&mut buf), Err(ParseError::InvalidBlockLength));
    assert_eq!(buf, vec![1u8; 15]);
    let mut buf = vec![1u8; 17];
    assert_eq!(cipher.decrypt_blocks(&mut buf), Err(ParseError::InvalidBlockLength));
}

#[test]
fn sealed_command_opens_to_frame() {
    let cipher = BlockCipher::new();
    let body = [3u8, 0, 0, 0, 1];
    let mut sealed = seal_command(&cipher, &body);
    assert_eq!(sealed.len(), 16);
    assert_ne!(sealed, encode_frame(&body));
    cipher.decrypt_blocks(&mut sealed).unwrap();
    assert_eq!(sealed, encode_frame(&body));
}

#[test]
fn solved_raw_decodes_solved() {
    let state = CubeState::from_raw(&solved_raw());
    assert!(state.is_solved());
}

#[test]
fn any_changed_facelet_is_not_solved() {
    let solved = solved_facelet_values();
    for i in 0..54 {
        for v in 0..16u8 {
            if v == solved[i] {
                continue;
            }
            let mut f = solved.clone();
            f[i] = v;
            assert!(!CubeState::from_raw(&pack(&f)).is_solved(), "facelet {i} value {v}");
        }
    }
}

#[test]
fn unpacks_low_nibble_first() {
    let mut raw = solved_raw();
    raw[0] = 0x51;
    let state = CubeState::from_raw(&raw);
    let white = state.face_colors(Color::White).unwrap();
    assert_eq!(white[0], Color::Red);
    assert_eq!(white[1], Color::Blue);
    assert_eq!(white[2], Color::White);
}

#[test]
fn face_colors_of_solved_cube() {
    let state = CubeState::from_raw(&solved_raw());
    for c in [Color::White, Color::Red, Color::Green, Color::Yellow, Color::Orange, Color::Blue] {
        assert_eq!(state.face_colors(c).unwrap(), [c; 9]);
    }
}

#[test]
fn face_colors_rejects_unknown_value() {
    let mut raw = solved_raw();
    raw[9] = 0x66; // facelets 18 and 19: the green face
    let state = CubeState::from_raw(&raw);
    assert_eq!(state.face_colors(Color::Green), Err(ParseError::BadColorValue));
    assert!(state.face_colors(Color::White).is_ok());
}

#[test]
fn color_tables() {
    assert_eq!(Color::Yellow.state_index(), 27);
    assert_eq!(Color::Blue.state_index(), 45);
    assert_eq!(Color::from_u8(4), Some(Color::Green));
    assert_eq!(Color::from_u8(6), None);
    assert_eq!(Color::Red.emoji(), "\u{1F7E5}");
}

#[test]
fn declared_length_past_buffer_is_too_short() {
    let mut frame = encode_frame(&state_change_body(0, &solved_raw(), 8));
    frame[1] = 200;
    assert_eq!(parse_c2a_message(&frame, Revision::ByteOpcode).err(), Some(ParseError::TooShort));
    assert_eq!(parse_c2a_message(&frame[..2], Revision::WordOpcode).err(), Some(ParseError::TooShort));
    assert_eq!(parse_c2a_message(&[0xFE], Revision::ByteOpcode).err(), Some(ParseError::TooShort));
    assert_eq!(parse_c2a_message(&[], Revision::ByteOpcode).err(), Some(ParseError::TooShort));
}

#[test]
fn declared_length_below_minimum_is_too_short() {
    let frame = [0xFE, 3, 0, 0, 0, 0, 0, 0, 0, 0, 0, 0, 0, 0, 0, 0];
    assert_eq!(parse_c2a_message(&frame, Revision::ByteOpcode).err(), Some(ParseError::TooShort));
}

#[test]
fn solved_state_change_scenario() {
    let frame = encode_frame(&state_change_body(0x0102_0304, &solved_raw(), 8));
    assert_eq!(frame.len() % 16, 0);
    let m = parse_c2a_message(&frame, Revision::ByteOpcode).unwrap();
    match m.body() {
        C2aBody::StateChange(sc) => {
            assert_eq!(sc.turn, Some(Turn::U));
            assert_eq!(sc.turn.unwrap().notation(), "U");
            assert!(sc.state.is_solved());
        }
        _ => panic!("expected a state change"),
    }
    assert_eq!(m.make_ack(), Some(&[0x03, 0x01, 0x02, 0x03, 0x04][..]));
}

#[test]
fn unsolved_state_change_needs_no_ack() {
    let mut raw = solved_raw();
    raw[0] = 0x13;
    let frame = encode_frame(&state_change_body(0, &raw, 1));
    let m = parse_c2a_message(&frame, Revision::ByteOpcode).unwrap();
    assert_eq!(m.make_ack(), None);
}

#[test]
fn corrupted_checksum_scenario() {
    let mut frame = encode_frame(&state_change_body(0, &solved_raw(), 8));
    let l = frame[1] as usize;
    frame[l - 2] ^= 0xFF;
    assert_eq!(parse_c2a_message(&frame, Revision::ByteOpcode).err(), Some(ParseError::FailedChecksum));
}

#[test]
fn unused_opcode_scenario() {
    let mut body = state_change_body(0, &solved_raw(), 8);
    body[0] = 0x7F;
    let frame = encode_frame(&body);
    assert_eq!(
        parse_c2a_message(&frame, Revision::ByteOpcode).err(),
        Some(ParseError::BadOpcode { bad_opcode: 0x7F })
    );
}

#[test]
fn bad_magic_is_rejected() {
    let mut frame = encode_frame(&state_change_body(0, &solved_raw(), 8));
    frame[0] = 0xFD;
    assert_eq!(parse_c2a_message(&frame, Revision::ByteOpcode).err(), Some(ParseError::BadMagic));
}

#[test]
fn bad_turn_is_rejected() {
    for turn in [0u8, 13, 0xFF] {
        let frame = encode_frame(&state_change_body(0, &solved_raw(), turn));
        assert_eq!(
            parse_c2a_message(&frame, Revision::ByteOpcode).err(),
            Some(ParseError::BadTurn { turn })
        );
    }
}

#[test]
fn sync_confirmation_is_unimplemented() {
    let mut body = state_change_body(0, &solved_raw(), 8);
    body[0] = 0x04;
    let frame = encode_frame(&body);
    assert_eq!(parse_c2a_message(&frame, Revision::ByteOpcode).err(), Some(ParseError::Unimplemented));
}

#[test]
fn short_body_is_too_short() {
    let body = state_change_body(0, &solved_raw(), 8);
    let frame = encode_frame(&body[..32]);
    assert_eq!(parse_c2a_message(&frame, Revision::ByteOpcode).err(), Some(ParseError::TooShort));
}

#[test]
fn cube_hello_always_needs_ack() {
    let mut raw = solved_raw();
    raw[3] = 0x00;
    let mut body = vec![0x02, 0, 0, 0x06, 0x40];
    body.extend_from_slice(&raw);
    let m = parse_c2a_message(&encode_frame(&body), Revision::ByteOpcode).unwrap();
    assert_eq!(m.timestamp(), Some(1000));
    assert!(matches!(m.body(), C2aBody::CubeHello(_)));
    assert_eq!(m.make_ack(), Some(&body[..5]));
}

#[test]
fn word_opcode_hello() {
    let mut body = vec![0x02, 0x00, 0xAA, 0xBB, 0xCC];
    body.extend_from_slice(&solved_raw());
    body.extend_from_slice(&[0, 0]);
    let m = parse_c2a_message(&encode_frame(&body), Revision::WordOpcode).unwrap();
    assert_eq!(m.timestamp(), None);
    match m.body() {
        C2aBody::CubeHello(h) => assert!(h.state.is_solved()),
        _ => panic!("expected a hello"),
    }
    assert_eq!(m.make_ack(), Some(&body[..5]));
    assert_eq!(
        parse_c2a_message(&encode_frame(&body[..33]), Revision::WordOpcode).err(),
        Some(ParseError::TooShort)
    );
}

#[test]
fn word_opcode_state_change_always_needs_ack() {
    let mut raw = solved_raw();
    raw[20] = 0x11;
    let mut body = vec![0x03, 0x00, 1, 2, 3];
    body.extend_from_slice(&raw);
    body.extend_from_slice(&[0u8; 58]);
    let m = parse_c2a_message(&encode_frame(&body), Revision::WordOpcode).unwrap();
    match m.body() {
        C2aBody::StateChange(sc) => {
            assert_eq!(sc.turn, None);
            assert!(!sc.state.is_solved());
        }
        _ => panic!("expected a state change"),
    }
    assert_eq!(m.make_ack(), Some(&body[..5]));
    assert_eq!(
        parse_c2a_message(&encode_frame(&body[..89]), Revision::WordOpcode).err(),
        Some(ParseError::TooShort)
    );
}

#[test]
fn word_opcode_unknown_value() {
    let mut body = vec![0x03, 0x01, 1, 2, 3];
    body.extend_from_slice(&solved_raw());
    body.extend_from_slice(&[0u8; 58]);
    assert_eq!(
        parse_c2a_message(&encode_frame(&body), Revision::WordOpcode).err(),
        Some(ParseError::BadOpcode { bad_opcode: 0x0103 })
    );
}

#[test]
fn app_hello_layout() {
    let hello = make_app_hello([1, 2, 3, 4, 5, 6]);
    let mut expected = vec![0u8; 11];
    expected.extend_from_slice(&[6, 5, 4, 3, 2, 1]);
    assert_eq!(hello, expected);
}

#[test]
fn turn_bytes_and_notation() {
    assert_eq!(Turn::from_byte(1), Ok(Turn::Li));
    assert_eq!(Turn::from_byte(12), Ok(Turn::B));
    assert_eq!(Turn::from_byte(0), Err(ParseError::BadTurn { turn: 0 }));
    assert_eq!(Turn::Ri.notation(), "R'");
    assert_eq!(Turn::F.notation(), "F");
}

#[test]
fn notification_is_parsed_and_acknowledged() {
    let cipher = BlockCipher::new();
    let body = state_change_body(16, &solved_raw(), 8);
    let mut notification = encode_frame(&body);
    cipher.encrypt_blocks(&mut notification).unwrap();
    let (m, ack) = handle_notification(&cipher, notification, Revision::ByteOpcode).unwrap();
    assert_eq!(m.timestamp(), Some(10));
    let mut ack = ack.expect("a solved state change is acknowledged");
    cipher.decrypt_blocks(&mut ack).unwrap();
    assert_eq!(ack, encode_frame(&body[..5]));
}

#[test]
fn notification_errors() {
    let cipher = BlockCipher::new();
    assert_eq!(
        handle_notification(&cipher, vec![0u8; 15], Revision::ByteOpcode).err(),
        Some(ParseError::InvalidBlockLength)
    );
    let mut raw = solved_raw();
    raw[0] = 0x13;
    let mut notification = encode_frame(&state_change_body(0, &raw, 2));
    cipher.encrypt_blocks(&mut notification).unwrap();
    let (_, ack) = handle_notification(&cipher, notification.clone(), Revision::ByteOpcode).unwrap();
    assert!(ack.is_none());
    notification[3] ^= 1;
    assert!(handle_notification(&cipher, notification, Revision::ByteOpcode).is_err());
}

#[test]
fn sync_confirmation_on_short_frame_is_unimplemented() {
    for body in [vec![0x04u8], vec![0x04, 1], vec![0x04, 1, 2, 3], vec![0x04, 1, 2, 3, 4]] {
        let frame = encode_frame(&body);
        assert_eq!(
            parse_c2a_message(&frame, Revision::ByteOpcode).err(),
            Some(ParseError::Unimplemented),
            "body of {} bytes",
            body.len()
        );
    }
    assert_eq!(
        parse_c2a_message(&encode_frame(&[0x04, 0x00]), Revision::WordOpcode).err(),
        Some(ParseError::Unimplemented)
    );
}

#[test]
fn unknown_color_rejects_frame() {
    let mut raw = solved_raw();
    raw[26] = 0x75;
    let frame = encode_frame(&state_change_body(0, &raw, 8));
    assert_eq!(parse_c2a_message(&frame, Revision::ByteOpcode).err(), Some(ParseError::BadColorValue));
    let mut hello = vec![0x02, 0, 0, 0, 0];
    hello.extend_from_slice(&raw);
    assert_eq!(
        parse_c2a_message(&encode_frame(&hello), Revision::ByteOpcode).err(),
        Some(ParseError::BadColorValue)
    );
    let mut word = vec![0x02, 0x00, 0, 0, 0];
    word.extend_from_slice(&raw);
    word.extend_from_slice(&[0, 0]);
    assert_eq!(
        parse_c2a_message(&encode_frame(&word), Revision::WordOpcode).err(),
        Some(ParseError::BadColorValue)
    );
}

#[test]
fn bad_turn_comes_before_bad_color() {
    let mut raw = solved_raw();
    raw[0] = 0xFF;
    let frame = encode_frame(&state_change_body(0, &raw, 0));
    assert_eq!(parse_c2a_message(&frame, Revision::ByteOpcode).err(), Some(ParseError::BadTurn { turn: 0 }));
}

#[test]
fn colors_known_on_states() {
    assert!(CubeState::from_raw(&solved_raw()).colors_known());
    let mut raw = solved_raw();
    raw[13] = 0x60;
    assert!(!CubeState::from_raw(&raw).colors_known());
}
