use noise_link::codec::{read_error, write_error, Builder, NoiseCodec, NOISE_PARAMS};
use noise_link::engine::EngineFault;
use noise_link::error::{CodecError, CryptoError};
use noise_link::handshake::{
    next_action, step_at, HandshakeAction, HandshakeProgress, Phase, Role, Step,
};

fn take_all(buf: &mut Vec<u8>) -> Vec<u8> {
    let out = buf.clone();
    buf.clear();
    out
}

fn connected_pair() -> (NoiseCodec, NoiseCodec) {
    let mut client = NoiseCodec::builder(NOISE_PARAMS, true).new_codec().unwrap();
    let mut server = NoiseCodec::builder(NOISE_PARAMS, false).new_codec().unwrap();
    let mut wire = Vec::new();
    client.encode(&Vec::new(), &mut wire).unwrap();
    let first = server.decode(&mut wire).unwrap().unwrap();
    server.encode(&first, &mut wire).unwrap();
    let second = client.decode(&mut wire).unwrap().unwrap();
    client.encode(&second, &mut wire).unwrap();
    server.decode(&mut wire).unwrap().unwrap();
    client.switch_transport_mode().unwrap();
    server.switch_transport_mode().unwrap();
    (client, server)
}

#[test]
fn it_works() {
    let mut client = NoiseCodec::builder(NOISE_PARAMS, true).new_codec().unwrap();
    let mut server = NoiseCodec::builder(NOISE_PARAMS, false).new_codec().unwrap();

    let mut buf = Vec::new();

    client.encode(&b"hello".to_vec(), &mut buf).unwrap();
    let mut msg = take_all(&mut buf);

    let msg = server.decode(&mut msg).unwrap().unwrap();
    server.encode(&msg, &mut buf).unwrap();
    let mut msg = take_all(&mut buf);

    let msg = client.decode(&mut msg).unwrap().unwrap();
    client.encode(&msg, &mut buf).unwrap();
    let mut msg = take_all(&mut buf);

    let msg = server.decode(&mut msg).unwrap().unwrap();
    assert_eq!(msg.as_slice(), b"hello");

    client.switch_transport_mode().unwrap();
    server.switch_transport_mode().unwrap();
}

#[test]
fn handshake_frames_have_the_pattern_lengths() {
    let mut client = Builder::new(NOISE_PARAMS, true).new_codec().unwrap();
    let mut server = Builder::new(NOISE_PARAMS, false).new_codec().unwrap();
    let mut wire = Vec::new();

    client.encode(&b"hello".to_vec(), &mut wire).unwrap();
    assert_eq!(wire.len(), 2 + 32 + 5);
    assert_eq!(&wire[..2], &[0u8, 37u8]);
    assert_ne!(&wire[2..], b"hello");
    let first = server.decode(&mut wire).unwrap().unwrap();
    assert_eq!(first, b"hello".to_vec());
    assert!(wire.is_empty());

    server.encode(&first, &mut wire).unwrap();
    assert_eq!(wire.len(), 2 + 32 + 48 + 5 + 16);
    let second = client.decode(&mut wire).unwrap().unwrap();
    assert_eq!(second, b"hello".to_vec());

    client.encode(&second, &mut wire).unwrap();
    assert_eq!(wire.len(), 2 + 48 + 5 + 16);
    let third = server.decode(&mut wire).unwrap().unwrap();
    assert_eq!(third, b"hello".to_vec());
}

#[test]
fn three_messages_then_both_sides_are_ready() {
    let mut client = NoiseCodec::builder(NOISE_PARAMS, true).new_codec().unwrap();
    let mut server = NoiseCodec::builder(NOISE_PARAMS, false).new_codec().unwrap();
    assert!(client.initiator());
    assert!(!server.initiator());
    assert_eq!(client.role(), Role::Initiator);
    assert_eq!(server.role(), Role::Responder);
    assert_eq!(client.current_phase(), Phase::Handshake);
    assert_eq!(client.handshake_steps(), 0);
    let mut wire = Vec::new();
    let mut frames = 0;
    let mut client_last = Vec::new();
    let mut server_last = Vec::new();
    loop {
        match client.next_handshake_action(client_last.clone()) {
            HandshakeAction::Send(payload) => {
                client.encode(&payload, &mut wire).unwrap();
                frames += 1;
                server_last = server.decode(&mut wire).unwrap().unwrap();
            }
            HandshakeAction::Receive => {
                match server.next_handshake_action(server_last.clone()) {
                    HandshakeAction::Send(payload) => {
                        server.encode(&payload, &mut wire).unwrap();
                        frames += 1;
                    }
                    other => panic!("the responder should send, not {:?}", other),
                }
                client_last = client.decode(&mut wire).unwrap().unwrap();
            }
            HandshakeAction::Complete => break,
            HandshakeAction::Refuse => panic!("the handshake was refused"),
        }
    }
    assert_eq!(frames, 3);
    assert_eq!(client.handshake_steps(), 3);
    assert_eq!(server.handshake_steps(), 3);
    assert!(matches!(server.next_handshake_action(Vec::new()), HandshakeAction::Complete));
    client.switch_transport_mode().unwrap();
    server.switch_transport_mode().unwrap();
    assert_eq!(client.current_phase(), Phase::Transport);
    assert_eq!(server.current_phase(), Phase::Transport);
    assert!(matches!(client.next_handshake_action(Vec::new()), HandshakeAction::Refuse));
}

#[test]
fn hello_after_the_handshake() {
    let (mut client, mut server) = connected_pair();
    let mut wire = Vec::new();
    client.encode(&b"hello".to_vec(), &mut wire).unwrap();
    assert_eq!(wire.len(), 2 + 5 + 16);
    assert_eq!(&wire[..2], &[0u8, 21u8]);
    assert_ne!(&wire[2..7], b"hello");
    assert_eq!(server.decode(&mut wire), Ok(Some(b"hello".to_vec())));
    assert!(wire.is_empty());
    assert_eq!(server.decode(&mut wire), Ok(None));
}

#[test]
fn transport_round_trip_many_messages_both_ways() {
    let (mut client, mut server) = connected_pair();
    let mut wire = Vec::new();
    for i in 0..50usize {
        let message: Vec<u8> = (0..i * 7).map(|b| (b % 251) as u8).collect();
        client.encode(&message, &mut wire).unwrap();
        assert_eq!(server.decode(&mut wire), Ok(Some(message.clone())));
        server.encode(&message, &mut wire).unwrap();
        assert_eq!(client.decode(&mut wire), Ok(Some(message)));
    }
    assert_eq!(client.handshake_steps(), 3);
}

#[test]
fn seal_and_unseal_without_frames() {
    let (mut client, mut server) = connected_pair();
    let sealed = client.seal(&b"payload".to_vec()).unwrap();
    assert_eq!(sealed.len(), 7 + 16);
    assert_ne!(&sealed[..7], b"payload");
    assert_eq!(server.unseal(&sealed), Ok(b"payload".to_vec()));
    let empty = server.seal(&Vec::new()).unwrap();
    assert_eq!(empty.len(), 16);
    assert_eq!(client.unseal(&empty), Ok(Vec::new()));
}

#[test]
fn largest_transport_message_round_trips() {
    let (mut client, mut server) = connected_pair();
    let message = vec![7u8; 65535 - 16];
    let mut wire = Vec::new();
    client.encode(&message, &mut wire).unwrap();
    assert_eq!(wire.len(), 2 + 65535);
    assert_eq!(&wire[..2], &[255u8, 255u8]);
    assert_eq!(server.decode(&mut wire), Ok(Some(message)));
}

#[test]
fn oversize_is_refused_and_nothing_is_written() {
    let (mut client, mut server) = connected_pair();
    let mut wire = vec![1u8, 2, 3];
    let message = vec![7u8; 65535 - 15];
    assert_eq!(client.encode(&message, &mut wire), Err(CodecError::Oversize));
    assert_eq!(wire, vec![1u8, 2, 3]);
    assert_eq!(client.seal(&vec![0u8; 70000]), Err(CodecError::Oversize));
    // The refusal spent no nonce: the next message still opens.
    wire.clear();
    client.encode(&b"next".to_vec(), &mut wire).unwrap();
    assert_eq!(server.decode(&mut wire), Ok(Some(b"next".to_vec())));
}

#[test]
fn oversize_in_handshake_mode() {
    let mut client = NoiseCodec::builder(NOISE_PARAMS, true).new_codec().unwrap();
    let mut wire = Vec::new();
    assert_eq!(client.encode(&vec![0u8; 65536], &mut wire), Err(CodecError::Oversize));
    assert_eq!(client.encode(&vec![0u8; 65535], &mut wire), Err(CodecError::Oversize));
    assert!(wire.is_empty());
    assert_eq!(client.handshake_steps(), 0);
    client.encode(&Vec::new(), &mut wire).unwrap();
    assert_eq!(wire.len(), 2 + 32);
    assert_eq!(client.handshake_steps(), 1);
}

#[test]
fn every_flipped_bit_fails_authentication() {
    let (mut client, _) = connected_pair();
    let mut wire = Vec::new();
    client.encode(&b"hello".to_vec(), &mut wire).unwrap();
    for bit in 0..(wire.len() - 2) * 8 {
        let (mut sender, mut receiver) = connected_pair();
        let mut frame = Vec::new();
        sender.encode(&b"hello".to_vec(), &mut frame).unwrap();
        frame[2 + bit / 8] ^= 1 << (bit % 8);
        assert_eq!(
            receiver.decode(&mut frame),
            Err(CodecError::Crypto(CryptoError::AuthenticationFailed))
        );
    }
}

#[test]
fn frames_out_of_order_fail_authentication() {
    let (mut client, mut server) = connected_pair();
    let mut first = Vec::new();
    let mut second = Vec::new();
    client.encode(&b"one".to_vec(), &mut first).unwrap();
    client.encode(&b"two".to_vec(), &mut second).unwrap();
    assert_eq!(
        server.decode(&mut second),
        Err(CodecError::Crypto(CryptoError::AuthenticationFailed))
    );
}

#[test]
fn a_frame_for_the_other_direction_fails_authentication() {
    let (mut client, _) = connected_pair();
    let mut wire = Vec::new();
    client.encode(&b"echo".to_vec(), &mut wire).unwrap();
    assert_eq!(
        client.decode(&mut wire),
        Err(CodecError::Crypto(CryptoError::AuthenticationFailed))
    );
}

#[test]
fn a_frame_shorter_than_a_tag_fails_authentication() {
    let (_, mut server) = connected_pair();
    let mut wire = vec![0u8, 3, 1, 2, 3];
    assert_eq!(
        server.decode(&mut wire),
        Err(CodecError::Crypto(CryptoError::AuthenticationFailed))
    );
    assert!(wire.is_empty());
}

#[test]
fn one_byte_at_a_time_yields_one_frame() {
    let (mut client, mut server) = connected_pair();
    let mut wire = Vec::new();
    client.encode(&b"hello".to_vec(), &mut wire).unwrap();
    let mut inbox = Vec::new();
    let mut frames = Vec::new();
    for byte in wire.iter() {
        inbox.push(*byte);
        if let Some(frame) = server.decode(&mut inbox).unwrap() {
            frames.push(frame);
        }
    }
    assert_eq!(frames, vec![b"hello".to_vec()]);
    assert_eq!(server.decode(&mut inbox), Ok(None));
    assert!(inbox.is_empty());
}

#[test]
fn two_frames_in_uneven_chunks() {
    let (mut client, mut server) = connected_pair();
    let mut wire = Vec::new();
    client.encode(&b"first".to_vec(), &mut wire).unwrap();
    client.encode(&b"second!".to_vec(), &mut wire).unwrap();
    for chunk in [1usize, 2, 3, 5, 7, 11, 64] {
        let (mut sender, mut receiver) = connected_pair();
        let mut bytes = Vec::new();
        sender.encode(&b"first".to_vec(), &mut bytes).unwrap();
        sender.encode(&b"second!".to_vec(), &mut bytes).unwrap();
        let mut inbox = Vec::new();
        let mut frames = Vec::new();
        for piece in bytes.chunks(chunk) {
            inbox.extend_from_slice(piece);
            while let Some(frame) = receiver.decode(&mut inbox).unwrap() {
                frames.push(frame);
            }
        }
        assert_eq!(frames, vec![b"first".to_vec(), b"second!".to_vec()]);
    }
    assert_eq!(server.decode(&mut wire), Ok(Some(b"first".to_vec())));
    assert_eq!(server.decode(&mut wire), Ok(Some(b"second!".to_vec())));
    assert_eq!(server.decode(&mut wire), Ok(None));
}

#[test]
fn sending_out_of_turn_is_a_handshake_violation() {
    let mut client = NoiseCodec::builder(NOISE_PARAMS, true).new_codec().unwrap();
    let mut server = NoiseCodec::builder(NOISE_PARAMS, false).new_codec().unwrap();
    let mut wire = Vec::new();
    assert_eq!(
        server.encode(&b"early".to_vec(), &mut wire),
        Err(CodecError::Crypto(CryptoError::HandshakeViolation))
    );
    assert!(wire.is_empty());
    assert_eq!(server.handshake_steps(), 0);

    let mut inbox = vec![0u8, 1, 9];
    assert_eq!(
        client.decode(&mut inbox),
        Err(CodecError::Crypto(CryptoError::HandshakeViolation))
    );
    assert_eq!(client.unseal(&vec![9u8]), Err(CodecError::Crypto(CryptoError::HandshakeViolation)));
    assert_eq!(client.handshake_steps(), 0);

    client.encode(&Vec::new(), &mut wire).unwrap();
    assert_eq!(
        client.encode(&Vec::new(), &mut wire),
        Err(CodecError::Crypto(CryptoError::HandshakeViolation))
    );
    assert_eq!(wire.len(), 34);
}

#[test]
fn application_data_before_completion_is_refused() {
    let mut client = NoiseCodec::builder(NOISE_PARAMS, true).new_codec().unwrap();
    let mut server = NoiseCodec::builder(NOISE_PARAMS, false).new_codec().unwrap();
    let mut wire = Vec::new();
    client.encode(&Vec::new(), &mut wire).unwrap();
    let first = server.decode(&mut wire).unwrap().unwrap();
    server.encode(&first, &mut wire).unwrap();
    let second = client.decode(&mut wire).unwrap().unwrap();
    client.encode(&second, &mut wire).unwrap();
    server.decode(&mut wire).unwrap().unwrap();
    assert_eq!(
        client.encode(&b"data".to_vec(), &mut wire),
        Err(CodecError::Crypto(CryptoError::HandshakeViolation))
    );
    assert_eq!(
        server.seal(&b"data".to_vec()),
        Err(CodecError::Crypto(CryptoError::HandshakeViolation))
    );
    assert_eq!(
        server.unseal(&vec![0u8; 32]),
        Err(CodecError::Crypto(CryptoError::HandshakeViolation))
    );
    assert!(wire.is_empty());
}

#[test]
fn switching_early_or_twice_is_refused() {
    let mut client = NoiseCodec::builder(NOISE_PARAMS, true).new_codec().unwrap();
    assert_eq!(client.switch_transport_mode(), Err(CryptoError::HandshakeViolation));
    assert_eq!(client.current_phase(), Phase::Handshake);
    let mut wire = Vec::new();
    client.encode(&Vec::new(), &mut wire).unwrap();
    assert_eq!(client.switch_transport_mode(), Err(CryptoError::HandshakeViolation));
    assert_eq!(client.handshake_steps(), 1);

    let (mut done, _) = connected_pair();
    assert_eq!(done.switch_transport_mode(), Err(CryptoError::HandshakeViolation));
    assert_eq!(done.current_phase(), Phase::Transport);
}

#[test]
fn a_truncated_handshake_message_is_a_format_error() {
    let mut server = NoiseCodec::builder(NOISE_PARAMS, false).new_codec().unwrap();
    let mut inbox = vec![0u8, 1, 9];
    assert_eq!(server.decode(&mut inbox), Err(CodecError::Format));
    assert_eq!(server.handshake_steps(), 0);
}

#[test]
fn a_forged_handshake_message_fails_authentication() {
    let mut client = NoiseCodec::builder(NOISE_PARAMS, true).new_codec().unwrap();
    let mut wire = Vec::new();
    client.encode(&Vec::new(), &mut wire).unwrap();
    let mut forged = vec![0u8, 96];
    forged.extend_from_slice(&[3u8; 96]);
    assert_eq!(
        client.decode(&mut forged),
        Err(CodecError::Crypto(CryptoError::AuthenticationFailed))
    );
    assert_eq!(client.handshake_steps(), 1);
}

#[test]
fn an_unknown_pattern_is_an_engine_error() {
    let made = Builder::new("Noise_??_nothing", true).new_codec();
    assert!(matches!(made, Err(CodecError::Crypto(CryptoError::Engine))));
    let made = NoiseCodec::builder("", false).new_codec();
    assert!(matches!(made, Err(CodecError::Crypto(CryptoError::Engine))));
}

#[test]
fn engine_faults_map_to_errors() {
    assert_eq!(write_error(EngineFault::Input), CodecError::Oversize);
    assert_eq!(write_error(EngineFault::State), CodecError::Crypto(CryptoError::HandshakeViolation));
    assert_eq!(write_error(EngineFault::Dh), CodecError::Crypto(CryptoError::Engine));
    assert_eq!(write_error(EngineFault::Decrypt), CodecError::Crypto(CryptoError::Engine));
    assert_eq!(read_error(EngineFault::Decrypt), CodecError::Crypto(CryptoError::AuthenticationFailed));
    assert_eq!(read_error(EngineFault::State), CodecError::Crypto(CryptoError::HandshakeViolation));
    assert_eq!(read_error(EngineFault::Input), CodecError::Format);
    assert_eq!(read_error(EngineFault::Other), CodecError::Crypto(CryptoError::Engine));
}

#[test]
fn error_messages() {
    assert_eq!(CodecError::Oversize.message(), "Invalid Input");
    assert_eq!(CodecError::Format.message(), "malformed frame");
    assert_eq!(
        CodecError::Crypto(CryptoError::AuthenticationFailed).message(),
        "authentication failed"
    );
    assert_eq!(
        CodecError::Crypto(CryptoError::HandshakeViolation).message(),
        "handshake violation"
    );
    assert_eq!(CodecError::Crypto(CryptoError::Engine).message(), "key-exchange engine failure");
}

#[test]
fn steps_of_each_role() {
    assert_eq!(step_at(true, 0), Some(Step::Send));
    assert_eq!(step_at(true, 1), Some(Step::Receive));
    assert_eq!(step_at(true, 2), Some(Step::Send));
    assert_eq!(step_at(true, 3), None);
    assert_eq!(step_at(false, 0), Some(Step::Receive));
    assert_eq!(step_at(false, 1), Some(Step::Send));
    assert_eq!(step_at(false, 2), Some(Step::Receive));
    assert_eq!(step_at(false, 3), None);
    assert_eq!(step_at(false, 200), None);
}

#[test]
fn next_action_of_each_state() {
    assert!(matches!(
        next_action(true, Phase::Handshake, 0, Vec::new()),
        HandshakeAction::Send(p) if p.is_empty()
    ));
    assert!(matches!(next_action(true, Phase::Handshake, 1, vec![1]), HandshakeAction::Receive));
    assert!(matches!(
        next_action(true, Phase::Handshake, 2, vec![1, 2]),
        HandshakeAction::Send(p) if p == vec![1, 2]
    ));
    assert!(matches!(next_action(true, Phase::Handshake, 3, vec![]), HandshakeAction::Complete));
    assert!(matches!(next_action(false, Phase::Handshake, 0, vec![]), HandshakeAction::Receive));
    assert!(matches!(
        next_action(false, Phase::Handshake, 1, vec![5]),
        HandshakeAction::Send(p) if p == vec![5]
    ));
    assert!(matches!(next_action(false, Phase::Handshake, 3, vec![]), HandshakeAction::Complete));
    assert!(matches!(next_action(false, Phase::Handshake, 4, vec![]), HandshakeAction::Refuse));
    assert!(matches!(next_action(true, Phase::Transport, 3, vec![]), HandshakeAction::Refuse));
    assert!(matches!(next_action(true, Phase::Invalid, 0, vec![]), HandshakeAction::Refuse));
}

#[test]
fn handshake_steps_over_byte_pipes() {
    let mut client = NoiseCodec::builder(NOISE_PARAMS, true).new_codec().unwrap();
    let mut server = NoiseCodec::builder(NOISE_PARAMS, false).new_codec().unwrap();
    let mut to_server = Vec::new();
    let mut to_client = Vec::new();
    let mut client_in = Vec::new();
    let mut server_in = Vec::new();
    let mut client_carry = Vec::new();
    let mut server_carry = Vec::new();
    let mut wrote = 0;
    let mut client_done = false;
    let mut server_done = false;
    let mut rounds = 0;
    while !(client_done && server_done) {
        rounds += 1;
        assert!(rounds < 1000);
        if !client_done {
            match client.handshake_step(&mut client_carry, &mut client_in, &mut to_server).unwrap() {
                HandshakeProgress::Wrote => wrote += 1,
                HandshakeProgress::Done => client_done = true,
                HandshakeProgress::Received | HandshakeProgress::NeedInput => {}
            }
        }
        if !server_done {
            match server.handshake_step(&mut server_carry, &mut server_in, &mut to_client).unwrap() {
                HandshakeProgress::Wrote => wrote += 1,
                HandshakeProgress::Done => server_done = true,
                HandshakeProgress::Received | HandshakeProgress::NeedInput => {}
            }
        }
        // The wire delivers one byte in each direction.
        if !to_server.is_empty() {
            server_in.push(to_server.remove(0));
        }
        if !to_client.is_empty() {
            client_in.push(to_client.remove(0));
        }
    }
    assert_eq!(wrote, 3);
    assert_eq!(client.current_phase(), Phase::Transport);
    assert_eq!(server.current_phase(), Phase::Transport);
    assert!(client_in.is_empty() && server_in.is_empty());
    assert!(to_client.is_empty() && to_server.is_empty());
    assert_eq!(
        client.handshake_step(&mut client_carry, &mut client_in, &mut to_server),
        Err(CodecError::Crypto(CryptoError::HandshakeViolation))
    );
    assert!(to_server.is_empty());

    client.encode(&b"hello".to_vec(), &mut to_server).unwrap();
    assert_eq!(server.decode(&mut to_server), Ok(Some(b"hello".to_vec())));
}

#[test]
fn handshake_step_waits_for_a_whole_frame() {
    let mut server = NoiseCodec::builder(NOISE_PARAMS, false).new_codec().unwrap();
    let mut carry = vec![1u8];
    let mut inbox = vec![0u8, 32, 5, 6];
    let mut outbox = Vec::new();
    assert_eq!(
        server.handshake_step(&mut carry, &mut inbox, &mut outbox),
        Ok(HandshakeProgress::NeedInput)
    );
    assert_eq!(carry, vec![1u8]);
    assert_eq!(inbox, vec![5u8, 6]);
    assert!(outbox.is_empty());
    assert_eq!(server.handshake_steps(), 0);
}

#[test]
fn handshake_frames_with_empty_payloads() {
    let mut client = NoiseCodec::builder(NOISE_PARAMS, true).new_codec().unwrap();
    let mut server = NoiseCodec::builder(NOISE_PARAMS, false).new_codec().unwrap();
    let mut wire = Vec::new();

    client.encode(&Vec::new(), &mut wire).unwrap();
    assert_eq!(wire.len(), 34);
    assert_eq!(server.decode(&mut wire), Ok(Some(Vec::new())));

    server.encode(&Vec::new(), &mut wire).unwrap();
    assert_eq!(wire.len(), 98);
    assert_eq!(client.decode(&mut wire), Ok(Some(Vec::new())));

    client.encode(&Vec::new(), &mut wire).unwrap();
    assert_eq!(wire.len(), 66);
    assert_eq!(server.decode(&mut wire), Ok(Some(Vec::new())));

    assert_eq!(client.switch_transport_mode(), Ok(()));
    assert_eq!(server.switch_transport_mode(), Ok(()));
    assert_eq!(client.current_phase(), Phase::Transport);
    assert_eq!(server.current_phase(), Phase::Transport);
}

#[test]
fn largest_item_of_zeroes_and_one_byte_more() {
    let (mut client, mut server) = connected_pair();
    let mut dst = Vec::new();
    assert_eq!(client.encode(&vec![0u8; 65519], &mut dst), Ok(()));
    assert_eq!(dst.len(), 65537);
    assert_eq!(&dst[..2], &[0xFFu8, 0xFF]);
    assert_eq!(server.decode(&mut dst), Ok(Some(vec![0u8; 65519])));
    assert!(dst.is_empty());
    assert_eq!(client.encode(&vec![0u8; 65520], &mut dst), Err(CodecError::Oversize));
    assert!(dst.is_empty());
}

#[test]
fn a_pattern_with_an_unknown_part_is_refused() {
    for pattern in [
        "Noise_XX_25519_ChaChaPoly",
        "Noise_ZZ_25519_ChaChaPoly_BLAKE2s",
        "Noise_XX_25519_Rot13_BLAKE2s",
        "Noise_XX_25519_ChaChaPoly_MD5",
    ] {
        let made = Builder::new(pattern, true).new_codec();
        assert!(matches!(made, Err(CodecError::Crypto(CryptoError::Engine))));
    }
    assert!(Builder::new("Noise_XX_25519_AESGCM_SHA256", false).new_codec().is_ok());
}
