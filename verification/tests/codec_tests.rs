use timeframe::codec::{encode_frame, DecodeStep, Decoder, DEFAULT_MAX_FRAME_LEN, LEN_PREFIX_LEN};

fn expect_frame(d: &mut Decoder) -> Vec<u8> {
    match d.poll() {
        DecodeStep::Frame(f) => f,
        DecodeStep::NeedMoreData => panic!("expected a frame, decoder wants more data"),
        DecodeStep::Oversized => panic!("expected a frame, decoder reports oversized"),
    }
}

#[test]
fn encode_prepends_big_endian_length() {
    assert_eq!(encode_frame(b"abc"), vec![0, 0, 0, 3, b'a', b'b', b'c']);
}

#[test]
fn encode_empty_payload() {
    assert_eq!(encode_frame(b""), vec![0, 0, 0, 0]);
}

#[test]
fn encode_length_spans_prefix_bytes() {
    let payload = vec![7u8; 300];
    let wire = encode_frame(&payload);
    assert_eq!(&wire[..LEN_PREFIX_LEN], &[0, 0, 1, 44]);
    assert_eq!(&wire[LEN_PREFIX_LEN..], &payload[..]);
}

#[test]
fn roundtrip_single_frame() {
    let mut dec = Decoder::with_default_max();
    dec.feed(&encode_frame(b"gettime"));
    assert_eq!(expect_frame(&mut dec), b"gettime".to_vec());
    assert!(matches!(dec.poll(), DecodeStep::NeedMoreData));
    assert!(dec.is_idle());
}

#[test]
fn roundtrip_empty_frame() {
    let mut dec = Decoder::with_default_max();
    dec.feed(&encode_frame(b""));
    assert_eq!(expect_frame(&mut dec), Vec::<u8>::new());
    assert!(dec.is_idle());
}

#[test]
fn roundtrip_survives_arbitrary_chunking() {
    let payload: Vec<u8> = (0u8..=255).collect();
    let wire = encode_frame(&payload);
    // Feed the same wire bytes split every possible way into two chunks,
    // and also byte by byte: the reassembled payload never changes.
    for cut in 0..=wire.len() {
        let mut dec = Decoder::with_default_max();
        dec.feed(&wire[..cut]);
        dec.feed(&wire[cut..]);
        assert_eq!(expect_frame(&mut dec), payload);
        assert!(dec.is_idle());
    }
    let mut dec = Decoder::with_default_max();
    for b in &wire {
        dec.feed(std::slice::from_ref(b));
    }
    assert_eq!(expect_frame(&mut dec), payload);
    assert!(dec.is_idle());
}

#[test]
fn several_frames_then_clean_end() {
    let payloads: [&[u8]; 3] = [b"one", b"", b"three"];
    let mut wire = Vec::new();
    for p in payloads {
        wire.extend_from_slice(&encode_frame(p));
    }
    let mut dec = Decoder::with_default_max();
    dec.feed(&wire);
    for p in payloads {
        assert_eq!(expect_frame(&mut dec), p.to_vec());
    }
    // Closing exactly here is a clean end of stream: nothing pending.
    assert!(matches!(dec.poll(), DecodeStep::NeedMoreData));
    assert!(dec.is_idle());
}

#[test]
fn partial_prefix_needs_more_data() {
    let mut dec = Decoder::with_default_max();
    dec.feed(&[0, 0, 0]);
    assert!(matches!(dec.poll(), DecodeStep::NeedMoreData));
    assert!(!dec.is_idle());
}

#[test]
fn truncated_payload_needs_more_data() {
    let mut dec = Decoder::with_default_max();
    let wire = encode_frame(b"hello");
    dec.feed(&wire[..wire.len() - 1]);
    assert!(matches!(dec.poll(), DecodeStep::NeedMoreData));
    // A stream closing here closed mid-frame: the decoder is not idle.
    assert!(!dec.is_idle());
}

#[test]
fn oversized_declaration_rejected_from_prefix_alone() {
    let mut dec = Decoder::new(4);
    // Prefix declares five payload bytes; none of them ever arrives.
    dec.feed(&[0, 0, 0, 5]);
    assert!(matches!(dec.poll(), DecodeStep::Oversized));
    // The violation is stable: polling again reports it again.
    assert!(matches!(dec.poll(), DecodeStep::Oversized));
}

#[test]
fn frame_at_the_limit_is_accepted() {
    let mut dec = Decoder::new(4);
    dec.feed(&encode_frame(b"1234"));
    assert_eq!(expect_frame(&mut dec), b"1234".to_vec());
}

#[test]
fn default_max_frame_len_is_eight_mebibytes() {
    assert_eq!(DEFAULT_MAX_FRAME_LEN, 8 * 1024 * 1024);
}
