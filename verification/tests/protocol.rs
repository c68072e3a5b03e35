use hwwctl::framing::{decode_header, encode_frame, FrameError, MAX_FRAME_BYTES};
use hwwctl::hex_u16;
use hwwctl::hex_u16::HexParseError;
use hwwctl::protocol::{
    parse_wallet, Error, ErrorCode, InstanceId, InstanceState, InstanceSummary, Wallet,
};

#[test]
fn wallet_parse_roundtrip() {
    for w in [
        Wallet::Trezor,
        Wallet::BitBox02,
        Wallet::Coldcard,
        Wallet::Specter,
        Wallet::Ledger,
        Wallet::Jade,
    ] {
        let s: Wallet = w.as_str().parse().unwrap();
        assert_eq!(s, w);
    }
    assert!("nope".parse::<Wallet>().is_err());
}

#[test]
fn wallet_aliases() {
    assert_eq!("bb02".parse::<Wallet>().unwrap(), Wallet::BitBox02);
    assert_eq!("cc".parse::<Wallet>().unwrap(), Wallet::Coldcard);
}

#[test]
fn wallet_parse_ignores_ascii_case() {
    assert_eq!("BitBox02".parse::<Wallet>().unwrap(), Wallet::BitBox02);
    assert_eq!("TREZOR".parse::<Wallet>().unwrap(), Wallet::Trezor);
    assert_eq!("Cc".parse::<Wallet>().unwrap(), Wallet::Coldcard);
}

#[test]
fn wallet_parse_error_message_is_lowercased() {
    assert_eq!(parse_wallet("NoPe"), Err("unknown wallet 'nope'".to_string()));
    assert_eq!(parse_wallet(""), Err("unknown wallet ''".to_string()));
}

#[test]
fn wallet_names() {
    assert_eq!(Wallet::Trezor.as_str(), "trezor");
    assert_eq!(Wallet::BitBox02.as_str(), "bitbox02");
    assert_eq!(Wallet::Coldcard.as_str(), "coldcard");
    assert_eq!(Wallet::Specter.as_str(), "specter");
    assert_eq!(Wallet::Ledger.as_str(), "ledger");
    assert_eq!(Wallet::Jade.as_str(), "jade");
}

#[test]
fn instance_id_and_error_constructors() {
    let id = InstanceId::new("bitbox02-a3f912");
    assert_eq!(id.as_str(), "bitbox02-a3f912");
    let e = Error::new(ErrorCode::InstanceNotFound, "nope");
    assert_eq!(e.code, ErrorCode::InstanceNotFound);
    assert_eq!(e.message, "nope");
}

#[test]
fn hex_ids_serialize_as_four_lowercase_digits() {
    assert_eq!(hex_u16::serialize(0x03EB), "0x03eb");
    assert_eq!(hex_u16::serialize(0x2403), "0x2403");
    assert_eq!(hex_u16::serialize(0), "0x0000");
    assert_eq!(hex_u16::serialize(0xFFFF), "0xffff");
}

#[test]
fn hex_ids_roundtrip() {
    for v in [0u16, 1, 0x03EB, 0x2403, 0xD13E, 0xCC10, 0xFFFF] {
        assert_eq!(hex_u16::deserialize(&hex_u16::serialize(v)), Ok(v));
    }
}

#[test]
fn hex_id_parse_cases() {
    assert_eq!(hex_u16::deserialize("03EB"), Ok(0x03EB));
    assert_eq!(hex_u16::deserialize("0x+1f"), Ok(0x1F));
    assert_eq!(hex_u16::deserialize("+0"), Ok(0));
    assert_eq!(hex_u16::deserialize("0000000000ff"), Ok(0xFF));
    assert_eq!(hex_u16::deserialize(""), Err(HexParseError::Empty));
    assert_eq!(hex_u16::deserialize("0x"), Err(HexParseError::Empty));
    assert_eq!(hex_u16::deserialize("+"), Err(HexParseError::InvalidDigit));
    assert_eq!(hex_u16::deserialize("-1"), Err(HexParseError::InvalidDigit));
    assert_eq!(hex_u16::deserialize("0X12"), Err(HexParseError::InvalidDigit));
    assert_eq!(hex_u16::deserialize("12g"), Err(HexParseError::InvalidDigit));
    assert_eq!(hex_u16::deserialize("10000"), Err(HexParseError::PosOverflow));
    assert_eq!(hex_u16::deserialize("fffffz"), Err(HexParseError::PosOverflow));
}

#[test]
fn frame_carries_big_endian_length() {
    let f = encode_frame(b"{\"kind\":\"ping\"}").unwrap();
    assert_eq!(&f[..4], &[0, 0, 0, 15]);
    assert_eq!(&f[4..], b"{\"kind\":\"ping\"}");
    let big = vec![7u8; 0x01_02_03];
    let f = encode_frame(&big).unwrap();
    assert_eq!(&f[..4], &[0, 1, 2, 3]);
}

#[test]
fn framing_roundtrip() {
    let payload = b"{\"kind\":\"ping\"}".to_vec();
    let f = encode_frame(&payload).unwrap();
    let len = decode_header(&f[..4]).unwrap().unwrap();
    assert_eq!(len, payload.len());
    assert_eq!(&f[4..4 + len], &payload[..]);
}

#[test]
fn framing_clean_eof_returns_none() {
    assert_eq!(decode_header(&[]), Ok(None));
}

#[test]
fn partial_header_is_an_error() {
    assert_eq!(decode_header(&[0, 0]), Err(FrameError::TruncatedHeader { got: 2 }));
}

#[test]
fn oversized_frames_are_refused() {
    assert_eq!(decode_header(&[0x01, 0, 0, 1]), Err(FrameError::TooLarge { len: 0x0100_0001 }));
    assert_eq!(decode_header(&[0x01, 0, 0, 0]), Ok(Some(MAX_FRAME_BYTES)));
    let big = vec![0u8; MAX_FRAME_BYTES + 1];
    assert_eq!(encode_frame(&big), Err(FrameError::TooLarge { len: MAX_FRAME_BYTES + 1 }));
    let edge = vec![0u8; MAX_FRAME_BYTES];
    assert!(encode_frame(&edge).is_ok());
}

#[test]
fn instance_summary_serializes_hex_vid() {
    let summary = InstanceSummary {
        instance: InstanceId::new("bitbox02-a3f912"),
        wallet: Wallet::BitBox02,
        state: InstanceState::Running,
        vid: 0x03EB,
        pid: 0x2403,
        serial: "hwwctl-bb02-a3f912".into(),
        hidraw: None,
        transport: "tcp 127.0.0.1:15423".into(),
        error: None,
    };
    let vid = hex_u16::serialize(summary.vid);
    let pid = hex_u16::serialize(summary.pid);
    assert!(vid.contains("0x03eb"), "vid missing hex form: {vid}");
    assert!(pid.contains("0x2403"), "pid missing hex form: {pid}");
}
