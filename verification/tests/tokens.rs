//! The byte-to-token layer: widths, values, round trips and failure modes.
use cftkk::fetm::{Error, FetmReader, TkKind, TokenKind};
use cftkk::ParseError;

#[test]
fn float_token_decodes_to_one_point_zero() {
    // One float token: tag 6, then the big-endian bits of 1.0f32.
    let bytes = [0x06u8, 0x3F, 0x80, 0x00, 0x00];
    let token = TkKind::from_bytes(&bytes).unwrap();
    match token {
        TkKind::F32(bits) => {
            assert_eq!(bits, 0x3F80_0000);
            assert_eq!(f32::from_bits(bits), 1.0f32);
        }
        _ => panic!("expected a float token"),
    }
    assert_eq!(token.len(), 5);
}

#[test]
fn scalar_tokens_decode_each_kind() {
    assert!(matches!(TkKind::from_bytes(&[0x00, 0xFF]), Ok(TkKind::I8(-1))));
    assert!(matches!(TkKind::from_bytes(&[0x01, 0x7C]), Ok(TkKind::U8(0x7C))));
    assert!(matches!(TkKind::from_bytes(&[0x02, 0xFF, 0xFE]), Ok(TkKind::I16(-2))));
    assert!(matches!(TkKind::from_bytes(&[0x03, 0x12, 0x34]), Ok(TkKind::U16(0x1234))));
    assert!(matches!(
        TkKind::from_bytes(&[0x04, 0x01, 0x02, 0x03, 0x04]),
        Ok(TkKind::U32(0x0102_0304))
    ));
    assert!(matches!(
        TkKind::from_bytes(&[0x05, 0xAA, 0xBB, 0xCC, 0xDD]),
        Ok(TkKind::Hex8(0xAABB_CCDD))
    ));
}

#[test]
fn string_token_decodes_until_nul() {
    let bytes = [0x07u8, b'a', b'b', b'c', 0x00, 0x99];
    let token = TkKind::from_bytes(&bytes).unwrap();
    assert_eq!(token.extract_str().unwrap(), b"abc");
    assert_eq!(token.len(), 5);
}

#[test]
fn string_without_nul_is_unexpected_end() {
    // String safety: no NUL inside the buffer is an error, not a scan.
    let bytes = [0x07u8, 0x41, 0x42];
    assert!(matches!(
        TkKind::from_bytes(&bytes),
        Err(Error::ParseError(ParseError::UnexpectedEnd))
    ));
}

#[test]
fn invalid_tag_byte_is_invalid_token_kind() {
    assert!(matches!(TkKind::from_bytes(&[0x08, 0x00]), Err(Error::InvalidTokenKind)));
    assert!(matches!(TkKind::from_bytes(&[0xFF]), Err(Error::InvalidTokenKind)));
}

#[test]
fn truncated_scalar_is_unexpected_end() {
    // Truncation safety at the token level: every strict prefix fails with
    // UnexpectedEnd, never anything else.
    let full = [0x04u8, 0x01, 0x02, 0x03, 0x04];
    for k in 0..full.len() {
        assert!(matches!(
            TkKind::from_bytes(&full[..k]),
            Err(Error::ParseError(ParseError::UnexpectedEnd))
        ));
    }
}

#[test]
fn token_encode_decode_round_trip() {
    let samples = [
        TkKind::I8(-100),
        TkKind::U8(7),
        TkKind::I16(-12345),
        TkKind::U16(54321),
        TkKind::U32(0xDEAD_BEEF),
        TkKind::Hex8(0x1234_5678),
        TkKind::F32(0x3F80_0000),
        TkKind::Str(b"mesh_name"),
    ];
    for t in samples.iter() {
        let bytes = t.encode();
        let back = TkKind::from_bytes(&bytes).unwrap();
        assert_eq!(format!("{:?}", back), format!("{:?}", t));
        assert_eq!(back.len(), bytes.len());
    }
}

#[test]
fn token_kind_from_bytes_covers_all_tags() {
    assert!(matches!(TokenKind::from_bytes(&0), Ok(TokenKind::I8)));
    assert!(matches!(TokenKind::from_bytes(&1), Ok(TokenKind::U8)));
    assert!(matches!(TokenKind::from_bytes(&2), Ok(TokenKind::I16)));
    assert!(matches!(TokenKind::from_bytes(&3), Ok(TokenKind::U16)));
    assert!(matches!(TokenKind::from_bytes(&4), Ok(TokenKind::U32)));
    assert!(matches!(TokenKind::from_bytes(&5), Ok(TokenKind::Hex8)));
    assert!(matches!(TokenKind::from_bytes(&6), Ok(TokenKind::F32)));
    assert!(matches!(TokenKind::from_bytes(&7), Ok(TokenKind::Str)));
    assert!(matches!(TokenKind::from_bytes(&8), Err(Error::InvalidTokenKind)));
}

#[test]
fn extractors_accept_only_their_kind() {
    let int_tok = TkKind::U16(40000);
    let float_tok = TkKind::F32(0x4000_0000);
    let str_tok = TkKind::Str(b"x");
    let hex_tok = TkKind::Hex8(0xCAFE);
    assert_eq!(int_tok.extract_int().unwrap(), 40000);
    assert!(matches!(float_tok.extract_int(), Err(Error::InvalidTokenKind)));
    assert!(matches!(str_tok.extract_int(), Err(Error::InvalidTokenKind)));
    assert_eq!(float_tok.extract_float().unwrap(), 0x4000_0000);
    assert!(matches!(int_tok.extract_float(), Err(Error::InvalidTokenKind)));
    assert_eq!(str_tok.extract_str().unwrap(), b"x");
    assert!(matches!(hex_tok.extract_str(), Err(Error::InvalidTokenKind)));
    assert_eq!(hex_tok.extract_hex8().unwrap(), 0xCAFE);
    assert!(matches!(int_tok.extract_hex8(), Err(Error::InvalidTokenKind)));
}

#[test]
fn extract_int_sign_extends_signed_kinds() {
    assert_eq!(TkKind::I8(-1).extract_int().unwrap(), usize::MAX);
    assert_eq!(TkKind::I16(-1).extract_int().unwrap(), usize::MAX);
}

#[test]
fn reader_requires_magic_and_sentinel() {
    // Shortest valid buffer: the magic, then the "end\0" string token's
    // payload doubling as the trailing sentinel.
    let good = [0x01u8, 0x7C, 0x07, b'e', b'n', b'd', 0x00];
    assert!(FetmReader::new(&good).is_ok());

    assert!(matches!(FetmReader::new(&[0x01, 0x7C]), Err(ParseError::UnexpectedEnd)));
    assert!(matches!(
        FetmReader::new(&[0x02u8, 0x7C, 0x07, b'e', b'n', b'd', 0x00]),
        Err(ParseError::BadMagic)
    ));
    assert!(matches!(
        FetmReader::new(&[0x01u8, 0x7C, 0x07, b'e', b'n', b'd', 0x01]),
        Err(ParseError::UnexpectedEnd)
    ));
    assert!(matches!(FetmReader::new(&[0x01, 0x7C, 0x07]), Err(ParseError::UnexpectedEnd)));
}

#[test]
fn reader_tokens_walks_the_whole_buffer() {
    // The magic itself tokenizes as U8(0x7C) followed by a string token, and
    // the final string token carries the "end" sentinel.
    let mut buf = vec![0x01u8, 0x7C, 0x07, 0x00];
    buf.extend_from_slice(&[0x03, 0x00, 0x2A]);
    buf.extend_from_slice(&[0x07, b'e', b'n', b'd', 0x00]);
    let reader = FetmReader::new(&buf).unwrap();
    let tokens = reader.tokens().unwrap();
    assert_eq!(tokens.len(), 4);
    assert!(matches!(tokens[0], TkKind::U8(0x7C)));
    assert_eq!(tokens[1].extract_str().unwrap(), b"");
    assert!(matches!(tokens[2], TkKind::U16(42)));
    assert_eq!(tokens[3].extract_str().unwrap(), b"end");
}

#[test]
fn reader_tokens_reports_mid_stream_failures() {
    // A bad tag byte in the middle of the stream fails the whole walk.
    let buf = [0x01u8, 0x7C, 0x07, 0x00, 0x09, 0x07, b'e', b'n', b'd', 0x00];
    let reader = FetmReader::new(&buf).unwrap();
    assert!(matches!(reader.tokens(), Err(Error::InvalidTokenKind)));
}
