use hartlab_protocol::decode_b64;

#[test]
fn decodes_whole_groups() {
    assert_eq!(decode_b64("TWFu"), Ok(b"Man".to_vec()));
    assert_eq!(decode_b64("aGVsbG8gd29ybGQ="), Ok(b"hello world".to_vec()));
    assert_eq!(decode_b64(""), Ok(vec![]));
}

#[test]
fn decodes_padded_groups() {
    assert_eq!(decode_b64("TWE="), Ok(b"Ma".to_vec()));
    assert_eq!(decode_b64("TQ=="), Ok(b"M".to_vec()));
    assert_eq!(decode_b64("TWFuTQ=="), Ok(b"ManM".to_vec()));
}

#[test]
fn refuses_incomplete_groups() {
    assert_eq!(decode_b64("A"), Err(()));
    assert_eq!(decode_b64("T"), Err(()));
    assert_eq!(decode_b64("TWE"), Err(()));
    assert_eq!(decode_b64("TWFuT"), Err(()));
}

#[test]
fn refuses_misplaced_or_odd_padding() {
    assert_eq!(decode_b64("TQ==TWFu"), Err(()));
    assert_eq!(decode_b64("=TWF"), Err(()));
    assert_eq!(decode_b64("T==="), Err(()));
    assert_eq!(decode_b64("===="), Err(()));
    assert_eq!(decode_b64("TW=u"), Err(()));
}

#[test]
fn refuses_nonzero_trailing_bits() {
    // "TR==": the two bits after 'M' would be 01
    assert_eq!(decode_b64("TR=="), Err(()));
    // "TWF=": the last symbol leaves 01 over
    assert_eq!(decode_b64("TWF="), Err(()));
}

#[test]
fn refuses_other_bytes() {
    assert_eq!(decode_b64("TW-u"), Err(()));
    assert_eq!(decode_b64("TWFu!"), Err(()));
    assert_eq!(decode_b64("TWFu\n"), Err(()));
    assert_eq!(decode_b64(" TWFu"), Err(()));
    assert_eq!(decode_b64("TWFé"), Err(()));
}

#[test]
fn full_alphabet() {
    assert_eq!(decode_b64("+/+/"), Ok(vec![0xfb, 0xff, 0xbf]));
    assert_eq!(decode_b64("AAAA"), Ok(vec![0, 0, 0]));
    assert_eq!(decode_b64("////"), Ok(vec![0xff, 0xff, 0xff]));
    assert_eq!(decode_b64("09az"), Ok(vec![0xd3, 0xd6, 0xb3]));
}

fn encode(x: &[u8]) -> String {
    const A: &[u8; 64] = b"ABCDEFGHIJKLMNOPQRSTUVWXYZabcdefghijklmnopqrstuvwxyz0123456789+/";
    let mut out = String::new();
    for chunk in x.chunks(3) {
        let b = [chunk[0], *chunk.get(1).unwrap_or(&0), *chunk.get(2).unwrap_or(&0)];
        out.push(A[(b[0] >> 2) as usize] as char);
        out.push(A[(((b[0] & 3) << 4) | (b[1] >> 4)) as usize] as char);
        out.push(if chunk.len() > 1 { A[(((b[1] & 15) << 2) | (b[2] >> 6)) as usize] as char } else { '=' });
        out.push(if chunk.len() > 2 { A[(b[2] & 63) as usize] as char } else { '=' });
    }
    out
}

#[test]
fn standard_encodings_decode_back() {
    let data: Vec<u8> = (0u8..=255).collect();
    for n in 0..20 {
        let x = &data[n * 7 % 200..n * 7 % 200 + n];
        assert_eq!(decode_b64(&encode(x)), Ok(x.to_vec()));
    }
    assert_eq!(decode_b64(&encode(&data)), Ok(data.clone()));
}

#[test]
fn decoded_length_is_six_bits_per_symbol() {
    for (text, symbols) in [("TWFu", 4), ("TWE=", 3), ("TQ==", 2), ("", 0), ("TWFuTWFu", 8)] {
        let out = decode_b64(text).unwrap();
        assert_eq!(out.len(), 6 * symbols / 8, "{text}");
    }
}
