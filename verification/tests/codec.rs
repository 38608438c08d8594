use tun::datagram_framed::{Parser, MTU};

#[test]
fn decode_takes_the_whole_buffer() {
    let mut parser = Parser;
    let msg = parser.decode(&[1, 2, 3, 4]).unwrap();
    assert_eq!(msg, Some(vec![1, 2, 3, 4]));
}

#[test]
fn decode_of_nothing_is_an_empty_message() {
    let mut parser = Parser;
    assert_eq!(parser.decode(&[]).unwrap(), Some(Vec::new()));
}

#[test]
fn encode_appends_verbatim() {
    let mut parser = Parser;
    let mut buf = vec![9, 9];
    parser.encode(vec![1, 2, 3], &mut buf).unwrap();
    assert_eq!(buf, vec![9, 9, 1, 2, 3]);
    parser.encode(Vec::new(), &mut buf).unwrap();
    assert_eq!(buf, vec![9, 9, 1, 2, 3]);
}

#[test]
fn decode_undoes_encode() {
    let mut parser = Parser;
    let payload: Vec<u8> = (0..MTU).map(|i| (i * 7 % 256) as u8).collect();
    let mut wire = Vec::new();
    parser.encode(payload.clone(), &mut wire).unwrap();
    assert_eq!(parser.decode(&wire).unwrap(), Some(payload));
}

#[test]
fn decode_undoes_encode_for_short_payloads() {
    let mut parser = Parser;
    for payload in [vec![], vec![0u8], vec![0xff, 0x00, 0xff], vec![0u8; 64]] {
        let mut wire = Vec::new();
        parser.encode(payload.clone(), &mut wire).unwrap();
        assert_eq!(parser.decode(&wire).unwrap(), Some(payload));
    }
}

#[test]
fn two_messages_are_not_merged_by_the_codec() {
    let mut parser = Parser;
    let first = parser.decode(&[1, 2, 3]).unwrap();
    let second = parser.decode(&[4, 5]).unwrap();
    assert_eq!(first, Some(vec![1, 2, 3]));
    assert_eq!(second, Some(vec![4, 5]));
}

#[test]
fn decode_from_carries_the_peer() {
    let mut parser = Parser;
    let peer: ([u8; 4], u16) = ([10, 9, 3, 2], 18424);
    let (from, msg) = parser.decode_from(&peer, &[7, 8]).unwrap();
    assert_eq!(from, peer);
    assert_eq!(msg, vec![7, 8]);
}

#[test]
fn encode_to_gives_the_peer_back() {
    let mut parser = Parser;
    let peer: ([u8; 16], u16) = ([0, 0, 0, 0, 0, 0, 0, 0, 0, 0, 0, 0, 0, 0, 0, 1], 9);
    let mut buf = vec![1];
    let dest = parser.encode_to((peer, vec![2, 3]), &mut buf);
    assert_eq!(dest, peer);
    assert_eq!(buf, vec![1, 2, 3]);
}
