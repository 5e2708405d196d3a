use ytcast::sabr::ump::{part_kind, PartKind, UmpParser};

fn number(n: u32) -> Vec<u8> {
    if n < 0x80 {
        vec![n as u8]
    } else if n < 0x4000 {
        vec![0x80 | (n & 0x3f) as u8, (n >> 6) as u8]
    } else if n < 0x20_0000 {
        vec![0xc0 | (n & 0x1f) as u8, (n >> 5) as u8, (n >> 13) as u8]
    } else if n < 0x1000_0000 {
        vec![0xe0 | (n & 0x0f) as u8, (n >> 4) as u8, (n >> 12) as u8, (n >> 20) as u8]
    } else {
        let mut v = vec![0xf0];
        v.extend_from_slice(&n.to_le_bytes());
        v
    }
}

fn part(part_type: u32, data: &[u8]) -> Vec<u8> {
    let mut v = number(part_type);
    v.extend(number(data.len() as u32));
    v.extend_from_slice(data);
    v
}

fn all_parts(parser: &mut UmpParser) -> Vec<(u32, Vec<u8>)> {
    let mut parts = Vec::new();
    while let Some(p) = parser.next_part() {
        parts.push((p.part_type, p.data));
    }
    parts
}

#[test]
fn part_types_are_told_apart() {
    assert_eq!(part_kind(20), PartKind::MediaHeader);
    assert_eq!(part_kind(21), PartKind::Media);
    assert_eq!(part_kind(22), PartKind::MediaEnd);
    assert_eq!(part_kind(35), PartKind::NextRequestPolicy);
    assert_eq!(part_kind(42), PartKind::FormatInit);
    assert_eq!(part_kind(43), PartKind::Redirect);
    assert_eq!(part_kind(44), PartKind::Error);
    assert_eq!(part_kind(57), PartKind::ContextUpdate);
    assert_eq!(part_kind(58), PartKind::StreamProtection);
    assert_eq!(part_kind(59), PartKind::ContextSendingPolicy);
    assert_eq!(part_kind(0), PartKind::Other);
    assert_eq!(part_kind(23), PartKind::Other);
}

#[test]
fn numbers_of_every_width_read_back() {
    for n in [
        0, 1, 127, 128, 129, 0x3fff, 0x4000, 0x1f_ffff, 0x20_0000, 0xfff_ffff, 0x1000_0000,
        u32::MAX,
    ] {
        let mut parser = UmpParser::new();
        parser.push(&number(n));
        parser.push(&[3, 7, 8, 9]);
        let p = parser.next_part().unwrap();
        assert_eq!((p.part_type, p.data), (n, vec![7, 8, 9]));
        assert!(parser.buffer.is_empty());
    }
}

#[test]
fn parts_wait_until_they_are_whole() {
    let bytes = part(21, &[1, 2, 3]);
    let mut parser = UmpParser::new();
    for b in &bytes[..bytes.len() - 1] {
        parser.push(&[*b]);
        assert!(parser.next_part().is_none());
    }
    parser.push(&bytes[bytes.len() - 1..]);
    let p = parser.next_part().unwrap();
    assert_eq!((p.part_type, p.data), (21, vec![1, 2, 3]));
    assert!(parser.next_part().is_none());
}

#[test]
fn parts_do_not_depend_on_how_the_bytes_come() {
    let long: Vec<u8> = (0..20_000u32).map(|i| i as u8).collect();
    let mut bytes = part(20, &[]);
    bytes.extend(part(21, &long));
    bytes.extend(part(300, &[5]));
    bytes.extend(&[22, 9, 1]);
    let mut whole = UmpParser::new();
    whole.push(&bytes);
    let expected = all_parts(&mut whole);
    assert_eq!(expected.len(), 3);
    assert_eq!(expected[0], (20, vec![]));
    assert_eq!(expected[1], (21, long));
    assert_eq!(expected[2], (300, vec![5]));
    for size in [1, 2, 3, 7, 1000] {
        let mut parser = UmpParser::new();
        let mut got = Vec::new();
        for chunk in bytes.chunks(size) {
            parser.push(chunk);
            got.extend(all_parts(&mut parser));
        }
        assert_eq!(got, expected);
        assert_eq!(parser.buffer, vec![22, 9, 1]);
    }
}
