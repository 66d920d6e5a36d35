use rwstream::{Error, SectionBuf, Stream, Struct};

fn push_u32(b: &mut Vec<u8>, v: u32) {
    b.extend_from_slice(&v.to_le_bytes());
}

fn chunk(id: u32, version: u32, payload: &[u8]) -> Vec<u8> {
    let mut b = Vec::new();
    push_u32(&mut b, id);
    push_u32(&mut b, payload.len() as u32);
    push_u32(&mut b, version);
    b.extend_from_slice(payload);
    b
}

fn string_chunk(s: &[u8], version: u32) -> Vec<u8> {
    let mut p = s.to_vec();
    p.push(0);
    chunk(0x0002, version, &p)
}

#[test]
fn read_u32_is_little_endian() {
    let mut rws = Stream::new(vec![0x01, 0x02, 0x03, 0x04]);
    assert_eq!(rws.read_u32().unwrap(), 0x04030201);
    assert_eq!(rws.pos(), 4);
}

#[test]
fn read_u16_is_little_endian() {
    let mut rws = Stream::new(vec![0x34, 0x12]);
    assert_eq!(rws.read_u16().unwrap(), 0x1234);
}

#[test]
fn read_header_fields_and_position() {
    let data = chunk(0x0010, 0x1803FFFF, &[9, 9, 9]);
    let mut rws = Stream::new(data);
    let h = rws.read_header().unwrap();
    assert_eq!(h.id, 0x0010);
    assert_eq!(h.size, 3);
    assert_eq!(h.version, 0x1803FFFF);
    assert_eq!(rws.pos(), 12);
}

#[test]
fn read_header_then_skip_lands_after_payload() {
    // The cursor must end exactly 12 + payload_size bytes past where the
    // header started, for any payload size within the remaining input.
    let mut data = chunk(0x0042, 0, &[1, 2, 3, 4, 5]);
    data.extend_from_slice(&chunk(0x0043, 0, &[7]));
    let mut rws = Stream::new(data);
    let h = rws.read_header().unwrap();
    rws.skip_payload(h).unwrap();
    assert_eq!(rws.pos(), 12 + 5);
    let h2 = rws.read_header().unwrap();
    assert_eq!(h2.id, 0x0043);
}

#[test]
fn skip_section_reports_bytes_passed() {
    let data = chunk(0x0042, 0, &[1, 2, 3, 4, 5]);
    let mut rws = Stream::new(data);
    assert_eq!(rws.skip_section().unwrap(), 12 + 5);
    assert_eq!(rws.pos(), 17);
}

#[test]
fn skip_past_end_is_unexpected_end_of_data() {
    // A declared payload size larger than the remaining input is always an
    // error, never a silent truncation.
    let mut data = Vec::new();
    push_u32(&mut data, 0x0042);
    push_u32(&mut data, 100);
    push_u32(&mut data, 0);
    data.push(1);
    let mut rws = Stream::new(data);
    let h = rws.read_header().unwrap();
    assert!(matches!(rws.skip_payload(h), Err(Error::UnexpectedEndOfData)));
}

#[test]
fn short_header_is_unexpected_end_of_data() {
    let mut rws = Stream::new(vec![1, 2, 3]);
    assert!(matches!(rws.read_header(), Err(Error::UnexpectedEndOfData)));
}

#[test]
fn read_header_expecting_mismatch_carries_both_ids() {
    let data = chunk(0x0007, 0, &[]);
    let mut rws = Stream::new(data);
    match rws.read_header_expecting(0x0010) {
        Err(Error::SectionMismatch { expected, found }) => {
            assert_eq!(expected, 0x0010);
            assert_eq!(found, 0x0007);
        },
        _ => panic!("expected a section mismatch"),
    }
}

#[test]
fn find_next_lands_at_payload_of_unique_match() {
    // Several non-matching sections with varying sizes precede the single
    // match; the scan must stop exactly at the start of its payload.
    let mut data = Vec::new();
    data.extend_from_slice(&chunk(0x0031, 0, &[1, 2, 3]));
    data.extend_from_slice(&chunk(0x0032, 0, &[]));
    data.extend_from_slice(&chunk(0x0033, 0, &[9; 17]));
    data.extend_from_slice(&chunk(0x0044, 7, &[0xAA, 0xBB]));
    data.extend_from_slice(&chunk(0x0031, 0, &[5; 4]));
    let expected_payload_pos = (12 + 3) + 12 + (12 + 17) + 12;
    let mut rws = Stream::new(data);
    let h = rws.find_next(0x0044).unwrap();
    assert_eq!(h.id, 0x0044);
    assert_eq!(h.size, 2);
    assert_eq!(h.version, 7);
    assert_eq!(rws.pos(), expected_payload_pos);
}

#[test]
fn find_next_stops_at_zero_id_terminator() {
    let mut data = Vec::new();
    data.extend_from_slice(&chunk(0x0031, 0, &[1, 2]));
    data.extend_from_slice(&chunk(0x0000, 0, &[]));
    data.extend_from_slice(&chunk(0x0044, 0, &[]));
    let mut rws = Stream::new(data);
    assert!(matches!(rws.find_next(0x0044), Err(Error::SectionNotFound(0x0044))));
}

#[test]
fn find_next_stops_at_size_overrunning_the_input() {
    // A garbage section declaring more payload than remains ends the scan.
    let mut data = Vec::new();
    push_u32(&mut data, 0x0031);
    push_u32(&mut data, 1000);
    push_u32(&mut data, 0);
    data.extend_from_slice(&[0; 40]);
    let mut rws = Stream::new(data);
    assert!(matches!(rws.find_next(0x0044), Err(Error::SectionNotFound(0x0044))));
}

#[test]
fn stream_into_inner_returns_the_buffer() {
    let rws = Stream::new(vec![1, 2, 3]);
    assert_eq!(rws.into_inner(), vec![1, 2, 3]);
}

#[test]
fn find_next_at_end_of_data_is_not_found() {
    let data = chunk(0x0031, 0, &[1, 2]);
    let mut rws = Stream::new(data);
    assert!(matches!(rws.find_next(0x0044), Err(Error::SectionNotFound(0x0044))));
}

#[test]
fn section_buf_reads_whole_payload() {
    let data = chunk(0x0012, 3, &[10, 20, 30, 40]);
    let mut rws = Stream::new(data);
    let sb = SectionBuf::read(&mut rws).unwrap();
    assert_eq!(sb.header.id, 0x0012);
    assert_eq!(sb.data, vec![10, 20, 30, 40]);
}

#[test]
fn peek_restores_cursor() {
    let mut payload = Vec::new();
    push_u32(&mut payload, 8);
    let data = chunk(0x0001, 0, &payload);
    let mut rws = Stream::new(data);
    let tag = Struct::peek_u32(&mut rws).unwrap();
    assert_eq!(tag, 8);
    assert_eq!(rws.pos(), 0);
    let tag2 = Struct::peek_u32(&mut rws).unwrap();
    assert_eq!(tag2, 8);
}

#[test]
fn string_truncates_at_first_nul() {
    let data = string_chunk(b"hello\0junk", 0);
    let mut rws = Stream::new(data);
    let s = rwstream::read_rw_string(&mut rws).unwrap();
    assert_eq!(s, b"hello".to_vec());
}

#[test]
fn string_accepts_non_ascii_utf8() {
    let data = string_chunk("héllo".as_bytes(), 0);
    let mut rws = Stream::new(data);
    let s = rwstream::read_rw_string(&mut rws).unwrap();
    assert_eq!(s, "héllo".as_bytes().to_vec());
}

#[test]
fn string_rejects_invalid_utf8() {
    let data = chunk(0x0002, 0, &[0xFF, 0xFE, 0xFD]);
    let mut rws = Stream::new(data);
    assert!(matches!(rwstream::read_rw_string(&mut rws), Err(Error::InvalidEncoding)));
}
