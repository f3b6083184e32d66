use rosu_pp_verifier::framing::{
    entry_complete, entry_payload, entry_trailer, next_entry_end, sep_at_exec, separator_bytes,
    MAX_ALIGN,
};

#[test]
fn separator_and_trailer() {
    assert_eq!(separator_bytes(), b"#END#".to_vec());
    assert_eq!(entry_trailer(), b"\0\0\0#END#".to_vec());
    assert_eq!(entry_trailer().len(), MAX_ALIGN);
}

#[test]
fn written_entry_is_read_back() {
    let payload = b"payload bytes".to_vec();
    let mut stream = payload.clone();
    stream.extend(entry_trailer());
    stream.extend(b"next entry".iter());
    // reader of the comparison: shortest prefix that ends with the separator
    let end = (1..=stream.len()).find(|&k| entry_complete(&stream[..k])).unwrap();
    assert_eq!(end, payload.len() + MAX_ALIGN);
    assert_eq!(entry_payload(&stream[..end]), &payload[..]);
    // scanner of the recalculation
    assert_eq!(next_entry_end(&stream, 0), Some(payload.len() + MAX_ALIGN));
}

#[test]
fn scanner_without_separator() {
    assert_eq!(next_entry_end(b"no separator here", 0), None);
    assert_eq!(next_entry_end(b"#END#", 0), None);
    assert_eq!(next_entry_end(b"x#END#", 0), Some(6));
    assert_eq!(next_entry_end(b"", 0), None);
    assert_eq!(next_entry_end(b"ab", 5), None);
}

#[test]
fn entry_checks() {
    assert!(!entry_complete(b"#EN"));
    assert!(entry_complete(b"abc#END#"));
    assert!(!entry_complete(b"abc#END"));
    assert!(sep_at_exec(b"xx#END#", 2));
    assert!(!sep_at_exec(b"xx#END#", 3));
    assert!(!sep_at_exec(b"xx#END#", 100));
    assert_eq!(entry_payload(b"12345678"), b"");
}

#[test]
fn every_written_entry_is_scanned_in_order() {
    let payloads: Vec<Vec<u8>> = vec![b"first".to_vec(), Vec::new(), b"#EN#D#third".to_vec()];
    let mut file = Vec::new();
    for p in &payloads {
        file.extend(p);
        file.extend(entry_trailer());
    }
    let mut start = 0;
    let mut found = Vec::new();
    while let Some(end) = next_entry_end(&file, start) {
        found.push(file[start..end - MAX_ALIGN].to_vec());
        start = end;
    }
    assert_eq!(found, payloads);
    assert_eq!(start, file.len());
}
