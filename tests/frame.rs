use outbox::frame::{parse_frame, parse_logical_message, Column, LogicalMessage, ProtocolError};

fn xlog(payload: &[u8]) -> Vec<u8> {
    let mut v = vec![b'w'];
    v.extend_from_slice(&[0u8; 24]);
    v.extend_from_slice(payload);
    v
}

fn text_col(out: &mut Vec<u8>, text: &[u8]) {
    out.push(b't');
    out.extend_from_slice(&(text.len() as u32).to_be_bytes());
    out.extend_from_slice(text);
}

#[test]
fn insert_with_all_column_kinds() {
    let mut m = vec![b'I', 0, 0, 0x40, 0x01, b'N', 0, 4];
    text_col(&mut m, b"abc");
    m.push(b'n');
    m.push(b'u');
    m.push(b'b');
    m.extend_from_slice(&2u32.to_be_bytes());
    m.extend_from_slice(&[0xFF, 0x00]);
    let parsed = parse_logical_message(&m).unwrap();
    assert_eq!(
        parsed,
        LogicalMessage::Insert {
            relation: 0x4001,
            columns: vec![
                Column::Text(b"abc".to_vec()),
                Column::Null,
                Column::Unchanged,
                Column::Binary(vec![0xFF, 0x00]),
            ],
        }
    );
}

#[test]
fn commit_carries_end_lsn() {
    let mut m = vec![b'C', 0];
    m.extend_from_slice(&5u64.to_be_bytes());
    m.extend_from_slice(&0x1_0000_0010u64.to_be_bytes());
    m.extend_from_slice(&0u64.to_be_bytes());
    assert_eq!(
        parse_frame(&xlog(&m)),
        Ok(Some(LogicalMessage::Commit { commit_lsn: 5, end_lsn: 0x1_0000_0010 }))
    );
}

#[test]
fn update_begin_and_keepalive() {
    assert_eq!(
        parse_logical_message(&[b'U', 0, 0, 0, 9, b'N', 0, 1, b'n']),
        Ok(LogicalMessage::Update { relation: 9, columns: vec![Column::Null] })
    );
    // the old key comes first where the table's replica identity sends it
    let mut u = vec![b'U', 0, 0, 0, 9, b'K', 0, 1];
    text_col(&mut u, b"k");
    u.extend_from_slice(&[b'N', 0, 2, b'u']);
    text_col(&mut u, b"v");
    assert_eq!(
        parse_logical_message(&u),
        Ok(LogicalMessage::Update {
            relation: 9,
            columns: vec![Column::Unchanged, Column::Text(b"v".to_vec())],
        })
    );
    assert_eq!(
        parse_logical_message(&[b'U', 0, 0, 0, 9, b'O', 0, 0, b'X']),
        Err(ProtocolError::MissingNewTuple)
    );
    assert_eq!(
        parse_logical_message(&[b'U', 0, 0, 0, 9, b'O', 0, 0]),
        Err(ProtocolError::Truncated)
    );
    assert_eq!(
        parse_logical_message(&[b'U', 0, 0, 0, 9, b'Q']),
        Err(ProtocolError::MissingNewTuple)
    );
    assert_eq!(parse_logical_message(&[b'B', 1, 2]), Ok(LogicalMessage::Other { tag: b'B' }));
    let mut k = vec![b'k'];
    k.extend_from_slice(&[0u8; 17]);
    assert_eq!(parse_frame(&k), Ok(None));
}

#[test]
fn frame_errors() {
    assert_eq!(parse_frame(&[]), Err(ProtocolError::Empty));
    assert_eq!(parse_frame(&[b'x', 1]), Err(ProtocolError::UnknownTag(b'x')));
    assert_eq!(parse_frame(&[b'w', 0, 0]), Err(ProtocolError::Truncated));
    assert_eq!(parse_frame(&[b'k', 0]), Err(ProtocolError::Truncated));
    assert_eq!(parse_frame(&xlog(&[])), Err(ProtocolError::Empty));
    assert_eq!(parse_logical_message(&[b'Z']), Err(ProtocolError::UnknownTag(b'Z')));
    assert_eq!(parse_logical_message(&[b'C', 0, 1]), Err(ProtocolError::Truncated));
    assert_eq!(parse_logical_message(&[b'U', 0]), Err(ProtocolError::Truncated));
    assert_eq!(parse_logical_message(&[b'U', 0, 0, 0, 1]), Err(ProtocolError::Truncated));
    assert_eq!(
        parse_logical_message(&[b'I', 0, 0, 0, 1, b'K', 0, 0]),
        Err(ProtocolError::MissingNewTuple)
    );
    // a text column that claims more bytes than the frame holds
    assert_eq!(
        parse_logical_message(&[b'I', 0, 0, 0, 1, b'N', 0, 1, b't', 0, 0, 0, 9, b'a']),
        Err(ProtocolError::Truncated)
    );
    // fewer columns than announced
    assert_eq!(
        parse_logical_message(&[b'I', 0, 0, 0, 1, b'N', 0, 2, b'n']),
        Err(ProtocolError::Truncated)
    );
}
