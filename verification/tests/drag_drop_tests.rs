use sldshow2::drag_drop::{classify_drop_item, collect_pending, DragDropMessage, DroppedItem};

fn encode_utf16(s: &str) -> Vec<u16> {
    s.encode_utf16().collect()
}

#[test]
fn zero_len_is_skipped() {
    let buf = vec![0u16; 1];
    assert!(matches!(classify_drop_item(0, 0, &buf, 0), DroppedItem::Skip));
}

#[test]
fn written_zero_with_nonzero_len_is_skipped() {
    let buf = vec![0u16; 6];
    assert!(matches!(classify_drop_item(5, 0, &buf, 1), DroppedItem::Skip));
}

#[test]
fn written_exceeds_buf_does_not_panic() {
    let mut buf = encode_utf16("C:\\x");
    buf.push(0);
    let path_len = buf.len() - 1;
    let written_raw = buf.len() + 5;
    let result = classify_drop_item(path_len, written_raw, &buf, 2);
    assert!(matches!(result, DroppedItem::Path(_) | DroppedItem::Skip));
}

#[test]
fn valid_path_produces_path_item() {
    let path = "C:\\Users\\test\\image.png";
    let mut buf = encode_utf16(path);
    buf.push(0);
    let written = path.encode_utf16().count();
    let result = classify_drop_item(written, written, &buf, 0);
    assert!(matches!(result, DroppedItem::Path(_)));
    if let DroppedItem::Path(p) = result {
        assert_eq!(p.as_str(), path);
    }
}

#[test]
fn surrogate_pairs_decode_and_lone_surrogates_skip() {
    let path = "/photos/\u{1F600}.png";
    let buf = encode_utf16(path);
    let n = buf.len();
    assert_eq!(
        classify_drop_item(n, n, &buf, 0),
        DroppedItem::Path(path.to_string())
    );
    let bad = vec![0x61u16, 0xD800, 0x62];
    assert_eq!(classify_drop_item(3, 3, &bad, 0), DroppedItem::Skip);
    let lone_low = vec![0xDC00u16];
    assert_eq!(classify_drop_item(1, 1, &lone_low, 0), DroppedItem::Skip);
}

#[test]
fn written_count_is_clamped_to_buffer() {
    let buf = encode_utf16("ab");
    assert_eq!(
        classify_drop_item(2, 50, &buf, 0),
        DroppedItem::Path("ab".to_string())
    );
    assert_eq!(
        classify_drop_item(2, 1, &buf, 0),
        DroppedItem::Path("a".to_string())
    );
}

#[test]
fn nothing_received_gives_none() {
    assert!(collect_pending(Vec::new()).is_none());
    assert!(collect_pending(vec![DragDropMessage::Paths(Vec::new())]).is_none());
    assert!(collect_pending(vec![DragDropMessage::RejectedNonUtf8(0)]).is_none());
}

#[test]
fn messages_are_gathered_in_arrival_order() {
    let msgs = vec![
        DragDropMessage::Paths(vec!["a".to_string(), "b".to_string()]),
        DragDropMessage::RejectedNonUtf8(2),
        DragDropMessage::Paths(vec!["c".to_string()]),
        DragDropMessage::RejectedNonUtf8(1),
    ];
    let p = collect_pending(msgs).unwrap();
    assert_eq!(p.paths, vec!["a", "b", "c"]);
    assert_eq!(p.rejected_non_utf8, 3);
}

#[test]
fn only_rejections_still_report() {
    let p = collect_pending(vec![DragDropMessage::RejectedNonUtf8(4)]).unwrap();
    assert!(p.paths.is_empty());
    assert_eq!(p.rejected_non_utf8, 4);
}
