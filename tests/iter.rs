use tts_subsystem::ArrayCursor;

fn drain(slots: &[Option<&'static str>], steps: usize) -> Vec<Option<&'static str>> {
    let mut cursor = ArrayCursor::new();
    let mut out = Vec::new();
    for _ in 0..steps {
        let slot = slots[cursor.position()];
        out.push(cursor.advance(slot));
    }
    out
}

#[test]
fn walk_yields_entries_in_order_then_ends() {
    let slots = [Some("espeak"), Some("festival"), Some("dummy"), None];
    let out = drain(&slots, 6);
    assert_eq!(
        out,
        vec![Some("espeak"), Some("festival"), Some("dummy"), None, None, None]
    );
}

#[test]
fn walk_over_empty_array_yields_nothing() {
    let slots: [Option<&'static str>; 1] = [None];
    assert_eq!(drain(&slots, 3), vec![None, None, None]);
}

#[test]
fn cursor_stays_on_terminator() {
    let mut cursor = ArrayCursor::new();
    assert_eq!(cursor.position(), 0);
    assert_eq!(cursor.advance(Some(7u8)), Some(7));
    assert_eq!(cursor.position(), 1);
    assert_eq!(cursor.advance::<u8>(None), None);
    assert_eq!(cursor.position(), 1);
    assert_eq!(cursor.advance::<u8>(None), None);
    assert_eq!(cursor.position(), 1);
}
