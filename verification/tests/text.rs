use deepspace_quic::text::same_text;

#[test]
fn same_text_compares_characters() {
    assert!(same_text("bbr", "bbr"));
    assert!(same_text("", ""));
    assert!(!same_text("bbr", "bb"));
    assert!(!same_text("cubic", "cubiC"));
    assert!(same_text("é", "é"));
    assert!(!same_text("e", "é"));
}
