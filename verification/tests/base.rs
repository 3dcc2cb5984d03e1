use fable_data::def::text::base::LineIndex;

#[test]
fn line_index_lookup() {
    let src = "ab\ncd\n\nefg";
    let idx = LineIndex::new(src);
    assert_eq!((idx.lookup(0).0, idx.lookup(0).1), (1, 1));
    assert_eq!((idx.lookup(2).0, idx.lookup(2).1), (1, 3));
    assert_eq!((idx.lookup(3).0, idx.lookup(3).1), (2, 1));
    assert_eq!((idx.lookup(6).0, idx.lookup(6).1), (3, 1));
    assert_eq!((idx.lookup(9).0, idx.lookup(9).1), (4, 3));
    assert_eq!(idx.line_text(src, 4), "cd");
    assert_eq!(idx.line_text(src, 6), "");
    assert_eq!(idx.line_text(src, 8), "efg");
}
