use hookey::domain::{BufInt, BufRange, LineCount, LineIndex};

#[test]
fn typed_indices_round_trip() {
    assert_eq!(BufInt::new(7).raw(), 7);
    assert_eq!(LineIndex::new(3).raw(), 3);
    assert_eq!(LineCount::new(12).raw(), 12);
}

#[test]
fn buf_range_into_std() {
    let r = BufRange::new(BufInt::new(5), BufInt::new(8));
    assert_eq!(r.start, BufInt::new(5));
    assert_eq!(r.end, BufInt::new(8));
    let std_range = r.into_std();
    assert_eq!(std_range, 5..8);
    assert_eq!(std_range.collect::<Vec<usize>>(), vec![5, 6, 7]);
}
