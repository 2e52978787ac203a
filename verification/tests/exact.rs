use lockstep::{drain, DoubleEnded, Rev, Sequence, SliceIter, Take, VecIter, ZipTrusted};

#[test]
fn trusted_zip_of_two_fives() {
    let mut z = ZipTrusted::new((0usize..5, 10u16..15));
    assert_eq!(z.size_hint(), (5, Some(5)));
    let mut n = 0;
    while let Some((a, b)) = z.next() {
        assert_eq!(a, n);
        assert_eq!(b as usize, 10 + n);
        n += 1;
    }
    assert_eq!(n, 5);
    assert_eq!(z.size_hint(), (0, Some(0)));
    assert_eq!(z.next(), None);
    assert_eq!(z.size_hint(), (0, Some(0)));
}

#[test]
fn limited_sequence_keeps_its_exact_size() {
    let t = Take::new(0u32..10, 4);
    assert_eq!(t.size_hint(), (4, Some(4)));
    let mut z = ZipTrusted::new((t, 0u32..6));
    assert_eq!(z.size_hint(), (4, Some(4)));
    assert_eq!(drain(&mut z), vec![(0, 0), (1, 1), (2, 2), (3, 3)]);
}

#[test]
fn trusted_zip_counts_down_by_one() {
    let mut z = ZipTrusted::new((0i8..3, -3i8..4, 0i8..5));
    assert_eq!(z.size_hint(), (3, Some(3)));
    assert_eq!(z.next(), Some((0, -3, 0)));
    assert_eq!(z.size_hint(), (2, Some(2)));
    assert_eq!(z.next(), Some((1, -2, 1)));
    assert_eq!(z.size_hint(), (1, Some(1)));
    assert_eq!(z.next(), Some((2, -1, 2)));
    assert_eq!(z.size_hint(), (0, Some(0)));
    assert_eq!(z.next(), None);
}

#[test]
fn trusted_zip_estimate_is_stable() {
    let z = ZipTrusted::new((0usize..4, 0usize..9));
    assert_eq!(z.size_hint(), z.size_hint());
    assert_eq!(z.size_hint(), (4, Some(4)));
}

#[test]
fn exhausted_trusted_zip_touches_no_component() {
    let mut z = ZipTrusted::new((0u32..2, 0u32..7));
    assert_eq!(drain(&mut z).len(), 2);
    assert_eq!(z.next(), None);
    let (a, b) = z.into_inner();
    assert_eq!(a, 2..2);
    assert_eq!(b, 2..7);
}

#[test]
fn trusted_zip_of_one() {
    let v = vec![String::from("x"), String::from("y")];
    let mut z = ZipTrusted::new((VecIter::new(v),));
    assert_eq!(z.size_hint(), (2, Some(2)));
    assert_eq!(z.next(), Some((String::from("x"),)));
    assert_eq!(z.next(), Some((String::from("y"),)));
    assert_eq!(z.next(), None);
}

#[test]
fn trusted_zip_of_nine() {
    let xs = [1u64, 2, 3];
    let mut z = ZipTrusted::new((
        0usize..9,
        0u32..8,
        0i32..7,
        0u16..6,
        0i16..5,
        0u8..4,
        -1i8..3,
        SliceIter::new(&xs),
        Rev::new(0usize..50),
    ));
    assert_eq!(z.size_hint(), (3, Some(3)));
    assert_eq!(z.next(), Some((0, 0, 0, 0, 0, 0, -1, &1u64, 49)));
    assert_eq!(z.next(), Some((1, 1, 1, 1, 1, 1, 0, &2u64, 48)));
    assert_eq!(z.next(), Some((2, 2, 2, 2, 2, 2, 1, &3u64, 47)));
    assert_eq!(z.next(), None);
    assert_eq!(z.size_hint(), (0, Some(0)));
}

#[test]
fn ranges_of_every_width() {
    let mut a = -2i32..1;
    assert_eq!(Sequence::size_hint(&a), (3, Some(3)));
    assert_eq!(drain(&mut a), vec![-2, -1, 0]);
    let wide = i32::MIN..i32::MAX;
    assert_eq!(Sequence::size_hint(&wide), (4294967295, Some(4294967295)));
    let mut b = 254u8..255;
    assert_eq!(Sequence::next(&mut b), Some(254));
    assert_eq!(Sequence::next(&mut b), None);
    let all = i8::MIN..i8::MAX;
    assert_eq!(Sequence::size_hint(&all), (255, Some(255)));
    let all = i16::MIN..i16::MAX;
    assert_eq!(Sequence::size_hint(&all), (65535, Some(65535)));
    let back = 5u16..2;
    assert_eq!(Sequence::size_hint(&back), (0, Some(0)));
    let mut back = 5usize..2;
    assert_eq!(Sequence::next(&mut back), None);
    assert_eq!(DoubleEnded::next_back(&mut back), None);
    assert_eq!(back, 5..2);
}

#[test]
fn reversal_runs_from_the_far_end() {
    let mut r = Rev::new(0u32..4);
    assert_eq!(r.size_hint(), (4, Some(4)));
    assert_eq!(r.next(), Some(3));
    assert_eq!(r.next_back(), Some(0));
    assert_eq!(drain(&mut r), vec![2, 1]);
    assert_eq!(r.next(), None);
    assert_eq!(r.next_back(), None);
}

#[test]
fn slice_traversal_from_both_ends() {
    let xs = [7u8, 8, 9, 10];
    let mut s = SliceIter::new(&xs);
    assert_eq!(s.size_hint(), (4, Some(4)));
    assert_eq!(s.next(), Some(&7));
    assert_eq!(s.next_back(), Some(&10));
    assert_eq!(s.size_hint(), (2, Some(2)));
    assert_eq!(drain(&mut s), vec![&8, &9]);
    assert_eq!(s.next(), None);
    assert_eq!(s.next_back(), None);
    let none: [u8; 0] = [];
    assert_eq!(SliceIter::new(&none).next(), None);
}

#[test]
fn owned_traversal_keeps_the_order() {
    let mut s = VecIter::new(vec![1u64, 2, 3, 4]);
    assert_eq!(s.size_hint(), (4, Some(4)));
    assert_eq!(s.next(), Some(1));
    assert_eq!(s.next_back(), Some(4));
    assert_eq!(drain(&mut s), vec![2, 3]);
    assert_eq!(s.size_hint(), (0, Some(0)));
    assert_eq!(VecIter::new(Vec::<u8>::new()).next(), None);
}

#[test]
fn limiting_cuts_off_and_counts_down() {
    let mut t = Take::new(0u32..10, 3);
    assert_eq!(drain(&mut t), vec![0, 1, 2]);
    assert_eq!(t.size_hint(), (0, Some(0)));
    let mut t = Take::new(0u32..2, 5);
    assert_eq!(t.size_hint(), (2, Some(2)));
    assert_eq!(drain(&mut t), vec![0, 1]);
    assert_eq!(t.size_hint(), (0, Some(0)));
    let mut t = Take::new(0u32..2, 0);
    assert_eq!(t.size_hint(), (0, Some(0)));
    assert_eq!(t.next(), None);
}

#[test]
fn trusted_three_side_by_side() {
    let mut xs = [0, 0, 0];
    let ys = [69, 107, 101];
    let mut z = ZipTrusted::new((0i32..100, 0usize..3, SliceIter::new(&ys)));
    while let Some((i, at, b)) = z.next() {
        xs[at] = i ^ *b;
    }
    assert_eq!(xs, [69, 106, 103]);
    assert_eq!(z.size_hint(), (0, Some(0)));
}
