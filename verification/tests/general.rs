use lockstep::sequence::{combine, lesser};
use lockstep::{drain, Rev, Sequence, SliceIter, Take, VecIter, Zip};

#[test]
fn general_zip_of_three_stops_at_the_shortest() {
    let xs = [10u8, 20, 30];
    let ys = vec!['a', 'b', 'c', 'd', 'e'];
    let mut z = Zip::new((SliceIter::new(&xs), VecIter::new(ys), 0u32..4));
    assert_eq!(z.next(), Some((&10u8, 'a', 0u32)));
    assert_eq!(z.next(), Some((&20u8, 'b', 1u32)));
    assert_eq!(z.next(), Some((&30u8, 'c', 2u32)));
    assert_eq!(z.next(), None);
    assert_eq!(z.next(), None);
}

#[test]
fn general_zip_count_is_the_least_length() {
    let mut z = Zip::new((0usize..3, 0usize..5, 0usize..4));
    assert_eq!(drain(&mut z).len(), 3);
    let mut z = Zip::new((0usize..7, 0usize..2));
    assert_eq!(drain(&mut z), vec![(0, 0), (1, 1)]);
    let mut z = Zip::new((0usize..7, 0usize..0));
    assert_eq!(drain(&mut z).len(), 0);
}

#[test]
fn general_zip_of_one() {
    let mut z = Zip::new((5i16..8,));
    assert_eq!(z.size_hint(), (3, Some(3)));
    assert_eq!(drain(&mut z), vec![(5i16,), (6,), (7,)]);
    assert_eq!(z.next(), None);
}

#[test]
fn general_zip_of_nine() {
    let mut z = Zip::new((
        0u8..9,
        0u8..8,
        0u8..7,
        0u8..6,
        0u8..2,
        0u8..4,
        0u8..3,
        0u8..5,
        10u8..20,
    ));
    assert_eq!(z.size_hint(), (2, Some(2)));
    assert_eq!(z.next(), Some((0, 0, 0, 0, 0, 0, 0, 0, 10)));
    assert_eq!(z.next(), Some((1, 1, 1, 1, 1, 1, 1, 1, 11)));
    assert_eq!(z.next(), None);
}

#[test]
fn general_zip_estimate_is_the_pairwise_least() {
    let z = Zip::new((0usize..3, 0usize..5, 0usize..4));
    assert_eq!(z.size_hint(), (3, Some(3)));
    let z = Zip::new((Take::new(0u32..100, 7), 0u32..9));
    assert_eq!(z.size_hint(), (7, Some(7)));
}

#[test]
fn combined_estimates() {
    assert_eq!(combine((3, Some(9)), (5, Some(7))), (3, Some(7)));
    assert_eq!(combine((5, Some(7)), (3, Some(9))), (3, Some(7)));
    assert_eq!(combine((3, None), (5, Some(7))), (3, None));
    assert_eq!(combine((3, Some(4)), (5, None)), (3, None));
    assert_eq!(combine((0, None), (0, None)), (0, None));
    assert_eq!(lesser(4, 9), 4);
    assert_eq!(lesser(9, 4), 4);
    assert_eq!(lesser(6, 6), 6);
}

#[test]
fn general_zip_estimate_is_stable() {
    let mut z = Zip::new((0usize..3, 0usize..5));
    assert_eq!(z.size_hint(), z.size_hint());
    assert_eq!(z.size_hint(), (3, Some(3)));
    z.next();
    assert_eq!(z.size_hint(), (2, Some(2)));
    assert_eq!(z.size_hint(), (2, Some(2)));
}

#[test]
fn terminating_step_consumes_the_earlier_components() {
    let mut z = Zip::new((0u32..5, 0u32..1, 0u32..5));
    assert_eq!(z.next(), Some((0, 0, 0)));
    assert_eq!(z.next(), None);
    let (a, b, c) = z.into_inner();
    assert_eq!(a, 2..5);
    assert_eq!(Sequence::size_hint(&b), (0, Some(0)));
    assert_eq!(c, 1..5);
}

#[test]
fn first_component_dry_leaves_the_rest_alone() {
    let mut z = Zip::new((0u32..0, 0u32..3));
    assert_eq!(z.next(), None);
    let (_, b) = z.into_inner();
    assert_eq!(b, 0..3);
}

#[test]
fn zip_of_zips() {
    let inner = Zip::new((0u8..3, 10u8..20));
    let mut z = Zip::new((inner, Rev::new(0i32..2)));
    assert_eq!(z.size_hint(), (2, Some(2)));
    assert_eq!(drain(&mut z), vec![((0, 10), 1), ((1, 11), 0)]);
}

#[test]
fn drain_leaves_nothing() {
    let mut r = 3usize..6;
    assert_eq!(drain(&mut r), vec![3, 4, 5]);
    assert_eq!(Sequence::size_hint(&r), (0, Some(0)));
    assert_eq!(drain(&mut r), Vec::<usize>::new());
}

#[test]
fn three_side_by_side() {
    let mut xs = [0, 0, 0];
    let ys = [69, 107, 101];
    let mut z = Zip::new((0i32..100, 0usize..3, SliceIter::new(&ys)));
    while let Some((i, at, b)) = z.next() {
        xs[at] = i ^ *b;
    }
    assert_eq!(xs, [69, 106, 103]);
}
