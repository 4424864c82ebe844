use esparse::ast::Loc;

#[test]
fn new_keeps_the_three_fields() {
    let loc = Loc::new(17, 3, 4);
    assert_eq!(loc.pos, 17);
    assert_eq!(loc.row, 3);
    assert_eq!(loc.col, 4);
    assert_eq!(loc, Loc { pos: 17, row: 3, col: 4 });
}

#[test]
fn new_does_not_validate() {
    let loc = Loc::new(0, usize::MAX, 7);
    assert_eq!(loc, Loc { pos: 0, row: usize::MAX, col: 7 });
}

#[test]
fn zero_is_all_zero() {
    assert_eq!(Loc::zero(), Loc { pos: 0, row: 0, col: 0 });
}

#[test]
fn default_is_zero() {
    assert_eq!(Loc::default(), Loc::zero());
    assert_eq!(Loc::default(), Loc::new(0, 0, 0));
}

#[test]
fn min_picks_the_smaller_pos() {
    let a = Loc::new(5, 2, 3);
    let b = Loc::new(8, 2, 6);
    assert_eq!(a.min(b), a);
    assert_eq!(b.min(a), a);
}

#[test]
fn max_picks_the_larger_pos() {
    let a = Loc::new(5, 2, 3);
    let b = Loc::new(8, 2, 6);
    assert_eq!(a.max(b), b);
    assert_eq!(b.max(a), b);
}

#[test]
fn min_ignores_row_and_col() {
    let a = Loc::new(5, 9, 9);
    let b = Loc::new(6, 0, 0);
    assert_eq!(a.min(b), a);
    assert_eq!(a.max(b), b);
}

#[test]
fn min_and_max_return_self_on_a_tie() {
    let a = Loc::new(5, 1, 1);
    let b = Loc::new(5, 2, 2);
    assert_eq!(a.min(b), a);
    assert_eq!(a.max(b), a);
    assert_eq!(b.min(a), b);
    assert_eq!(b.max(a), b);
}

#[test]
fn min_is_never_after_max() {
    let locs = [
        Loc::new(0, 0, 0),
        Loc::new(1, 0, 1),
        Loc::new(1, 5, 5),
        Loc::new(40, 3, 0),
        Loc::new(usize::MAX, 0, 0),
    ];
    for a in locs {
        for b in locs {
            let lo = a.min(b);
            let hi = a.max(b);
            assert!(lo.pos <= hi.pos);
            assert!(lo == a || lo == b);
            assert!(hi == a || hi == b);
            let mut got = [lo.pos, hi.pos];
            let mut want = [a.pos, b.pos];
            got.sort();
            want.sort();
            assert_eq!(got, want);
        }
    }
}

#[test]
fn loc_is_copied_freely() {
    let a = Loc::new(3, 1, 2);
    let b = a;
    let c = a.clone();
    assert_eq!(a, b);
    assert_eq!(a, c);
    assert_ne!(a, Loc::new(3, 1, 3));
}
