use bcell::{cell_pair, Cell, Token};

struct Wrapper<'a, T, const ID: usize> {
    cell: &'a Cell<T, ID>,
    token: &'a mut Token<ID>,
}

impl<'a, T, const ID: usize> Wrapper<'a, T, ID> {
    fn new(cell: &'a Cell<T, ID>, token: &'a mut Token<ID>) -> Self {
        Self { cell, token }
    }
}

#[test]
fn test_cell() {
    let (mut c1, mut t1) = cell_pair::<_, 0>(0);
    let (mut c2, mut t2) = cell_pair::<_, 1>(4);

    assert_eq!(*c1.borrow(&t1), 0);
    assert_eq!(*c2.borrow(&t2), 4);

    *c1.borrow_mut(&mut t1) += 1;
    *c2.borrow_mut(&mut t2) += 1;

    assert_eq!(*c1.borrow(&t1), 1);
    assert_eq!(*c2.borrow(&t2), 5);

    // does not type-check: the token is of another brand
    // let _ = c1.borrow(&t2);
}

#[test]
fn cell_multi_mut_borrow() {
    let (mut cell, mut token) = cell_pair::<_, 0>("Bread");

    let borrow1 = cell.borrow_mut(&mut token);
    // does not borrow-check: the token is already presented exclusively
    // let borrow2 = cell.borrow_mut(&mut token);

    assert_eq!(*borrow1, "Bread");
}

#[test]
fn cell_array_value() {
    let (mut cell, mut token) = cell_pair::<_, 0>([1, 2, 3, 4, 5]);

    assert_eq!(cell.borrow(&token), &[1, 2, 3, 4, 5]);

    let borrow_mut = cell.borrow_mut(&mut token);
    borrow_mut[0] = 9;

    assert_eq!(cell.borrow(&token), &[9, 2, 3, 4, 5]);

    let borrow = cell.borrow(&token);
    let slice = &borrow[2..4];
    let (cell_reffed, t2) = cell_pair::<_, 1>(slice);

    assert_eq!(*cell_reffed.borrow(&t2), &[3, 4]);
}

#[test]
fn complex_usage() {
    let (c1, t1) = cell_pair::<_, 0>(0);
    let (c2, mut t2) = cell_pair::<_, 1>(9);

    // does not type-check: cell and token are of different brands
    // let c3 = Wrapper::new(&c1, &mut t2);

    assert_eq!(*c2.borrow(&t2), 9);

    let (cell_reffed, t3) = cell_pair::<_, 2>(&c1);
    assert_eq!(*cell_reffed.borrow(&t3).borrow(&t1), 0);

    let wrapper = Wrapper::new(&c2, &mut t2);
    assert_eq!(*wrapper.cell.borrow(wrapper.token), 9);
}
