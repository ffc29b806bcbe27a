use pointers::cell::Cell;

struct SomeStruct {
    regular_field: u8,
    special_field: Cell<u8>,
}

#[test]
fn test_cell() {
    let my_struct = SomeStruct { regular_field: 0, special_field: Cell::new(1) };

    let new_value = 100;
    my_struct.special_field.set(new_value);
    assert_eq!(my_struct.special_field.get(), new_value);
    assert_eq!(my_struct.regular_field, 0);
}

#[test]
fn cell_get_reads_initial_value() {
    let cell = Cell::new(7u32);
    assert_eq!(cell.get(), 7);
    assert_eq!(cell.get(), 7);
}

#[test]
fn cell_set_through_two_shared_references() {
    let cell = Cell::new(1i64);
    let first = &cell;
    let second = &cell;
    first.set(2);
    assert_eq!(second.get(), 2);
    second.set(-3);
    assert_eq!(first.get(), -3);
}

#[test]
fn cell_set_replaces_a_value_that_is_not_copy() {
    let cell = Cell::new(String::from("before"));
    cell.set(String::from("after"));
    cell.set(String::from("last"));
}

#[test]
fn cell_read_then_write_counts_up() {
    let cell = Cell::new(0usize);
    for _ in 0..1000 {
        let val = cell.get();
        cell.set(val + 1);
    }
    assert_eq!(cell.get(), 1000);
}
