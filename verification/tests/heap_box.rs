use ownership::heap_box::{
    boxed_copy, first_box, overwrite, read, reassign, reassigned_box, overwrite_boxed_copy, transcript,
};

#[test]
fn read_gives_the_boxed_integer() {
    assert_eq!(read(&Box::new(75)), 75);
    assert_eq!(read(&Box::new(-1)), -1);
}

#[test]
fn a_changed_box_leaves_the_plain_integer_alone() {
    let (x, y) = overwrite_boxed_copy(3, 45);
    assert_eq!(x, 3);
    assert_eq!(*y, 45);
}

#[test]
fn a_changed_box_leaves_any_plain_integer_alone() {
    for original in [i32::MIN, -1, 0, 3, i32::MAX] {
        for value in [i32::MIN, 0, 45, i32::MAX] {
            let (x, y) = overwrite_boxed_copy(original, value);
            assert_eq!(x, original);
            assert_eq!(*y, value);
        }
    }
}

#[test]
fn after_reassigning_only_the_second_box_is_read() {
    let mut x = Box::new(74);
    let y = Box::new(42);
    reassign(&mut x, y);
    assert_eq!(read(&x), 42);
    assert_eq!(read(&x), 42);
    assert_eq!(*x, 42);
}

#[test]
fn reassigning_twice_keeps_the_last_box() {
    let mut x = Box::new(1);
    reassign(&mut x, Box::new(2));
    reassign(&mut x, Box::new(3));
    assert_eq!(read(&x), 3);
}

#[test]
fn overwrite_changes_the_integer_in_place() {
    let mut x = Box::new(42);
    overwrite(&mut x, 43);
    assert_eq!(read(&x), 43);
    overwrite(&mut x, -43);
    assert_eq!(read(&x), -43);
}

#[test]
fn overwrite_after_reassigning_changes_the_second_box() {
    let mut x = Box::new(74);
    reassign(&mut x, Box::new(42));
    overwrite(&mut x, 43);
    assert_eq!(read(&x), 43);
}

#[test]
fn the_first_box_holds_seventy_five() {
    assert_eq!(first_box(), "`x` points to 75");
}

#[test]
fn the_reassigned_box_is_shown_before_and_after_the_change() {
    assert_eq!(reassigned_box(), vec!["`x` points to 42", "`x` points to 43"]);
}

#[test]
fn the_plain_integer_is_still_three() {
    assert_eq!(boxed_copy(), "x is still 3");
}

#[test]
fn the_heap_box_transcript_has_four_lines() {
    assert_eq!(
        transcript(),
        vec!["`x` points to 75", "`x` points to 42", "`x` points to 43", "x is still 3"]
    );
}
