use ownership::shared_cell::{read_twice_then_write, transcript, Record, SharedCell, HELPER_VALUE};

#[test]
fn a_fresh_cell_has_one_handle_and_no_view() {
    let cell = SharedCell::new(Record { field: 12 });
    assert_eq!(cell.handles(), 1);
    assert_eq!(cell.readers(), 0);
    assert!(!cell.is_writing());
    assert!(cell.can_borrow());
    assert!(cell.can_borrow_mut());
    assert!(cell.can_clone_handle());
    assert!(cell.can_drop_handle());
    assert!(cell.is_live());
}

#[test]
fn the_helper_value_is_forty_five() {
    assert_eq!(HELPER_VALUE, 45);
}

#[test]
fn what_the_helper_writes_is_read_through_the_first_handle() {
    let mut cell = SharedCell::new(Record { field: 12 });
    cell.clone_handle();
    assert_eq!(cell.handles(), 2);

    let lines = read_twice_then_write(&mut cell);
    assert_eq!(lines, vec!["the field, twice 12 12", "The field 45"]);

    assert_eq!(cell.handles(), 1);
    assert!(cell.can_borrow());
    cell.borrow();
    assert_eq!(cell.field(), 45);
    cell.release();
}

#[test]
fn the_helper_shows_the_field_as_it_found_it() {
    let mut cell = SharedCell::new(Record { field: -7 });
    cell.clone_handle();
    let lines = read_twice_then_write(&mut cell);
    assert_eq!(lines, vec!["the field, twice -7 -7", "The field 45"]);
}

#[test]
fn the_helper_leaves_no_view_out() {
    let mut cell = SharedCell::new(Record { field: 0 });
    cell.clone_handle();
    cell.clone_handle();
    let _ = read_twice_then_write(&mut cell);
    assert_eq!(cell.handles(), 2);
    assert_eq!(cell.readers(), 0);
    assert!(!cell.is_writing());
    assert!(cell.can_borrow_mut());
}

#[test]
fn the_helper_can_run_again_on_another_handle() {
    let mut cell = SharedCell::new(Record { field: 12 });
    cell.clone_handle();
    let _ = read_twice_then_write(&mut cell);
    cell.clone_handle();
    let lines = read_twice_then_write(&mut cell);
    assert_eq!(lines, vec!["the field, twice 45 45", "The field 45"]);
}

#[test]
fn many_read_only_views_are_out_at_once() {
    let mut cell = SharedCell::new(Record { field: 12 });
    for taken in 0..100 {
        assert!(cell.can_borrow());
        assert_eq!(cell.readers(), taken);
        cell.borrow();
        assert_eq!(cell.field(), 12);
    }
    assert_eq!(cell.readers(), 100);
}

#[test]
fn the_mutable_view_waits_for_the_last_read_only_view() {
    let mut cell = SharedCell::new(Record { field: 12 });
    cell.borrow();
    cell.borrow();
    assert!(!cell.can_borrow_mut());
    cell.release();
    assert!(!cell.can_borrow_mut());
    cell.release();
    assert!(cell.can_borrow_mut());
    cell.borrow_mut();
    assert!(cell.is_writing());
    cell.set_field(99);
    assert_eq!(cell.field(), 99);
    cell.release_mut();
    assert!(!cell.is_writing());
}

#[test]
fn no_view_is_taken_while_the_mutable_view_is_out() {
    let mut cell = SharedCell::new(Record { field: 12 });
    cell.borrow_mut();
    assert!(!cell.can_borrow());
    assert!(!cell.can_borrow_mut());
    cell.release_mut();
    assert!(cell.can_borrow());
    assert!(cell.can_borrow_mut());
}

#[test]
fn a_write_is_kept_after_the_mutable_view_is_given_back() {
    let mut cell = SharedCell::new(Record { field: 1 });
    cell.borrow_mut();
    cell.set_field(-2);
    cell.release_mut();
    cell.borrow();
    assert_eq!(cell.field(), -2);
    cell.release();
    assert_eq!(cell.readers(), 0);
}

#[test]
fn handles_are_counted_up_and_down() {
    let mut cell = SharedCell::new(Record { field: 12 });
    cell.clone_handle();
    cell.clone_handle();
    assert_eq!(cell.handles(), 3);
    assert!(cell.can_drop_handle());
    cell.drop_handle();
    cell.drop_handle();
    assert_eq!(cell.handles(), 1);
    assert!(cell.is_live());
    assert!(cell.can_drop_handle());
}

#[test]
fn the_helper_runs_on_the_only_handle() {
    let mut cell = SharedCell::new(Record { field: 12 });
    assert_eq!(cell.handles(), 1);
    let lines = read_twice_then_write(&mut cell);
    assert_eq!(lines, vec!["the field, twice 12 12", "The field 45"]);
    assert_eq!(cell.handles(), 0);
    assert_eq!(cell.readers(), 0);
    assert!(!cell.is_writing());
    assert!(!cell.is_live());
}

#[test]
fn after_the_last_handle_nothing_reaches_the_record() {
    let mut cell = SharedCell::new(Record { field: 12 });
    cell.drop_handle();
    assert_eq!(cell.handles(), 0);
    assert!(!cell.is_live());
    assert!(!cell.can_borrow());
    assert!(!cell.can_borrow_mut());
    assert!(!cell.can_clone_handle());
    assert!(!cell.can_drop_handle());
}

#[test]
fn the_last_handle_stays_while_a_view_is_out() {
    let mut cell = SharedCell::new(Record { field: 12 });
    cell.borrow();
    assert!(!cell.can_drop_handle());
    cell.release();
    assert!(cell.can_drop_handle());
    cell.borrow_mut();
    assert!(!cell.can_drop_handle());
    cell.release_mut();
    assert!(cell.can_drop_handle());
}

#[test]
fn one_of_several_handles_can_go_while_a_view_is_out() {
    let mut cell = SharedCell::new(Record { field: 12 });
    cell.clone_handle();
    cell.borrow();
    assert!(cell.can_drop_handle());
    cell.drop_handle();
    assert_eq!(cell.handles(), 1);
    assert_eq!(cell.readers(), 1);
    assert_eq!(cell.field(), 12);
    assert!(!cell.can_drop_handle());
}

#[test]
fn handles_do_not_touch_the_views_or_the_record() {
    let mut cell = SharedCell::new(Record { field: 8 });
    cell.borrow();
    cell.clone_handle();
    assert_eq!(cell.readers(), 1);
    assert_eq!(cell.field(), 8);
    cell.drop_handle();
    assert_eq!(cell.readers(), 1);
    assert_eq!(cell.field(), 8);
}

#[test]
fn records_compare_by_their_field() {
    assert_eq!(Record { field: 12 }, Record { field: 12 });
    assert_ne!(Record { field: 12 }, Record { field: 45 });
}

#[test]
fn the_shared_cell_transcript_shows_the_write_from_both_sides() {
    assert_eq!(
        transcript(),
        vec!["the field, twice 12 12", "The field 45", "The field 45"]
    );
}
