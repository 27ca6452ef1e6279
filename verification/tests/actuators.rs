use simon_says::actuators::ActuatorArray;

#[test]
fn a_new_row_is_dark() {
    let row = ActuatorArray::new(4);
    assert_eq!(row.len(), 4);
    assert_eq!(row.pattern(), vec![false, false, false, false]);
    assert_eq!(ActuatorArray::new(0).pattern(), Vec::<bool>::new());
}

#[test]
fn set_turns_one_output_on() {
    let mut row = ActuatorArray::new(4);
    row.set(2);
    assert_eq!(row.pattern(), vec![false, false, true, false]);
    assert!(row.is_lit(2));
    assert!(!row.is_lit(1));
}

#[test]
fn set_does_not_clear_the_others() {
    let mut row = ActuatorArray::new(4);
    row.set(0);
    row.set(3);
    assert_eq!(row.pattern(), vec![true, false, false, true]);
    row.clear(0);
    assert_eq!(row.pattern(), vec![false, false, false, true]);
}

#[test]
fn all_on_and_all_off() {
    let mut row = ActuatorArray::new(3);
    row.all_on();
    assert_eq!(row.pattern(), vec![true, true, true]);
    row.all_off();
    assert_eq!(row.pattern(), vec![false, false, false]);
}

#[test]
fn set_range_on_lights_the_first_outputs() {
    let mut row = ActuatorArray::new(4);
    row.set_range_on(0);
    assert_eq!(row.pattern(), vec![false, false, false, false]);
    row.set_range_on(2);
    assert_eq!(row.pattern(), vec![true, true, false, false]);
    row.set_range_on(4);
    assert_eq!(row.pattern(), vec![true, true, true, true]);
}

#[test]
fn set_range_on_stops_at_the_end_of_the_row() {
    let mut row = ActuatorArray::new(4);
    row.set_range_on(9);
    assert_eq!(row.pattern(), vec![true, true, true, true]);
}

#[test]
fn set_range_on_keeps_what_was_lit() {
    let mut row = ActuatorArray::new(4);
    row.set(3);
    row.set_range_on(1);
    assert_eq!(row.pattern(), vec![true, false, false, true]);
}
