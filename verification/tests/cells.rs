use co_sync::delay_drop::DelayDrop;
use co_sync::option_cell::OptionCell;
use co_sync::slot::Slot;

#[test]
fn option_cell_gives_its_value_once() {
    let mut cell = OptionCell::new(41u32);
    assert!(cell.is_some());
    assert_eq!(*cell.deref(), 41);
    assert_eq!(cell.take(), 41);
    assert!(!cell.is_some());
}

#[test]
fn option_cell_reports_a_second_take() {
    let mut cell = OptionCell::new(String::from("once"));
    assert_eq!(cell.try_take(), Some(String::from("once")));
    assert_eq!(cell.try_take(), None);
    assert!(!cell.is_some());
}

#[test]
fn slot_exchanges_its_occupant() {
    let mut slot: Slot<u32> = Slot::none();
    assert!(slot.is_none());
    assert_eq!(slot.swap(1), None);
    assert!(!slot.is_none());
    assert_eq!(slot.swap(2), Some(1));
    assert_eq!(slot.take(), Some(2));
    assert_eq!(slot.take(), None);
    assert!(slot.is_none());
}

#[test]
fn slot_made_full_holds_the_value() {
    let mut slot = Slot::some('x');
    assert!(!slot.is_none());
    assert_eq!(slot.take(), Some('x'));
}

#[test]
fn delay_drop_is_held_between_acquire_and_release() {
    let mut guard = DelayDrop::new();
    assert!(guard.can_drop());
    guard.delay_drop();
    assert!(!guard.can_drop());
    guard.release();
    assert!(guard.can_drop());
    guard.delay_drop();
    guard.reset();
    assert!(guard.can_drop());
}
