use sqlbrowse::{AsyncResource, ResourceCell};

fn is_idle<T>(cell: &ResourceCell<T>) -> bool {
    matches!(cell.state(), AsyncResource::Idle)
}

#[test]
fn new_resource_is_idle() {
    let cell: ResourceCell<u32> = AsyncResource::new();
    assert!(is_idle(&cell));
    assert_eq!(cell.loads_started(), 0);
}

#[test]
fn load_then_success_is_loaded() {
    let mut cell: ResourceCell<u32> = AsyncResource::new();
    let start = AsyncResource::load(&mut cell);
    assert!(start.cancelled.is_none());
    assert!(cell.is_loading());
    assert!(AsyncResource::finish_load(&mut cell, start.handle, Ok(7)));
    assert_eq!(cell.value(), Some(&7));
}

#[test]
fn newer_load_supersedes_older() {
    let mut cell: ResourceCell<&str> = AsyncResource::new();
    let a = AsyncResource::load(&mut cell);
    let b = AsyncResource::load(&mut cell);
    assert_eq!(b.cancelled, Some(a.handle));
    assert_ne!(a.handle, b.handle);
    assert!(!AsyncResource::finish_load(&mut cell, a.handle, Ok("from A")));
    assert!(cell.is_loading());
    assert!(AsyncResource::finish_load(&mut cell, b.handle, Ok("from B")));
    assert_eq!(cell.value(), Some(&"from B"));
    assert!(!AsyncResource::finish_load(&mut cell, a.handle, Err("late".to_string())));
    assert_eq!(cell.value(), Some(&"from B"));
}

#[test]
fn maybe_load_without_value_is_idle() {
    let mut cell: ResourceCell<u32> = AsyncResource::new();
    let start = AsyncResource::maybe_load(&mut cell);
    assert!(AsyncResource::finish_maybe_load(&mut cell, start.handle, Ok(None)));
    assert!(is_idle(&cell));
    let again = AsyncResource::maybe_load(&mut cell);
    assert!(AsyncResource::finish_maybe_load(&mut cell, again.handle, Ok(Some(3))));
    assert_eq!(cell.value(), Some(&3));
}

#[test]
fn failed_load_keeps_message() {
    let mut cell: ResourceCell<u32> = AsyncResource::new();
    let start = AsyncResource::load(&mut cell);
    assert!(AsyncResource::finish_load(&mut cell, start.handle, Err("no such table: x".to_string())));
    match cell.state() {
        AsyncResource::Error(m) => assert_eq!(m, "no such table: x"),
        _ => panic!("expected an error state"),
    }
}

#[test]
fn set_idle_cancels_load_in_flight() {
    let mut cell: ResourceCell<u32> = AsyncResource::new();
    let start = AsyncResource::load(&mut cell);
    assert_eq!(AsyncResource::set_idle(&mut cell), Some(start.handle));
    assert!(is_idle(&cell));
    assert!(!AsyncResource::finish_load(&mut cell, start.handle, Ok(1)));
    assert!(is_idle(&cell));
}

#[test]
fn set_value_replaces_state() {
    let mut cell: ResourceCell<u32> = AsyncResource::new();
    let start = AsyncResource::load(&mut cell);
    assert_eq!(AsyncResource::set_value(&mut cell, 9), Some(start.handle));
    assert_eq!(cell.value(), Some(&9));
    assert_eq!(AsyncResource::set_value(&mut cell, 10), None);
    assert_eq!(cell.value(), Some(&10));
}

#[test]
fn take_value_only_from_loaded() {
    let mut cell: ResourceCell<String> = AsyncResource::new();
    assert_eq!(AsyncResource::take_value(&mut cell), None);
    let start = AsyncResource::load(&mut cell);
    assert_eq!(AsyncResource::take_value(&mut cell), None);
    assert!(cell.is_loading());
    assert!(AsyncResource::finish_load(&mut cell, start.handle, Ok("v".to_string())));
    assert_eq!(AsyncResource::take_value(&mut cell), Some("v".to_string()));
    assert!(is_idle(&cell));
    assert_eq!(AsyncResource::take_value(&mut cell), None);
}
