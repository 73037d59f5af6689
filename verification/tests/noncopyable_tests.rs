use timelog::noncopyable::NonCopyable;

struct Connection {
    id: u32,
    _marker: NonCopyable,
}

#[test]
fn marker_can_be_made() {
    let _marker = NonCopyable::new();
}

#[test]
fn marker_takes_no_space() {
    assert_eq!(std::mem::size_of::<NonCopyable>(), 0);
}

#[test]
fn marker_can_be_held_and_moved() {
    let first = Connection { id: 7, _marker: NonCopyable::new() };
    let moved = first;
    assert_eq!(moved.id, 7);
}
