use resource_host::error::OpError;
use resource_host::table::ResourceTable;

#[test]
fn register_then_get_returns_the_same_resource() {
    let mut table: ResourceTable<&str> = ResourceTable::new();
    let rid = table.register("listener");
    assert_eq!(rid, 0);
    assert_eq!(table.get(rid), Ok(&"listener"));
    assert!(table.has(rid));
}

#[test]
fn get_of_a_handle_never_issued_is_invalid() {
    let mut table: ResourceTable<u8> = ResourceTable::new();
    assert_eq!(table.get(0), Err(OpError::InvalidHandle));
    table.register(7);
    assert_eq!(table.get(1), Err(OpError::InvalidHandle));
    assert_eq!(table.get(u32::MAX), Err(OpError::InvalidHandle));
    assert!(!table.has(1));
}

#[test]
fn remove_then_get_fails_with_invalid_handle() {
    let mut table: ResourceTable<String> = ResourceTable::new();
    let rid = table.register(String::from("stream"));
    assert_eq!(table.remove(rid), Ok(String::from("stream")));
    assert_eq!(table.get(rid), Err(OpError::InvalidHandle));
    assert!(!table.has(rid));
}

#[test]
fn remove_of_an_unknown_or_removed_handle_is_invalid() {
    let mut table: ResourceTable<u8> = ResourceTable::new();
    assert_eq!(table.remove(3), Err(OpError::InvalidHandle));
    let rid = table.register(1);
    assert_eq!(table.remove(rid), Ok(1));
    assert_eq!(table.remove(rid), Err(OpError::InvalidHandle));
}

#[test]
fn handles_are_issued_in_order_and_never_again() {
    let mut table: ResourceTable<char> = ResourceTable::new();
    assert_eq!(table.next_handle(), 0);
    assert_eq!(table.register('a'), 0);
    assert_eq!(table.register('b'), 1);
    assert_eq!(table.remove(0), Ok('a'));
    assert_eq!(table.remove(1), Ok('b'));
    // The table is empty again, yet the old handles do not come back.
    assert_eq!(table.register('c'), 2);
    assert_eq!(table.next_handle(), 3);
    assert_eq!(table.get(0), Err(OpError::InvalidHandle));
    assert_eq!(table.get(2), Ok(&'c'));
}

#[test]
fn removing_one_handle_leaves_the_others() {
    let mut table: ResourceTable<u32> = ResourceTable::new();
    let a = table.register(10);
    let b = table.register(20);
    let c = table.register(30);
    assert_eq!(table.remove(b), Ok(20));
    assert_eq!(table.get(a), Ok(&10));
    assert_eq!(table.get(c), Ok(&30));
}

#[test]
fn get_succeeds_exactly_for_what_is_registered() {
    // A fixed sequence of registrations (Some) and removals (None, handle).
    let steps: [(Option<u32>, u32); 9] = [
        (Some(100), 0),
        (Some(101), 0),
        (None, 0),
        (Some(102), 0),
        (None, 5),
        (None, 2),
        (Some(103), 0),
        (None, 0),
        (None, 1),
    ];
    let mut table: ResourceTable<u32> = ResourceTable::new();
    let mut expected: Vec<(u32, u32)> = Vec::new();
    let mut issued = 0u32;
    for (resource, rid) in steps {
        match resource {
            Some(value) => {
                assert_eq!(table.register(value), issued);
                expected.push((issued, value));
                issued += 1;
            }
            None => {
                let was = expected.iter().position(|entry| entry.0 == rid);
                match was {
                    Some(at) => {
                        let entry = expected.remove(at);
                        assert_eq!(table.remove(rid), Ok(entry.1));
                    }
                    None => assert_eq!(table.remove(rid), Err(OpError::InvalidHandle)),
                }
            }
        }
        for probe in 0..8u32 {
            match expected.iter().find(|entry| entry.0 == probe) {
                Some(entry) => assert_eq!(table.get(probe), Ok(&entry.1)),
                None => assert_eq!(table.get(probe), Err(OpError::InvalidHandle)),
            }
        }
    }
    assert_eq!(expected, vec![(3, 103)]);
}
