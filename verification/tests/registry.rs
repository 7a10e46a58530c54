use bitcomm::registry::{ClientPoolRegistry, ClientSession, RegistryError};

fn session(connection: u64) -> ClientSession {
    ClientSession { connection, online: true }
}

#[test]
fn new_registry_is_empty() {
    let registry = ClientPoolRegistry::new();
    assert_eq!(registry.len(), 0);
    assert_eq!(registry.list(), Vec::<u64>::new());
    assert_eq!(registry.lookup(1), None);
}

#[test]
fn register_then_lookup() {
    let mut registry = ClientPoolRegistry::new();
    assert_eq!(registry.register(7, session(70)), Ok(()));
    assert_eq!(registry.register(3, ClientSession { connection: 30, online: false }), Ok(()));
    assert_eq!(registry.lookup(7), Some(session(70)));
    assert_eq!(registry.lookup(3), Some(ClientSession { connection: 30, online: false }));
    assert_eq!(registry.lookup(70), None);
    assert_eq!(registry.len(), 2);
}

#[test]
fn second_registration_is_refused_and_changes_nothing() {
    let mut registry = ClientPoolRegistry::new();
    assert_eq!(registry.register(7, session(70)), Ok(()));
    assert_eq!(registry.register(7, session(71)), Err(RegistryError::AlreadyExists));
    assert_eq!(registry.lookup(7), Some(session(70)));
    assert_eq!(registry.list(), vec![7]);
}

#[test]
fn deregister_hands_the_session_back() {
    let mut registry = ClientPoolRegistry::new();
    registry.register(1, session(10)).unwrap();
    registry.register(2, session(20)).unwrap();
    assert_eq!(registry.deregister(1), Ok(session(10)));
    assert_eq!(registry.lookup(1), None);
    assert_eq!(registry.lookup(2), Some(session(20)));
    assert_eq!(registry.deregister(1), Err(RegistryError::NotFound));
    assert_eq!(registry.len(), 1);
}

#[test]
fn deregister_of_unknown_id_is_not_found() {
    let mut registry = ClientPoolRegistry::new();
    assert_eq!(registry.deregister(5), Err(RegistryError::NotFound));
    registry.register(4, session(1)).unwrap();
    assert_eq!(registry.deregister(5), Err(RegistryError::NotFound));
    assert_eq!(registry.list(), vec![4]);
}

#[test]
fn list_is_in_order_of_registration() {
    let mut registry = ClientPoolRegistry::new();
    for id in [9u64, 2, 7, 4] {
        registry.register(id, session(id * 10)).unwrap();
    }
    assert_eq!(registry.list(), vec![9, 2, 7, 4]);
    registry.deregister(2).unwrap();
    assert_eq!(registry.list(), vec![9, 7, 4]);
    registry.register(2, session(21)).unwrap();
    assert_eq!(registry.list(), vec![9, 7, 4, 2]);
    assert_eq!(registry.lookup(2), Some(session(21)));
    registry.deregister(9).unwrap();
    registry.deregister(2).unwrap();
    assert_eq!(registry.list(), vec![7, 4]);
}

#[test]
fn the_last_operation_on_an_id_decides() {
    let mut registry = ClientPoolRegistry::new();
    // Four tasks work on ids 0..8, their operations interleaved.
    for round in 0..3u64 {
        for id in 0..8u64 {
            let _ = registry.register(id, session(round));
        }
        for id in (0..8u64).filter(|id| (id + round) % 2 == 0) {
            let _ = registry.deregister(id);
        }
    }
    // Last round is 2: even ids were deregistered last, odd ids registered.
    let mut ids = registry.list();
    ids.sort();
    assert_eq!(ids, vec![1, 3, 5, 7]);
    assert_eq!(registry.len(), 4);
    for id in [0u64, 2, 4, 6] {
        assert_eq!(registry.lookup(id), None);
    }
    // Id 1 was deregistered in round 1 and registered again in round 2.
    assert_eq!(registry.lookup(1), Some(session(2)));
}

#[test]
fn extreme_ids_are_ordinary() {
    let mut registry = ClientPoolRegistry::new();
    registry.register(u64::MAX, session(1)).unwrap();
    registry.register(0, session(2)).unwrap();
    assert_eq!(registry.lookup(u64::MAX), Some(session(1)));
    assert_eq!(registry.lookup(0), Some(session(2)));
    assert_eq!(registry.list(), vec![u64::MAX, 0]);
}
