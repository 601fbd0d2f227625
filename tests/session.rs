use device_bridge::session::{Session, SessionTable};

fn session(connection_id: u64) -> Session {
    Session { device_id: [connection_id as u8; 16], connection_id, created_at: 1_700_000_000 }
}

#[test]
fn session_table_insert_get_remove() {
    let mut table = SessionTable::new();
    assert_eq!(table.get(&[1; 16]), None);
    assert_eq!(table.insert([1; 16], session(1)), None);
    assert_eq!(table.insert([2; 16], session(2)), None);
    assert_eq!(table.get(&[1; 16]), Some(session(1)));
    assert_eq!(table.get(&[2; 16]), Some(session(2)));
    assert_eq!(table.insert([1; 16], session(3)), Some(session(1)));
    assert_eq!(table.get(&[1; 16]), Some(session(3)));
    assert_eq!(table.remove(&[1; 16]), Some(session(3)));
    assert_eq!(table.get(&[1; 16]), None);
    assert_eq!(table.remove(&[1; 16]), None);
    assert_eq!(table.get(&[2; 16]), Some(session(2)));
}
