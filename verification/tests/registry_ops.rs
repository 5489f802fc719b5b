use property_registry::identity::Identity;
use property_registry::property::Property;
use property_registry::registry::Registry;

fn ident(bytes: &[u8]) -> Identity {
    Identity::from_bytes(bytes.to_vec())
}

fn assert_record(p: &Property, id: u64, name: &str, owner: &Identity, price: u64, is_leased: bool) {
    assert_eq!(p.id, id);
    assert_eq!(p.name, name);
    assert!(p.owner == *owner);
    assert_eq!(p.price, price);
    assert_eq!(p.is_leased, is_leased);
}

#[test]
fn empty_start() {
    let reg = Registry::new();
    assert!(reg.list().is_empty());
}

#[test]
fn register_appends() {
    let mut reg = Registry::new();
    let x = ident(&[1]);
    reg.register("A".to_string(), 100, x.clone(), 1);
    let records = reg.list();
    assert_eq!(records.len(), 1);
    assert_record(&records[0], 1, "A", &x, 100, false);
}

#[test]
fn insertion_order_preserved() {
    let mut reg = Registry::new();
    reg.register("c".to_string(), 7, ident(&[3]), 1);
    reg.register("b".to_string(), 9, ident(&[2]), 2);
    reg.register("a".to_string(), 5, ident(&[1]), 3);
    let ids: Vec<u64> = reg.list().iter().map(|p| p.id).collect();
    assert_eq!(ids, vec![1, 2, 3]);
}

#[test]
fn transfer_success() {
    let mut reg = Registry::new();
    let x = ident(&[1]);
    let y = ident(&[2]);
    reg.register("house".to_string(), 100, x, 5);
    let r = reg.transfer(5, &y);
    assert_eq!(r, Ok("Purchase successful!".to_string()));
    let records = reg.list();
    assert_eq!(records.len(), 1);
    assert_record(&records[0], 5, "house", &y, 100, false);
}

#[test]
fn transfer_self_rejected() {
    let mut reg = Registry::new();
    let x = ident(&[1]);
    reg.register("house".to_string(), 100, x.clone(), 5);
    let r = reg.transfer(5, &x);
    assert_eq!(r, Err("You already own this property".to_string()));
    let records = reg.list();
    assert_record(&records[0], 5, "house", &x, 100, false);
}

#[test]
fn transfer_missing_id() {
    let mut reg = Registry::new();
    let x = ident(&[1]);
    reg.register("house".to_string(), 100, x.clone(), 5);
    let before = reg.list();
    let r = reg.transfer(999, &ident(&[9]));
    assert_eq!(r, Err("Property not found".to_string()));
    let after = reg.list();
    assert_eq!(before.len(), after.len());
    for (b, a) in before.iter().zip(after.iter()) {
        assert_record(a, b.id, &b.name, &b.owner, b.price, b.is_leased);
    }
}

#[test]
fn transfer_on_empty_registry() {
    let mut reg = Registry::new();
    let r = reg.transfer(1, &ident(&[1]));
    assert_eq!(r, Err("Property not found".to_string()));
    assert!(reg.list().is_empty());
}

#[test]
fn transfer_leaves_other_records_alone() {
    let mut reg = Registry::new();
    let x = ident(&[1]);
    let y = ident(&[2]);
    reg.register("first".to_string(), 10, x.clone(), 5);
    reg.register("second".to_string(), 20, x.clone(), 6);
    reg.register("third".to_string(), 30, x.clone(), 7);
    let r = reg.transfer(6, &y);
    assert_eq!(r, Ok("Purchase successful!".to_string()));
    let records = reg.list();
    assert_record(&records[0], 5, "first", &x, 10, false);
    assert_record(&records[1], 6, "second", &y, 20, false);
    assert_record(&records[2], 7, "third", &x, 30, false);
}

#[test]
fn transfer_touches_first_of_duplicate_ids() {
    // The host's time source may repeat a timestamp, so two records can share
    // an identifier; the transfer must reassign only the earliest one.
    let mut reg = Registry::new();
    let x = ident(&[1]);
    let y = ident(&[2]);
    reg.register("early".to_string(), 10, x.clone(), 5);
    reg.register("late".to_string(), 20, x.clone(), 5);
    let r = reg.transfer(5, &y);
    assert_eq!(r, Ok("Purchase successful!".to_string()));
    let records = reg.list();
    assert_record(&records[0], 5, "early", &y, 10, false);
    assert_record(&records[1], 5, "late", &x, 20, false);
}

#[test]
fn transfer_finds_first_unowned_only_by_position() {
    // With duplicate identifiers the earliest match decides: when the caller
    // already owns that one, the call fails even though a later record with
    // the same identifier belongs to someone else.
    let mut reg = Registry::new();
    let x = ident(&[1]);
    let y = ident(&[2]);
    reg.register("early".to_string(), 10, x.clone(), 5);
    reg.register("late".to_string(), 20, y.clone(), 5);
    let r = reg.transfer(5, &x);
    assert_eq!(r, Err("You already own this property".to_string()));
    let records = reg.list();
    assert_record(&records[0], 5, "early", &x, 10, false);
    assert_record(&records[1], 5, "late", &y, 20, false);
}

#[test]
fn register_accepts_any_name_and_price() {
    let mut reg = Registry::new();
    let x = ident(&[1]);
    reg.register("".to_string(), 0, x.clone(), 0);
    reg.register("".to_string(), u64::MAX, x.clone(), u64::MAX);
    let records = reg.list();
    assert_record(&records[0], 0, "", &x, 0, false);
    assert_record(&records[1], u64::MAX, "", &x, u64::MAX, false);
}

#[test]
fn list_is_a_snapshot_not_a_live_view() {
    let mut reg = Registry::new();
    let x = ident(&[1]);
    let y = ident(&[2]);
    reg.register("house".to_string(), 100, x.clone(), 5);
    let snapshot = reg.list();
    reg.transfer(5, &y).unwrap();
    assert!(snapshot[0].owner == x);
    assert!(reg.list()[0].owner == y);
}

#[test]
fn identity_equality_is_byte_equality() {
    assert!(ident(&[1, 2, 3]) == ident(&[1, 2, 3]));
    assert!(ident(&[1, 2, 3]) != ident(&[1, 2]));
    assert!(ident(&[1, 2, 3]) != ident(&[1, 2, 4]));
    assert!(ident(&[]) == ident(&[]));
}
