use alyrasign::errors::AlyraSignError;
use alyrasign::identity::Address;
use alyrasign::identity::Identity;
use alyrasign::ledger::Ledger;
use alyrasign::records::Formation;
use alyrasign::records::Presence;
use alyrasign::records::Session;
use alyrasign::records::StudentGroup;

fn ident(n: u128) -> Identity {
    Identity { hi: n, lo: n }
}

fn addr(n: u128) -> Address {
    Address { hi: n, lo: n }
}

#[test]
fn string_at_declared_maximum_is_stored_losslessly() {
    let name = vec![b'x'; 100];
    let description = vec![b'y'; 500];
    let mut ledger = Ledger::new();
    let r = ledger.create_formation(ident(1), addr(10), name.clone(), description.clone());
    assert_eq!(r, Ok(()));
    let f = ledger.formations.get(addr(10)).unwrap();
    assert_eq!(f.name, name);
    assert_eq!(f.description, description);
}

#[test]
fn string_over_budget_is_rejected_and_nothing_persists() {
    let name = vec![b'x'; 101];
    let mut ledger = Ledger::new();
    let r = ledger.create_formation(ident(1), addr(10), name, b"d".to_vec());
    assert_eq!(r, Err(AlyraSignError::CapacityExceeded));
    assert!(ledger.formations.get(addr(10)).is_none());

    let description = vec![b'y'; 501];
    let r = ledger.create_formation(ident(1), addr(10), b"n".to_vec(), description);
    assert_eq!(r, Err(AlyraSignError::CapacityExceeded));
    assert!(ledger.formations.get(addr(10)).is_none());
}

#[test]
fn session_description_over_budget_is_rejected() {
    let mut ledger = Ledger::new();
    assert_eq!(ledger.create_formation(ident(1), addr(10), b"f".to_vec(), b"d".to_vec()), Ok(()));
    let description = vec![b'z'; 501];
    let r = ledger.create_session(ident(1), addr(11), addr(10), 0, description);
    assert_eq!(r, Err(AlyraSignError::CapacityExceeded));
    assert!(ledger.sessions.get(addr(11)).is_none());
}

#[test]
fn formation_new_checks_capacities() {
    let ok = Formation::new(ident(1), vec![b'a'; 100], vec![b'b'; 500]);
    assert!(ok.is_ok());
    let too_long = Formation::new(ident(1), vec![b'a'; 101], Vec::new());
    assert_eq!(too_long.unwrap_err(), AlyraSignError::CapacityExceeded);
}

#[test]
fn session_new_checks_capacities() {
    let ok = Session::new(ident(1), addr(2), 77, vec![b'a'; 500]);
    let s = ok.unwrap();
    assert_eq!(s.date, 77);
    assert_eq!(s.authority, ident(1));
    assert_eq!(s.formation, addr(2));
    let too_long = Session::new(ident(1), addr(2), 77, vec![b'a'; 501]);
    assert_eq!(too_long.unwrap_err(), AlyraSignError::CapacityExceeded);
}

#[test]
fn presence_new_starts_unvalidated() {
    let p = Presence::new(ident(5), addr(6), 42);
    assert!(!p.is_validated);
    assert_eq!(p.student, ident(5));
    assert_eq!(p.session, addr(6));
    assert_eq!(p.timestamp, 42);
    let q = p.validated();
    assert!(q.is_validated);
    assert_eq!(q.student, p.student);
}

#[test]
fn group_list_entry_over_budget_is_rejected() {
    let students = vec![vec![b's'; 101]];
    let r = StudentGroup::new(ident(1), b"g".to_vec(), students, Vec::new());
    assert_eq!(r.unwrap_err(), AlyraSignError::CapacityExceeded);
}

#[test]
fn group_list_too_many_entries_is_rejected() {
    let students: Vec<Vec<u8>> = (0..31).map(|i: u8| vec![i]).collect();
    let r = StudentGroup::new(ident(1), b"g".to_vec(), students, Vec::new());
    assert_eq!(r.unwrap_err(), AlyraSignError::CapacityExceeded);
}

#[test]
fn group_lists_at_maximum_are_stored_losslessly() {
    let students: Vec<Vec<u8>> = (0..30).map(|_| vec![b's'; 100]).collect();
    let formations: Vec<Vec<u8>> = (0..30).map(|_| vec![b'f'; 100]).collect();
    let g = StudentGroup::new(ident(1), vec![b'n'; 100], students.clone(), formations.clone())
        .unwrap();
    assert_eq!(g.students, students);
    assert_eq!(g.formations, formations);
    assert_eq!(g.authority, ident(1));
}
