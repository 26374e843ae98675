use alyrasign::errors::AlyraSignError;
use alyrasign::identity::Address;
use alyrasign::identity::Identity;
use alyrasign::ledger::Ledger;

fn ident(n: u128) -> Identity {
    Identity { hi: n, lo: n.wrapping_mul(7) }
}

fn addr(n: u128) -> Address {
    Address { hi: n, lo: n.wrapping_mul(13) }
}

/// The full walkthrough: formation by A, session by A, presence by B,
/// validation by A succeeds, the same call by C fails unauthorized.
#[test]
fn scenario_full_walkthrough() {
    let a = ident(1);
    let b = ident(2);
    let c = ident(3);
    let fa = addr(10);
    let sa = addr(11);
    let pa = addr(12);

    let mut ledger = Ledger::new();
    let r = ledger.create_formation(a, fa, b"Blockchain 101".to_vec(), b"intro".to_vec());
    assert_eq!(r, Ok(()));
    let r = ledger.create_session(a, sa, fa, 1_700_000_000, b"Week 1".to_vec());
    assert_eq!(r, Ok(()));
    let r = ledger.register_presence(b, pa, sa, 1_700_003_600);
    assert_eq!(r, Ok(()));

    let p = ledger.presences.get(pa).unwrap();
    assert!(!p.is_validated);
    assert_eq!(p.student, b);
    assert_eq!(p.session, sa);

    // an identity other than the session authority is refused
    let r = ledger.validate_presence(c, pa, sa);
    assert_eq!(r, Err(AlyraSignError::UnauthorizedValidation));
    assert!(!ledger.presences.get(pa).unwrap().is_validated);

    // the session authority succeeds, observably
    let r = ledger.validate_presence(a, pa, sa);
    assert_eq!(r, Ok(()));
    let p = ledger.presences.get(pa).unwrap();
    assert!(p.is_validated);
    assert_eq!(p.student, b);
    assert_eq!(p.timestamp, 1_700_003_600);
}

#[test]
fn creation_succeeds_once_per_address() {
    let a = ident(1);
    let b = ident(2);
    let fa = addr(10);
    let mut ledger = Ledger::new();
    assert_eq!(ledger.create_formation(a, fa, b"one".to_vec(), b"first".to_vec()), Ok(()));
    // a retried creation at the same address fails, whoever calls
    assert_eq!(
        ledger.create_formation(b, fa, b"two".to_vec(), b"second".to_vec()),
        Err(AlyraSignError::AlreadyExists)
    );
    // the stored record is the first one, untouched
    let f = ledger.formations.get(fa).unwrap();
    assert_eq!(f.authority, a);
    assert_eq!(f.name, b"one".to_vec());
    assert_eq!(f.description, b"first".to_vec());
}

#[test]
fn session_requires_existing_formation() {
    let a = ident(1);
    let mut ledger = Ledger::new();
    let r = ledger.create_session(a, addr(11), addr(10), 0, b"w".to_vec());
    assert_eq!(r, Err(AlyraSignError::NotFound));
    assert!(ledger.sessions.get(addr(11)).is_none());
}

#[test]
fn presence_requires_existing_session() {
    let a = ident(1);
    let mut ledger = Ledger::new();
    let r = ledger.register_presence(a, addr(12), addr(11), 5);
    assert_eq!(r, Err(AlyraSignError::NotFound));
    assert!(ledger.presences.get(addr(12)).is_none());
}

#[test]
fn new_presence_starts_unvalidated() {
    let a = ident(1);
    let b = ident(2);
    let mut ledger = Ledger::new();
    assert_eq!(ledger.create_formation(a, addr(10), b"f".to_vec(), b"d".to_vec()), Ok(()));
    assert_eq!(ledger.create_session(a, addr(11), addr(10), 7, b"s".to_vec()), Ok(()));
    assert_eq!(ledger.register_presence(b, addr(12), addr(11), 8), Ok(()));
    assert!(!ledger.presences.get(addr(12)).unwrap().is_validated);
}

#[test]
fn validate_unknown_presence_not_found() {
    let a = ident(1);
    let mut ledger = Ledger::new();
    let r = ledger.validate_presence(a, addr(12), addr(11));
    assert_eq!(r, Err(AlyraSignError::NotFound));
}

#[test]
fn validate_with_wrong_session_not_found() {
    let a = ident(1);
    let b = ident(2);
    let mut ledger = Ledger::new();
    assert_eq!(ledger.create_formation(a, addr(10), b"f".to_vec(), b"d".to_vec()), Ok(()));
    assert_eq!(ledger.create_session(a, addr(11), addr(10), 7, b"s1".to_vec()), Ok(()));
    assert_eq!(ledger.create_session(a, addr(13), addr(10), 8, b"s2".to_vec()), Ok(()));
    assert_eq!(ledger.register_presence(b, addr(12), addr(11), 9), Ok(()));
    // the supplied session is not the one the presence references
    let r = ledger.validate_presence(a, addr(12), addr(13));
    assert_eq!(r, Err(AlyraSignError::NotFound));
    assert!(!ledger.presences.get(addr(12)).unwrap().is_validated);
}

#[test]
fn revalidation_by_authority_is_idempotent() {
    let a = ident(1);
    let b = ident(2);
    let mut ledger = Ledger::new();
    assert_eq!(ledger.create_formation(a, addr(10), b"f".to_vec(), b"d".to_vec()), Ok(()));
    assert_eq!(ledger.create_session(a, addr(11), addr(10), 7, b"s".to_vec()), Ok(()));
    assert_eq!(ledger.register_presence(b, addr(12), addr(11), 9), Ok(()));
    assert_eq!(ledger.validate_presence(a, addr(12), addr(11)), Ok(()));
    assert!(ledger.presences.get(addr(12)).unwrap().is_validated);
    // a repeated validation by the authority is a harmless no-op
    assert_eq!(ledger.validate_presence(a, addr(12), addr(11)), Ok(()));
    assert!(ledger.presences.get(addr(12)).unwrap().is_validated);
}

#[test]
fn validation_leaves_other_records_alone() {
    let a = ident(1);
    let b = ident(2);
    let c = ident(3);
    let mut ledger = Ledger::new();
    assert_eq!(ledger.create_formation(a, addr(10), b"f".to_vec(), b"d".to_vec()), Ok(()));
    assert_eq!(ledger.create_session(a, addr(11), addr(10), 7, b"s".to_vec()), Ok(()));
    assert_eq!(ledger.register_presence(b, addr(12), addr(11), 9), Ok(()));
    assert_eq!(ledger.register_presence(c, addr(13), addr(11), 10), Ok(()));
    assert_eq!(ledger.validate_presence(a, addr(12), addr(11)), Ok(()));
    // the untouched presence keeps its flag
    assert!(!ledger.presences.get(addr(13)).unwrap().is_validated);
    assert!(ledger.presences.get(addr(12)).unwrap().is_validated);
}

#[test]
fn student_group_stored_under_caller() {
    let a = ident(9);
    let mut ledger = Ledger::new();
    let students = vec![b"alice".to_vec(), b"bob".to_vec()];
    let formations = vec![b"rust".to_vec()];
    let r = ledger.create_student_group(a, addr(20), b"cohort".to_vec(), students, formations);
    assert_eq!(r, Ok(()));
    let g = ledger.groups.get(addr(20)).unwrap();
    assert_eq!(g.authority, a);
    assert_eq!(g.name, b"cohort".to_vec());
    assert_eq!(g.students, vec![b"alice".to_vec(), b"bob".to_vec()]);
    assert_eq!(g.formations, vec![b"rust".to_vec()]);
    // same address refused on retry
    let r = ledger.create_student_group(a, addr(20), b"again".to_vec(), vec![], vec![]);
    assert_eq!(r, Err(AlyraSignError::AlreadyExists));
}

#[test]
fn error_messages_are_descriptive() {
    assert_eq!(
        AlyraSignError::UnauthorizedValidation.message(),
        "only the session authority may validate presences"
    );
    assert_eq!(AlyraSignError::AlreadyExists.message(), "a record already exists at this address");
    assert_eq!(AlyraSignError::NotFound.message(), "a referenced record was not found");
    assert_eq!(
        AlyraSignError::CapacityExceeded.message(),
        "a field exceeds its declared capacity"
    );
}
