use vstd::prelude::*;

use crate::capacity::DESCRIPTION_MAX_BYTES;
use crate::capacity::GROUP_LIST_MAX_ITEMS;
use crate::capacity::GROUP_MEMBER_MAX_BYTES;
use crate::capacity::NAME_MAX_BYTES;
use crate::errors::AlyraSignError;
use crate::identity::Address;
use crate::identity::Identity;

verus! {

// The four record kinds. Each value is built exactly once, through its `new`
// function, which enforces the declared capacities of every bounded field:
// content over a declared maximum is rejected with CapacityExceeded and
// nothing is built, never truncated. Authority fields are set from the
// creating caller's verified identity and no record offers a way to reassign
// them afterwards.

/// The root record kind: a course of study, owned by the identity that
/// created it. Children reference it by address; it holds no back-references.
#[derive(Debug)]
pub struct Formation {
    /// The owning identity, set at creation, immutable.
    pub authority: Identity,
    /// Bounded name, at most `NAME_MAX_BYTES` bytes.
    pub name: Vec<u8>,
    /// Bounded description, at most `DESCRIPTION_MAX_BYTES` bytes.
    pub description: Vec<u8>,
}

/// One sitting of a formation. The formation reference is declarative: the
/// store checks that some formation record exists at that address when the
/// session is created, and nothing more.
#[derive(Debug)]
pub struct Session {
    /// Address of the Formation this session belongs to.
    pub formation: Address,
    /// Timestamp of the sitting.
    pub date: i64,
    /// Bounded description, at most `DESCRIPTION_MAX_BYTES` bytes.
    pub description: Vec<u8>,
    /// The owning identity, copied from the creating caller; the fixed set of
    /// validators for this session's presences.
    pub authority: Identity,
}

/// One participant's attendance claim for a session. `is_validated` starts
/// `false` and moves to `true` exactly through presence validation, never
/// back.
#[derive(Clone, Copy, PartialEq, Eq, Structural, Debug)]
pub struct Presence {
    /// Address of the Session this presence belongs to.
    pub session: Address,
    /// Identity of the registering participant.
    pub student: Identity,
    /// Timestamp of the registration.
    pub timestamp: i64,
    /// Whether the session authority has validated this presence.
    pub is_validated: bool,
}

/// An independent aggregate: a named list of participant and formation names
/// under one owning identity.
#[derive(Debug)]
pub struct StudentGroup {
    /// The owning identity, set at creation, immutable.
    pub authority: Identity,
    /// Bounded name, at most `NAME_MAX_BYTES` bytes.
    pub name: Vec<u8>,
    /// At most `GROUP_LIST_MAX_ITEMS` entries of at most
    /// `GROUP_MEMBER_MAX_BYTES` bytes each.
    pub students: Vec<Vec<u8>>,
    /// At most `GROUP_LIST_MAX_ITEMS` entries of at most
    /// `GROUP_MEMBER_MAX_BYTES` bytes each.
    pub formations: Vec<Vec<u8>>,
}

/// Whether every entry of a group list fits its declared capacities.
pub open spec fn group_list_fits(s: Seq<Vec<u8>>) -> bool {
    &&& s.len() <= GROUP_LIST_MAX_ITEMS
    &&& forall|i: int| 0 <= i < s.len() ==> (#[trigger] s[i])@.len() <= GROUP_MEMBER_MAX_BYTES
}

impl Formation {
    /// Whether the record honors its declared capacities.
    pub open spec fn wf(self) -> bool {
        &&& self.name@.len() <= NAME_MAX_BYTES
        &&& self.description@.len() <= DESCRIPTION_MAX_BYTES
    }

    /// Build a Formation owned by the creating caller. Fields over their
    /// declared capacity are rejected with CapacityExceeded; nothing is
    /// truncated.
    pub fn new(authority: Identity, name: Vec<u8>, description: Vec<u8>) -> (r: Result<
        Formation,
        AlyraSignError,
    >)
        ensures
            name@.len() <= NAME_MAX_BYTES && description@.len() <= DESCRIPTION_MAX_BYTES ==> r
                == Ok::<Formation, AlyraSignError>(
                (Formation { authority, name, description }),
            ),
            name@.len() > NAME_MAX_BYTES || description@.len() > DESCRIPTION_MAX_BYTES ==> r
                == Err::<Formation, AlyraSignError>(AlyraSignError::CapacityExceeded),
            r matches Ok(f) ==> f.wf(),
    {
        if name.len() as u64 > NAME_MAX_BYTES || description.len() as u64 > DESCRIPTION_MAX_BYTES {
            Err(AlyraSignError::CapacityExceeded)
        } else {
            Ok(Formation { authority, name, description })
        }
    }
}

impl Session {
    /// Whether the record honors its declared capacities.
    pub open spec fn wf(self) -> bool {
        self.description@.len() <= DESCRIPTION_MAX_BYTES
    }

    /// Build a Session of the given formation, owned by the creating caller.
    /// A description over its declared capacity is rejected with
    /// CapacityExceeded; nothing is truncated.
    pub fn new(authority: Identity, formation: Address, date: i64, description: Vec<u8>) -> (r:
        Result<Session, AlyraSignError>)
        ensures
            description@.len() <= DESCRIPTION_MAX_BYTES ==> r == Ok::<Session, AlyraSignError>(
                (Session { formation, date, description, authority }),
            ),
            description@.len() > DESCRIPTION_MAX_BYTES ==> r == Err::<Session, AlyraSignError>(
                AlyraSignError::CapacityExceeded,
            ),
            r matches Ok(s) ==> s.wf(),
    {
        if description.len() as u64 > DESCRIPTION_MAX_BYTES {
            Err(AlyraSignError::CapacityExceeded)
        } else {
            Ok(Session { formation, date, description, authority })
        }
    }
}

impl Presence {
    /// Build a Presence of the given session for the registering student.
    /// Every field is fixed-width, so nothing can exceed a capacity; the
    /// validation flag starts `false` and only presence validation sets it.
    pub fn new(student: Identity, session: Address, timestamp: i64) -> (r: Presence)
        ensures
            r == (Presence { session, student, timestamp, is_validated: false }),
    {
        Presence { session, student, timestamp, is_validated: false }
    }

    /// The same presence, marked validated; every other field is kept.
    pub fn validated(self) -> (r: Presence)
        ensures
            r == (Presence { is_validated: true, ..self }),
    {
        Presence { is_validated: true, ..self }
    }
}

impl StudentGroup {
    /// Whether the record honors its declared capacities.
    pub open spec fn wf(self) -> bool {
        &&& self.name@.len() <= NAME_MAX_BYTES
        &&& group_list_fits(self.students@)
        &&& group_list_fits(self.formations@)
    }

    /// Build a StudentGroup owned by the creating caller. A name, list or
    /// list entry over its declared capacity is rejected with
    /// CapacityExceeded; nothing is truncated.
    pub fn new(authority: Identity, name: Vec<u8>, students: Vec<Vec<u8>>, formations: Vec<
        Vec<u8>,
    >) -> (r: Result<StudentGroup, AlyraSignError>)
        ensures
            name@.len() <= NAME_MAX_BYTES && group_list_fits(students@) && group_list_fits(
                formations@,
            ) ==> r == Ok::<StudentGroup, AlyraSignError>(
                (StudentGroup { authority, name, students, formations }),
            ),
            name@.len() > NAME_MAX_BYTES || !group_list_fits(students@) || !group_list_fits(
                formations@,
            ) ==> r == Err::<StudentGroup, AlyraSignError>(AlyraSignError::CapacityExceeded),
            r matches Ok(g) ==> g.wf(),
    {
        if name.len() as u64 > NAME_MAX_BYTES {
            return Err(AlyraSignError::CapacityExceeded);
        }
        if !group_list_within(&students) || !group_list_within(&formations) {
            return Err(AlyraSignError::CapacityExceeded);
        }
        Ok(StudentGroup { authority, name, students, formations })
    }
}

/// Whether every entry of a group list fits its declared capacities, checked
/// entry by entry.
pub fn group_list_within(items: &Vec<Vec<u8>>) -> (r: bool)
    ensures
        r == group_list_fits(items@),
{
    if items.len() as u64 > GROUP_LIST_MAX_ITEMS {
        return false;
    }
    let n: usize = items.len();
    let mut i: usize = 0;
    while i < n
        invariant
            0 <= i <= n,
            n == items@.len(),
            forall|j: int| 0 <= j < i ==> (#[trigger] items@[j])@.len() <= GROUP_MEMBER_MAX_BYTES,
        decreases n - i,
    {
        if items[i].len() as u64 > GROUP_MEMBER_MAX_BYTES {
            return false;
        }
        i = i + 1;
    }
    true
}

} // verus!
