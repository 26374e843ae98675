use vstd::prelude::*;

use crate::capacity::DESCRIPTION_MAX_BYTES;
use crate::capacity::NAME_MAX_BYTES;
use crate::errors::AlyraSignError;
use crate::identity::Address;
use crate::identity::Identity;
use crate::records::Formation;
use crate::records::Presence;
use crate::records::Session;
use crate::records::StudentGroup;
use crate::records::group_list_fits;
use crate::store::Registry;

verus! {

// The transition protocol. Each entry point is one synchronous, atomic
// transition: it validates its preconditions against the caller's verified
// identity and the stored records, then either applies its whole field-level
// mutation or fails with one error and changes nothing. The checks run in a
// fixed order, and each error names the first check that failed:
// AlreadyExists (the target address is taken), then NotFound (a referenced
// parent is absent or not the one the child names), then CapacityExceeded
// (a bounded field is over its declared maximum); validation alone can end
// in UnauthorizedValidation.

/// The four record registries, one per record kind, each keyed by address.
pub struct Ledger {
    /// Formation records.
    pub formations: Registry<Formation>,
    /// Session records.
    pub sessions: Registry<Session>,
    /// Presence records.
    pub presences: Registry<Presence>,
    /// StudentGroup records.
    pub groups: Registry<StudentGroup>,
}

impl Ledger {
    /// The ledger's invariant: each registry holds one record per address,
    /// and every stored record honors its declared capacities.
    pub open spec fn wf(self) -> bool {
        &&& self.formations.wf()
        &&& self.sessions.wf()
        &&& self.presences.wf()
        &&& self.groups.wf()
        &&& forall|a: Address|
            self.formations@.contains_key(a) ==> (#[trigger] self.formations@[a]).wf()
        &&& forall|a: Address|
            self.sessions@.contains_key(a) ==> (#[trigger] self.sessions@[a]).wf()
        &&& forall|a: Address|
            self.groups@.contains_key(a) ==> (#[trigger] self.groups@[a]).wf()
    }

    /// An empty ledger.
    pub fn new() -> (r: Ledger)
        ensures
            r.wf(),
            r.formations@ == Map::<Address, Formation>::empty(),
            r.sessions@ == Map::<Address, Session>::empty(),
            r.presences@ == Map::<Address, Presence>::empty(),
            r.groups@ == Map::<Address, StudentGroup>::empty(),
    {
        Ledger {
            formations: Registry::new(),
            sessions: Registry::new(),
            presences: Registry::new(),
            groups: Registry::new(),
        }
    }

    /// Create a Formation at a fresh address; the caller becomes its
    /// authority.
    pub fn create_formation(
        &mut self,
        caller: Identity,
        formation_addr: Address,
        name: Vec<u8>,
        description: Vec<u8>,
    ) -> (r: Result<(), AlyraSignError>)
        requires
            old(self).wf(),
        ensures
            final(self).wf(),
            final(self).sessions == old(self).sessions,
            final(self).presences == old(self).presences,
            final(self).groups == old(self).groups,
            old(self).formations@.contains_key(formation_addr) ==> r == Err::<(), AlyraSignError>(
                AlyraSignError::AlreadyExists,
            ) && *final(self) == *old(self),
            !old(self).formations@.contains_key(formation_addr) && (name@.len() > NAME_MAX_BYTES
                || description@.len() > DESCRIPTION_MAX_BYTES) ==> r == Err::<(), AlyraSignError>(
                AlyraSignError::CapacityExceeded,
            ) && *final(self) == *old(self),
            !old(self).formations@.contains_key(formation_addr) && name@.len() <= NAME_MAX_BYTES
                && description@.len() <= DESCRIPTION_MAX_BYTES ==> r == Ok::<(), AlyraSignError>(())
                && final(self).formations@ == old(self).formations@.insert(
                formation_addr,
                (Formation { authority: caller, name, description }),
            ),
    {
        if self.formations.contains(formation_addr) {
            return Err(AlyraSignError::AlreadyExists);
        }
        let f = match Formation::new(caller, name, description) {
            Ok(f) => f,
            Err(e) => {
                return Err(e);
            },
        };
        match self.formations.create(formation_addr, f) {
            Ok(u) => Ok(u),
            Err(_) => vstd::pervasive::unreached(),
        }
    }

    /// Create a Session of an existing Formation at a fresh address; the
    /// caller becomes its authority, the fixed validator of its presences.
    pub fn create_session(
        &mut self,
        caller: Identity,
        session_addr: Address,
        formation_addr: Address,
        date: i64,
        description: Vec<u8>,
    ) -> (r: Result<(), AlyraSignError>)
        requires
            old(self).wf(),
        ensures
            final(self).wf(),
            final(self).formations == old(self).formations,
            final(self).presences == old(self).presences,
            final(self).groups == old(self).groups,
            old(self).sessions@.contains_key(session_addr) ==> r == Err::<(), AlyraSignError>(
                AlyraSignError::AlreadyExists,
            ) && *final(self) == *old(self),
            !old(self).sessions@.contains_key(session_addr) && !old(
                self,
            ).formations@.contains_key(formation_addr) ==> r == Err::<(), AlyraSignError>(
                AlyraSignError::NotFound,
            ) && *final(self) == *old(self),
            !old(self).sessions@.contains_key(session_addr) && old(self).formations@.contains_key(
                formation_addr,
            ) && description@.len() > DESCRIPTION_MAX_BYTES ==> r == Err::<(), AlyraSignError>(
                AlyraSignError::CapacityExceeded,
            ) && *final(self) == *old(self),
            !old(self).sessions@.contains_key(session_addr) && old(self).formations@.contains_key(
                formation_addr,
            ) && description@.len() <= DESCRIPTION_MAX_BYTES ==> r == Ok::<(), AlyraSignError>(())
                && final(self).sessions@ == old(self).sessions@.insert(
                session_addr,
                (Session { formation: formation_addr, date, description, authority: caller }),
            ),
    {
        if self.sessions.contains(session_addr) {
            return Err(AlyraSignError::AlreadyExists);
        }
        if !self.formations.contains(formation_addr) {
            return Err(AlyraSignError::NotFound);
        }
        let s = match Session::new(caller, formation_addr, date, description) {
            Ok(s) => s,
            Err(e) => {
                return Err(e);
            },
        };
        match self.sessions.create(session_addr, s) {
            Ok(u) => Ok(u),
            Err(_) => vstd::pervasive::unreached(),
        }
    }

    /// Register the calling student's Presence for an existing Session at a
    /// fresh address; the presence starts unvalidated.
    pub fn register_presence(
        &mut self,
        caller: Identity,
        presence_addr: Address,
        session_addr: Address,
        timestamp: i64,
    ) -> (r: Result<(), AlyraSignError>)
        requires
            old(self).wf(),
        ensures
            final(self).wf(),
            final(self).formations == old(self).formations,
            final(self).sessions == old(self).sessions,
            final(self).groups == old(self).groups,
            old(self).presences@.contains_key(presence_addr) ==> r == Err::<(), AlyraSignError>(
                AlyraSignError::AlreadyExists,
            ) && *final(self) == *old(self),
            !old(self).presences@.contains_key(presence_addr) && !old(
                self,
            ).sessions@.contains_key(session_addr) ==> r == Err::<(), AlyraSignError>(
                AlyraSignError::NotFound,
            ) && *final(self) == *old(self),
            !old(self).presences@.contains_key(presence_addr) && old(self).sessions@.contains_key(
                session_addr,
            ) ==> r == Ok::<(), AlyraSignError>(()) && final(self).presences@ == old(
                self,
            ).presences@.insert(
                presence_addr,
                (Presence {
                    session: session_addr,
                    student: caller,
                    timestamp,
                    is_validated: false,
                }),
            ),
    {
        if self.presences.contains(presence_addr) {
            return Err(AlyraSignError::AlreadyExists);
        }
        if !self.sessions.contains(session_addr) {
            return Err(AlyraSignError::NotFound);
        }
        let p = Presence::new(caller, session_addr, timestamp);
        match self.presences.create(presence_addr, p) {
            Ok(u) => Ok(u),
            Err(_) => vstd::pervasive::unreached(),
        }
    }

    /// Validate a Presence: the single authority-gated transition. Only the
    /// identity stored as the referenced Session's authority may move
    /// `is_validated` from `false` to `true`; re-validating an already
    /// validated presence by that same authority succeeds and leaves it
    /// validated. Any other caller is refused with UnauthorizedValidation
    /// and the presence is left exactly as it was.
    pub fn validate_presence(
        &mut self,
        caller: Identity,
        presence_addr: Address,
        session_addr: Address,
    ) -> (r: Result<(), AlyraSignError>)
        requires
            old(self).wf(),
        ensures
            final(self).wf(),
            final(self).formations == old(self).formations,
            final(self).sessions == old(self).sessions,
            final(self).groups == old(self).groups,
            !old(self).presences@.contains_key(presence_addr) ==> r == Err::<(), AlyraSignError>(
                AlyraSignError::NotFound,
            ) && *final(self) == *old(self),
            old(self).presences@.contains_key(presence_addr) && (old(
                self,
            ).presences@[presence_addr].session != session_addr || !old(
                self,
            ).sessions@.contains_key(session_addr)) ==> r == Err::<(), AlyraSignError>(
                AlyraSignError::NotFound,
            ) && *final(self) == *old(self),
            old(self).presences@.contains_key(presence_addr)
                && old(self).presences@[presence_addr].session == session_addr
                && old(self).sessions@.contains_key(session_addr)
                && caller != old(self).sessions@[session_addr].authority ==> r == Err::<
                (),
                AlyraSignError,
            >(AlyraSignError::UnauthorizedValidation) && *final(self) == *old(self),
            old(self).presences@.contains_key(presence_addr)
                && old(self).presences@[presence_addr].session == session_addr
                && old(self).sessions@.contains_key(session_addr)
                && caller == old(self).sessions@[session_addr].authority ==> r == Ok::<
                (),
                AlyraSignError,
            >(()) && final(self).presences@ == old(self).presences@.insert(
                presence_addr,
                (Presence { is_validated: true, ..old(self).presences@[presence_addr] }),
            ),
    {
        let p: Presence = match self.presences.get(presence_addr) {
            Some(p) => *p,
            None => {
                return Err(AlyraSignError::NotFound);
            },
        };
        if p.session != session_addr {
            return Err(AlyraSignError::NotFound);
        }
        let session_authority: Identity = match self.sessions.get(session_addr) {
            Some(s) => s.authority,
            None => {
                return Err(AlyraSignError::NotFound);
            },
        };
        if caller != session_authority {
            return Err(AlyraSignError::UnauthorizedValidation);
        }
        match self.presences.put(presence_addr, p.validated()) {
            Ok(u) => Ok(u),
            Err(_) => vstd::pervasive::unreached(),
        }
    }

    /// Create a StudentGroup at a fresh address; the caller becomes its
    /// authority.
    pub fn create_student_group(
        &mut self,
        caller: Identity,
        group_addr: Address,
        name: Vec<u8>,
        students: Vec<Vec<u8>>,
        formations: Vec<Vec<u8>>,
    ) -> (r: Result<(), AlyraSignError>)
        requires
            old(self).wf(),
        ensures
            final(self).wf(),
            final(self).formations == old(self).formations,
            final(self).sessions == old(self).sessions,
            final(self).presences == old(self).presences,
            old(self).groups@.contains_key(group_addr) ==> r == Err::<(), AlyraSignError>(
                AlyraSignError::AlreadyExists,
            ) && *final(self) == *old(self),
            !old(self).groups@.contains_key(group_addr) && (name@.len() > NAME_MAX_BYTES
                || !group_list_fits(students@) || !group_list_fits(formations@)) ==> r == Err::<
                (),
                AlyraSignError,
            >(AlyraSignError::CapacityExceeded) && *final(self) == *old(self),
            !old(self).groups@.contains_key(group_addr) && name@.len() <= NAME_MAX_BYTES
                && group_list_fits(students@) && group_list_fits(formations@) ==> r == Ok::<
                (),
                AlyraSignError,
            >(()) && final(self).groups@ == old(self).groups@.insert(
                group_addr,
                (StudentGroup { authority: caller, name, students, formations }),
            ),
    {
        if self.groups.contains(group_addr) {
            return Err(AlyraSignError::AlreadyExists);
        }
        let g = match StudentGroup::new(caller, name, students, formations) {
            Ok(g) => g,
            Err(e) => {
                return Err(e);
            },
        };
        match self.groups.create(group_addr, g) {
            Ok(u) => Ok(u),
            Err(_) => vstd::pervasive::unreached(),
        }
    }
}

/// Law: a creation that succeeded claims its address. The store maps the
/// address afterwards, so by the creation contracts a retried creation at the
/// same address is refused with AlreadyExists, for every record kind.
pub proof fn lemma_created_address_is_claimed<T>(pre: Map<Address, T>, a: Address, v: T)
    ensures
        pre.insert(a, v).contains_key(a),
{
}

/// Law: storage is lossless. A creation that succeeded — the inputs honored
/// their declared capacities and the address was free — stores exactly the
/// record built from the inputs: reading the address back gives the same
/// field contents, with the caller as authority.
pub proof fn lemma_formation_round_trip(
    pre: Map<Address, Formation>,
    a: Address,
    caller: Identity,
    name: Vec<u8>,
    description: Vec<u8>,
)
    requires
        name@.len() <= NAME_MAX_BYTES,
        description@.len() <= DESCRIPTION_MAX_BYTES,
        !pre.contains_key(a),
    ensures
        ({
            let post = pre.insert(a, (Formation { authority: caller, name, description }));
            &&& post.contains_key(a)
            &&& post[a].name@ == name@
            &&& post[a].description@ == description@
            &&& post[a].authority == caller
        }),
{
}

/// Law: a successful validation is observable afterwards. The presence read
/// back at the address is validated and keeps its session, student and
/// timestamp.
pub proof fn lemma_validated_presence_is_observable(pre: Map<Address, Presence>, a: Address)
    requires
        pre.contains_key(a),
    ensures
        ({
            let post = pre.insert(a, (Presence { is_validated: true, ..pre[a] }));
            &&& post.contains_key(a)
            &&& post[a].is_validated
            &&& post[a].session == pre[a].session
            &&& post[a].student == pre[a].student
            &&& post[a].timestamp == pre[a].timestamp
        }),
{
}

/// Law: validation is monotonic. Marking one stored presence validated never
/// clears the flag of any stored presence; together with the contracts above,
/// a presence's flag moves from `false` to `true` at most once and only
/// through `validate_presence`.
pub proof fn lemma_validation_monotonic(pre: Map<Address, Presence>, a: Address, p: Presence)
    requires
        pre.contains_key(a),
        p.is_validated,
    ensures
        forall|x: Address|
            pre.contains_key(x) && (#[trigger] pre[x]).is_validated ==> pre.insert(
                a,
                p,
            ).contains_key(x) && pre.insert(a, p)[x].is_validated,
{
}

} // verus!
