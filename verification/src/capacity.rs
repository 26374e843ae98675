use vstd::prelude::*;

verus! {

// Serialized sizes of the primitive field shapes. Storage for a record is
// allocated once, so every creation handler must honor the byte budget that
// this module computes from the record's field specification.

/// Bytes of the record-kind tag written ahead of every record.
pub const HEADER_BYTES: u64 = 8;
/// Bytes of a stored identity or record reference.
pub const KEY_BYTES: u64 = 32;
/// Bytes of a 64-bit integer field.
pub const INT64_BYTES: u64 = 8;
/// Bytes of a boolean flag field.
pub const FLAG_BYTES: u64 = 1;
/// Bytes of the length prefix written ahead of every bounded string or list.
pub const LEN_PREFIX_BYTES: u64 = 4;

// Declared capacities of the canonical schemas. A bounded string declares a
// maximum content size in bytes; a bounded list declares a maximum element
// count. Exceeding a declared capacity at write time is a fatal error.

/// Maximum content bytes of a record's name.
pub const NAME_MAX_BYTES: u64 = 100;
/// Maximum content bytes of a record's description.
pub const DESCRIPTION_MAX_BYTES: u64 = 500;
/// Maximum content bytes of one entry of a student group's lists.
pub const GROUP_MEMBER_MAX_BYTES: u64 = 100;
/// Maximum element count of each of a student group's lists.
pub const GROUP_LIST_MAX_ITEMS: u64 = 30;

/// The shape of one field of a record, as the capacity planner sees it.
#[derive(Clone, Copy, PartialEq, Eq, Structural, Debug)]
pub enum FieldSpec {
    /// A stored identity or record reference.
    Key,
    /// A 64-bit integer.
    Int64,
    /// A boolean flag.
    Flag,
    /// A byte string of at most `max_bytes` content bytes, behind a length prefix.
    BoundedString { max_bytes: u64 },
    /// A list of at most `max_items` byte strings of at most `item_max_bytes`
    /// content bytes each, behind a length prefix.
    BoundedList { max_items: u64, item_max_bytes: u64 },
}

/// The exact maximum serialized size of one field, in bytes.
pub open spec fn field_budget(f: FieldSpec) -> int {
    match f {
        FieldSpec::Key => KEY_BYTES as int,
        FieldSpec::Int64 => INT64_BYTES as int,
        FieldSpec::Flag => FLAG_BYTES as int,
        FieldSpec::BoundedString { max_bytes } => LEN_PREFIX_BYTES + max_bytes,
        FieldSpec::BoundedList { max_items, item_max_bytes } =>
            LEN_PREFIX_BYTES + max_items * (LEN_PREFIX_BYTES + item_max_bytes),
    }
}

/// The exact maximum serialized size of a sequence of fields, in bytes.
pub open spec fn fields_budget(s: Seq<FieldSpec>) -> int
    decreases s.len(),
{
    if s.len() == 0 {
        0
    } else {
        fields_budget(s.drop_last()) + field_budget(s.last())
    }
}

/// The exact maximum serialized size of a whole record: the record-kind tag
/// followed by every field at its own maximum.
pub open spec fn record_budget_spec(s: Seq<FieldSpec>) -> int {
    HEADER_BYTES + fields_budget(s)
}

/// Every field occupies at least one byte.
pub proof fn lemma_field_budget_pos(f: FieldSpec)
    ensures
        field_budget(f) >= 1,
{
    match f {
        FieldSpec::BoundedList { max_items, item_max_bytes } => {
            vstd::arithmetic::mul::lemma_mul_nonnegative(
                max_items as int, LEN_PREFIX_BYTES + item_max_bytes);
        }
        _ => {}
    }
}

/// A budget is never negative.
pub proof fn lemma_fields_budget_nonneg(s: Seq<FieldSpec>)
    ensures
        fields_budget(s) >= 0,
    decreases s.len(),
{
    if s.len() > 0 {
        lemma_fields_budget_nonneg(s.drop_last());
        lemma_field_budget_pos(s.last());
    }
}

/// Extending a field list by one field grows its budget by that field's budget.
pub proof fn lemma_fields_budget_take_step(s: Seq<FieldSpec>, i: int)
    requires
        0 <= i < s.len(),
    ensures
        fields_budget(s.take(i + 1)) == fields_budget(s.take(i)) + field_budget(s[i]),
{
    assert(s.take(i + 1).drop_last() =~= s.take(i));
    assert(s.take(i + 1).last() == s[i]);
}

/// A prefix of a field list never has a larger budget than the whole list.
pub proof fn lemma_fields_budget_take_le(s: Seq<FieldSpec>, j: int)
    requires
        0 <= j <= s.len(),
    ensures
        fields_budget(s.take(j)) <= fields_budget(s),
    decreases s.len() - j,
{
    if j < s.len() {
        lemma_fields_budget_take_step(s, j);
        lemma_field_budget_pos(s[j]);
        lemma_fields_budget_take_le(s, j + 1);
    } else {
        assert(s.take(j) =~= s);
    }
}

/// The maximum serialized size of one field, or `None` where it does not fit
/// in a 64-bit byte count.
pub fn field_budget_bytes(f: &FieldSpec) -> (r: Option<u64>)
    ensures
        field_budget(*f) <= u64::MAX ==> r == Some(field_budget(*f) as u64),
        field_budget(*f) > u64::MAX ==> r is None,
{
    match *f {
        FieldSpec::Key => Some(KEY_BYTES),
        FieldSpec::Int64 => Some(INT64_BYTES),
        FieldSpec::Flag => Some(FLAG_BYTES),
        FieldSpec::BoundedString { max_bytes } => {
            if max_bytes > u64::MAX - LEN_PREFIX_BYTES {
                None
            } else {
                Some(LEN_PREFIX_BYTES + max_bytes)
            }
        }
        FieldSpec::BoundedList { max_items, item_max_bytes } => {
            if max_items == 0 {
                Some(LEN_PREFIX_BYTES)
            } else if item_max_bytes > u64::MAX - LEN_PREFIX_BYTES {
                proof {
                    vstd::arithmetic::mul::lemma_mul_increases(
                        max_items as int, LEN_PREFIX_BYTES + item_max_bytes);
                }
                None
            } else {
                let item: u128 = (LEN_PREFIX_BYTES + item_max_bytes) as u128;
                proof {
                    vstd::arithmetic::mul::lemma_mul_upper_bound(
                        max_items as int, u64::MAX as int, item as int, u64::MAX as int);
                }
                let content: u128 = (max_items as u128) * item;
                if content > (u64::MAX - LEN_PREFIX_BYTES) as u128 {
                    None
                } else {
                    Some(LEN_PREFIX_BYTES + (content as u64))
                }
            }
        }
    }
}

/// The byte budget of a whole record from its field specification: the
/// record-kind tag plus every field at its own maximum. `None` exactly where
/// the budget does not fit in a 64-bit byte count.
pub fn record_budget(fields: &Vec<FieldSpec>) -> (r: Option<u64>)
    ensures
        record_budget_spec(fields@) <= u64::MAX ==> r == Some(record_budget_spec(fields@) as u64),
        record_budget_spec(fields@) > u64::MAX ==> r is None,
{
    let n: usize = fields.len();
    let mut total: u64 = HEADER_BYTES;
    let mut i: usize = 0;
    while i < n
        invariant
            0 <= i <= n,
            n == fields@.len(),
            total == HEADER_BYTES + fields_budget(fields@.take(i as int)),
        decreases n - i,
    {
        proof {
            lemma_fields_budget_take_step(fields@, i as int);
        }
        match field_budget_bytes(&fields[i]) {
            None => {
                proof {
                    lemma_fields_budget_nonneg(fields@.take(i as int));
                    lemma_fields_budget_take_le(fields@, i as int + 1);
                }
                return None;
            }
            Some(b) => {
                if b > u64::MAX - total {
                    proof {
                        lemma_fields_budget_take_le(fields@, i as int + 1);
                    }
                    return None;
                }
                total = total + b;
                i = i + 1;
            }
        }
    }
    proof {
        assert(fields@.take(n as int) =~= fields@);
    }
    Some(total)
}

// The canonical schema of each record kind, and its budget as a named
// constant. The creation handlers honor exactly these declared capacities.

/// Total byte budget of a Formation record.
pub const FORMATION_BUDGET_BYTES: u64 = HEADER_BYTES + KEY_BYTES + LEN_PREFIX_BYTES
    + NAME_MAX_BYTES + LEN_PREFIX_BYTES + DESCRIPTION_MAX_BYTES;

/// Total byte budget of a Session record.
pub const SESSION_BUDGET_BYTES: u64 = HEADER_BYTES + KEY_BYTES + INT64_BYTES + LEN_PREFIX_BYTES
    + DESCRIPTION_MAX_BYTES + KEY_BYTES;

/// Total byte budget of a Presence record.
pub const PRESENCE_BUDGET_BYTES: u64 = HEADER_BYTES + KEY_BYTES + KEY_BYTES + INT64_BYTES
    + FLAG_BYTES;

/// Total byte budget of a StudentGroup record.
pub const STUDENT_GROUP_BUDGET_BYTES: u64 = HEADER_BYTES + KEY_BYTES + LEN_PREFIX_BYTES
    + NAME_MAX_BYTES + LEN_PREFIX_BYTES
    + GROUP_LIST_MAX_ITEMS * (LEN_PREFIX_BYTES + GROUP_MEMBER_MAX_BYTES) + LEN_PREFIX_BYTES
    + GROUP_LIST_MAX_ITEMS * (LEN_PREFIX_BYTES + GROUP_MEMBER_MAX_BYTES);

/// Field specification of a Formation: authority, name, description.
pub open spec fn formation_fields_spec() -> Seq<FieldSpec> {
    seq![
        FieldSpec::Key,
        FieldSpec::BoundedString { max_bytes: NAME_MAX_BYTES },
        FieldSpec::BoundedString { max_bytes: DESCRIPTION_MAX_BYTES },
    ]
}

/// Field specification of a Session: formation reference, date, description,
/// authority.
pub open spec fn session_fields_spec() -> Seq<FieldSpec> {
    seq![
        FieldSpec::Key,
        FieldSpec::Int64,
        FieldSpec::BoundedString { max_bytes: DESCRIPTION_MAX_BYTES },
        FieldSpec::Key,
    ]
}

/// Field specification of a Presence: session reference, student identity,
/// timestamp, validation flag.
pub open spec fn presence_fields_spec() -> Seq<FieldSpec> {
    seq![FieldSpec::Key, FieldSpec::Key, FieldSpec::Int64, FieldSpec::Flag]
}

/// Field specification of a StudentGroup: authority, name, student list,
/// formation list.
pub open spec fn student_group_fields_spec() -> Seq<FieldSpec> {
    seq![
        FieldSpec::Key,
        FieldSpec::BoundedString { max_bytes: NAME_MAX_BYTES },
        FieldSpec::BoundedList { max_items: GROUP_LIST_MAX_ITEMS, item_max_bytes: GROUP_MEMBER_MAX_BYTES },
        FieldSpec::BoundedList { max_items: GROUP_LIST_MAX_ITEMS, item_max_bytes: GROUP_MEMBER_MAX_BYTES },
    ]
}

/// Field specification of a Formation, as a value.
pub fn formation_fields() -> (r: Vec<FieldSpec>)
    ensures
        r@ == formation_fields_spec(),
{
    let mut v: Vec<FieldSpec> = Vec::new();
    v.push(FieldSpec::Key);
    v.push(FieldSpec::BoundedString { max_bytes: NAME_MAX_BYTES });
    v.push(FieldSpec::BoundedString { max_bytes: DESCRIPTION_MAX_BYTES });
    proof {
        assert(v@ =~= formation_fields_spec());
    }
    v
}

/// Field specification of a Session, as a value.
pub fn session_fields() -> (r: Vec<FieldSpec>)
    ensures
        r@ == session_fields_spec(),
{
    let mut v: Vec<FieldSpec> = Vec::new();
    v.push(FieldSpec::Key);
    v.push(FieldSpec::Int64);
    v.push(FieldSpec::BoundedString { max_bytes: DESCRIPTION_MAX_BYTES });
    v.push(FieldSpec::Key);
    proof {
        assert(v@ =~= session_fields_spec());
    }
    v
}

/// Field specification of a Presence, as a value.
pub fn presence_fields() -> (r: Vec<FieldSpec>)
    ensures
        r@ == presence_fields_spec(),
{
    let mut v: Vec<FieldSpec> = Vec::new();
    v.push(FieldSpec::Key);
    v.push(FieldSpec::Key);
    v.push(FieldSpec::Int64);
    v.push(FieldSpec::Flag);
    proof {
        assert(v@ =~= presence_fields_spec());
    }
    v
}

/// Field specification of a StudentGroup, as a value.
pub fn student_group_fields() -> (r: Vec<FieldSpec>)
    ensures
        r@ == student_group_fields_spec(),
{
    let mut v: Vec<FieldSpec> = Vec::new();
    v.push(FieldSpec::Key);
    v.push(FieldSpec::BoundedString { max_bytes: NAME_MAX_BYTES });
    v.push(FieldSpec::BoundedList { max_items: GROUP_LIST_MAX_ITEMS, item_max_bytes: GROUP_MEMBER_MAX_BYTES });
    v.push(FieldSpec::BoundedList { max_items: GROUP_LIST_MAX_ITEMS, item_max_bytes: GROUP_MEMBER_MAX_BYTES });
    proof {
        assert(v@ =~= student_group_fields_spec());
    }
    v
}

/// The planner agrees with the named Formation budget.
pub proof fn lemma_formation_budget()
    ensures
        record_budget_spec(formation_fields_spec()) == FORMATION_BUDGET_BYTES,
{
    reveal_with_fuel(fields_budget, 5);
}

/// The planner agrees with the named Session budget.
pub proof fn lemma_session_budget()
    ensures
        record_budget_spec(session_fields_spec()) == SESSION_BUDGET_BYTES,
{
    reveal_with_fuel(fields_budget, 6);
}

/// The planner agrees with the named Presence budget.
pub proof fn lemma_presence_budget()
    ensures
        record_budget_spec(presence_fields_spec()) == PRESENCE_BUDGET_BYTES,
{
    reveal_with_fuel(fields_budget, 6);
}

/// The planner agrees with the named StudentGroup budget.
pub proof fn lemma_student_group_budget()
    ensures
        record_budget_spec(student_group_fields_spec()) == STUDENT_GROUP_BUDGET_BYTES,
{
    reveal_with_fuel(fields_budget, 6);
}

/// The byte budget of a Formation record, through the planner.
pub fn formation_budget() -> (r: u64)
    ensures
        r == record_budget_spec(formation_fields_spec()),
        r == FORMATION_BUDGET_BYTES,
{
    proof {
        lemma_formation_budget();
    }
    let fields = formation_fields();
    match record_budget(&fields) {
        Some(b) => b,
        None => vstd::pervasive::unreached(),
    }
}

/// The byte budget of a Session record, through the planner.
pub fn session_budget() -> (r: u64)
    ensures
        r == record_budget_spec(session_fields_spec()),
        r == SESSION_BUDGET_BYTES,
{
    proof {
        lemma_session_budget();
    }
    let fields = session_fields();
    match record_budget(&fields) {
        Some(b) => b,
        None => vstd::pervasive::unreached(),
    }
}

/// The byte budget of a Presence record, through the planner.
pub fn presence_budget() -> (r: u64)
    ensures
        r == record_budget_spec(presence_fields_spec()),
        r == PRESENCE_BUDGET_BYTES,
{
    proof {
        lemma_presence_budget();
    }
    let fields = presence_fields();
    match record_budget(&fields) {
        Some(b) => b,
        None => vstd::pervasive::unreached(),
    }
}

/// The byte budget of a StudentGroup record, through the planner.
pub fn student_group_budget() -> (r: u64)
    ensures
        r == record_budget_spec(student_group_fields_spec()),
        r == STUDENT_GROUP_BUDGET_BYTES,
{
    proof {
        lemma_student_group_budget();
    }
    let fields = student_group_fields();
    match record_budget(&fields) {
        Some(b) => b,
        None => vstd::pervasive::unreached(),
    }
}

} // verus!
