use alyrasign::capacity::field_budget_bytes;
use alyrasign::capacity::formation_budget;
use alyrasign::capacity::presence_budget;
use alyrasign::capacity::record_budget;
use alyrasign::capacity::session_budget;
use alyrasign::capacity::student_group_budget;
use alyrasign::capacity::FieldSpec;
use alyrasign::capacity::FORMATION_BUDGET_BYTES;
use alyrasign::capacity::PRESENCE_BUDGET_BYTES;
use alyrasign::capacity::SESSION_BUDGET_BYTES;
use alyrasign::capacity::STUDENT_GROUP_BUDGET_BYTES;

#[test]
fn canonical_budgets_exact_values() {
    // tag + authority + prefixed name + prefixed description
    assert_eq!(formation_budget(), 8 + 32 + (4 + 100) + (4 + 500));
    assert_eq!(formation_budget(), FORMATION_BUDGET_BYTES);
    // tag + formation ref + date + prefixed description + authority
    assert_eq!(session_budget(), 8 + 32 + 8 + (4 + 500) + 32);
    assert_eq!(session_budget(), SESSION_BUDGET_BYTES);
    // tag + session ref + student + timestamp + flag
    assert_eq!(presence_budget(), 8 + 32 + 32 + 8 + 1);
    assert_eq!(presence_budget(), PRESENCE_BUDGET_BYTES);
    // tag + authority + prefixed name + two prefixed lists of 30 prefixed entries
    assert_eq!(
        student_group_budget(),
        8 + 32 + (4 + 100) + (4 + 30 * (4 + 100)) + (4 + 30 * (4 + 100))
    );
    assert_eq!(student_group_budget(), STUDENT_GROUP_BUDGET_BYTES);
}

#[test]
fn record_budget_of_empty_field_list_is_the_tag() {
    let fields: Vec<FieldSpec> = Vec::new();
    assert_eq!(record_budget(&fields), Some(8));
}

#[test]
fn record_budget_sums_each_field() {
    let fields = vec![
        FieldSpec::Key,
        FieldSpec::Int64,
        FieldSpec::Flag,
        FieldSpec::BoundedString { max_bytes: 10 },
        FieldSpec::BoundedList { max_items: 3, item_max_bytes: 5 },
    ];
    // 8 + 32 + 8 + 1 + (4 + 10) + (4 + 3 * (4 + 5))
    assert_eq!(record_budget(&fields), Some(8 + 32 + 8 + 1 + 14 + 31));
}

#[test]
fn field_budget_of_empty_list_is_the_prefix() {
    assert_eq!(
        field_budget_bytes(&FieldSpec::BoundedList { max_items: 0, item_max_bytes: u64::MAX }),
        Some(4)
    );
}

#[test]
fn oversized_field_budget_is_refused() {
    assert_eq!(field_budget_bytes(&FieldSpec::BoundedString { max_bytes: u64::MAX }), None);
    assert_eq!(
        field_budget_bytes(&FieldSpec::BoundedList { max_items: 2, item_max_bytes: u64::MAX }),
        None
    );
    assert_eq!(
        field_budget_bytes(&FieldSpec::BoundedList {
            max_items: u64::MAX,
            item_max_bytes: u64::MAX - 4,
        }),
        None
    );
    let fields = vec![FieldSpec::Key, FieldSpec::BoundedString { max_bytes: u64::MAX }];
    assert_eq!(record_budget(&fields), None);
    // the sum, not one field, can also overflow
    let fields = vec![
        FieldSpec::BoundedString { max_bytes: u64::MAX - 4 },
        FieldSpec::BoundedString { max_bytes: u64::MAX - 4 },
    ];
    assert_eq!(record_budget(&fields), None);
}
