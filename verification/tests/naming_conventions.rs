use remitflow_contract::address::Address;
use remitflow_contract::naming_conventions::{
    is_pascal_case, is_snake_case, variant_name, MAX_SYMBOL_LEN,
};
use remitflow_contract::storage::{InstanceKey, PersistentKey};

#[test]
fn pascal_case_validator_accepts_and_rejects_expected_inputs() {
    assert!(is_pascal_case("Admin"));
    assert!(is_pascal_case("PendingAdmin"));
    assert!(is_pascal_case("AccountOpCount"));
    assert!(is_pascal_case("A"));
    assert!(!is_pascal_case("admin"));
    assert!(!is_pascal_case("Pending_Admin"));
    assert!(!is_pascal_case("Pending Admin"));
    assert!(!is_pascal_case(""));
}

#[test]
fn snake_case_validator_accepts_and_rejects_expected_inputs() {
    assert!(is_snake_case("init"));
    assert!(is_snake_case("caller_added"));
    assert!(is_snake_case("admin_transfer_started"));
    assert!(is_snake_case("created2"));
    assert!(!is_snake_case("Init"));
    assert!(!is_snake_case("caller-added"));
    assert!(!is_snake_case("_init"));
    assert!(!is_snake_case(""));
}

#[test]
fn variant_name_strips_tuple_payloads() {
    assert_eq!(variant_name("Admin"), "Admin");
    assert_eq!(variant_name("Transfer(1)"), "Transfer");
    assert_eq!(variant_name("AccountOpCount(GABC)"), "AccountOpCount");
}

#[test]
fn variant_name_handles_struct_payloads_and_leading_punctuation() {
    assert_eq!(variant_name("AllowedCaller(Address { strkey: [71] })"), "AllowedCaller");
    assert_eq!(variant_name("CallerUpdate(1, x, true)"), "CallerUpdate");
    assert_eq!(variant_name("(Admin)"), "");
    assert_eq!(variant_name(""), "");
    assert_eq!(variant_name("snake_case_name rest"), "snake_case_name");
}

/// Every `InstanceKey` variant name must be PascalCase and fit within the
/// symbol length limit.
#[test]
fn instance_key_variants_follow_naming_convention() {
    let variants = [
        format!("{:?}", InstanceKey::Admin),
        format!("{:?}", InstanceKey::PendingAdmin),
        format!("{:?}", InstanceKey::Token),
        format!("{:?}", InstanceKey::Counter),
        format!("{:?}", InstanceKey::Paused),
        format!("{:?}", InstanceKey::TotalEscrowed),
        format!("{:?}", InstanceKey::InitializedAt),
        format!("{:?}", InstanceKey::LastPrivilegedCall),
    ];
    assert_eq!(
        variants.len(),
        8,
        "InstanceKey variant count changed; update this test's coverage"
    );
    for repr in &variants {
        let name = variant_name(repr);
        assert!(
            is_pascal_case(name),
            "InstanceKey variant `{name}` is not PascalCase"
        );
        assert!(
            name.len() <= MAX_SYMBOL_LEN,
            "InstanceKey variant `{name}` exceeds {MAX_SYMBOL_LEN} chars"
        );
    }
}

/// Every `PersistentKey` variant name must be PascalCase and fit within the
/// symbol length limit.
#[test]
fn persistent_key_variants_follow_naming_convention() {
    let mut strkey = [b'A'; 56];
    strkey[0] = b'G';
    let dummy_addr = Address::from_strkey(strkey);
    let variants = [
        format!("{:?}", PersistentKey::Transfer(1)),
        format!("{:?}", PersistentKey::AllowedCaller(dummy_addr)),
        format!("{:?}", PersistentKey::AccountOpCount(dummy_addr)),
    ];
    assert_eq!(
        variants.len(),
        3,
        "PersistentKey variant count changed; update this test's coverage"
    );
    for repr in &variants {
        let name = variant_name(repr);
        assert!(
            is_pascal_case(name),
            "PersistentKey variant `{name}` is not PascalCase"
        );
        assert!(
            name.len() <= MAX_SYMBOL_LEN,
            "PersistentKey variant `{name}` exceeds {MAX_SYMBOL_LEN} chars"
        );
    }
}
