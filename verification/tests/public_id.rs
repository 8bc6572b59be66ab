use lana_core::primitives::EntityId;
use lana_core::public_id::{decimal_string, PublicId, PublicIdTargetType, PublicIds};

#[test]
fn public_id_keeps_its_text() {
    let id = PublicId::new("abc-1".to_string());
    assert_eq!(id.as_str(), "abc-1");
    let target = PublicIdTargetType::new("deposit_account");
    assert_eq!(target.as_str(), "deposit_account");
}

#[test]
fn decimal_text_of_numbers() {
    assert_eq!(decimal_string(0), "0");
    assert_eq!(decimal_string(7), "7");
    assert_eq!(decimal_string(1234567890), "1234567890");
    assert_eq!(decimal_string(u64::MAX), u64::MAX.to_string());
}

#[test]
fn created_ids_are_found_and_distinct() {
    let mut ids = PublicIds::new();
    let a_target = EntityId::new();
    let b_target = EntityId::new();
    let a = ids.create(PublicIdTargetType::new("customer"), a_target).unwrap().id.clone();
    let b = ids.create(PublicIdTargetType::new("customer"), b_target).unwrap().id.clone();
    assert_eq!(a.as_str(), "1");
    assert_eq!(b.as_str(), "2");
    let found = ids.find_by_id(&a).unwrap();
    assert_eq!(found.target_id, a_target);
    let found = ids.find_by_id(&b).unwrap();
    assert_eq!(found.target_id, b_target);
    assert!(ids.find_by_id(&PublicId::new("no-such-id".to_string())).is_none());
}

#[test]
fn public_id_texts() {
    let id = PublicId::new("42".to_string());
    assert_eq!(id.to_string(), "42");
    assert_eq!(PublicIdTargetType::new("credit_facility").to_string(), "credit_facility");
    let mut ids = PublicIds::new();
    let entity = ids.create(PublicIdTargetType::new("customer"), EntityId::new()).unwrap();
    assert_eq!(entity.to_string(), "PublicId: 1");
}

#[test]
fn identifier_text_is_hyphenated_lower_case_hex() {
    let id = EntityId::from_bits(0x0123_4567_89ab_cdef_fedc_ba98_7654_3210);
    assert_eq!(id.to_string(), "01234567-89ab-cdef-fedc-ba9876543210");
    assert_eq!(EntityId::from_bits(0).to_string(), "00000000-0000-0000-0000-000000000000");
}
