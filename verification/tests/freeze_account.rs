use lana_core::decimal::Dec;
use lana_core::freeze_account::{
    FreezeAccount, FreezeAccountParams, ParamDataType, ParamValue, TemplateRegistration,
    FREEZE_ACCOUNT_CODE,
};
use lana_core::primitives::EntityId;
use lana_core::repayment_plan::EffectiveDate;

#[test]
fn template_moves_the_amount_to_the_frozen_accounts_account() {
    let template = FreezeAccount::template();
    assert_eq!(template.code, FREEZE_ACCOUNT_CODE);
    assert_eq!(template.code, "FREEZE_ACCOUNT");
    assert_eq!(template.transaction.journal_id, "params.journal_id");
    assert_eq!(template.entries.len(), 2);
    assert_eq!(template.entries[0].direction, "DEBIT");
    assert_eq!(template.entries[0].account_id, "params.account_id");
    assert_eq!(template.entries[1].direction, "CREDIT");
    assert_eq!(template.entries[1].account_id, "params.frozen_accounts_account_id");
    assert_eq!(template.entries[1].units, "params.amount");
    let names: Vec<&str> = template.params.iter().map(|p| p.name.as_str()).collect();
    assert_eq!(
        names,
        vec!["journal_id", "currency", "amount", "account_id", "frozen_accounts_account_id", "effective"]
    );
    assert_eq!(template.params[5].data_type, ParamDataType::Date);
}

#[test]
fn params_are_named_as_in_the_definitions() {
    let journal = EntityId::new();
    let params = FreezeAccountParams {
        journal_id: journal,
        account_id: EntityId::new(),
        frozen_accounts_account_id: EntityId::new(),
        amount: Dec { mantissa: 1050, scale: 2 },
        currency: "USD".to_string(),
    };
    let values = params.into_params(EffectiveDate { days: 19_000 });
    let defs = FreezeAccountParams::defs();
    assert_eq!(values.len(), defs.len());
    for (value, def) in values.iter().zip(defs.iter()) {
        assert_eq!(value.0, def.name);
    }
    assert!(matches!(values[0].1, ParamValue::Uuid(id) if id == journal));
    assert!(matches!(&values[1].1, ParamValue::String(c) if c == "USD"));
    assert!(matches!(values[5].1, ParamValue::Date(EffectiveDate { days: 19_000 })));
}

#[test]
fn a_template_registered_before_counts_as_registered() {
    assert!(FreezeAccount::registration_result(TemplateRegistration::Created).is_ok());
    assert!(FreezeAccount::registration_result(TemplateRegistration::DuplicateCode).is_ok());
    assert_eq!(
        FreezeAccount::registration_result(TemplateRegistration::Failed("down".to_string())),
        Err("down".to_string())
    );
}
