use lana_core::credit_proposal::{
    approve_proposal, update_collateralization_page, CreditFacilityProposal,
    CreditFacilityProposalAccountIds,
    CreditFacilityProposalBalanceSummary, CreditFacilityProposalCollateralizationState,
    NewCreditFacilityProposal, PriceOfOneBTC, TermValues,
};
use lana_core::cvl::CVLPct;
use lana_core::decimal::Dec;
use lana_core::primitives::{AuditEntryId, AuditInfo, EntityId, Satoshis, UsdCents};

fn proposal() -> CreditFacilityProposal {
    let new = NewCreditFacilityProposal::builder()
        .id(EntityId::new())
        .ledger_tx_id(EntityId::new())
        .approval_process_id(EntityId::new())
        .customer_id(EntityId::new())
        .collateral_id(EntityId::new())
        .account_ids(CreditFacilityProposalAccountIds {
            facility_account_id: EntityId::new(),
            collateral_account_id: EntityId::new(),
        })
        .terms(TermValues { margin_call_cvl: CVLPct::new(125) })
        .amount(UsdCents::from(100_000))
        .audit_info(AuditInfo { audit_entry_id: AuditEntryId::new(1), sub: "sub".to_string() })
        .build()
        .unwrap();
    assert_eq!(
        new.collateralization_state,
        CreditFacilityProposalCollateralizationState::UnderCollateralized
    );
    CreditFacilityProposal::try_from_events(new.into_events()).unwrap()
}

fn price() -> PriceOfOneBTC {
    PriceOfOneBTC { usd: UsdCents::from(5_000_000) }
}

fn balances(cvl: CVLPct, ratio: Dec) -> CreditFacilityProposalBalanceSummary {
    CreditFacilityProposalBalanceSummary {
        collateral: Satoshis::from(1_000),
        facility_amount_cvl: cvl,
        collateralization_ratio: ratio,
    }
}

#[test]
fn collateralization_update_records_state_and_ratio_changes() {
    let mut p = proposal();
    assert_eq!(
        p.last_collateralization_state(),
        CreditFacilityProposalCollateralizationState::UnderCollateralized
    );
    assert_eq!(p.last_collateralization_ratio(), Dec::zero());

    let fully = balances(CVLPct::new(130), Dec { mantissa: 13, scale: 1 });
    let r = p.update_collateralization(price(), fully);
    assert_eq!(
        r.unwrap(),
        Some(CreditFacilityProposalCollateralizationState::FullyCollateralized)
    );
    assert_eq!(p.events.len(), 3);
    // the same balances change nothing
    assert!(p.update_collateralization(price(), fully).was_ignored());
    // the same ratio written differently changes nothing either
    let same_value = balances(CVLPct::new(130), Dec { mantissa: 130, scale: 2 });
    assert!(p.update_collateralization(price(), same_value).was_ignored());
    assert_eq!(p.events.len(), 3);

    // only the ratio changes
    let ratio_only = balances(CVLPct::new(126), Dec { mantissa: 126, scale: 2 });
    assert_eq!(p.update_collateralization(price(), ratio_only).unwrap(), None);
    assert_eq!(p.last_collateralization_ratio(), Dec { mantissa: 126, scale: 2 });

    // exactly at the margin call is still fully collateralized
    let at_margin = balances(CVLPct::new(125), Dec { mantissa: 125, scale: 2 });
    assert_eq!(p.update_collateralization(price(), at_margin).unwrap(), None);

    let under = balances(CVLPct::new(124), Dec { mantissa: 124, scale: 2 });
    assert_eq!(
        p.update_collateralization(price(), under).unwrap(),
        Some(CreditFacilityProposalCollateralizationState::UnderCollateralized)
    );
}

#[test]
fn approval_and_completion_are_recorded_once() {
    let mut p = proposal();
    assert!(!p.is_approval_process_concluded());
    assert!(p.approval_process_concluded(true).did_execute());
    assert!(p.is_approval_process_concluded());
    assert!(p.approval_process_concluded(false).was_ignored());
    assert!(p.complete(true).did_execute());
    assert!(p.complete(true).was_ignored());
}

#[test]
fn creation_data_comes_from_the_initialization() {
    let p = proposal();
    let data = p.creation_data();
    assert_eq!(data.facility_amount, UsdCents::from(100_000));
    assert_eq!(data.credit_facility_proposal_account_ids, p.account_ids);
    let expected = format!("{}-create", uuid::Uuid::from_u128(p.id.bits).hyphenated());
    assert_eq!(data.tx_ref, expected);
}

#[test]
fn proposal_builder_requires_every_field() {
    assert!(NewCreditFacilityProposal::builder().id(EntityId::new()).build().is_err());
}

#[test]
fn paging_stops_at_a_page_without_changes() {
    let fully = balances(CVLPct::new(130), Dec { mantissa: 13, scale: 1 });
    let page = update_collateralization_page(vec![proposal(), proposal()], price(), &vec![fully, fully], true);
    assert_eq!(page.changed, vec![true, true]);
    assert!(page.continue_with_next_page);

    let again = update_collateralization_page(page.proposals, price(), &vec![fully, fully], true);
    assert_eq!(again.changed, vec![false, false]);
    assert!(!again.continue_with_next_page);

    let under = balances(CVLPct::new(100), Dec { mantissa: 1, scale: 0 });
    let last = update_collateralization_page(again.proposals, price(), &vec![fully, under], false);
    assert_eq!(last.changed, vec![false, true]);
    assert!(!last.continue_with_next_page);
    assert_eq!(
        last.proposals[1].last_collateralization_state(),
        CreditFacilityProposalCollateralizationState::UnderCollateralized
    );
}

#[test]
fn approving_twice_writes_once_and_keeps_the_first_outcome() {
    let mut p = proposal();
    let before = p.events.len();
    assert!(approve_proposal(&mut p, false));
    assert_eq!(p.events.len(), before + 1);
    assert!(p.is_approval_process_concluded());
    assert!(!approve_proposal(&mut p, true));
    assert_eq!(p.events.len(), before + 1);
}
