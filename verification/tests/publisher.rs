use lana_core::credit_proposal::{PriceOfOneBTC, TermValues};
use lana_core::cvl::CVLPct;
use lana_core::primitives::{EntityId, Satoshis, UsdCents};
use lana_core::publisher::{
    facility_events_to_publish, obligation_events_to_publish, CollateralizationState,
    CoreCreditEvent, FacilityEvent, FacilityEventRecord, FacilitySummary, ObligationEvent,
    ObligationEventRecord, ObligationSummary,
};
use lana_core::repayment_plan::{EffectiveDate, ObligationType};

fn summary() -> ObligationSummary {
    ObligationSummary {
        id: EntityId::from_bits(1),
        obligation_type: ObligationType::Interest,
        credit_facility_id: EntityId::from_bits(2),
        initial_amount: UsdCents::from(1_000),
        due: EffectiveDate { days: 30 },
        overdue: Some(EffectiveDate { days: 40 }),
        defaulted: None,
    }
}

#[test]
fn obligation_events_become_announcements_in_order() {
    let o = summary();
    let events = vec![
        ObligationEventRecord { event: ObligationEvent::Initialized { effective: EffectiveDate { days: 1 } }, recorded_at: 7 },
        ObligationEventRecord { event: ObligationEvent::Other, recorded_at: 8 },
        ObligationEventRecord { event: ObligationEvent::DueRecorded { due_amount: UsdCents::from(900) }, recorded_at: 9 },
        ObligationEventRecord { event: ObligationEvent::Completed, recorded_at: 10 },
    ];
    let out = obligation_events_to_publish(&o, &events);
    assert_eq!(
        out,
        vec![
            CoreCreditEvent::ObligationCreated {
                id: o.id,
                obligation_type: ObligationType::Interest,
                credit_facility_id: o.credit_facility_id,
                amount: UsdCents::from(1_000),
                due_at: EffectiveDate { days: 30 },
                overdue_at: Some(EffectiveDate { days: 40 }),
                defaulted_at: None,
                recorded_at: 7,
                effective: EffectiveDate { days: 1 },
            },
            CoreCreditEvent::ObligationDue {
                id: o.id,
                credit_facility_id: o.credit_facility_id,
                obligation_type: ObligationType::Interest,
                amount: UsdCents::from(900),
            },
            CoreCreditEvent::ObligationCompleted { id: o.id, credit_facility_id: o.credit_facility_id },
        ]
    );
    assert!(obligation_events_to_publish(&o, &vec![]).is_empty());
}

#[test]
fn facility_events_become_announcements_in_order() {
    let f = FacilitySummary { id: EntityId::from_bits(3), amount: UsdCents::from(5_000), created_at: 11 };
    let terms = TermValues { margin_call_cvl: CVLPct::new(125) };
    let tx = EntityId::from_bits(4);
    let price = PriceOfOneBTC { usd: UsdCents::from(9_000_000) };
    let recorded_at = 2 * 86_400_000_000 + 5;
    let events = vec![
        FacilityEventRecord { event: FacilityEvent::Initialized { amount: UsdCents::from(5_000), terms }, recorded_at: 11 },
        FacilityEventRecord { event: FacilityEvent::ApprovalProcessConcluded { approved: false }, recorded_at: 12 },
        FacilityEventRecord { event: FacilityEvent::ApprovalProcessConcluded { approved: true }, recorded_at: 13 },
        FacilityEventRecord { event: FacilityEvent::Activated { activated_at: 14, ledger_tx_id: tx }, recorded_at: 14 },
        FacilityEventRecord {
            event: FacilityEvent::CollateralizationStateChanged {
                state: CollateralizationState::FullyCollateralized,
                collateral: Satoshis::from(100),
                outstanding: UsdCents::from(5_000),
                price,
            },
            recorded_at,
        },
        FacilityEventRecord { event: FacilityEvent::Other, recorded_at: 16 },
        FacilityEventRecord { event: FacilityEvent::Completed, recorded_at: 17 },
    ];
    let out = facility_events_to_publish(&f, &events);
    assert_eq!(
        out,
        vec![
            CoreCreditEvent::FacilityCreated { id: f.id, terms, amount: UsdCents::from(5_000), created_at: 11 },
            CoreCreditEvent::FacilityApproved { id: f.id },
            CoreCreditEvent::FacilityActivated { id: f.id, activation_tx_id: tx, activated_at: 14, amount: f.amount },
            CoreCreditEvent::FacilityCollateralizationChanged {
                id: f.id,
                state: CollateralizationState::FullyCollateralized,
                recorded_at,
                effective: EffectiveDate { days: 2 },
                collateral: Satoshis::from(100),
                outstanding: UsdCents::from(5_000),
                price,
            },
            CoreCreditEvent::FacilityCompleted { id: f.id, completed_at: 17 },
        ]
    );
}
