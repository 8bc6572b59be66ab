use lana_core::cvl::CVLPct;
use lana_core::decimal::{Dec, Rounding};
use lana_core::primitives::UsdCents;

fn pct(mantissa: i128, scale: u32) -> CVLPct {
    CVLPct::Finite(Dec { mantissa, scale })
}

#[test]
fn loan_cvl_pct_scale() {
    let cvl = pct(140, 0);
    let value = UsdCents::from(100000);
    let scaled = cvl.scale(value);
    assert_eq!(scaled, UsdCents::from(140000));

    let cvl = pct(50, 0);
    let value = UsdCents::from(333333);
    let scaled = cvl.scale(value);
    assert_eq!(scaled, UsdCents::from(166667));
}

#[test]
fn current_cvl_from_loan_amounts() {
    let expected_cvl = pct(125, 0);
    let collateral_value = UsdCents::from(125000);
    let outstanding_amount = UsdCents::from(100000);
    let cvl = CVLPct::from_loan_amounts(collateral_value, outstanding_amount);
    assert_eq!(cvl, expected_cvl);

    let expected_cvl = pct(75, 0);
    let collateral_value = UsdCents::from(75000);
    let outstanding_amount = UsdCents::from(100000);
    let cvl = CVLPct::from_loan_amounts(collateral_value, outstanding_amount);
    assert_eq!(cvl, expected_cvl);
}

#[test]
fn current_cvl_for_zero_amounts() {
    let expected_cvl = CVLPct::zero();
    let collateral_value = UsdCents::zero();
    let outstanding_amount = UsdCents::from(100000);
    let cvl = CVLPct::from_loan_amounts(collateral_value, outstanding_amount);
    assert_eq!(cvl, expected_cvl);

    let expected_cvl = CVLPct::Infinite;
    let collateral_value = UsdCents::from(75000);
    let outstanding_amount = UsdCents::zero();
    let cvl = CVLPct::from_loan_amounts(collateral_value, outstanding_amount);
    assert_eq!(cvl, expected_cvl);

    let expected_cvl = CVLPct::zero();
    let collateral_value = UsdCents::zero();
    let outstanding_amount = UsdCents::zero();
    let cvl = CVLPct::from_loan_amounts(collateral_value, outstanding_amount);
    assert_eq!(cvl, expected_cvl);
}

#[test]
fn cvl_is_significantly_higher() {
    let buffer = CVLPct::new(5);

    let collateral_value = UsdCents::from(125000);
    let outstanding_amount = UsdCents::from(100000);
    let cvl = CVLPct::from_loan_amounts(collateral_value, outstanding_amount);
    let collateral_value = UsdCents::from(130999);
    let outstanding_amount = UsdCents::from(100000);
    let slightly_higher_cvl = CVLPct::from_loan_amounts(collateral_value, outstanding_amount);
    assert!(!cvl.is_significantly_lower_than(slightly_higher_cvl, buffer));
    let collateral_value = UsdCents::from(131000);
    let outstanding_amount = UsdCents::from(100000);
    let significantly_higher_cvl = CVLPct::from_loan_amounts(collateral_value, outstanding_amount);
    assert!(cvl.is_significantly_lower_than(significantly_higher_cvl, buffer));
}

#[test]
fn loan_ratio_is_cut_to_whole_hundredths() {
    // 2/3 = 0.666.. is cut to 0.66, i.e. 66 percent
    let cvl = CVLPct::from_loan_amounts(UsdCents::from(2), UsdCents::from(3));
    assert_eq!(cvl, pct(66, 0));
    assert_ne!(cvl, pct(67, 0));
    // 1999/1000 = 1.999 is cut to 1.99
    let cvl = CVLPct::from_loan_amounts(UsdCents::from(1999), UsdCents::from(1000));
    assert_eq!(cvl, pct(199, 0));
}

#[test]
fn scale_rounds_away_from_zero() {
    // 1 percent of 1 cent is 0.01 cent, rounded up to 1 cent
    assert_eq!(pct(1, 0).scale(UsdCents::from(1)), UsdCents::from(1));
    // 0 percent of anything is zero
    assert_eq!(CVLPct::zero().scale(UsdCents::from(12345)), UsdCents::from(0));
    // 12.5 percent of 1000 cents
    assert_eq!(pct(125, 1).scale(UsdCents::from(1000)), UsdCents::from(125));
}

#[test]
fn try_scale_of_infinite_is_none() {
    assert_eq!(CVLPct::Infinite.try_scale(UsdCents::from(100)), None);
    assert_eq!(pct(140, 0).try_scale(UsdCents::from(100000)), Some(UsdCents::from(140000)));
}

#[test]
fn infinite_ratio_compares_above_finite() {
    assert!(CVLPct::Infinite > pct(1_000_000, 0));
    assert!(pct(10, 0) < pct(105, 1) || pct(10, 0) == pct(100, 1));
    assert_eq!(pct(150, 1), pct(15, 0));
    // an infinite ratio is never significantly lower than anything
    assert!(!CVLPct::Infinite.is_significantly_lower_than(CVLPct::Infinite, CVLPct::new(5)));
    // anything finite is significantly lower than infinity
    assert!(CVLPct::new(500).is_significantly_lower_than(CVLPct::Infinite, CVLPct::new(5)));
}

#[test]
fn checked_comparison_reports_overflow() {
    let huge = pct(79_228_162_514_264_337_593_543_950_335, 0);
    assert_eq!(huge.checked_is_significantly_lower_than(CVLPct::Infinite, huge), None);
    assert_eq!(
        CVLPct::new(125).checked_is_significantly_lower_than(CVLPct::new(131), CVLPct::new(5)),
        Some(true)
    );
}

#[test]
fn adding_ratios() {
    assert_eq!(CVLPct::new(125) + CVLPct::new(5), CVLPct::new(130));
    assert_eq!(CVLPct::new(125) + CVLPct::Infinite, CVLPct::Infinite);
    assert!(CVLPct::zero().is_zero());
    assert!(!CVLPct::Infinite.is_zero());
    assert!(!CVLPct::new(1).is_zero());
}

#[test]
fn decimal_operations() {
    let a = Dec { mantissa: 15, scale: 1 };
    let b = Dec { mantissa: 3, scale: 0 };
    assert_eq!(a.checked_div(b), Some(Dec { mantissa: 5, scale: 1 }));
    assert_eq!(b.checked_div(Dec::zero()), None);
    assert_eq!(a.checked_mul(b), Some(Dec { mantissa: 45, scale: 1 }));
    assert_eq!(a.checked_add(b), Some(Dec { mantissa: 45, scale: 1 }));
    assert_eq!(Dec { mantissa: -1234, scale: 3 }.round_dp(1, Rounding::ToZero), Dec { mantissa: -12, scale: 1 });
    assert_eq!(Dec { mantissa: -1234, scale: 3 }.round_dp(1, Rounding::AwayFromZero), Dec { mantissa: -13, scale: 1 });
    assert_eq!(Dec { mantissa: 1999, scale: 2 }.to_u64(), Some(19));
    assert_eq!(Dec { mantissa: -1, scale: 2 }.to_u64(), None);
    assert_eq!(UsdCents::from(12345).to_usd(), Dec { mantissa: 12345, scale: 2 });
}

#[test]
fn ratios_as_text() {
    assert_eq!(CVLPct::new(125).to_string(), "125");
    assert_eq!(pct(12550, 2).to_string(), "125.50");
    assert_eq!(CVLPct::Infinite.to_string(), "∞");
    assert_eq!(Dec { mantissa: -5, scale: 3 }.to_string(), "-0.005");
}

#[test]
fn whole_multiples_give_exact_ratios() {
    let cvl = CVLPct::from_loan_amounts(UsdCents::from(300_000), UsdCents::from(100_000));
    match cvl {
        CVLPct::Finite(d) => {
            assert_eq!(d.mantissa, 300);
            assert_eq!(d.scale, 0);
        }
        CVLPct::Infinite => panic!("expected a finite ratio"),
    }
    assert_eq!(pct(200, 0).scale(UsdCents::from(12_345)), UsdCents::from(24_690));
    assert_eq!(pct(100, 0).try_scale(UsdCents::from(7)), Some(UsdCents::from(7)));
}

#[test]
fn sums_are_exact_at_the_larger_scale() {
    // 125 + 5 is exactly 130, so 130 is not above it
    assert!(!CVLPct::new(125).is_significantly_lower_than(CVLPct::new(130), CVLPct::new(5)));
    assert_eq!(
        Dec { mantissa: 125, scale: 0 }.checked_add(Dec { mantissa: -5, scale: 2 }),
        Some(Dec { mantissa: 12495, scale: 2 })
    );
    assert_eq!(
        Dec { mantissa: 7, scale: 0 }.checked_add(Dec { mantissa: -7, scale: 0 }),
        Some(Dec { mantissa: 0, scale: 0 })
    );
}

#[test]
fn quotients_are_rounded_to_the_nearest() {
    assert_eq!(
        Dec { mantissa: 2, scale: 0 }.checked_div(Dec { mantissa: 3, scale: 0 }),
        Some(Dec { mantissa: 6_666_666_666_666_666_666_666_666_667, scale: 28 })
    );
    assert_eq!(
        Dec { mantissa: 1, scale: 0 }.checked_div(Dec { mantissa: 3, scale: 0 }),
        Some(Dec { mantissa: 3_333_333_333_333_333_333_333_333_333, scale: 28 })
    );
}

#[test]
fn decimal_text_places_the_point_by_the_scale() {
    assert_eq!(Dec { mantissa: 0, scale: 0 }.to_string(), "0");
    assert_eq!(Dec { mantissa: 0, scale: 2 }.to_string(), "0.00");
    assert_eq!(Dec { mantissa: 15, scale: 1 }.to_string(), "1.5");
    assert_eq!(Dec { mantissa: -120, scale: 0 }.to_string(), "-120");
}

#[test]
fn quotients_that_end_are_exact() {
    assert_eq!(
        Dec { mantissa: 125_000, scale: 2 }.checked_div(Dec { mantissa: 100_000, scale: 2 }),
        Some(Dec { mantissa: 125, scale: 2 })
    );
    assert_eq!(
        Dec { mantissa: 1, scale: 0 }.checked_div(Dec { mantissa: 8, scale: 0 }),
        Some(Dec { mantissa: 125, scale: 3 })
    );
}
