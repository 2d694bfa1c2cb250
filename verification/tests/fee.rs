use cashu_lsp::error::LspError;
use cashu_lsp::fee::fee_quote;

#[test]
fn fee_rate_above_floor() {
    // 1_000_000 / 1000 * 1 = 1000, above the 500 floor.
    let fee = fee_quote(1_000_000, 10_000, 10_000_000, 1, 500).unwrap();
    assert_eq!(fee, 1000);
}

#[test]
fn fee_floored_to_minimum() {
    // 10_000 / 1000 * 1 = 10, below the 500 floor.
    let fee = fee_quote(10_000, 10_000, 10_000_000, 1, 500).unwrap();
    assert_eq!(fee, 500);
}

#[test]
fn fee_rounds_size_down() {
    // 2_999 / 1000 = 2, times 7 = 14.
    let fee = fee_quote(2_999, 0, 10_000, 7, 1).unwrap();
    assert_eq!(fee, 14);
}

#[test]
fn size_below_minimum_rejected() {
    let r = fee_quote(9_999, 10_000, 10_000_000, 1, 500);
    match r {
        Err(LspError::InvalidChannelSize { size, min, max }) => {
            assert_eq!(size, 9_999);
            assert_eq!(min, 10_000);
            assert_eq!(max, 10_000_000);
        }
        other => panic!("expected InvalidChannelSize, got {:?}", other),
    }
}

#[test]
fn size_above_maximum_rejected() {
    let r = fee_quote(10_000_001, 10_000, 10_000_000, 1, 500);
    assert!(matches!(r, Err(LspError::InvalidChannelSize { .. })));
}

#[test]
fn size_bounds_inclusive() {
    assert!(fee_quote(10_000, 10_000, 10_000_000, 1, 500).is_ok());
    assert!(fee_quote(10_000_000, 10_000, 10_000_000, 1, 500).is_ok());
}

#[test]
fn fee_overflow_detected() {
    // (u64::MAX / 1000) * u64::MAX overflows and must fail, not wrap.
    let r = fee_quote(u64::MAX, 0, u64::MAX, u64::MAX, 0);
    assert!(matches!(r, Err(LspError::InternalError(_))));
}
