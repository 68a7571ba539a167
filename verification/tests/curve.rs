use curve_lvr::currency::Currency;
use curve_lvr::curve::{
    AmountInCalculated, AmountOutCalculated, ConstantSum, CurveCustomError, Error, ICurve,
    Notification, SinglePair, UniswapCurve,
};
use curve_lvr::uint::U256;

const CURRENCY_1: Currency = Currency {
    bytes: [
        0xA1, 0x1C, 0xEA, 0xCF, 0x9A, 0xA3, 0x22, 0x46, 0xD7, 0x67, 0xFC, 0xCD, 0x72, 0xE0, 0x2D,
        0x6B, 0xCB, 0xCC, 0x37, 0x5D,
    ],
};
const CURRENCY_2: Currency = Currency {
    bytes: [
        0xB0, 0xB0, 0xCB, 0x49, 0xEC, 0x2E, 0x96, 0xDF, 0x5F, 0x5F, 0xFB, 0x08, 0x1A, 0xCA, 0xE6,
        0x6A, 0x2C, 0xBB, 0xC2, 0xE2,
    ],
};

fn contract() -> UniswapCurve<ConstantSum> {
    UniswapCurve::new(ConstantSum {})
}

#[test]
fn sample_test() {
    assert_eq!(4, 2 + 2);
}

#[test]
fn calculates_amount_in() {
    let contract = contract();
    let amount_out = U256::from_u64(1);
    let expected_amount_in = amount_out; // 1:1 swap
    let amount_in = contract
        .calculate_amount_in(amount_out, CURRENCY_1, CURRENCY_2, true)
        .expect("should calculate `amount_in`");
    assert_eq!(expected_amount_in, amount_in);
}

#[test]
fn calculates_amount_out() {
    let contract = contract();
    let amount_in = U256::from_u64(2);
    let expected_amount_out = amount_in; // 1:1 swap
    let amount_out = contract
        .calculate_amount_out(amount_in, CURRENCY_1, CURRENCY_2, true)
        .expect("should calculate `amount_out`");
    assert_eq!(expected_amount_out, amount_out);
}

#[test]
fn returns_amount_in_for_exact_output() {
    let mut contract = contract();
    let amount_out = U256::from_u64(1);
    let expected_amount_in = amount_out; // 1:1 swap
    let amount_in = contract
        .get_amount_in_for_exact_output(amount_out, CURRENCY_1, CURRENCY_2, true)
        .expect("should calculate `amount_in`");
    assert_eq!(expected_amount_in, amount_in);
}

#[test]
fn returns_amount_out_from_exact_input() {
    let mut contract = contract();
    let amount_in = U256::from_u64(2);
    let expected_amount_out = amount_in; // 1:1 swap
    let amount_out = contract
        .get_amount_out_from_exact_input(amount_in, CURRENCY_1, CURRENCY_2, true)
        .expect("should calculate `amount_out`");
    assert_eq!(expected_amount_out, amount_out);
}

#[test]
fn exact_input_records_one_amount_out_notification() {
    let mut contract = contract();
    let amount_out = contract
        .get_amount_out_from_exact_input(U256::from_u64(2), CURRENCY_1, CURRENCY_2, true)
        .unwrap();
    assert_eq!(amount_out, U256::from_u64(2));
    let notifications = contract.take_notifications();
    assert_eq!(
        notifications,
        vec![Notification::AmountOut(AmountOutCalculated {
            amount_in: U256::from_u64(2),
            input: CURRENCY_1,
            output: CURRENCY_2,
            zero_for_one: true,
        })]
    );
}

#[test]
fn exact_output_records_one_amount_in_notification() {
    let mut contract = contract();
    let amount_in = contract
        .get_amount_in_for_exact_output(U256::from_u64(1), CURRENCY_1, CURRENCY_2, false)
        .unwrap();
    assert_eq!(amount_in, U256::from_u64(1));
    let notifications = contract.take_notifications();
    assert_eq!(
        notifications,
        vec![Notification::AmountIn(AmountInCalculated {
            amount_out: U256::from_u64(1),
            input: CURRENCY_1,
            output: CURRENCY_2,
            zero_for_one: false,
        })]
    );
}

#[test]
fn notifications_come_oldest_first_and_are_taken_once() {
    let mut contract = contract();
    contract
        .get_amount_in_for_exact_output(U256::from_u64(5), CURRENCY_1, CURRENCY_2, true)
        .unwrap();
    contract
        .get_amount_out_from_exact_input(U256::from_u64(9), CURRENCY_2, CURRENCY_1, false)
        .unwrap();
    let notifications = contract.take_notifications();
    assert_eq!(notifications.len(), 2);
    assert!(matches!(notifications[0], Notification::AmountIn(n) if n.amount_out == U256::from_u64(5)));
    assert!(matches!(notifications[1], Notification::AmountOut(n) if n.amount_in == U256::from_u64(9)
        && n.input == CURRENCY_2 && n.output == CURRENCY_1 && !n.zero_for_one));
    assert!(contract.take_notifications().is_empty());
}

#[test]
fn calculating_alone_records_nothing() {
    let mut contract = contract();
    contract.calculate_amount_in(U256::from_u64(3), CURRENCY_1, CURRENCY_2, true).unwrap();
    contract.calculate_amount_out(U256::from_u64(3), CURRENCY_1, CURRENCY_2, true).unwrap();
    assert!(contract.take_notifications().is_empty());
}

#[test]
fn constant_sum_is_one_to_one_on_the_largest_amount() {
    let mut contract = contract();
    let max = U256::max_value();
    assert_eq!(contract.get_amount_in_for_exact_output(max, CURRENCY_1, CURRENCY_2, true), Ok(max));
    assert_eq!(contract.get_amount_out_from_exact_input(max, CURRENCY_1, CURRENCY_2, true), Ok(max));
}

fn pair_contract() -> UniswapCurve<SinglePair> {
    UniswapCurve::new(SinglePair { token_0: CURRENCY_1, token_1: CURRENCY_2 })
}

#[test]
fn pricing_failure_is_wrapped_and_records_nothing() {
    let mut contract = pair_contract();
    // The pair named against its direction.
    assert_eq!(
        contract.get_amount_in_for_exact_output(U256::from_u64(1), CURRENCY_1, CURRENCY_2, false),
        Err(Error::CustomError(CurveCustomError {}))
    );
    assert_eq!(
        contract.get_amount_out_from_exact_input(U256::from_u64(2), CURRENCY_2, CURRENCY_1, true),
        Err(Error::CustomError(CurveCustomError {}))
    );
    // A token that is not of the pair.
    let other = Currency { bytes: [7; 20] };
    assert_eq!(
        contract.calculate_amount_in(U256::from_u64(1), CURRENCY_1, other, true),
        Err(Error::CustomError(CurveCustomError {}))
    );
    assert_eq!(
        contract.calculate_amount_out(U256::from_u64(1), other, CURRENCY_1, false),
        Err(Error::CustomError(CurveCustomError {}))
    );
    assert_eq!(
        contract.get_amount_out_from_exact_input(U256::from_u64(2), CURRENCY_1, CURRENCY_1, true),
        Err(Error::CustomError(CurveCustomError {}))
    );
    assert!(contract.take_notifications().is_empty());
}

#[test]
fn single_pair_trades_one_to_one_in_both_directions() {
    let mut contract = pair_contract();
    assert_eq!(
        contract.get_amount_in_for_exact_output(U256::from_u64(3), CURRENCY_1, CURRENCY_2, true),
        Ok(U256::from_u64(3))
    );
    assert_eq!(
        contract.get_amount_out_from_exact_input(U256::from_u64(4), CURRENCY_2, CURRENCY_1, false),
        Ok(U256::from_u64(4))
    );
    assert_eq!(
        contract.take_notifications(),
        vec![
            Notification::AmountIn(AmountInCalculated {
                amount_out: U256::from_u64(3),
                input: CURRENCY_1,
                output: CURRENCY_2,
                zero_for_one: true,
            }),
            Notification::AmountOut(AmountOutCalculated {
                amount_in: U256::from_u64(4),
                input: CURRENCY_2,
                output: CURRENCY_1,
                zero_for_one: false,
            }),
        ]
    );
}

#[test]
fn single_pair_decides_by_tokens_and_direction() {
    let pair = SinglePair { token_0: CURRENCY_1, token_1: CURRENCY_2 };
    assert!(pair.is_supported(&CURRENCY_1, &CURRENCY_2, true));
    assert!(pair.is_supported(&CURRENCY_2, &CURRENCY_1, false));
    assert!(!pair.is_supported(&CURRENCY_1, &CURRENCY_2, false));
    assert!(!pair.is_supported(&CURRENCY_2, &CURRENCY_1, true));
    assert!(!pair.is_supported(&CURRENCY_1, &CURRENCY_1, true));
    assert!(!pair.is_supported(&CURRENCY_2, &CURRENCY_2, false));
}

#[test]
fn currencies_are_the_same_where_every_byte_is() {
    assert!(CURRENCY_1.same(&CURRENCY_1));
    assert!(!CURRENCY_1.same(&CURRENCY_2));
    let mut bytes = CURRENCY_1.into_bytes();
    bytes[19] ^= 1;
    assert!(!CURRENCY_1.same(&Currency::new(bytes)));
    let mut bytes = CURRENCY_1.into_bytes();
    bytes[0] ^= 0x80;
    assert!(!CURRENCY_1.same(&Currency::new(bytes)));
    assert_eq!(Currency::new(CURRENCY_2.into_bytes()), CURRENCY_2);
}
