use fedmsg::funds::{Coin, PaymentError, coin_eq, deduct_fee, merge_coins_into, one_coin};

fn coin(denom: &str, amount: u128) -> Coin {
    Coin { denom: denom.to_string(), amount }
}

#[test]
fn one_coin_accepts_a_single_nonzero_coin() {
    let r = one_coin(&vec![coin("uatom", 5)]);
    assert_eq!(r, Ok(coin("uatom", 5)));
}

#[test]
fn one_coin_rejects_no_funds() {
    assert_eq!(one_coin(&vec![]), Err(PaymentError::NoFunds));
}

#[test]
fn one_coin_rejects_a_zero_coin() {
    assert_eq!(one_coin(&vec![coin("uatom", 0)]), Err(PaymentError::NoFunds));
}

#[test]
fn one_coin_rejects_multiple_coins() {
    let r = one_coin(&vec![coin("uatom", 5), coin("uxyz", 1)]);
    assert_eq!(r, Err(PaymentError::MultipleDenoms));
}

#[test]
fn coin_eq_compares_denomination_and_amount() {
    assert!(coin_eq(&coin("uatom", 5), &coin("uatom", 5)));
    assert!(!coin_eq(&coin("uatom", 5), &coin("uatom", 6)));
    assert!(!coin_eq(&coin("uatom", 5), &coin("uxyz", 5)));
}

#[test]
fn deduct_fee_subtracts_in_place_when_more_than_enough() {
    let mut funds = vec![coin("uatom", 10), coin("uxyz", 3)];
    assert!(deduct_fee(&mut funds, &coin("uatom", 5)));
    assert_eq!(funds, vec![coin("uatom", 5), coin("uxyz", 3)]);
}

#[test]
fn deduct_fee_removes_an_entry_emptied_exactly() {
    let mut funds = vec![coin("uatom", 5)];
    assert!(deduct_fee(&mut funds, &coin("uatom", 5)));
    assert_eq!(funds, Vec::<Coin>::new());
}

#[test]
fn deduct_fee_fails_on_insufficient_amount() {
    let mut funds = vec![coin("uatom", 3)];
    assert!(!deduct_fee(&mut funds, &coin("uatom", 5)));
    assert_eq!(funds, vec![coin("uatom", 3)]);
}

#[test]
fn deduct_fee_fails_on_missing_denomination() {
    let mut funds = vec![coin("uxyz", 10)];
    assert!(!deduct_fee(&mut funds, &coin("uatom", 5)));
    assert_eq!(funds, vec![coin("uxyz", 10)]);
}

#[test]
fn merge_sums_same_denomination_and_appends_new_ones() {
    let mut acc = vec![coin("uatom", 2)];
    merge_coins_into(&mut acc, &vec![coin("uatom", 3), coin("uxyz", 1)]);
    assert_eq!(acc, vec![coin("uatom", 5), coin("uxyz", 1)]);
}

#[test]
fn merge_into_empty_copies_the_coins() {
    let mut acc: Vec<Coin> = vec![];
    merge_coins_into(&mut acc, &vec![coin("uatom", 2), coin("uatom", 3)]);
    assert_eq!(acc, vec![coin("uatom", 5)]);
}
