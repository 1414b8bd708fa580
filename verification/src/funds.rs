//! Multi-currency value handling: merging, fee deduction, and the
//! exactly-one-coin payment check.
//!
//! A list of coins represents a multi-currency amount; a well-formed list
//! holds at most one entry per denomination.

use vstd::prelude::*;

verus! {

/// One amount of a single currency: `denom` names the currency, `amount`
/// says how much of it.
#[derive(Debug, PartialEq, Eq)]
pub struct Coin {
    pub denom: String,
    pub amount: u128,
}

impl Clone for Coin {
    fn clone(&self) -> (res: Self)
        ensures
            res == *self,
    {
        Coin { denom: self.denom.clone(), amount: self.amount }
    }
}

/// Whether two coins agree on denomination and amount.
pub open spec fn coin_matches(a: Coin, b: Coin) -> bool {
    a.denom@ == b.denom@ && a.amount == b.amount
}

/// Whether `a` and `b` agree on denomination and amount.
pub fn coin_eq(a: &Coin, b: &Coin) -> (r: bool)
    ensures
        r == coin_matches(*a, *b),
{
    a.denom == b.denom && a.amount == b.amount
}

/// Index of the first coin with denomination `denom`, or -1 when none has it.
pub open spec fn find_denom(funds: Seq<Coin>, denom: Seq<char>) -> int
    decreases funds.len(),
{
    if funds.len() == 0 {
        -1
    } else if funds[0].denom@ == denom {
        0
    } else {
        let rest = find_denom(funds.subrange(1, funds.len() as int), denom);
        if rest == -1 {
            -1
        } else {
            rest + 1
        }
    }
}

/// `find_denom` returns -1 exactly when no coin has the denomination, and
/// otherwise the first index that has it.
pub proof fn lemma_find_denom(funds: Seq<Coin>, denom: Seq<char>)
    ensures
        -1 <= find_denom(funds, denom) < funds.len(),
        find_denom(funds, denom) == -1 ==> forall|i: int|
            0 <= i < funds.len() ==> funds[i].denom@ != denom,
        find_denom(funds, denom) >= 0 ==> funds[find_denom(funds, denom)].denom@ == denom,
        find_denom(funds, denom) >= 0 ==> forall|i: int|
            0 <= i < find_denom(funds, denom) ==> funds[i].denom@ != denom,
    decreases funds.len(),
{
    if funds.len() == 0 {
    } else if funds[0].denom@ == denom {
    } else {
        let tail = funds.subrange(1, funds.len() as int);
        lemma_find_denom(tail, denom);
        assert forall|i: int| 0 <= i < funds.len() && i >= 1 implies funds[i] == tail[i - 1] by {}
    }
}

/// Total of all amounts in a list of coins, across denominations.
pub open spec fn sum_amounts(funds: Seq<Coin>) -> int
    decreases funds.len(),
{
    if funds.len() == 0 {
        0
    } else {
        funds[0].amount + sum_amounts(funds.subrange(1, funds.len() as int))
    }
}

/// The total is never negative.
pub proof fn lemma_sum_amounts_nonneg(funds: Seq<Coin>)
    ensures
        sum_amounts(funds) >= 0,
    decreases funds.len(),
{
    if funds.len() > 0 {
        lemma_sum_amounts_nonneg(funds.subrange(1, funds.len() as int));
    }
}

/// Each single amount is bounded by the total.
pub proof fn lemma_sum_amounts_elem(funds: Seq<Coin>, i: int)
    requires
        0 <= i < funds.len(),
    ensures
        funds[i].amount <= sum_amounts(funds),
    decreases funds.len(),
{
    let tail = funds.subrange(1, funds.len() as int);
    if i == 0 {
        lemma_sum_amounts_nonneg(tail);
    } else {
        lemma_sum_amounts_elem(tail, i - 1);
        assert(tail[i - 1] == funds[i]);
    }
}

/// Replacing one coin changes the total by the difference of the amounts.
pub proof fn lemma_sum_amounts_update(funds: Seq<Coin>, i: int, c: Coin)
    requires
        0 <= i < funds.len(),
    ensures
        sum_amounts(funds.update(i, c)) == sum_amounts(funds) - funds[i].amount + c.amount,
    decreases funds.len(),
{
    let tail = funds.subrange(1, funds.len() as int);
    if i == 0 {
        assert(funds.update(0, c).subrange(1, funds.len() as int) =~= tail);
    } else {
        lemma_sum_amounts_update(tail, i - 1, c);
        assert(funds.update(i, c).subrange(1, funds.len() as int) =~= tail.update(i - 1, c));
    }
}

/// Appending one coin adds its amount to the total.
pub proof fn lemma_sum_amounts_push(funds: Seq<Coin>, c: Coin)
    ensures
        sum_amounts(funds.push(c)) == sum_amounts(funds) + c.amount,
    decreases funds.len(),
{
    let p = funds.push(c);
    assert(sum_amounts(p) == p[0].amount + sum_amounts(p.subrange(1, p.len() as int)));
    if funds.len() == 0 {
        assert(p.subrange(1, 1) =~= Seq::<Coin>::empty());
    } else {
        let tail = funds.subrange(1, funds.len() as int);
        lemma_sum_amounts_push(tail, c);
        assert(p.subrange(1, p.len() as int) =~= tail.push(c));
        assert(p[0] == funds[0]);
    }
}

/// The total a list of coins holds of one denomination.
pub open spec fn amount_of(funds: Seq<Coin>, denom: Seq<char>) -> int
    decreases funds.len(),
{
    if funds.len() == 0 {
        0
    } else {
        (if funds[0].denom@ == denom {
            funds[0].amount as int
        } else {
            0
        }) + amount_of(funds.subrange(1, funds.len() as int), denom)
    }
}

/// Replacing one coin changes a denomination's total by the difference of
/// the two coins' contributions to it.
pub proof fn lemma_amount_of_update(funds: Seq<Coin>, i: int, c: Coin, denom: Seq<char>)
    requires
        0 <= i < funds.len(),
    ensures
        amount_of(funds.update(i, c), denom) == amount_of(funds, denom) - (
        if funds[i].denom@ == denom {
            funds[i].amount as int
        } else {
            0
        }) + (if c.denom@ == denom {
            c.amount as int
        } else {
            0
        }),
    decreases funds.len(),
{
    let tail = funds.subrange(1, funds.len() as int);
    if i == 0 {
        assert(funds.update(0, c).subrange(1, funds.len() as int) =~= tail);
    } else {
        lemma_amount_of_update(tail, i - 1, c, denom);
        assert(funds.update(i, c).subrange(1, funds.len() as int) =~= tail.update(i - 1, c));
    }
}

/// Appending one coin adds its contribution to its own denomination's
/// total.
pub proof fn lemma_amount_of_push(funds: Seq<Coin>, c: Coin, denom: Seq<char>)
    ensures
        amount_of(funds.push(c), denom) == amount_of(funds, denom) + (
        if c.denom@ == denom {
            c.amount as int
        } else {
            0
        }),
    decreases funds.len(),
{
    let p = funds.push(c);
    assert(amount_of(p, denom) == (if p[0].denom@ == denom {
        p[0].amount as int
    } else {
        0
    }) + amount_of(p.subrange(1, p.len() as int), denom));
    if funds.len() == 0 {
        assert(p.subrange(1, 1) =~= Seq::<Coin>::empty());
    } else {
        let tail = funds.subrange(1, funds.len() as int);
        lemma_amount_of_push(tail, c, denom);
        assert(p.subrange(1, p.len() as int) =~= tail.push(c));
        assert(p[0] == funds[0]);
    }
}

/// Merging one coin adds its amount to its own denomination's total and
/// nothing to any other.
pub proof fn lemma_merge_coin_amount_of(acc: Seq<Coin>, c: Coin, denom: Seq<char>)
    requires
        sum_amounts(acc) + c.amount <= u128::MAX,
    ensures
        amount_of(merge_coin(acc, c), denom) == amount_of(acc, denom) + (
        if c.denom@ == denom {
            c.amount as int
        } else {
            0
        }),
{
    lemma_find_denom(acc, c.denom@);
    let j = find_denom(acc, c.denom@);
    if j >= 0 {
        lemma_sum_amounts_elem(acc, j);
        lemma_sum_amounts_nonneg(acc);
        lemma_amount_of_update(
            acc,
            j,
            Coin { denom: acc[j].denom, amount: (acc[j].amount + c.amount) as u128 },
            denom,
        );
    } else {
        lemma_amount_of_push(acc, c, denom);
    }
}

/// Merging a list of coins adds, denomination by denomination, exactly
/// what the list holds of each.
pub proof fn lemma_merge_coins_amount_of(acc: Seq<Coin>, cs: Seq<Coin>, denom: Seq<char>)
    requires
        sum_amounts(acc) + sum_amounts(cs) <= u128::MAX,
    ensures
        amount_of(merge_coins(acc, cs), denom) == amount_of(acc, denom) + amount_of(cs, denom),
    decreases cs.len(),
{
    if cs.len() > 0 {
        let tail = cs.subrange(1, cs.len() as int);
        lemma_sum_amounts_nonneg(tail);
        lemma_sum_amounts_elem(cs, 0);
        lemma_merge_coin_amount_of(acc, cs[0], denom);
        lemma_merge_coin_sum(acc, cs[0]);
        lemma_merge_coins_amount_of(merge_coin(acc, cs[0]), tail, denom);
        assert(sum_amounts(cs) == cs[0].amount + sum_amounts(tail));
    }
}

/// At most one entry per denomination.
pub open spec fn distinct_denoms(funds: Seq<Coin>) -> bool {
    forall|i: int, j: int| 0 <= i < j < funds.len() ==> funds[i].denom@ != funds[j].denom@
}

/// One coin merged into an accumulator: added onto the first entry of the
/// same denomination when there is one, appended at the end otherwise.
pub open spec fn merge_coin(acc: Seq<Coin>, c: Coin) -> Seq<Coin> {
    let j = find_denom(acc, c.denom@);
    if j >= 0 {
        acc.update(j, Coin { denom: acc[j].denom, amount: (acc[j].amount + c.amount) as u128 })
    } else {
        acc.push(c)
    }
}

/// A whole list of coins merged into an accumulator, left to right.
pub open spec fn merge_coins(acc: Seq<Coin>, cs: Seq<Coin>) -> Seq<Coin>
    decreases cs.len(),
{
    if cs.len() == 0 {
        acc
    } else {
        merge_coins(merge_coin(acc, cs[0]), cs.subrange(1, cs.len() as int))
    }
}

/// Merging one coin conserves the total.
pub proof fn lemma_merge_coin_sum(acc: Seq<Coin>, c: Coin)
    requires
        sum_amounts(acc) + c.amount <= u128::MAX,
    ensures
        sum_amounts(merge_coin(acc, c)) == sum_amounts(acc) + c.amount,
{
    lemma_find_denom(acc, c.denom@);
    let j = find_denom(acc, c.denom@);
    if j >= 0 {
        lemma_sum_amounts_elem(acc, j);
        lemma_sum_amounts_nonneg(acc);
        lemma_sum_amounts_update(
            acc,
            j,
            Coin { denom: acc[j].denom, amount: (acc[j].amount + c.amount) as u128 },
        );
    } else {
        lemma_sum_amounts_push(acc, c);
    }
}

/// Merging a list of coins conserves the total.
pub proof fn lemma_merge_coins_sum(acc: Seq<Coin>, cs: Seq<Coin>)
    requires
        sum_amounts(acc) + sum_amounts(cs) <= u128::MAX,
    ensures
        sum_amounts(merge_coins(acc, cs)) == sum_amounts(acc) + sum_amounts(cs),
    decreases cs.len(),
{
    if cs.len() > 0 {
        let tail = cs.subrange(1, cs.len() as int);
        lemma_sum_amounts_nonneg(tail);
        lemma_merge_coin_sum(acc, cs[0]);
        lemma_merge_coins_sum(merge_coin(acc, cs[0]), tail);
    }
}

/// Merging keeps denominations distinct.
pub proof fn lemma_merge_coin_distinct(acc: Seq<Coin>, c: Coin)
    requires
        distinct_denoms(acc),
    ensures
        distinct_denoms(merge_coin(acc, c)),
{
    lemma_find_denom(acc, c.denom@);
}

/// Merging a whole list keeps denominations distinct.
pub proof fn lemma_merge_coins_distinct(acc: Seq<Coin>, cs: Seq<Coin>)
    requires
        distinct_denoms(acc),
    ensures
        distinct_denoms(merge_coins(acc, cs)),
    decreases cs.len(),
{
    if cs.len() > 0 {
        lemma_merge_coin_distinct(acc, cs[0]);
        lemma_merge_coins_distinct(merge_coin(acc, cs[0]), cs.subrange(1, cs.len() as int));
    }
}

/// Merge one coin into `acc` in place.
pub fn merge_coin_into(acc: &mut Vec<Coin>, c: &Coin)
    requires
        sum_amounts(old(acc)@) + c.amount <= u128::MAX,
    ensures
        final(acc)@ == merge_coin(old(acc)@, *c),
{
    proof {
        lemma_find_denom(acc@, c.denom@);
    }
    let n = acc.len();
    let mut j: usize = 0;
    while j < n
        invariant
            j <= n,
            n == acc.len(),
            *acc == *old(acc),
            sum_amounts(acc@) + c.amount <= u128::MAX,
            forall|i: int| 0 <= i < j ==> acc@[i].denom@ != c.denom@,
        decreases n - j,
    {
        if acc[j].denom == c.denom {
            proof {
                lemma_find_denom(acc@, c.denom@);
                assert(find_denom(acc@, c.denom@) == j);
                lemma_sum_amounts_elem(acc@, j as int);
                lemma_sum_amounts_nonneg(acc@);
            }
            let entry = &mut acc[j];
            entry.amount = entry.amount + c.amount;
            return ;
        }
        j = j + 1;
    }
    proof {
        lemma_find_denom(acc@, c.denom@);
    }
    acc.push(c.clone());
}

/// A whole list of coins merged into `acc` in place, left to right.
pub fn merge_coins_into(acc: &mut Vec<Coin>, cs: &Vec<Coin>)
    requires
        sum_amounts(old(acc)@) + sum_amounts(cs@) <= u128::MAX,
    ensures
        final(acc)@ == merge_coins(old(acc)@, cs@),
{
    let n = cs.len();
    proof {
        assert(cs@.subrange(0, n as int) =~= cs@);
    }
    let mut k: usize = 0;
    while k < n
        invariant
            k <= n,
            n == cs.len(),
            sum_amounts(acc@) + sum_amounts(cs@.subrange(k as int, n as int)) <= u128::MAX,
            merge_coins(acc@, cs@.subrange(k as int, n as int)) == merge_coins(old(acc)@, cs@),
        decreases n - k,
    {
        let ghost pre = acc@;
        let ghost rest = cs@.subrange(k as int, n as int);
        proof {
            assert(rest[0] == cs@[k as int]);
            assert(rest.subrange(1, rest.len() as int) =~= cs@.subrange(k + 1, n as int));
            lemma_sum_amounts_nonneg(cs@.subrange(k + 1, n as int));
            lemma_sum_amounts_elem(rest, 0);
            lemma_merge_coin_sum(pre, cs@[k as int]);
            assert(sum_amounts(rest) == rest[0].amount + sum_amounts(rest.subrange(1, rest.len() as int)));
        }
        merge_coin_into(acc, &cs[k]);
        k = k + 1;
    }
    proof {
        assert(cs@.subrange(n as int, n as int) =~= Seq::<Coin>::empty());
    }
}

/// Why a payment was rejected.
#[derive(Debug, PartialEq, Eq)]
pub enum PaymentError {
    /// No funds were attached, or the single attached coin was zero.
    NoFunds,
    /// More than one denomination was attached.
    MultipleDenoms,
}

/// What the exactly-one-coin check returns: the single attached coin when
/// there is exactly one and its amount is nonzero, an error otherwise.
pub open spec fn one_coin_spec(funds: Seq<Coin>) -> Result<Coin, PaymentError> {
    if funds.len() == 0 {
        Err(PaymentError::NoFunds)
    } else if funds.len() > 1 {
        Err(PaymentError::MultipleDenoms)
    } else if funds[0].amount == 0 {
        Err(PaymentError::NoFunds)
    } else {
        Ok(funds[0])
    }
}

/// The attached funds must be exactly one coin of nonzero amount; that coin
/// is returned.
pub fn one_coin(funds: &Vec<Coin>) -> (r: Result<Coin, PaymentError>)
    ensures
        r == one_coin_spec(funds@),
{
    if funds.len() == 0 {
        Err(PaymentError::NoFunds)
    } else if funds.len() > 1 {
        Err(PaymentError::MultipleDenoms)
    } else if funds[0].amount == 0 {
        Err(PaymentError::NoFunds)
    } else {
        Ok(funds[0].clone())
    }
}

/// Fee deduction: `Some` of the funds left after the fee is taken out, or
/// `None` when the fee's denomination is absent or holds too little. An
/// entry emptied exactly is removed; a larger entry shrinks in place.
pub open spec fn deduct_fee_spec(funds: Seq<Coin>, fee: Coin) -> Option<Seq<Coin>> {
    let j = find_denom(funds, fee.denom@);
    if j == -1 {
        None
    } else if funds[j].amount < fee.amount {
        None
    } else if funds[j].amount == fee.amount {
        Some(funds.remove(j))
    } else {
        Some(
            funds.update(
                j,
                Coin { denom: funds[j].denom, amount: (funds[j].amount - fee.amount) as u128 },
            ),
        )
    }
}

/// Take `fee` out of `funds` in place. Returns whether the funds sufficed;
/// on failure the funds are left unchanged.
pub fn deduct_fee(funds: &mut Vec<Coin>, fee: &Coin) -> (ok: bool)
    ensures
        ok == (deduct_fee_spec(old(funds)@, *fee) is Some),
        ok ==> Some(final(funds)@) == deduct_fee_spec(old(funds)@, *fee),
        !ok ==> final(funds)@ == old(funds)@,
{
    let n = funds.len();
    let mut j: usize = 0;
    while j < n
        invariant
            j <= n,
            n == funds.len(),
            *funds == *old(funds),
            forall|i: int| 0 <= i < j ==> funds@[i].denom@ != fee.denom@,
        decreases n - j,
    {
        if funds[j].denom == fee.denom {
            proof {
                lemma_find_denom(funds@, fee.denom@);
                assert(find_denom(funds@, fee.denom@) == j);
            }
            if funds[j].amount < fee.amount {
                return false;
            } else if funds[j].amount == fee.amount {
                funds.remove(j);
                return true;
            } else {
                let entry = &mut funds[j];
                entry.amount = entry.amount - fee.amount;
                return true;
            }
        }
        j = j + 1;
    }
    proof {
        lemma_find_denom(funds@, fee.denom@);
    }
    false
}

/// Copy a list of coins.
pub fn clone_coins(funds: &Vec<Coin>) -> (r: Vec<Coin>)
    ensures
        r@ == funds@,
{
    let mut r: Vec<Coin> = Vec::new();
    let n = funds.len();
    let mut j: usize = 0;
    while j < n
        invariant
            j <= n,
            n == funds.len(),
            r@ == funds@.subrange(0, j as int),
        decreases n - j,
    {
        r.push(funds[j].clone());
        j = j + 1;
    }
    proof {
        assert(funds@.subrange(0, n as int) =~= funds@);
    }
    r
}

} // verus!
