//! The spend-limit plugin's accounting: per-transaction limits, and periodic
//! limits whose window rolls forward by whole periods.

use vstd::prelude::*;
use crate::error::ContractError;
use crate::msg::{coins_model, Coin, CoinModel, SdkMsg};
use crate::tracked_msgs::{get_transfer_balances, transfer_balances};

verus! {

/// The longest period a periodic limit may have: ten years, in seconds.
pub const MAX_SEC_PERIODIC: u64 = 315400000;

/// No single transaction may move more than `limit`.
#[derive(Clone, Debug)]
pub struct LimitPerTransaction {
    pub limit: Coin,
}

/// At most `limit` may be moved in each window of `periodic` seconds starting
/// at `begin_period`; `used` is what the current window has moved so far.
#[derive(Clone, Debug)]
pub struct LimitPeriodic {
    pub limit: Coin,
    pub used: u128,
    pub begin_period: u64,
    pub periodic: u64,
}

impl LimitPeriodic {
    pub open spec fn spec_end_period(&self) -> int {
        self.begin_period + self.periodic
    }

    /// The end of the current window.
    pub fn end_period(&self) -> (r: u64)
        requires
            self.spec_end_period() <= u64::MAX,
        ensures
            r == self.spec_end_period(),
    {
        self.begin_period + self.periodic
    }
}

#[derive(Clone, Debug)]
pub enum Limit {
    PerTransaction(LimitPerTransaction),
    Periodic(LimitPeriodic),
}

/// A stored limit's invariant: a periodic limit has a period in
/// `1..=MAX_SEC_PERIODIC` and a window end that fits in 64 bits.
pub open spec fn valid_limit(l: Limit) -> bool {
    match l {
        Limit::PerTransaction(_) => true,
        Limit::Periodic(p) => 0 < p.periodic <= MAX_SEC_PERIODIC && p.spec_end_period() <= u64::MAX,
    }
}

pub open spec fn valid_limits(ls: Seq<Limit>) -> bool {
    forall|i: int| 0 <= i < ls.len() ==> valid_limit(#[trigger] ls[i])
}

/// Whether every limit satisfies the stored-limit invariant.
pub fn limits_valid(limits: &Vec<Limit>) -> (r: bool)
    ensures
        r == valid_limits(limits@),
{
    let mut i: usize = 0;
    while i < limits.len()
        invariant
            i <= limits@.len(),
            forall|j: int| 0 <= j < i ==> valid_limit(#[trigger] limits@[j]),
        decreases limits@.len() - i,
    {
        let ok = match &limits[i] {
            Limit::PerTransaction(_) => true,
            Limit::Periodic(p) => 0 < p.periodic && p.periodic <= MAX_SEC_PERIODIC && p.begin_period
                <= u64::MAX - p.periodic,
        };
        if !ok {
            return false;
        }
        i = i + 1;
    }
    true
}

/// The verdict on a limit submitted at block time `now`.
pub open spec fn validation(l: Limit, now: u64) -> Result<(), ContractError> {
    match l {
        Limit::PerTransaction(_) => Ok(()),
        Limit::Periodic(p) => if p.periodic == 0 {
            Err(ContractError::ZeroPeriod)
        } else if p.periodic > MAX_SEC_PERIODIC {
            Err(ContractError::PeriodTooLarge)
        } else if p.begin_period > now + MAX_SEC_PERIODIC || p.spec_end_period() > u64::MAX {
            Err(ContractError::BeginPeriodTooFar)
        } else {
            Ok(())
        },
    }
}

/// Checks a limit submitted at block time `now`.
pub fn validate_limit(limit: &Limit, now: u64) -> (r: Result<(), ContractError>)
    ensures
        r == validation(*limit, now),
        r is Ok ==> valid_limit(*limit),
{
    match limit {
        Limit::PerTransaction(_) => Ok(()),
        Limit::Periodic(p) => {
            if p.periodic == 0 {
                Err(ContractError::ZeroPeriod)
            } else if p.periodic > MAX_SEC_PERIODIC {
                Err(ContractError::PeriodTooLarge)
            } else if p.begin_period as u128 > now as u128 + MAX_SEC_PERIODIC as u128 || p.begin_period
                > u64::MAX - p.periodic {
                Err(ContractError::BeginPeriodTooFar)
            } else {
                Ok(())
            }
        },
    }
}

/// The amount of `denom` in `spend` (its first entry for that denomination).
pub open spec fn spent_of(spend: Seq<CoinModel>, denom: Seq<char>) -> Option<u128>
    decreases spend.len(),
{
    if spend.len() == 0 {
        None
    } else if spend[0].0 == denom {
        Some(spend[0].1)
    } else {
        spent_of(spend.drop_first(), denom)
    }
}

/// The window of `p` at block time `now`: once `now` is past the window's end,
/// the window starts at the last whole multiple of the period before `now`
/// and nothing of it is used yet.
pub open spec fn rolled(p: LimitPeriodic, now: u64) -> LimitPeriodic {
    if now > p.spec_end_period() {
        LimitPeriodic {
            used: 0,
            begin_period: (now - (now - p.begin_period) % (p.periodic as int)) as u64,
            ..p
        }
    } else {
        p
    }
}

/// The verdict of one limit on a transaction spending `spend` at `now`: the
/// limit as it is to be stored, or the rejection.
pub open spec fn limit_verdict(l: Limit, spend: Seq<CoinModel>, now: u64) -> Result<Limit, ContractError> {
    match l {
        Limit::PerTransaction(t) => match spent_of(spend, t.limit.denom@) {
            None => Ok(l),
            Some(a) => if a > t.limit.amount {
                Err(
                    ContractError::ReachTransactionSpendLimit {
                        denom: t.limit.denom,
                        limit: t.limit.amount,
                        spent_amount: a,
                    },
                )
            } else {
                Ok(l)
            },
        },
        Limit::Periodic(p) => match spent_of(spend, p.limit.denom@) {
            None => Ok(l),
            Some(a) => {
                let q = rolled(p, now);
                let total = q.used + a;
                if total > p.limit.amount {
                    Err(
                        ContractError::ReachPeriodicSpendLimit {
                            denom: p.limit.denom,
                            limit: p.limit.amount,
                            begin_period: q.begin_period,
                            periodic: p.periodic,
                            spent_amount: if total > u128::MAX {
                                u128::MAX
                            } else {
                                total as u128
                            },
                        },
                    )
                } else {
                    Ok(Limit::Periodic(LimitPeriodic { used: total as u128, ..q }))
                }
            },
        },
    }
}

pub open spec fn accepts(l: Limit, spend: Seq<CoinModel>, now: u64) -> bool {
    limit_verdict(l, spend, now) is Ok
}

/// The limit as stored after an accepted transaction.
pub open spec fn after_spend(l: Limit, spend: Seq<CoinModel>, now: u64) -> Limit {
    match limit_verdict(l, spend, now) {
        Ok(n) => n,
        Err(_) => l,
    }
}

fn copy_coin(c: &Coin) -> (r: Coin)
    ensures
        r == *c,
{
    Coin { denom: c.denom.clone(), amount: c.amount }
}

/// The amount of `denom` in `spend`.
pub fn find_spent(spend: &Vec<Coin>, denom: &String) -> (r: Option<u128>)
    ensures
        r == spent_of(coins_model(spend@), denom@),
{
    let ghost m = coins_model(spend@);
    let mut i: usize = 0;
    assert(m.skip(0) =~= m);
    while i < spend.len()
        invariant
            i <= spend@.len(),
            m == coins_model(spend@),
            m.len() == spend@.len(),
            spent_of(m, denom@) == spent_of(m.skip(i as int), denom@),
        decreases spend@.len() - i,
    {
        if spend[i].denom == *denom {
            assert(m.skip(i as int)[0] == m[i as int]);
            return Some(spend[i].amount);
        }
        assert(m.skip(i as int).drop_first() =~= m.skip(i + 1));
        i = i + 1;
    }
    None
}

/// The verdict of one limit: `Ok(None)` when it stays as it is, `Ok(Some(n))`
/// when it is to be stored as `n`.
fn check_limit(l: &Limit, spend: &Vec<Coin>, now: u64) -> (r: Result<Option<Limit>, ContractError>)
    requires
        valid_limit(*l),
        now <= u64::MAX - MAX_SEC_PERIODIC,
    ensures
        r is Err <==> limit_verdict(*l, coins_model(spend@), now) is Err,
        r matches Err(e) ==> limit_verdict(*l, coins_model(spend@), now) == Err::<Limit, _>(e),
        r matches Ok(None) ==> limit_verdict(*l, coins_model(spend@), now) == Ok::<_, ContractError>(*l),
        r matches Ok(Some(n)) ==> limit_verdict(*l, coins_model(spend@), now) == Ok::<_, ContractError>(n),
        r matches Ok(Some(n)) ==> valid_limit(n),
{
    match l {
        Limit::PerTransaction(t) => match find_spent(spend, &t.limit.denom) {
            None => Ok(None),
            Some(a) => if a > t.limit.amount {
                Err(
                    ContractError::ReachTransactionSpendLimit {
                        denom: t.limit.denom.clone(),
                        limit: t.limit.amount,
                        spent_amount: a,
                    },
                )
            } else {
                Ok(None)
            },
        },
        Limit::Periodic(p) => match find_spent(spend, &p.limit.denom) {
            None => Ok(None),
            Some(a) => {
                let mut used = p.used;
                let mut begin = p.begin_period;
                if now > p.end_period() {
                    used = 0;
                    begin = now - (now - p.begin_period) % p.periodic;
                }
                match used.checked_add(a) {
                    None => Err(
                        ContractError::ReachPeriodicSpendLimit {
                            denom: p.limit.denom.clone(),
                            limit: p.limit.amount,
                            begin_period: begin,
                            periodic: p.periodic,
                            spent_amount: u128::MAX,
                        },
                    ),
                    Some(total) => if total > p.limit.amount {
                        Err(
                            ContractError::ReachPeriodicSpendLimit {
                                denom: p.limit.denom.clone(),
                                limit: p.limit.amount,
                                begin_period: begin,
                                periodic: p.periodic,
                                spent_amount: total,
                            },
                        )
                    } else {
                        let n = LimitPeriodic {
                            limit: copy_coin(&p.limit),
                            used: total,
                            begin_period: begin,
                            periodic: p.periodic,
                        };
                        Ok(Some(Limit::Periodic(n)))
                    },
                }
            },
        },
    }
}

/// Applies a transaction spending `spend` at block time `now` to the limits:
/// either every limit accepts it and each is updated, or the first limit that
/// rejects it gives the error and no limit changes.
pub fn evaluate_limits(limits: &mut Vec<Limit>, spend: &Vec<Coin>, now: u64) -> (r: Result<
    (),
    ContractError,
>)
    requires
        valid_limits(old(limits)@),
        now <= u64::MAX - MAX_SEC_PERIODIC,
    ensures
        valid_limits(final(limits)@),
        r is Ok <==> forall|i: int|
            0 <= i < old(limits)@.len() ==> accepts(#[trigger] old(limits)@[i], coins_model(spend@), now),
        r is Ok ==> final(limits)@ == old(limits)@.map_values(|l: Limit| after_spend(l, coins_model(spend@), now)),
        r matches Err(e) ==> *final(limits) == *old(limits) && exists|i: int|
            0 <= i < old(limits)@.len() && limit_verdict(#[trigger] old(limits)@[i], coins_model(spend@), now)
                == Err::<Limit, _>(e) && forall|j: int|
                0 <= j < i ==> accepts(#[trigger] old(limits)@[j], coins_model(spend@), now),
{
    let mut i: usize = 0;
    while i < limits.len()
        invariant
            valid_limits(limits@),
            now <= u64::MAX - MAX_SEC_PERIODIC,
            i <= limits@.len(),
            forall|j: int| 0 <= j < i ==> accepts(#[trigger] limits@[j], coins_model(spend@), now),
        decreases limits@.len() - i,
    {
        match check_limit(&limits[i], spend, now) {
            Err(e) => {
                return Err(e);
            },
            Ok(_) => {},
        }
        i = i + 1;
    }
    let ghost orig = limits@;
    let mut k: usize = 0;
    while k < limits.len()
        invariant
            limits@.len() == orig.len(),
            now <= u64::MAX - MAX_SEC_PERIODIC,
            k <= orig.len(),
            valid_limits(orig),
            forall|j: int| 0 <= j < orig.len() ==> accepts(#[trigger] orig[j], coins_model(spend@), now),
            forall|j: int| 0 <= j < k ==> #[trigger] limits@[j] == after_spend(orig[j], coins_model(spend@), now),
            forall|j: int| k <= j < orig.len() ==> #[trigger] limits@[j] == orig[j],
            forall|j: int| 0 <= j < k ==> valid_limit(#[trigger] limits@[j]),
        decreases orig.len() - k,
    {
        match check_limit(&limits[k], spend, now) {
            Ok(Some(n)) => {
                limits.set(k, n);
            },
            _ => {},
        }
        k = k + 1;
    }
    assert(limits@ =~= orig.map_values(|l: Limit| after_spend(l, coins_model(spend@), now)));
    Ok(())
}

/// Adds a limit submitted at block time `now`.
pub fn add_limit(limits: &mut Vec<Limit>, limit: Limit, now: u64) -> (r: Result<(), ContractError>)
    requires
        valid_limits(old(limits)@),
    ensures
        valid_limits(final(limits)@),
        r == validation(limit, now),
        r is Ok ==> final(limits)@ == old(limits)@.push(limit),
        r is Err ==> *final(limits) == *old(limits),
{
    match validate_limit(&limit, now) {
        Err(e) => Err(e),
        Ok(()) => {
            limits.push(limit);
            Ok(())
        },
    }
}

/// Replaces the limit at `index` with a limit submitted at block time `now`.
pub fn update_limit(limits: &mut Vec<Limit>, index: u32, limit: Limit, now: u64) -> (r: Result<
    (),
    ContractError,
>)
    requires
        valid_limits(old(limits)@),
    ensures
        valid_limits(final(limits)@),
        validation(limit, now) is Err ==> r == validation(limit, now),
        validation(limit, now) is Ok && index >= old(limits)@.len() ==> r == Err::<(), _>(
            ContractError::OutOfRange,
        ),
        validation(limit, now) is Ok && index < old(limits)@.len() ==> r is Ok && final(limits)@
            == old(limits)@.update(index as int, limit),
        r is Err ==> *final(limits) == *old(limits),
{
    match validate_limit(&limit, now) {
        Err(e) => Err(e),
        Ok(()) => {
            if index as usize >= limits.len() {
                return Err(ContractError::OutOfRange);
            }
            limits.set(index as usize, limit);
            Ok(())
        },
    }
}

/// Removes the limit at `index`.
pub fn delete_limit(limits: &mut Vec<Limit>, index: u32) -> (r: Result<(), ContractError>)
    requires
        valid_limits(old(limits)@),
    ensures
        valid_limits(final(limits)@),
        index >= old(limits)@.len() ==> r == Err::<(), _>(ContractError::OutOfRange),
        index >= old(limits)@.len() ==> *final(limits) == *old(limits),
        index < old(limits)@.len() ==> r is Ok,
        index < old(limits)@.len() ==> final(limits)@ == old(limits)@.remove(index as int),
{
    if index as usize >= limits.len() {
        return Err(ContractError::OutOfRange);
    }
    limits.remove(index as usize);
    Ok(())
}

/// The limits of an account that registers with the plugin, given what is
/// stored for it.
pub fn register_account(stored: &Option<Vec<Limit>>) -> (r: Result<Vec<Limit>, ContractError>)
    ensures
        stored is Some ==> r == Err::<Vec<Limit>, _>(ContractError::AccountAlreadyRegister),
        stored is None ==> (r matches Ok(ls) && ls@.len() == 0),
{
    match stored {
        Some(_) => Err(ContractError::AccountAlreadyRegister),
        None => Ok(Vec::new()),
    }
}

/// The limits of a registered account; an unregistered one has none to use.
pub fn load_limits(stored: Option<Vec<Limit>>) -> (r: Result<Vec<Limit>, ContractError>)
    ensures
        stored is None ==> r == Err::<Vec<Limit>, _>(ContractError::AccountNotRegistered),
        stored matches Some(ls) ==> r == Ok::<_, ContractError>(ls),
{
    match stored {
        None => Err(ContractError::AccountNotRegistered),
        Some(ls) => Ok(ls),
    }
}

/// The spend-limit plugin's after-execute hook for an account whose limits
/// are `limits`, on a transaction of messages `msgs` at block time `now`: the
/// transaction's per-denomination totals are applied to every limit at once.
pub fn handle_after_execute(limits: &mut Vec<Limit>, msgs: Vec<SdkMsg>, now: u64) -> (r: Result<
    (),
    ContractError,
>)
    requires
        valid_limits(old(limits)@),
        now <= u64::MAX - MAX_SEC_PERIODIC,
    ensures
        valid_limits(final(limits)@),
        r is Err ==> *final(limits) == *old(limits),
        transfer_balances(msgs@) matches Err(e) ==> r == Err::<(), _>(e),
        transfer_balances(msgs@) matches Ok(spend) ==> {
            &&& (r is Ok <==> forall|i: int|
                0 <= i < old(limits)@.len() ==> accepts(#[trigger] old(limits)@[i], spend, now))
            &&& r is Ok ==> final(limits)@ == old(limits)@.map_values(
                |l: Limit| after_spend(l, spend, now),
            )
            &&& r matches Err(e) ==> exists|i: int|
                0 <= i < old(limits)@.len() && limit_verdict(#[trigger] old(limits)@[i], spend, now)
                    == Err::<Limit, _>(e) && forall|j: int|
                    0 <= j < i ==> accepts(#[trigger] old(limits)@[j], spend, now)
        },
{
    let spend = match get_transfer_balances(msgs) {
        Err(e) => {
            return Err(e);
        },
        Ok(b) => b,
    };
    if spend.len() == 0 {
        let ghost sm = coins_model(spend@);
        assert(sm =~= Seq::<CoinModel>::empty());
        assert(limits@ =~= limits@.map_values(|l: Limit| after_spend(l, sm, now)));
        return Ok(());
    }
    evaluate_limits(limits, &spend, now)
}

} // verus!
