//! The decisions of the background worker: which order the balances call for,
//! and which task a heartbeat starts.

use crate::cache::Caches;
use crate::coinmotion::Balances;
use crate::coinmotion::BuySellAmount;
use crate::coinmotion::Error;
use crate::coinmotion::Rates;
use crate::decimal::difference_shifted_trunc;
use crate::decimal::lemma_minus_shifted_trunc;
use crate::decimal::lemma_pow10_grows;
use crate::decimal::lemma_pow10_step;
use crate::decimal::lemma_trunc_div_cancel;
use crate::decimal::lemma_trunc_div_rounds_down;
use crate::decimal::pow10;
use crate::decimal::Decimal;
use crate::time::Timestamp;
use vstd::arithmetic::mul::*;
use vstd::prelude::*;

verus! {

/// What one exchange cycle does with the account.
#[derive(Clone, Copy, Debug, PartialEq, Eq, Structural)]
pub enum ExchangeAction {
    /// Sell bitcoin.
    Sell(BuySellAmount),
    /// Withdraw this many euro cents.
    Withdraw(u64),
    /// Leave the account alone.
    Nothing,
}

/// Why no order can be placed although the balances call for one.
#[derive(Clone, Copy, Debug, PartialEq, Eq, Structural)]
pub enum DecideError {
    /// The bitcoin balance is negative, or has more satoshis than an order holds.
    SellAmountOutOfRange,
    /// The euro balance has more cents than an order holds.
    WithdrawalOutOfRange,
}

/// The fee of one withdrawal: 0.90 euros.
pub open spec fn withdrawal_fee_spec() -> Decimal {
    Decimal { unscaled: 90, scale: 2 }
}

/// The fee of one withdrawal: 0.90 euros.
pub fn withdrawal_fee() -> (fee: Decimal)
    ensures
        fee == withdrawal_fee_spec(),
{
    Decimal { unscaled: 90, scale: 2 }
}

/// The order that the balances call for.
///
/// Any bitcoin that is free is sold, all of it, counted in whole satoshis.
/// Failing that, the free euros beyond the withdrawal fee are withdrawn, counted
/// in whole cents. Failing that, nothing is done. Fractions are dropped.
pub open spec fn planned_action(balances: Balances) -> Result<ExchangeAction, DecideError> {
    let fee = withdrawal_fee_spec();
    if balances.btc_avl.unscaled != 0 {
        let satoshis = balances.btc_avl.shifted_trunc(8);
        if 0 <= satoshis <= u64::MAX {
            Ok(ExchangeAction::Sell(BuySellAmount::BtcSatoshis(satoshis as u64)))
        } else {
            Err(DecideError::SellAmountOutOfRange)
        }
    } else if balances.eur_avl.exceeds(fee) {
        let cents = difference_shifted_trunc(balances.eur_avl, fee, 2);
        if cents <= u64::MAX {
            Ok(ExchangeAction::Withdraw(cents as u64))
        } else {
            Err(DecideError::WithdrawalOutOfRange)
        }
    } else {
        Ok(ExchangeAction::Nothing)
    }
}

/// The cents of a balance above the fee are never negative.
proof fn lemma_cents_not_negative(eur: Decimal)
    requires
        eur.exceeds(withdrawal_fee_spec()),
    ensures
        difference_shifted_trunc(eur, withdrawal_fee_spec(), 2) >= 0,
{
    lemma_pow10_step(eur.scale as nat);
    lemma_pow10_step(2);
    lemma_mul_strictly_positive(eur.den(), withdrawal_fee_spec().den());
}

/// A balance above the fee whose distance from the fee cannot be written down
/// has more cents than an order holds.
proof fn lemma_unwritable_difference_is_large(eur: Decimal)
    requires
        eur.exceeds(withdrawal_fee_spec()),
        eur.minus(withdrawal_fee_spec()) is None,
    ensures
        difference_shifted_trunc(eur, withdrawal_fee_spec(), 2) > u64::MAX,
{
    let u = eur.unscaled as int;
    lemma_pow10_step(0);
    lemma_pow10_step(1);
    if eur.scale >= 2 {
        // At the scale of the balance the fee is the smaller number of the two,
        // so the difference can be written down: this case does not arise.
        lemma_pow10_grows(2, eur.scale as nat);
        assert(u * pow10(0) == u);
    } else {
        // It is the balance in cents that is too large, and the cents to
        // withdraw are 90 less.
        let f = pow10((2 - eur.scale) as nat);
        let d = eur.den();
        let cents = u * f;
        assert((u * 100 - 90 * d) * pow10(2) == (cents - 90) * (d * 100)) by (nonlinear_arith)
            requires
                pow10(2) == 100,
                cents == u * f,
                d * f == 100,
        ;
        lemma_trunc_div_cancel(cents - 90, d * 100, 1);
    }
}

/// Decides what one exchange cycle does, from a fresh snapshot of the balances.
///
/// Selling comes before withdrawing, and at most one order is placed. An error
/// says that the balances call for an order whose amount no order can hold.
pub fn decide(balances: &Balances) -> (r: Result<ExchangeAction, DecideError>)
    ensures
        r == planned_action(*balances),
{
    let fee = withdrawal_fee();
    if !balances.btc_avl.is_zero() {
        match balances.btc_avl.shifted_trunc_u64(8) {
            Some(satoshis) => Ok(ExchangeAction::Sell(BuySellAmount::BtcSatoshis(satoshis))),
            None => Err(DecideError::SellAmountOutOfRange),
        }
    } else if balances.eur_avl.gt(&fee) {
        proof {
            lemma_cents_not_negative(balances.eur_avl);
        }
        match balances.eur_avl.checked_sub(&fee) {
            Some(amount) => {
                proof {
                    lemma_minus_shifted_trunc(balances.eur_avl, fee, 2);
                }
                match amount.shifted_trunc_u64(2) {
                    Some(cents) => Ok(ExchangeAction::Withdraw(cents)),
                    None => Err(DecideError::WithdrawalOutOfRange),
                }
            },
            None => {
                proof {
                    lemma_unwritable_difference_is_large(balances.eur_avl);
                }
                Err(DecideError::WithdrawalOutOfRange)
            },
        }
    } else {
        Ok(ExchangeAction::Nothing)
    }
}

/// Free bitcoin is sold whatever the euro balance is: no balances with free
/// bitcoin lead to a withdrawal or to doing nothing.
pub proof fn lemma_sale_comes_first(balances: Balances)
    requires
        balances.btc_avl.unscaled != 0,
    ensures
        match planned_action(balances) {
            Ok(ExchangeAction::Sell(BuySellAmount::BtcSatoshis(_))) => true,
            Err(DecideError::SellAmountOutOfRange) => true,
            _ => false,
        },
{
}

/// An order never asks for more than is there: the satoshis sold are no more
/// than the free bitcoin, the cents withdrawn no more than the free euros less
/// the fee.
pub proof fn lemma_order_within_balance(balances: Balances)
    ensures
        match planned_action(balances) {
            Ok(ExchangeAction::Sell(BuySellAmount::BtcSatoshis(satoshis))) => {
                balances.btc_avl.unscaled > 0 ==> satoshis * balances.btc_avl.den()
                    <= balances.btc_avl.unscaled * pow10(8)
            },
            Ok(ExchangeAction::Withdraw(cents)) => {
                let (eur, fee) = (balances.eur_avl, withdrawal_fee_spec());
                cents * (eur.den() * fee.den()) <= (eur.unscaled * fee.den() - fee.unscaled
                    * eur.den()) * pow10(2)
            },
            _ => true,
        },
{
    let (btc, eur, fee) = (balances.btc_avl, balances.eur_avl, withdrawal_fee_spec());
    lemma_pow10_step(btc.scale as nat);
    lemma_pow10_step(eur.scale as nat);
    lemma_pow10_step(8);
    lemma_pow10_step(2);
    lemma_mul_strictly_positive(eur.den(), fee.den());
    if btc.unscaled > 0 {
        lemma_mul_strictly_positive(btc.unscaled as int, pow10(8));
        lemma_trunc_div_rounds_down(btc.unscaled * pow10(8), btc.den());
    } else if btc.unscaled == 0 && eur.exceeds(fee) {
        let owed = eur.unscaled * fee.den() - fee.unscaled * eur.den();
        lemma_mul_strictly_positive(owed, pow10(2));
        lemma_trunc_div_rounds_down(owed * pow10(2), eur.den() * fee.den());
    }
}

/// Seconds between two refreshes of the rates.
pub const UPDATE_RATES_INTERVAL_SECS: u64 = 60;

/// Seconds between two exchange cycles.
pub const EXCHANGE_INTERVAL_SECS: u64 = 300;

/// Seconds between two heartbeats.
pub const HEARTBEAT_SECS: u64 = 1;

/// A recurring task of the worker.
#[derive(Clone, Copy, Debug, PartialEq, Eq, Structural)]
pub enum Task {
    /// Fetch the rates and store them in the cache.
    UpdateRates,
    /// Fetch the balances and place the order they call for.
    Exchange,
}

/// The tasks that one heartbeat starts.
#[derive(Clone, Copy, Debug, PartialEq, Eq, Structural)]
pub struct TickPlan {
    /// Whether the rates are refreshed.
    pub update_rates: bool,
    /// Whether an exchange cycle runs.
    pub exchange: bool,
}

impl TickPlan {
    /// The tasks in the order in which they run, one after the other: the
    /// refresh of the rates first.
    pub open spec fn order(self) -> Seq<Task> {
        let first = if self.update_rates {
            seq![Task::UpdateRates]
        } else {
            Seq::<Task>::empty()
        };
        if self.exchange {
            first.push(Task::Exchange)
        } else {
            first
        }
    }

    /// The tasks in the order in which they run.
    pub fn tasks(&self) -> (tasks: Vec<Task>)
        ensures
            tasks@ == self.order(),
    {
        let mut tasks: Vec<Task> = Vec::new();
        if self.update_rates {
            tasks.push(Task::UpdateRates);
        }
        if self.exchange {
            tasks.push(Task::Exchange);
        }
        tasks
    }
}

/// The deadlines of the two tasks, in nanoseconds since the epoch.
pub struct SchedulerState {
    /// When the rates are next refreshed.
    pub next_rate_refresh_at: int,
    /// When the next exchange cycle runs.
    pub next_exchange_at: int,
}

impl SchedulerState {
    /// The deadlines of a scheduler started at `now`: one interval ahead each.
    pub open spec fn started_at(now: int) -> SchedulerState {
        SchedulerState {
            next_rate_refresh_at: now + UPDATE_RATES_INTERVAL_SECS * 1_000_000_000,
            next_exchange_at: now + EXCHANGE_INTERVAL_SECS * 1_000_000_000,
        }
    }

    /// The tasks that a heartbeat at `now` starts: those whose deadline has come.
    pub open spec fn plan_at(self, now: int) -> TickPlan {
        TickPlan {
            update_rates: self.next_rate_refresh_at <= now,
            exchange: self.next_exchange_at <= now,
        }
    }

    /// The deadlines after a heartbeat at `now`: a task that was started is next
    /// due one interval after `now`, however long ago its deadline was.
    pub open spec fn after_tick(self, now: int) -> SchedulerState {
        SchedulerState {
            next_rate_refresh_at: if self.next_rate_refresh_at <= now {
                now + UPDATE_RATES_INTERVAL_SECS * 1_000_000_000
            } else {
                self.next_rate_refresh_at
            },
            next_exchange_at: if self.next_exchange_at <= now {
                now + EXCHANGE_INTERVAL_SECS * 1_000_000_000
            } else {
                self.next_exchange_at
            },
        }
    }
}

/// Keeps the deadlines of the two recurring tasks.
pub struct Scheduler {
    update_rates_time: Timestamp,
    exchange_time: Timestamp,
}

impl View for Scheduler {
    type V = SchedulerState;

    closed spec fn view(&self) -> SchedulerState {
        SchedulerState {
            next_rate_refresh_at: self.update_rates_time.nanos as int,
            next_exchange_at: self.exchange_time.nanos as int,
        }
    }
}

impl Scheduler {
    /// A scheduler started at `now`. Both tasks are due one interval later.
    pub fn new(now: Timestamp) -> (scheduler: Self)
        requires
            now.can_add_secs(EXCHANGE_INTERVAL_SECS),
        ensures
            scheduler@ == SchedulerState::started_at(now.nanos as int),
    {
        Scheduler {
            update_rates_time: Timestamp {
                nanos: now.nanos + UPDATE_RATES_INTERVAL_SECS as u128 * 1_000_000_000,
            },
            exchange_time: Timestamp {
                nanos: now.nanos + EXCHANGE_INTERVAL_SECS as u128 * 1_000_000_000,
            },
        }
    }

    /// Handles the heartbeat at `now`: says which tasks to run, and moves the
    /// deadline of each of them one interval past `now` before any of them runs.
    pub fn tick(&mut self, now: Timestamp) -> (plan: TickPlan)
        requires
            now.can_add_secs(EXCHANGE_INTERVAL_SECS),
        ensures
            plan == old(self)@.plan_at(now.nanos as int),
            final(self)@ == old(self)@.after_tick(now.nanos as int),
    {
        let run_update_rates = self.update_rates_time.nanos <= now.nanos;
        let run_exchange = self.exchange_time.nanos <= now.nanos;
        if run_update_rates {
            self.update_rates_time = Timestamp {
                nanos: now.nanos + UPDATE_RATES_INTERVAL_SECS as u128 * 1_000_000_000,
            };
        }
        if run_exchange {
            self.exchange_time = Timestamp {
                nanos: now.nanos + EXCHANGE_INTERVAL_SECS as u128 * 1_000_000_000,
            };
        }
        TickPlan { update_rates: run_update_rates, exchange: run_exchange }
    }
}

/// Where both tasks are due, the rates are refreshed before the exchange cycle
/// runs.
pub proof fn lemma_refresh_runs_first(plan: TickPlan)
    requires
        plan.update_rates,
        plan.exchange,
    ensures
        plan.order() == seq![Task::UpdateRates, Task::Exchange],
{
}

/// After a heartbeat no task is due any more: a second heartbeat at the same
/// moment starts nothing, however late the first one came.
pub proof fn lemma_no_backlog(state: SchedulerState, now: int)
    ensures
        state.after_tick(now).next_rate_refresh_at > now,
        state.after_tick(now).next_exchange_at > now,
        state.after_tick(now).plan_at(now) == (TickPlan { update_rates: false, exchange: false }),
{
}

/// A heartbeat changes the deadline of a task only if it starts the task.
pub proof fn lemma_idle_tick_keeps_deadlines(state: SchedulerState, now: int)
    ensures
        !state.plan_at(now).update_rates ==> state.after_tick(now).next_rate_refresh_at
            == state.next_rate_refresh_at,
        !state.plan_at(now).exchange ==> state.after_tick(now).next_exchange_at
            == state.next_exchange_at,
{
}

/// What a run of heartbeats has done.
pub struct RunLog {
    /// The deadlines after the last heartbeat.
    pub state: SchedulerState,
    /// How often the rates were refreshed.
    pub rate_runs: nat,
    /// How often an exchange cycle ran.
    pub exchange_runs: nat,
}

/// The plan of the `n`-th heartbeat of a scheduler started at `start`, where
/// heartbeats come one second apart, the first one second after the start.
pub open spec fn heartbeat_plan(start: nat, n: nat) -> TickPlan
    recommends
        n > 0,
    decreases n, 0nat,
{
    if n == 0 {
        TickPlan { update_rates: false, exchange: false }
    } else {
        after_heartbeats(start, (n - 1) as nat).state.plan_at(start + n * 1_000_000_000int)
    }
}

/// The state and the counts after `n` such heartbeats.
pub open spec fn after_heartbeats(start: nat, n: nat) -> RunLog
    decreases n, 1nat,
{
    if n == 0 {
        RunLog { state: SchedulerState::started_at(start as int), rate_runs: 0, exchange_runs: 0 }
    } else {
        let before = after_heartbeats(start, (n - 1) as nat);
        let plan = heartbeat_plan(start, n);
        RunLog {
            state: before.state.after_tick(start + n * 1_000_000_000int),
            rate_runs: before.rate_runs + if plan.update_rates {
                1nat
            } else {
                0nat
            },
            exchange_runs: before.exchange_runs + if plan.exchange {
                1nat
            } else {
                0nat
            },
        }
    }
}

/// With one heartbeat a second, the rates are refreshed once every 60 seconds
/// and an exchange cycle runs once every 300 seconds: `n` seconds after the
/// start there were `n / 60` refreshes and `n / 300` cycles. A heartbeat starts
/// a refresh exactly at the multiples of 60 seconds, a cycle exactly at the
/// multiples of 300.
pub proof fn lemma_heartbeat_counts(start: nat, n: nat)
    ensures
        after_heartbeats(start, n).rate_runs == n / 60,
        after_heartbeats(start, n).exchange_runs == n / 300,
        after_heartbeats(start, n).state.next_rate_refresh_at == start + (n / 60 + 1) * 60
            * 1_000_000_000,
        after_heartbeats(start, n).state.next_exchange_at == start + (n / 300 + 1) * 300
            * 1_000_000_000,
        n > 0 ==> heartbeat_plan(start, n).update_rates == (n % 60 == 0),
        n > 0 ==> heartbeat_plan(start, n).exchange == (n % 300 == 0),
    decreases n,
{
    if n > 0 {
        let before = after_heartbeats(start, (n - 1) as nat);
        lemma_heartbeat_counts(start, (n - 1) as nat);
        // The heartbeat `n` finds the deadlines that the one before it left.
        assert(heartbeat_plan(start, n) == before.state.plan_at(start + n * 1_000_000_000int));
    }
}

/// Stores freshly fetched rates in the cache. A failed fetch leaves the cache
/// as it is. Returns whether the cache was written to.
pub fn update_rates_task(caches: &mut Caches, fetched: &Result<Rates, Error>, now: Timestamp) -> (stored:
    bool)
    ensures
        stored == (*fetched is Ok),
        final(caches)@ == match *fetched {
            Ok(rates) => old(caches)@.written_at(rates, now.nanos as nat),
            Err(_) => old(caches)@,
        },
{
    match fetched {
        Ok(rates) => {
            caches.rates_mut().set(*rates, now);
            true
        },
        Err(_) => false,
    }
}

/// Starts the worker once the first fetch of the rates has ended.
///
/// The worker is ready only if that fetch gave rates: they are stored, and the
/// scheduler starts at `now`. Otherwise there is no scheduler, the cache stays
/// empty-handed, and the caller gives up.
pub fn start(caches: &mut Caches, fetched: &Result<Rates, Error>, now: Timestamp) -> (scheduler:
    Option<Scheduler>)
    requires
        now.can_add_secs(EXCHANGE_INTERVAL_SECS),
    ensures
        match *fetched {
            Ok(rates) => scheduler.is_some() && scheduler.unwrap()@ == SchedulerState::started_at(
                now.nanos as int,
            ) && final(caches)@ == old(caches)@.written_at(rates, now.nanos as nat),
            Err(_) => scheduler is None && final(caches)@ == old(caches)@,
        },
{
    if update_rates_task(caches, fetched, now) {
        Some(Scheduler::new(now))
    } else {
        None
    }
}

} // verus!
