//! The account ledger: per-participant balances under lock-up rules,
//! deposit and withdrawal transitions, the fund configuration and the
//! running total of locked value.
//!
//! The whole persisted state of the fund is the `PensionFundContract`
//! record. Participant identities and token identifiers reach the core as
//! plain numeric ids; the unverified shell around the core maps runtime
//! addresses to such ids, performs the actual token transfers, and stores
//! the record between calls.

use vstd::prelude::*;

verus! {

use crate::errors::Error;
use crate::fees;
use crate::math::{bp_portion, bp_product_fits, lemma_bp_portion_bounds, lemma_bp_portion_pair_bound};

/// How aggressively a participant's share is allocated across assets.
#[derive(Clone, Copy, Debug, PartialEq, Eq, Structural)]
pub enum RiskProfile {
    Conservative,
    Moderate,
    Aggressive,
}

/// Per-participant ledger record. Created lazily on first use with zeroed
/// fields and never deleted; the accounting identity
/// `balance == total_deposits - total_withdrawals + rewards_earned`
/// and `balance >= 0` hold at all times.
#[derive(Clone, Copy, Debug, PartialEq, Eq, Structural)]
pub struct UserAccount {
    pub balance: i128,
    pub risk_profile: RiskProfile,
    pub locked_until: u64,
    pub last_deposit: u64,
    pub total_deposits: i128,
    pub total_withdrawals: i128,
    pub rewards_earned: i128,
    pub referral_code: u64,
}

/// The fund configuration singleton. All fee rates are basis points in
/// `0..=10000`, and the withdrawal fee and early-withdrawal penalty rates
/// together stay at or below 10000 so a net payout never changes sign.
#[derive(Clone, Copy, Debug, PartialEq, Eq, Structural)]
pub struct FundConfig {
    pub kale_token: u64,
    pub min_deposit: i128,
    pub max_deposit: i128,
    pub lock_period: u64,
    pub withdrawal_fee: u32,
    pub performance_fee: u32,
    pub early_withdrawal_penalty: u32,
    pub referral_bonus: u32,
}

/// What a successful deposit reports back to the caller.
#[derive(Clone, Copy, Debug, PartialEq, Eq, Structural)]
pub struct DepositResult {
    pub user: u64,
    pub amount: i128,
    pub new_balance: i128,
    pub lock_until: u64,
    pub referral_bonus: i128,
}

/// What a successful withdrawal reports back to the caller.
#[derive(Clone, Copy, Debug, PartialEq, Eq, Structural)]
pub struct WithdrawalResult {
    pub user: u64,
    pub amount: i128,
    pub fee: i128,
    pub penalty: i128,
    pub net_amount: i128,
    pub new_balance: i128,
}

/// One keyed entry of the ledger: a participant id and its record.
#[derive(Clone, Copy, Debug, PartialEq, Eq, Structural)]
pub struct AccountEntry {
    pub user: u64,
    pub account: UserAccount,
}

/// The pension fund state: administrator identity, configuration, the
/// keyed participant ledger and the running total of locked value.
#[derive(Debug)]
pub struct PensionFundContract {
    pub admin: u64,
    pub config: FundConfig,
    pub total_locked: i128,
    pub accounts: Vec<AccountEntry>,
}

/// The zero-initialized record an unknown participant reads as.
pub open spec fn initial_account() -> UserAccount {
    UserAccount {
        balance: 0,
        risk_profile: RiskProfile::Conservative,
        locked_until: 0,
        last_deposit: 0,
        total_deposits: 0,
        total_withdrawals: 0,
        rewards_earned: 0,
        referral_code: 0,
    }
}

/// No two ledger entries share a participant id.
pub open spec fn accounts_unique(s: Seq<AccountEntry>) -> bool {
    forall|i: int, j: int|
        0 <= i < s.len() && 0 <= j < s.len() && i != j ==> #[trigger] s[i].user != #[trigger] s[
            j
        ].user
}

/// Whether the ledger holds an entry for `user`.
pub open spec fn has_account(s: Seq<AccountEntry>, user: u64) -> bool {
    exists|i: int| 0 <= i < s.len() && (#[trigger] s[i]).user == user
}

/// The record stored for `user`, or the zero-initialized default when the
/// ledger holds none.
pub open spec fn account_of(s: Seq<AccountEntry>, user: u64) -> UserAccount {
    if has_account(s, user) {
        let i = choose|i: int| 0 <= i < s.len() && (#[trigger] s[i]).user == user;
        s[i].account
    } else {
        initial_account()
    }
}

/// The sum of all balances held in the ledger.
pub open spec fn sum_balances(s: Seq<AccountEntry>) -> int
    decreases s.len(),
{
    if s.len() == 0 {
        0
    } else {
        sum_balances(s.drop_last()) + s.last().account.balance
    }
}

/// The accounting identity every stored record satisfies. Reward accrual
/// is a placeholder in this revision (`distribute_rewards` books nothing),
/// so `rewards_earned` stays zero and the identity reduces to
/// `balance == total_deposits - total_withdrawals`.
pub open spec fn account_wf(a: UserAccount) -> bool {
    &&& a.balance >= 0
    &&& a.balance == a.total_deposits - a.total_withdrawals + a.rewards_earned
    &&& a.rewards_earned == 0
}

/// Validity of a fund configuration: the minimum deposit is nonnegative,
/// every rate is at most 10000 bp, and withdrawal fee plus
/// early-withdrawal penalty stay at or below 10000 bp.
pub open spec fn config_wf(c: FundConfig) -> bool {
    &&& c.min_deposit >= 0
    &&& c.withdrawal_fee <= 10000
    &&& c.performance_fee <= 10000
    &&& c.early_withdrawal_penalty <= 10000
    &&& c.referral_bonus <= 10000
    &&& c.withdrawal_fee + c.early_withdrawal_penalty <= 10000
}

proof fn lemma_sum_balances_update(s: Seq<AccountEntry>, i: int, e: AccountEntry)
    requires
        0 <= i < s.len(),
    ensures
        sum_balances(s.update(i, e)) == sum_balances(s) - s[i].account.balance + e.account.balance,
    decreases s.len(),
{
    let t = s.update(i, e);
    if i == s.len() - 1 {
        assert(t.drop_last() =~= s.drop_last());
        assert(t.last() == e);
    } else {
        assert(t.drop_last() =~= s.drop_last().update(i, e));
        assert(t.last() == s.last());
        lemma_sum_balances_update(s.drop_last(), i, e);
    }
}

proof fn lemma_sum_balances_push(s: Seq<AccountEntry>, e: AccountEntry)
    ensures
        sum_balances(s.push(e)) == sum_balances(s) + e.account.balance,
{
    assert(s.push(e).drop_last() =~= s);
    assert(s.push(e).last() == e);
}

/// When every stored balance is nonnegative, the total is at least any
/// single entry's balance.
proof fn lemma_sum_balances_bound(s: Seq<AccountEntry>, i: int)
    requires
        0 <= i < s.len(),
        forall|j: int| 0 <= j < s.len() ==> (#[trigger] s[j]).account.balance >= 0,
    ensures
        sum_balances(s) >= s[i].account.balance,
    decreases s.len(),
{
    if i == s.len() - 1 {
        lemma_sum_balances_nonneg(s.drop_last());
    } else {
        lemma_sum_balances_bound(s.drop_last(), i);
        assert(s.drop_last()[i] == s[i]);
    }
}

/// A ledger of nonnegative balances has a nonnegative total.
proof fn lemma_sum_balances_nonneg(s: Seq<AccountEntry>)
    requires
        forall|j: int| 0 <= j < s.len() ==> (#[trigger] s[j]).account.balance >= 0,
    ensures
        sum_balances(s) >= 0,
    decreases s.len(),
{
    if s.len() > 0 {
        lemma_sum_balances_nonneg(s.drop_last());
    }
}

impl PensionFundContract {
    /// Validity of the whole fund state: a valid configuration, uniquely
    /// keyed accounts each satisfying the accounting identity, and a total
    /// locked value equal to the sum of all balances.
    pub open spec fn wf(self) -> bool {
        &&& config_wf(self.config)
        &&& accounts_unique(self.accounts@)
        &&& forall|i: int|
            0 <= i < self.accounts@.len() ==> account_wf(
                (#[trigger] self.accounts@[i]).account,
            )
        &&& self.total_locked == sum_balances(self.accounts@)
    }
}

/// The stored record for a present id is the entry holding that id.
proof fn lemma_account_of_present(s: Seq<AccountEntry>, i: int)
    requires
        accounts_unique(s),
        0 <= i < s.len(),
    ensures
        account_of(s, s[i].user) == s[i].account,
        has_account(s, s[i].user),
{
    let user = s[i].user;
    assert(has_account(s, user));
    let k = choose|k: int| 0 <= k < s.len() && (#[trigger] s[k]).user == user;
    assert(k == i);
}

/// Replacing the entry at `i` rewrites that id's record and leaves every
/// other id's record, and the set of stored ids, unchanged.
proof fn lemma_account_of_update(s: Seq<AccountEntry>, i: int, e: AccountEntry)
    requires
        accounts_unique(s),
        0 <= i < s.len(),
        e.user == s[i].user,
    ensures
        accounts_unique(s.update(i, e)),
        account_of(s.update(i, e), e.user) == e.account,
        has_account(s.update(i, e), e.user),
        forall|u: u64|
            u != e.user ==> #[trigger] account_of(s.update(i, e), u) == account_of(s, u),
        forall|u: u64| u != e.user ==> #[trigger] has_account(s.update(i, e), u) == has_account(s, u),
{
    let t = s.update(i, e);
    assert forall|p: int, q: int|
        0 <= p < t.len() && 0 <= q < t.len() && p != q implies #[trigger] t[p].user != #[trigger] t[
        q
    ].user by {
        assert(s[p].user != s[q].user);
    }
    lemma_account_of_present(t, i);
    assert forall|u: u64| u != e.user implies #[trigger] has_account(t, u) == has_account(s, u) by {
        if has_account(s, u) {
            let k = choose|k: int| 0 <= k < s.len() && (#[trigger] s[k]).user == u;
            assert(t[k].user == u);
        }
        if has_account(t, u) {
            let k = choose|k: int| 0 <= k < t.len() && (#[trigger] t[k]).user == u;
            assert(s[k].user == u);
        }
    }
    assert forall|u: u64|
        u != e.user implies #[trigger] account_of(t, u) == account_of(s, u) by {
        if has_account(s, u) {
            let k = choose|k: int| 0 <= k < s.len() && (#[trigger] s[k]).user == u;
            let k2 = choose|k: int| 0 <= k < t.len() && (#[trigger] t[k]).user == u;
            assert(t[k].user == u);
            assert(s[k2].user == u);
            assert(k == k2);
        }
    }
}

/// Appending an entry for a fresh id stores its record and leaves every
/// other id's record, and the rest of the stored ids, unchanged.
proof fn lemma_account_of_push(s: Seq<AccountEntry>, e: AccountEntry)
    requires
        accounts_unique(s),
        !has_account(s, e.user),
    ensures
        accounts_unique(s.push(e)),
        account_of(s.push(e), e.user) == e.account,
        has_account(s.push(e), e.user),
        forall|u: u64| u != e.user ==> #[trigger] account_of(s.push(e), u) == account_of(s, u),
        forall|u: u64| u != e.user ==> #[trigger] has_account(s.push(e), u) == has_account(s, u),
{
    let t = s.push(e);
    let n = s.len() as int;
    assert(t[n] == e);
    assert forall|p: int, q: int|
        0 <= p < t.len() && 0 <= q < t.len() && p != q implies #[trigger] t[p].user != #[trigger] t[
        q
    ].user by {
        if p < n && q < n {
            assert(s[p].user != s[q].user);
        } else if p == n {
            assert(t[q] == s[q]);
            assert(s[q].user != e.user);
        } else {
            assert(t[p] == s[p]);
            assert(s[p].user != e.user);
        }
    }
    lemma_account_of_present(t, n);
    assert forall|u: u64| u != e.user implies #[trigger] has_account(t, u) == has_account(s, u) by {
        if has_account(s, u) {
            let k = choose|k: int| 0 <= k < s.len() && (#[trigger] s[k]).user == u;
            assert(t[k].user == u);
        }
        if has_account(t, u) {
            let k = choose|k: int| 0 <= k < t.len() && (#[trigger] t[k]).user == u;
            assert(k < n);
            assert(s[k].user == u);
        }
    }
    assert forall|u: u64|
        u != e.user implies #[trigger] account_of(t, u) == account_of(s, u) by {
        if has_account(s, u) {
            let k = choose|k: int| 0 <= k < s.len() && (#[trigger] s[k]).user == u;
            let k2 = choose|k: int| 0 <= k < t.len() && (#[trigger] t[k]).user == u;
            assert(t[k].user == u);
            assert(k2 < n);
            assert(s[k2].user == u);
            assert(k == k2);
        }
    }
}

impl PensionFundContract {
    fn find_account_index(accounts: &Vec<AccountEntry>, user: u64) -> (r: Option<usize>)
        ensures
            r matches Some(i) ==> i < accounts@.len() && accounts@[i as int].user == user,
            r is None ==> !has_account(accounts@, user),
    {
        let mut i: usize = 0;
        while i < accounts.len()
            invariant
                i <= accounts@.len(),
                forall|j: int| 0 <= j < i ==> (#[trigger] accounts@[j]).user != user,
            decreases accounts@.len() - i,
        {
            if accounts[i].user == user {
                return Some(i);
            }
            i = i + 1;
        }
        None
    }

    /// Store `account` under `user`, replacing the existing entry or
    /// appending a new one.
    fn store_account(accounts: &mut Vec<AccountEntry>, user: u64, account: UserAccount)
        requires
            accounts_unique(old(accounts)@),
        ensures
            accounts_unique(final(accounts)@),
            account_of(final(accounts)@, user) == account,
            has_account(final(accounts)@, user),
            forall|u: u64|
                u != user ==> #[trigger] account_of(final(accounts)@, u) == account_of(
                    old(accounts)@,
                    u,
                ),
            forall|u: u64|
                u != user ==> #[trigger] has_account(final(accounts)@, u) == has_account(
                    old(accounts)@,
                    u,
                ),
            sum_balances(final(accounts)@) == sum_balances(old(accounts)@) - account_of(
                old(accounts)@,
                user,
            ).balance + account.balance,
            forall|i: int|
                0 <= i < final(accounts)@.len() ==> (#[trigger] final(accounts)@[i]).account
                    == account || exists|j: int|
                    0 <= j < old(accounts)@.len() && final(accounts)@[i] == #[trigger] old(
                        accounts,
                    )@[j],
    {
        let entry = AccountEntry { user, account };
        match Self::find_account_index(accounts, user) {
            Some(i) => {
                proof {
                    lemma_account_of_present(accounts@, i as int);
                    lemma_account_of_update(accounts@, i as int, entry);
                    lemma_sum_balances_update(accounts@, i as int, entry);
                }
                accounts.set(i, entry);
            },
            None => {
                proof {
                    lemma_account_of_push(accounts@, entry);
                    lemma_sum_balances_push(accounts@, entry);
                }
                accounts.push(entry);
            },
        }
    }

    /// The participant's stored record, or the zero-initialized default
    /// when none exists; a read never fails and never changes the state.
    pub fn get_account(&self, user: u64) -> (account: UserAccount)
        requires
            self.wf(),
        ensures
            account == account_of(self.accounts@, user),
            !has_account(self.accounts@, user) ==> account == initial_account(),
    {
        match Self::find_account_index(&self.accounts, user) {
            Some(i) => {
                proof {
                    lemma_account_of_present(self.accounts@, i as int);
                }
                self.accounts[i].account
            },
            None => UserAccount {
                balance: 0,
                risk_profile: RiskProfile::Conservative,
                locked_until: 0,
                last_deposit: 0,
                total_deposits: 0,
                total_withdrawals: 0,
                rewards_earned: 0,
                referral_code: 0,
            },
        }
    }
}

/// Whether `amount` lies inside the configured deposit bounds.
pub open spec fn deposit_amount_valid(c: FundConfig, amount: i128) -> bool {
    c.min_deposit <= amount && amount <= c.max_deposit
}

/// The referral bonus a deposit pays out: a basis-point portion of the
/// amount when a referrer is named, zero otherwise.
pub open spec fn referral_bonus_value(amount: i128, bp: u32, referral: Option<u64>) -> int {
    if referral is Some {
        bp_portion(amount as int, bp as int)
    } else {
        0
    }
}

/// The participant record after a deposit of `amount` at time `now`.
pub open spec fn deposit_updated_account(
    a: UserAccount,
    amount: i128,
    risk_profile: RiskProfile,
    now: u64,
    lock_period: u64,
) -> UserAccount {
    UserAccount {
        balance: (a.balance + amount) as i128,
        risk_profile,
        locked_until: (now + lock_period) as u64,
        last_deposit: now,
        total_deposits: (a.total_deposits + amount) as i128,
        total_withdrawals: a.total_withdrawals,
        rewards_earned: a.rewards_earned,
        referral_code: a.referral_code,
    }
}

/// The participant record after a withdrawal of `amount`: the gross amount
/// leaves the balance and is booked onto `total_withdrawals`.
pub open spec fn withdraw_updated_account(a: UserAccount, amount: i128) -> UserAccount {
    UserAccount {
        balance: (a.balance - amount) as i128,
        risk_profile: a.risk_profile,
        locked_until: a.locked_until,
        last_deposit: a.last_deposit,
        total_deposits: a.total_deposits,
        total_withdrawals: (a.total_withdrawals + amount) as i128,
        rewards_earned: a.rewards_earned,
        referral_code: a.referral_code,
    }
}

/// The configuration after a partial update: each supplied field replaces
/// the stored one, each omitted field keeps its prior value.
pub open spec fn patched_config(
    c: FundConfig,
    min_deposit: Option<i128>,
    max_deposit: Option<i128>,
    withdrawal_fee: Option<u32>,
    performance_fee: Option<u32>,
    early_withdrawal_penalty: Option<u32>,
) -> FundConfig {
    FundConfig {
        kale_token: c.kale_token,
        min_deposit: if min_deposit is Some {
            min_deposit->0
        } else {
            c.min_deposit
        },
        max_deposit: if max_deposit is Some {
            max_deposit->0
        } else {
            c.max_deposit
        },
        lock_period: c.lock_period,
        withdrawal_fee: if withdrawal_fee is Some {
            withdrawal_fee->0
        } else {
            c.withdrawal_fee
        },
        performance_fee: if performance_fee is Some {
            performance_fee->0
        } else {
            c.performance_fee
        },
        early_withdrawal_penalty: if early_withdrawal_penalty is Some {
            early_withdrawal_penalty->0
        } else {
            c.early_withdrawal_penalty
        },
        referral_bonus: c.referral_bonus,
    }
}

/// The record read for any id out of a ledger of valid records is valid.
proof fn lemma_account_of_valid(s: Seq<AccountEntry>, user: u64)
    requires
        forall|i: int| 0 <= i < s.len() ==> account_wf((#[trigger] s[i]).account),
    ensures
        account_wf(account_of(s, user)),
{
    if has_account(s, user) {
        let k = choose|i: int| 0 <= i < s.len() && (#[trigger] s[i]).user == user;
        assert(account_wf(s[k].account));
    }
}

/// The total of a ledger of nonnegative balances covers any single
/// participant's balance.
proof fn lemma_total_covers_account(s: Seq<AccountEntry>, user: u64)
    requires
        forall|j: int| 0 <= j < s.len() ==> (#[trigger] s[j]).account.balance >= 0,
    ensures
        sum_balances(s) >= account_of(s, user).balance,
{
    if has_account(s, user) {
        let k = choose|i: int| 0 <= i < s.len() && (#[trigger] s[i]).user == user;
        lemma_sum_balances_bound(s, k);
    } else {
        lemma_sum_balances_nonneg(s);
    }
}

impl PensionFundContract {
    /// Whether a deposit would overflow the 128-bit ledger arithmetic or
    /// the 64-bit lock timestamp.
    pub open spec fn deposit_overflows(
        self,
        user: u64,
        amount: i128,
        referral: Option<u64>,
        now: u64,
    ) -> bool {
        let a = account_of(self.accounts@, user);
        ||| (referral is Some && !bp_product_fits(amount as int, self.config.referral_bonus as int))
        ||| now + self.config.lock_period > u64::MAX
        ||| a.balance + amount > i128::MAX
        ||| a.total_deposits + amount > i128::MAX
        ||| self.total_locked + amount > i128::MAX
    }

    /// Whether a withdrawal would overflow the 128-bit ledger arithmetic.
    pub open spec fn withdraw_overflows(self, user: u64, amount: i128, now: u64) -> bool {
        let a = account_of(self.accounts@, user);
        ||| !bp_product_fits(amount as int, self.config.withdrawal_fee as int)
        ||| (now < a.locked_until && !bp_product_fits(
            amount as int,
            self.config.early_withdrawal_penalty as int,
        ))
        ||| a.balance - amount > i128::MAX
        ||| !(i128::MIN <= a.total_withdrawals + amount <= i128::MAX)
        ||| self.total_locked - amount > i128::MAX
    }

    /// Set up the fund: store the administrator, the configuration, and an
    /// empty ledger with nothing locked.
    pub fn initialize(
        admin: u64,
        kale_token: u64,
        min_deposit: i128,
        max_deposit: i128,
        lock_period: u64,
        withdrawal_fee: u32,
        performance_fee: u32,
        early_withdrawal_penalty: u32,
        referral_bonus: u32,
    ) -> (fund: Self)
        requires
            min_deposit >= 0,
            withdrawal_fee <= 10000,
            performance_fee <= 10000,
            early_withdrawal_penalty <= 10000,
            referral_bonus <= 10000,
            withdrawal_fee + early_withdrawal_penalty <= 10000,
        ensures
            fund.wf(),
            fund.admin == admin,
            fund.config == (FundConfig {
                kale_token,
                min_deposit,
                max_deposit,
                lock_period,
                withdrawal_fee,
                performance_fee,
                early_withdrawal_penalty,
                referral_bonus,
            }),
            fund.total_locked == 0,
            fund.accounts@.len() == 0,
            forall|u: u64| !(#[trigger] has_account(fund.accounts@, u)),
    {
        PensionFundContract {
            admin,
            config: FundConfig {
                kale_token,
                min_deposit,
                max_deposit,
                lock_period,
                withdrawal_fee,
                performance_fee,
                early_withdrawal_penalty,
                referral_bonus,
            },
            total_locked: 0,
            accounts: Vec::new(),
        }
    }

    /// The fund configuration.
    pub fn get_config(&self) -> (c: FundConfig)
        ensures
            c == self.config,
    {
        self.config
    }

    /// The total value currently locked in the fund.
    pub fn get_total_locked(&self) -> (t: i128)
        ensures
            t == self.total_locked,
    {
        self.total_locked
    }

    /// Book a deposit: credit the amount to the participant's balance and
    /// deposit history, restart the lock, record the deposit time and risk
    /// profile, grow the fund total, and report the referral bonus owed to
    /// the named referrer. The incoming tokens, and the bonus payout, move
    /// outside the core; a failed transfer must abort before this
    /// transition's result is persisted.
    pub fn deposit(
        &mut self,
        user: u64,
        amount: i128,
        risk_profile: RiskProfile,
        referral: Option<u64>,
        now: u64,
    ) -> (r: Result<DepositResult, Error>)
        requires
            old(self).wf(),
        ensures
            final(self).wf(),
            final(self).admin == old(self).admin,
            final(self).config == old(self).config,
            r is Err ==> *final(self) == *old(self),
            r == Err::<DepositResult, Error>(Error::InvalidAmount) <==> !deposit_amount_valid(
                old(self).config,
                amount,
            ),
            deposit_amount_valid(old(self).config, amount) ==> ((r is Err) <==> old(
                self,
            ).deposit_overflows(user, amount, referral, now)),
            deposit_amount_valid(old(self).config, amount) && r is Err ==> r == Err::<
                DepositResult,
                Error,
            >(Error::ArithmeticOverflow),
            r is Ok ==> account_of(final(self).accounts@, user) == deposit_updated_account(
                account_of(old(self).accounts@, user),
                amount,
                risk_profile,
                now,
                old(self).config.lock_period,
            ),
            r is Ok ==> has_account(final(self).accounts@, user),
            r is Ok ==> forall|u: u64|
                u != user ==> #[trigger] account_of(final(self).accounts@, u) == account_of(
                    old(self).accounts@,
                    u,
                ),
            r is Ok ==> final(self).total_locked == old(self).total_locked + amount,
            r matches Ok(d) ==> d == (DepositResult {
                user,
                amount,
                new_balance: (account_of(old(self).accounts@, user).balance + amount) as i128,
                lock_until: (now + old(self).config.lock_period) as u64,
                referral_bonus: referral_bonus_value(
                    amount,
                    old(self).config.referral_bonus,
                    referral,
                ) as i128,
            }),
    {
        if amount < self.config.min_deposit || amount > self.config.max_deposit {
            return Err(Error::InvalidAmount);
        }
        let referral_bonus: i128 = match referral {
            Some(_) => match crate::math::bp_mul_div(amount, self.config.referral_bonus) {
                Some(b) => b,
                None => {
                    return Err(Error::ArithmeticOverflow);
                },
            },
            None => 0,
        };
        let account = self.get_account(user);
        proof {
            lemma_account_of_valid(self.accounts@, user);
            lemma_sum_balances_nonneg(self.accounts@);
        }
        let lock_until = match now.checked_add(self.config.lock_period) {
            Some(t) => t,
            None => {
                return Err(Error::ArithmeticOverflow);
            },
        };
        let new_balance = match account.balance.checked_add(amount) {
            Some(b) => b,
            None => {
                return Err(Error::ArithmeticOverflow);
            },
        };
        let new_deposits = match account.total_deposits.checked_add(amount) {
            Some(d) => d,
            None => {
                return Err(Error::ArithmeticOverflow);
            },
        };
        let new_total = match self.total_locked.checked_add(amount) {
            Some(t) => t,
            None => {
                return Err(Error::ArithmeticOverflow);
            },
        };
        let updated = UserAccount {
            balance: new_balance,
            risk_profile,
            locked_until: lock_until,
            last_deposit: now,
            total_deposits: new_deposits,
            total_withdrawals: account.total_withdrawals,
            rewards_earned: account.rewards_earned,
            referral_code: account.referral_code,
        };
        Self::store_account(&mut self.accounts, user, updated);
        self.total_locked = new_total;
        proof {
            assert forall|i: int| 0 <= i < self.accounts@.len() implies account_wf(
                (#[trigger] self.accounts@[i]).account,
            ) by {
                if self.accounts@[i].account != updated {
                    let j = choose|j: int|
                        0 <= j < old(self).accounts@.len() && self.accounts@[i] == #[trigger] old(
                            self,
                        ).accounts@[j];
                    assert(account_wf(old(self).accounts@[j].account));
                }
            }
        }
        Ok(DepositResult { user, amount, new_balance, lock_until, referral_bonus })
    }

    /// Book a withdrawal: charge the withdrawal fee and, while the lock is
    /// still active, the early-withdrawal penalty; debit the gross amount
    /// from the balance, book it onto the withdrawal history, shrink the
    /// fund total, and report the net payout owed to the participant.
    pub fn withdraw(&mut self, user: u64, amount: i128, now: u64) -> (r: Result<
        WithdrawalResult,
        Error,
    >)
        requires
            old(self).wf(),
        ensures
            final(self).wf(),
            final(self).admin == old(self).admin,
            final(self).config == old(self).config,
            r is Err ==> *final(self) == *old(self),
            r == Err::<WithdrawalResult, Error>(Error::InsufficientBalance) <==> amount > account_of(
                old(self).accounts@,
                user,
            ).balance,
            amount <= account_of(old(self).accounts@, user).balance ==> ((r is Err) <==> old(
                self,
            ).withdraw_overflows(user, amount, now)),
            amount <= account_of(old(self).accounts@, user).balance && r is Err ==> r == Err::<
                WithdrawalResult,
                Error,
            >(Error::ArithmeticOverflow),
            r is Ok ==> account_of(final(self).accounts@, user) == withdraw_updated_account(
                account_of(old(self).accounts@, user),
                amount,
            ),
            r is Ok ==> has_account(final(self).accounts@, user),
            r is Ok ==> forall|u: u64|
                u != user ==> #[trigger] account_of(final(self).accounts@, u) == account_of(
                    old(self).accounts@,
                    u,
                ),
            r is Ok ==> final(self).total_locked == old(self).total_locked - amount,
            r matches Ok(w) ==> w == (WithdrawalResult {
                user,
                amount,
                fee: fees::fee_value(amount, old(self).config.withdrawal_fee) as i128,
                penalty: fees::penalty_value(
                    amount,
                    old(self).config.early_withdrawal_penalty,
                    now,
                    account_of(old(self).accounts@, user).locked_until,
                ) as i128,
                net_amount: (amount - fees::fee_value(amount, old(self).config.withdrawal_fee)
                    - fees::penalty_value(
                    amount,
                    old(self).config.early_withdrawal_penalty,
                    now,
                    account_of(old(self).accounts@, user).locked_until,
                )) as i128,
                new_balance: (account_of(old(self).accounts@, user).balance - amount) as i128,
            }),
            amount >= 0 ==> (r matches Ok(w) ==> 0 <= w.net_amount <= amount),
    {
        let account = self.get_account(user);
        proof {
            lemma_account_of_valid(self.accounts@, user);
            lemma_total_covers_account(self.accounts@, user);
        }
        if account.balance < amount {
            return Err(Error::InsufficientBalance);
        }
        let fee = match fees::withdrawal_fee(amount, self.config.withdrawal_fee) {
            Ok(f) => f,
            Err(e) => {
                return Err(e);
            },
        };
        let penalty = match fees::early_withdrawal_penalty(
            amount,
            self.config.early_withdrawal_penalty,
            now,
            account.locked_until,
        ) {
            Ok(p) => p,
            Err(e) => {
                return Err(e);
            },
        };
        proof {
            lemma_bp_portion_bounds(amount as int, self.config.withdrawal_fee as int);
            lemma_bp_portion_bounds(amount as int, self.config.early_withdrawal_penalty as int);
            lemma_bp_portion_pair_bound(
                amount as int,
                self.config.withdrawal_fee as int,
                self.config.early_withdrawal_penalty as int,
            );
        }
        let net = match fees::net_amount(amount, fee, penalty) {
            Ok(n) => n,
            Err(e) => {
                return Err(e);
            },
        };
        let new_balance = match account.balance.checked_sub(amount) {
            Some(b) => b,
            None => {
                return Err(Error::ArithmeticOverflow);
            },
        };
        let new_withdrawals = match account.total_withdrawals.checked_add(amount) {
            Some(w) => w,
            None => {
                return Err(Error::ArithmeticOverflow);
            },
        };
        let new_total = match self.total_locked.checked_sub(amount) {
            Some(t) => t,
            None => {
                return Err(Error::ArithmeticOverflow);
            },
        };
        let updated = UserAccount {
            balance: new_balance,
            risk_profile: account.risk_profile,
            locked_until: account.locked_until,
            last_deposit: account.last_deposit,
            total_deposits: account.total_deposits,
            total_withdrawals: new_withdrawals,
            rewards_earned: account.rewards_earned,
            referral_code: account.referral_code,
        };
        Self::store_account(&mut self.accounts, user, updated);
        self.total_locked = new_total;
        proof {
            assert forall|i: int| 0 <= i < self.accounts@.len() implies account_wf(
                (#[trigger] self.accounts@[i]).account,
            ) by {
                if self.accounts@[i].account != updated {
                    let j = choose|j: int|
                        0 <= j < old(self).accounts@.len() && self.accounts@[i] == #[trigger] old(
                            self,
                        ).accounts@[j];
                    assert(account_wf(old(self).accounts@[j].account));
                }
            }
        }
        Ok(WithdrawalResult { user, amount, fee, penalty, net_amount: net, new_balance })
    }

    /// Overwrite the supplied configuration fields, admin only; omitted
    /// fields keep their prior value. The caller must hand in values that
    /// keep the configuration valid.
    pub fn update_config(
        &mut self,
        caller: u64,
        min_deposit: Option<i128>,
        max_deposit: Option<i128>,
        withdrawal_fee: Option<u32>,
        performance_fee: Option<u32>,
        early_withdrawal_penalty: Option<u32>,
    ) -> (r: Result<(), Error>)
        requires
            old(self).wf(),
            caller == old(self).admin ==> config_wf(
                patched_config(
                    old(self).config,
                    min_deposit,
                    max_deposit,
                    withdrawal_fee,
                    performance_fee,
                    early_withdrawal_penalty,
                ),
            ),
        ensures
            final(self).wf(),
            caller != old(self).admin ==> r == Err::<(), Error>(Error::Unauthorized) && *final(self)
                == *old(self),
            caller == old(self).admin ==> r == Ok::<(), Error>(()) && final(self).config
                == patched_config(
                old(self).config,
                min_deposit,
                max_deposit,
                withdrawal_fee,
                performance_fee,
                early_withdrawal_penalty,
            ),
            final(self).admin == old(self).admin,
            final(self).total_locked == old(self).total_locked,
            final(self).accounts@ == old(self).accounts@,
    {
        if caller != self.admin {
            return Err(Error::Unauthorized);
        }
        if let Some(min_dep) = min_deposit {
            self.config.min_deposit = min_dep;
        }
        if let Some(max_dep) = max_deposit {
            self.config.max_deposit = max_dep;
        }
        if let Some(w_fee) = withdrawal_fee {
            self.config.withdrawal_fee = w_fee;
        }
        if let Some(p_fee) = performance_fee {
            self.config.performance_fee = p_fee;
        }
        if let Some(penalty) = early_withdrawal_penalty {
            self.config.early_withdrawal_penalty = penalty;
        }
        Ok(())
    }

    /// Distribute rewards across participants, admin only. Reward accrual
    /// is a placeholder in this revision: the call authorizes and accepts
    /// the total but books nothing, so the ledger state is unchanged.
    pub fn distribute_rewards(&mut self, caller: u64, total_rewards: i128) -> (r: Result<
        (),
        Error,
    >)
        requires
            old(self).wf(),
        ensures
            *final(self) == *old(self),
            caller != old(self).admin ==> r == Err::<(), Error>(Error::Unauthorized),
            caller == old(self).admin ==> r == Ok::<(), Error>(()),
    {
        if caller != self.admin {
            return Err(Error::Unauthorized);
        }
        if self.total_locked == 0 {
            return Ok(());
        }
        Ok(())
    }
}

/// The ledger's accounting invariant: every participant's balance is the
/// difference of its booked deposits and withdrawals and never negative,
/// and the fund total equals the sum of all balances. Every transition of
/// a valid fund state preserves this.
pub proof fn lemma_ledger_accounting_invariant(fund: PensionFundContract)
    requires
        fund.wf(),
    ensures
        fund.total_locked == sum_balances(fund.accounts@),
        forall|u: u64|
            #[trigger] account_of(fund.accounts@, u).balance == account_of(
                fund.accounts@,
                u,
            ).total_deposits - account_of(fund.accounts@, u).total_withdrawals,
        forall|u: u64| #[trigger] account_of(fund.accounts@, u).balance >= 0,
{
    assert forall|u: u64|
        #[trigger] account_of(fund.accounts@, u).balance == account_of(
            fund.accounts@,
            u,
        ).total_deposits - account_of(fund.accounts@, u).total_withdrawals && account_of(
        fund.accounts@,
        u,
    ).balance >= 0 by {
        lemma_account_of_valid(fund.accounts@, u);
    }
}

} // verus!
