use vstd::prelude::*;
use anchor_lang::prelude::Pubkey;
use crate::arena::Arena;

verus! {

/// Why points are granted. Carried into the record; the accounting is the
/// same for each.
#[derive(Clone, Copy, Debug, PartialEq, Eq, Structural)]
pub enum RewardType {
    ConfirmNode,
    CreateAsset,
    WatchAd,
    Bonus,
}

/// Why points are spent. Carried into the record; the accounting is the same
/// for each.
#[derive(Clone, Copy, Debug, PartialEq, Eq, Structural)]
pub enum SpendType {
    RefreshFrame,
    SkipAd,
    CustomFrame,
    Other,
}

/// The ledger's configuration and its supply counters.
#[derive(Clone, Debug, PartialEq, Eq)]
pub struct TokenConfig {
    /// The identity that may grant points.
    pub authority: Pubkey,
    /// Identifier of the point currency.
    pub mint: Pubkey,
    pub name: String,
    pub symbol: String,
    pub decimals: u8,
    /// All points ever granted.
    pub total_minted: u64,
    /// All points ever spent.
    pub total_burned: u64,
    pub initialized: bool,
    pub bump: u8,
}

impl TokenConfig {
    pub const MAX_NAME_LEN: usize = 32;

    pub const MAX_SYMBOL_LEN: usize = 10;

    /// Stored size of the configuration in bytes.
    pub const SPACE: usize = 8 + 32 + 32 + 4 + Self::MAX_NAME_LEN + 4 + Self::MAX_SYMBOL_LEN + 1 + 8
        + 8 + 1 + 1;

    /// Number of decimal places of a point.
    pub const DECIMALS: u8 = 6;
}

/// The sum of the amounts in `amounts`.
pub open spec fn sum(amounts: Seq<u64>) -> int
    decreases amounts.len(),
{
    if amounts.len() == 0 {
        0
    } else {
        sum(amounts.drop_last()) + amounts.last()
    }
}

pub proof fn lemma_sum_push(amounts: Seq<u64>, amount: u64)
    ensures
        sum(amounts.push(amount)) == sum(amounts) + amount,
{
    assert(amounts.push(amount).drop_last() =~= amounts);
}

pub proof fn lemma_sum_update(amounts: Seq<u64>, i: int, amount: u64)
    requires
        0 <= i < amounts.len(),
    ensures
        sum(amounts.update(i, amount)) == sum(amounts) - amounts[i] + amount,
    decreases amounts.len(),
{
    if i == amounts.len() - 1 {
        assert(amounts.update(i, amount).drop_last() =~= amounts.drop_last());
    } else {
        assert(amounts.update(i, amount).drop_last() =~= amounts.drop_last().update(i, amount));
        lemma_sum_update(amounts.drop_last(), i, amount);
    }
}

/// No single amount is more than the sum of all.
pub proof fn lemma_sum_bounds(amounts: Seq<u64>, i: int)
    requires
        0 <= i < amounts.len(),
    ensures
        0 <= amounts[i] <= sum(amounts),
        0 <= sum(amounts),
    decreases amounts.len(),
{
    lemma_sum_nonnegative(amounts.drop_last());
    if i < amounts.len() - 1 {
        lemma_sum_bounds(amounts.drop_last(), i);
    }
}

pub proof fn lemma_sum_nonnegative(amounts: Seq<u64>)
    ensures
        0 <= sum(amounts),
    decreases amounts.len(),
{
    if amounts.len() > 0 {
        lemma_sum_nonnegative(amounts.drop_last());
    }
}

/// The point balances of all users. A user without an entry holds nothing.
#[derive(Clone, Debug)]
pub struct Balances {
    pub accounts: Arena<u64>,
}

impl Balances {
    pub open spec fn wf(&self) -> bool {
        self.accounts.wf()
    }

    /// The balances as a map from user to amount.
    pub open spec fn view(&self) -> Map<Pubkey, u64> {
        self.accounts@
    }

    /// What `user` holds.
    pub open spec fn amount(&self, user: Pubkey) -> u64 {
        if self@.contains_key(user) {
            self@[user]
        } else {
            0
        }
    }

    /// The sum of all balances.
    pub open spec fn total(&self) -> int {
        sum(self.accounts.items@)
    }

    pub fn new() -> (r: Self)
        ensures
            r.wf(),
            r@ == Map::<Pubkey, u64>::empty(),
            r.total() == 0,
    {
        Balances { accounts: Arena::new() }
    }

    pub fn balance_of(&self, user: &Pubkey) -> (r: u64)
        requires
            self.wf(),
        ensures
            r == self.amount(*user),
    {
        match self.accounts.get(user) {
            Some(amount) => *amount,
            None => 0,
        }
    }

    /// Sets what `user` holds to `amount`.
    pub fn set_balance(&mut self, user: Pubkey, amount: u64)
        requires
            old(self).wf(),
        ensures
            final(self).wf(),
            final(self)@ == old(self)@.insert(user, amount),
            final(self).total() == old(self).total() - old(self).amount(user) + amount,
    {
        match self.accounts.find(&user) {
            Some(slot) => {
                proof {
                    self.accounts.lemma_slot(user, slot as int);
                    lemma_sum_update(self.accounts.items@, slot as int, amount);
                }
                self.accounts.replace(slot, amount);
            },
            None => {
                proof {
                    lemma_sum_push(self.accounts.items@, amount);
                }
                self.accounts.insert(user, amount);
            },
        }
    }

    /// What one user holds is at most the sum of all balances.
    pub proof fn lemma_amount_bounds(&self, user: Pubkey)
        requires
            self.wf(),
        ensures
            0 <= self.amount(user) <= self.total(),
    {
        lemma_sum_nonnegative(self.accounts.items@);
        if self@.contains_key(user) {
            let i = self.accounts.keys@.index_of(user);
            self.accounts.lemma_slot(user, i);
            lemma_sum_bounds(self.accounts.items@, i);
        }
    }
}

/// Conservation: the points granted and not yet spent are the points that
/// the users hold.
pub open spec fn conserved(config: TokenConfig, balances: Balances) -> bool {
    config.total_minted - config.total_burned == balances.total()
}

/// Record of a grant.
#[derive(Clone, Copy, Debug, PartialEq, Eq)]
pub struct RewardMinted {
    pub user: Pubkey,
    pub amount: u64,
    pub reward_type: RewardType,
    pub total_minted: u64,
}

/// Record of a spend.
#[derive(Clone, Copy, Debug, PartialEq, Eq)]
pub struct SpendBurned {
    pub user: Pubkey,
    pub amount: u64,
    pub spend_type: SpendType,
    pub total_burned: u64,
}

/// Record of the ledger's initialization.
#[derive(Clone, Debug, PartialEq, Eq)]
pub struct TokenInitialized {
    pub mint: Pubkey,
    pub authority: Pubkey,
    pub name: String,
    pub symbol: String,
}

} // verus!
