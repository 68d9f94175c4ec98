//! The token ledger engine: mint, burn, transfer, delegated transfer,
//! allowance management, and the freeze capability, under the ledger
//! invariants (conservation of supply, non-negative balances, supply cap).
//!
//! Every operation takes the caller identity as an explicit argument: the
//! host environment authenticates callers and passes their identity in.
//! Successful balance-affecting operations return the [`Transfer`] event to
//! publish; [`Erc20::approve`] returns an [`Approval`] event. The engine
//! performs no I/O and never partially applies an operation: a failing call
//! leaves the ledger exactly as it was.

use crate::store::{lemma_get_le_total, SparseMap, SparsePairMap};
use vstd::prelude::*;

verus! {

/// Event emitted when tokens move: a mint (`from` is `None`), a burn (`to`
/// is `None`), or an ordinary transfer (both populated).
#[derive(Clone, Copy, Debug, PartialEq, Eq)]
pub struct Transfer {
    pub from: Option<u64>,
    pub to: Option<u64>,
    pub value: u64,
}

/// Event emitted when an allowance is approved.
#[derive(Clone, Copy, Debug, PartialEq, Eq)]
pub struct Approval {
    pub owner: u64,
    pub spender: u64,
    pub value: u64,
}

/// Ledger errors. All are expected, caller-recoverable conditions; a failing
/// operation reports one of these and changes nothing.
#[derive(Clone, Copy, Debug, PartialEq, Eq)]
pub enum Error {
    /// An attempted debit exceeds the available balance.
    InsufficientBalance,
    /// A delegated transfer exceeds the remaining allowance.
    InsufficientAllowance,
    /// The caller lacks the required authority.
    Unauthorized,
    /// A mint would push the total supply past the cap.
    MaxSupplyExceeded,
    /// The source account is frozen and cannot be debited.
    AccountFrozen,
}

/// The token ledger: total supply, per-account balances, per-(owner,
/// spender) allowances, frozen accounts, and token metadata.
///
/// Accounts are opaque `u64` identities supplied by the host. A balance or
/// allowance that was never written reads as zero.
pub struct Erc20 {
    total_supply: u64,
    balances: SparseMap,
    allowances: SparsePairMap,
    /// Non-zero flag means the account is frozen.
    frozen: SparseMap,
    name: String,
    symbol: String,
    decimals: u8,
    mint_authority: Option<u64>,
    max_supply: Option<u64>,
}

impl Erc20 {
    pub closed spec fn spec_total_supply(self) -> u64 {
        self.total_supply
    }

    pub closed spec fn spec_balance_of(self, account: u64) -> u64 {
        self.balances.spec_get(account)
    }

    pub closed spec fn spec_allowance(self, owner: u64, spender: u64) -> u64 {
        self.allowances.spec_get(owner, spender)
    }

    pub closed spec fn spec_is_frozen(self, account: u64) -> bool {
        self.frozen.spec_get(account) != 0
    }

    /// The sum of the balances of every account that ever appeared in the
    /// ledger (accounts that never appeared hold zero and contribute
    /// nothing).
    pub closed spec fn spec_sum_of_balances(self) -> int {
        self.balances.total()
    }

    pub closed spec fn spec_name(self) -> Seq<char> {
        self.name@
    }

    pub closed spec fn spec_symbol(self) -> Seq<char> {
        self.symbol@
    }

    pub closed spec fn spec_decimals(self) -> u8 {
        self.decimals
    }

    pub closed spec fn spec_mint_authority(self) -> Option<u64> {
        self.mint_authority
    }

    pub closed spec fn spec_max_supply(self) -> Option<u64> {
        self.max_supply
    }

    /// The ledger invariant: the stores are well-formed, the total supply
    /// equals the sum of all balances, and a configured cap bounds the total
    /// supply. Constructors establish it and every operation preserves it.
    pub closed spec fn wf(self) -> bool {
        &&& self.balances.wf()
        &&& self.allowances.wf()
        &&& self.frozen.wf()
        &&& self.balances.total() == self.total_supply
        &&& (match self.max_supply {
            Some(cap) => self.total_supply <= cap,
            None => true,
        })
    }

    /// Whether `caller` may mint: the configured authority alone where one
    /// is configured, anyone otherwise.
    pub open spec fn spec_may_mint(self, caller: u64) -> bool {
        match self.spec_mint_authority() {
            Some(authority) => caller == authority,
            None => true,
        }
    }

    /// Whether `caller` is the configured mint authority. Freezing and
    /// thawing require one; with no authority configured, nobody holds the
    /// capability.
    pub open spec fn spec_is_authority(self, caller: u64) -> bool {
        self.spec_mint_authority() == Some(caller)
    }

    /// The amount the total supply may reach: the configured cap, or the
    /// width of the supply counter where none is configured.
    pub open spec fn spec_supply_limit(self) -> int {
        match self.spec_max_supply() {
            Some(cap) => cap as int,
            None => u64::MAX as int,
        }
    }
}

/// The balances of `post` are those of `pre` with `value` moved from `from`
/// to `to`; a self-transfer leaves every balance unchanged.
pub open spec fn balances_shifted(pre: Erc20, post: Erc20, from: u64, to: u64, value: u64) -> bool {
    &&& (from != to ==> post.spec_balance_of(from) == pre.spec_balance_of(from) - value
        && post.spec_balance_of(to) == pre.spec_balance_of(to) + value)
    &&& (from == to ==> post.spec_balance_of(from) == pre.spec_balance_of(from))
    &&& forall|a: u64|
        a != from && a != to ==> post.spec_balance_of(a) == pre.spec_balance_of(a)
}

pub open spec fn balances_unchanged(pre: Erc20, post: Erc20) -> bool {
    forall|a: u64| post.spec_balance_of(a) == pre.spec_balance_of(a)
}

pub open spec fn allowances_unchanged(pre: Erc20, post: Erc20) -> bool {
    forall|o: u64, s: u64| post.spec_allowance(o, s) == pre.spec_allowance(o, s)
}

pub open spec fn frozen_unchanged(pre: Erc20, post: Erc20) -> bool {
    forall|a: u64| post.spec_is_frozen(a) == pre.spec_is_frozen(a)
}

pub open spec fn metadata_unchanged(pre: Erc20, post: Erc20) -> bool {
    &&& post.spec_name() == pre.spec_name()
    &&& post.spec_symbol() == pre.spec_symbol()
    &&& post.spec_decimals() == pre.spec_decimals()
    &&& post.spec_mint_authority() == pre.spec_mint_authority()
    &&& post.spec_max_supply() == pre.spec_max_supply()
}

impl Erc20 {
    /// Creates a ledger with `initial_supply` credited to the caller, the
    /// given metadata, and optionally a mint authority and a supply cap, and
    /// returns it with the mint event to publish. Construction happens once
    /// per ledger and cannot fail; the initial supply may not pass a
    /// configured cap.
    pub fn initialize(
        caller: u64,
        initial_supply: u64,
        name: String,
        symbol: String,
        decimals: u8,
        mint_authority: Option<u64>,
        max_supply: Option<u64>,
    ) -> (r: (Erc20, Transfer))
        requires
            max_supply matches Some(cap) ==> initial_supply <= cap,
        ensures
            r.0.wf(),
            r.0.spec_total_supply() == initial_supply,
            forall|a: u64|
                r.0.spec_balance_of(a) == (if a == caller {
                    initial_supply
                } else {
                    0u64
                }),
            forall|o: u64, s: u64| r.0.spec_allowance(o, s) == 0,
            forall|a: u64| !r.0.spec_is_frozen(a),
            r.0.spec_name() == name@,
            r.0.spec_symbol() == symbol@,
            r.0.spec_decimals() == decimals,
            r.0.spec_mint_authority() == mint_authority,
            r.0.spec_max_supply() == max_supply,
            r.1 == (Transfer { from: None, to: Some(caller), value: initial_supply }),
    {
        let mut balances = SparseMap::new();
        balances.insert(caller, initial_supply);
        let ledger = Erc20 {
            total_supply: initial_supply,
            balances,
            allowances: SparsePairMap::new(),
            frozen: SparseMap::new(),
            name,
            symbol,
            decimals,
            mint_authority,
            max_supply,
        };
        let event = Transfer { from: None, to: Some(caller), value: initial_supply };
        (ledger, event)
    }

    /// Creates a ledger with `total_supply` credited to the caller, no mint
    /// authority and no supply cap, and returns it with the mint event to
    /// publish.
    pub fn new(caller: u64, total_supply: u64, name: String, symbol: String, decimals: u8) -> (r: (
        Erc20,
        Transfer,
    ))
        ensures
            r.0.wf(),
            r.0.spec_total_supply() == total_supply,
            forall|a: u64|
                r.0.spec_balance_of(a) == (if a == caller {
                    total_supply
                } else {
                    0u64
                }),
            forall|o: u64, s: u64| r.0.spec_allowance(o, s) == 0,
            forall|a: u64| !r.0.spec_is_frozen(a),
            r.0.spec_name() == name@,
            r.0.spec_symbol() == symbol@,
            r.0.spec_decimals() == decimals,
            r.0.spec_mint_authority() is None,
            r.0.spec_max_supply() is None,
            r.1 == (Transfer { from: None, to: Some(caller), value: total_supply }),
    {
        Erc20::initialize(caller, total_supply, name, symbol, decimals, None, None)
    }

    /// Creates an empty ledger whose supply is minted on demand: zero
    /// initial supply, `authority` as the sole mint authority, and
    /// `max_supply` as the supply cap.
    pub fn initialize_mint(
        authority: u64,
        name: String,
        symbol: String,
        decimals: u8,
        max_supply: u64,
    ) -> (r: Erc20)
        ensures
            r.wf(),
            r.spec_total_supply() == 0,
            forall|a: u64| r.spec_balance_of(a) == 0,
            forall|o: u64, s: u64| r.spec_allowance(o, s) == 0,
            forall|a: u64| !r.spec_is_frozen(a),
            r.spec_name() == name@,
            r.spec_symbol() == symbol@,
            r.spec_decimals() == decimals,
            r.spec_mint_authority() == Some(authority),
            r.spec_max_supply() == Some(max_supply),
    {
        let (ledger, _event) = Erc20::initialize(
            authority,
            0,
            name,
            symbol,
            decimals,
            Some(authority),
            Some(max_supply),
        );
        ledger
    }

    /// Returns the total token supply.
    pub fn total_supply(&self) -> (r: u64)
        ensures
            r == self.spec_total_supply(),
    {
        self.total_supply
    }

    /// Returns the token name.
    pub fn name(&self) -> (r: String)
        ensures
            r@ == self.spec_name(),
    {
        self.name.clone()
    }

    /// Returns the token symbol.
    pub fn symbol(&self) -> (r: String)
        ensures
            r@ == self.spec_symbol(),
    {
        self.symbol.clone()
    }

    /// Returns the token decimals (display precision only: no arithmetic in
    /// this module depends on it).
    pub fn decimals(&self) -> (r: u8)
        ensures
            r == self.spec_decimals(),
    {
        self.decimals
    }

    /// Returns the balance of an account; an account that never appeared
    /// holds zero.
    pub fn balance_of(&self, owner: u64) -> (r: u64)
        ensures
            r == self.spec_balance_of(owner),
    {
        self.balances.get(owner)
    }

    /// Returns the remaining allowance of `spender` over the funds of
    /// `owner`; a pair that was never approved holds zero.
    pub fn allowance(&self, owner: u64, spender: u64) -> (r: u64)
        ensures
            r == self.spec_allowance(owner, spender),
    {
        self.allowances.get(owner, spender)
    }

    /// Returns whether an account is frozen.
    pub fn is_frozen(&self, account: u64) -> (r: bool)
        ensures
            r == self.spec_is_frozen(account),
    {
        self.frozen.get(account) != 0
    }

    /// Returns the configured mint authority, if any.
    pub fn mint_authority(&self) -> (r: Option<u64>)
        ensures
            r == self.spec_mint_authority(),
    {
        self.mint_authority
    }

    /// Returns the configured supply cap, if any.
    pub fn max_supply(&self) -> (r: Option<u64>)
        ensures
            r == self.spec_max_supply(),
    {
        self.max_supply
    }

    /// Moves `value` from `from` to `to` after checking the balance. Shared
    /// by direct and delegated transfers; the callers perform the frozen and
    /// allowance checks first.
    fn transfer_from_to(&mut self, from: u64, to: u64, value: u64) -> (r: Result<Transfer, Error>)
        requires
            old(self).wf(),
        ensures
            final(self).wf(),
            r is Ok <==> value <= old(self).spec_balance_of(from),
            old(self).spec_balance_of(from) < value ==> r == Err::<Transfer, Error>(
                Error::InsufficientBalance,
            ),
            r is Ok ==> r == Ok::<Transfer, Error>(
                (Transfer { from: Some(from), to: Some(to), value }),
            ) && transfer_ok_post(*old(self), *final(self), from, to, value),
            r is Err ==> *final(self) == *old(self),
    {
        let from_balance = self.balances.get(from);
        if from_balance < value {
            return Err(Error::InsufficientBalance);
        }
        self.balances.insert(from, from_balance - value);
        let to_balance = self.balances.get(to);
        proof {
            lemma_get_le_total(self.balances, to);
        }
        self.balances.insert(to, to_balance + value);
        Ok(Transfer { from: Some(from), to: Some(to), value })
    }

    /// Transfers `value` from the caller to `to`. Fails with
    /// [`Error::AccountFrozen`] where the caller's account is frozen (the
    /// frozen check comes first), and with [`Error::InsufficientBalance`]
    /// where the caller's balance is short; a failing call changes nothing.
    /// A self-transfer within the balance succeeds and changes nothing.
    pub fn transfer(&mut self, caller: u64, to: u64, value: u64) -> (r: Result<Transfer, Error>)
        requires
            old(self).wf(),
        ensures
            final(self).wf(),
            r is Ok <==> !old(self).spec_is_frozen(caller) && value <= old(self).spec_balance_of(
                caller,
            ),
            old(self).spec_is_frozen(caller) ==> r == Err::<Transfer, Error>(Error::AccountFrozen),
            !old(self).spec_is_frozen(caller) && old(self).spec_balance_of(caller) < value ==> r
                == Err::<Transfer, Error>(Error::InsufficientBalance),
            r is Ok ==> r == Ok::<Transfer, Error>(
                (Transfer { from: Some(caller), to: Some(to), value }),
            ) && transfer_ok_post(*old(self), *final(self), caller, to, value),
            r is Err ==> *final(self) == *old(self),
    {
        if self.frozen.get(caller) != 0 {
            return Err(Error::AccountFrozen);
        }
        self.transfer_from_to(caller, to, value)
    }

    /// Sets the allowance of `spender` over the caller's funds to `value`,
    /// overwriting any prior allowance, and returns the approval event.
    /// Never fails.
    pub fn approve(&mut self, caller: u64, spender: u64, value: u64) -> (r: Approval)
        requires
            old(self).wf(),
        ensures
            final(self).wf(),
            approve_post(*old(self), *final(self), caller, spender, value),
            r == (Approval { owner: caller, spender, value }),
    {
        self.allowances.insert(caller, spender, value);
        Approval { owner: caller, spender, value }
    }

    /// Transfers `value` from `from` to `to` on the strength of the
    /// allowance `from` granted the caller. The allowance is checked before
    /// the balance: an undersupplied allowance is reported even where the
    /// balance would also be short. On success the allowance shrinks by
    /// exactly `value`; a failing call changes nothing.
    pub fn transfer_from(&mut self, caller: u64, from: u64, to: u64, value: u64) -> (r: Result<
        Transfer,
        Error,
    >)
        requires
            old(self).wf(),
        ensures
            final(self).wf(),
            r is Ok <==> value <= old(self).spec_allowance(from, caller) && !old(
                self,
            ).spec_is_frozen(from) && value <= old(self).spec_balance_of(from),
            old(self).spec_allowance(from, caller) < value ==> r == Err::<Transfer, Error>(
                Error::InsufficientAllowance,
            ),
            value <= old(self).spec_allowance(from, caller) && old(self).spec_is_frozen(from)
                ==> r == Err::<Transfer, Error>(Error::AccountFrozen),
            value <= old(self).spec_allowance(from, caller) && !old(self).spec_is_frozen(from)
                && old(self).spec_balance_of(from) < value ==> r == Err::<Transfer, Error>(
                Error::InsufficientBalance,
            ),
            r is Ok ==> r == Ok::<Transfer, Error>(
                (Transfer { from: Some(from), to: Some(to), value }),
            ) && transfer_from_ok_post(*old(self), *final(self), caller, from, to, value),
            r is Err ==> *final(self) == *old(self),
    {
        let granted = self.allowances.get(from, caller);
        if granted < value {
            return Err(Error::InsufficientAllowance);
        }
        if self.frozen.get(from) != 0 {
            return Err(Error::AccountFrozen);
        }
        match self.transfer_from_to(from, to, value) {
            Ok(event) => {
                self.allowances.insert(from, caller, granted - value);
                Ok(event)
            }
            Err(e) => Err(e),
        }
    }

    /// Mints `amount` new tokens to `recipient`. Only the configured mint
    /// authority may mint (anyone, where none is configured); the authority
    /// check comes first. The total supply may not pass the configured cap
    /// (nor the width of the supply counter, where no cap is configured): a
    /// mint past it fails with [`Error::MaxSupplyExceeded`] and changes
    /// nothing.
    pub fn mint_tokens(&mut self, caller: u64, recipient: u64, amount: u64) -> (r: Result<
        Transfer,
        Error,
    >)
        requires
            old(self).wf(),
        ensures
            final(self).wf(),
            r is Ok <==> old(self).spec_may_mint(caller) && old(self).spec_total_supply() + amount
                <= old(self).spec_supply_limit(),
            !old(self).spec_may_mint(caller) ==> r == Err::<Transfer, Error>(Error::Unauthorized),
            old(self).spec_may_mint(caller) && old(self).spec_total_supply() + amount > old(
                self,
            ).spec_supply_limit() ==> r == Err::<Transfer, Error>(Error::MaxSupplyExceeded),
            r is Ok ==> r == Ok::<Transfer, Error>(
                (Transfer { from: None, to: Some(recipient), value: amount }),
            ) && mint_ok_post(*old(self), *final(self), recipient, amount),
            r is Err ==> *final(self) == *old(self),
    {
        match self.mint_authority {
            Some(authority) => {
                if caller != authority {
                    return Err(Error::Unauthorized);
                }
            }
            None => {}
        }
        let limit: u64 = match self.max_supply {
            Some(cap) => cap,
            None => u64::MAX,
        };
        if amount > limit - self.total_supply {
            return Err(Error::MaxSupplyExceeded);
        }
        let balance = self.balances.get(recipient);
        proof {
            lemma_get_le_total(self.balances, recipient);
        }
        self.total_supply = self.total_supply + amount;
        self.balances.insert(recipient, balance + amount);
        Ok(Transfer { from: None, to: Some(recipient), value: amount })
    }

    /// Burns `amount` tokens from the caller's balance, shrinking the total
    /// supply by the same amount. Fails with [`Error::InsufficientBalance`]
    /// where the balance is short, changing nothing.
    pub fn burn_tokens(&mut self, caller: u64, amount: u64) -> (r: Result<Transfer, Error>)
        requires
            old(self).wf(),
        ensures
            final(self).wf(),
            r is Ok <==> amount <= old(self).spec_balance_of(caller),
            old(self).spec_balance_of(caller) < amount ==> r == Err::<Transfer, Error>(
                Error::InsufficientBalance,
            ),
            r is Ok ==> r == Ok::<Transfer, Error>(
                (Transfer { from: Some(caller), to: None, value: amount }),
            ) && burn_ok_post(*old(self), *final(self), caller, amount),
            r is Err ==> *final(self) == *old(self),
    {
        let balance = self.balances.get(caller);
        if balance < amount {
            return Err(Error::InsufficientBalance);
        }
        proof {
            lemma_get_le_total(self.balances, caller);
        }
        self.balances.insert(caller, balance - amount);
        self.total_supply = self.total_supply - amount;
        Ok(Transfer { from: Some(caller), to: None, value: amount })
    }

    /// Freezes `account`, barring it as the source of transfers until it is
    /// thawed. Only the configured mint authority may freeze; with no
    /// authority configured, nobody may. Freezing does not bar incoming
    /// transfers, mints to the account, or burns by it.
    pub fn freeze(&mut self, caller: u64, account: u64) -> (r: Result<(), Error>)
        requires
            old(self).wf(),
        ensures
            final(self).wf(),
            r is Ok <==> old(self).spec_is_authority(caller),
            !old(self).spec_is_authority(caller) ==> r == Err::<(), Error>(Error::Unauthorized),
            r is Ok ==> final(self).spec_is_frozen(account) && frozen_set_post(
                *old(self),
                *final(self),
                account,
            ),
            r is Err ==> *final(self) == *old(self),
    {
        let authorized = match self.mint_authority {
            Some(authority) => caller == authority,
            None => false,
        };
        if !authorized {
            return Err(Error::Unauthorized);
        }
        self.frozen.insert(account, 1);
        Ok(())
    }

    /// Thaws `account`, letting it be the source of transfers again. Only
    /// the configured mint authority may thaw.
    pub fn thaw(&mut self, caller: u64, account: u64) -> (r: Result<(), Error>)
        requires
            old(self).wf(),
        ensures
            final(self).wf(),
            r is Ok <==> old(self).spec_is_authority(caller),
            !old(self).spec_is_authority(caller) ==> r == Err::<(), Error>(Error::Unauthorized),
            r is Ok ==> !final(self).spec_is_frozen(account) && frozen_set_post(
                *old(self),
                *final(self),
                account,
            ),
            r is Err ==> *final(self) == *old(self),
    {
        let authorized = match self.mint_authority {
            Some(authority) => caller == authority,
            None => false,
        };
        if !authorized {
            return Err(Error::Unauthorized);
        }
        self.frozen.insert(account, 0);
        Ok(())
    }
}

/// Exactly what a successful transfer does besides moving the balances:
/// everything else is untouched.
pub open spec fn transfer_ok_post(pre: Erc20, post: Erc20, from: u64, to: u64, value: u64) -> bool {
    &&& balances_shifted(pre, post, from, to, value)
    &&& post.spec_total_supply() == pre.spec_total_supply()
    &&& allowances_unchanged(pre, post)
    &&& frozen_unchanged(pre, post)
    &&& metadata_unchanged(pre, post)
}

/// Exactly what a successful delegated transfer does: the balances move, the
/// caller's allowance over `from` shrinks by exactly `value`, and everything
/// else is untouched.
pub open spec fn transfer_from_ok_post(
    pre: Erc20,
    post: Erc20,
    caller: u64,
    from: u64,
    to: u64,
    value: u64,
) -> bool {
    &&& balances_shifted(pre, post, from, to, value)
    &&& post.spec_allowance(from, caller) == pre.spec_allowance(from, caller) - value
    &&& forall|o: u64, s: u64|
        !(o == from && s == caller) ==> post.spec_allowance(o, s) == pre.spec_allowance(o, s)
    &&& post.spec_total_supply() == pre.spec_total_supply()
    &&& frozen_unchanged(pre, post)
    &&& metadata_unchanged(pre, post)
}

/// Exactly what a successful mint does: `amount` appears on `recipient`'s
/// balance and on the total supply, and everything else is untouched.
pub open spec fn mint_ok_post(pre: Erc20, post: Erc20, recipient: u64, amount: u64) -> bool {
    &&& post.spec_total_supply() == pre.spec_total_supply() + amount
    &&& post.spec_balance_of(recipient) == pre.spec_balance_of(recipient) + amount
    &&& forall|a: u64| a != recipient ==> post.spec_balance_of(a) == pre.spec_balance_of(a)
    &&& allowances_unchanged(pre, post)
    &&& frozen_unchanged(pre, post)
    &&& metadata_unchanged(pre, post)
}

/// Exactly what a successful burn does: `amount` leaves `caller`'s balance
/// and the total supply, and everything else is untouched.
pub open spec fn burn_ok_post(pre: Erc20, post: Erc20, caller: u64, amount: u64) -> bool {
    &&& post.spec_total_supply() == pre.spec_total_supply() - amount
    &&& post.spec_balance_of(caller) == pre.spec_balance_of(caller) - amount
    &&& forall|a: u64| a != caller ==> post.spec_balance_of(a) == pre.spec_balance_of(a)
    &&& allowances_unchanged(pre, post)
    &&& frozen_unchanged(pre, post)
    &&& metadata_unchanged(pre, post)
}

/// Exactly what a successful approval does: the (owner, spender) allowance
/// becomes `value` — whatever it held before — and nothing else changes.
pub open spec fn approve_post(pre: Erc20, post: Erc20, owner: u64, spender: u64, value: u64) -> bool {
    &&& post.spec_allowance(owner, spender) == value
    &&& forall|o: u64, s: u64|
        !(o == owner && s == spender) ==> post.spec_allowance(o, s) == pre.spec_allowance(o, s)
    &&& balances_unchanged(pre, post)
    &&& post.spec_total_supply() == pre.spec_total_supply()
    &&& frozen_unchanged(pre, post)
    &&& metadata_unchanged(pre, post)
}

/// What freezing or thawing `account` does besides setting its flag: every
/// other account's flag, all balances, all allowances, the supply and the
/// metadata are untouched.
pub open spec fn frozen_set_post(pre: Erc20, post: Erc20, account: u64) -> bool {
    &&& forall|a: u64| a != account ==> post.spec_is_frozen(a) == pre.spec_is_frozen(a)
    &&& balances_unchanged(pre, post)
    &&& allowances_unchanged(pre, post)
    &&& post.spec_total_supply() == pre.spec_total_supply()
    &&& metadata_unchanged(pre, post)
}

/// Conservation of supply: in a well-formed ledger the total supply equals
/// the sum of all account balances. The constructors establish `wf` and
/// every operation ensures it again, so the equality holds after any
/// sequence of mints, burns, transfers and delegated transfers.
pub proof fn lemma_conservation(ledger: Erc20)
    requires
        ledger.wf(),
    ensures
        ledger.spec_sum_of_balances() == ledger.spec_total_supply(),
{
}

/// Non-negativity and the supply bound: a balance is never negative, and in
/// a well-formed ledger no single balance passes the total supply.
pub proof fn lemma_balance_bounded(ledger: Erc20, account: u64)
    requires
        ledger.wf(),
    ensures
        0 <= ledger.spec_balance_of(account),
        ledger.spec_balance_of(account) <= ledger.spec_total_supply(),
{
    lemma_get_le_total(ledger.balances, account);
}

/// Cap enforcement: a well-formed ledger with a configured cap never holds
/// a total supply above it. Every operation preserves `wf`, so no sequence
/// of mints can pass the cap; the mint that would pass it fails with
/// [`Error::MaxSupplyExceeded`] and changes nothing, as
/// [`Erc20::mint_tokens`] ensures.
pub proof fn lemma_cap_respected(ledger: Erc20, cap: u64)
    requires
        ledger.wf(),
        ledger.spec_max_supply() == Some(cap),
    ensures
        ledger.spec_total_supply() <= cap,
{
}

/// Approvals overwrite: after two successive approvals of the same spender
/// by the same owner, the allowance is exactly the second value, not a sum.
pub proof fn lemma_approve_overwrites(
    first: Erc20,
    second: Erc20,
    third: Erc20,
    owner: u64,
    spender: u64,
    first_value: u64,
    second_value: u64,
)
    requires
        approve_post(first, second, owner, spender, first_value),
        approve_post(second, third, owner, spender, second_value),
    ensures
        third.spec_allowance(owner, spender) == second_value,
{
}

} // verus!
