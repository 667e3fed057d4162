//! A vault: a locked balance of a backing token, released once the asset's price has stayed
//! at or above the target through a cooldown.

use crate::metadata::FungibleTokenMetadata;
use crate::price::Price;
use crate::store::{str_eq, KeyedStore};
use std::cmp::Ordering;
use vstd::prelude::*;
use vstd::string::StringExecFns;

verus! {

/// How long a qualifying price must hold before the vault unlocks: one day, in nanoseconds.
pub const UNLOCKING_DURATION: u64 = 24 * 60 * 60 * 1_000_000_000;

/// Where a vault stands.
#[derive(Clone, Copy, Debug, PartialEq, Eq, Structural)]
pub enum Status {
    Locked,
    /// A qualifying price arrived at `initiated_timestamp`.
    Unlocking { initiated_timestamp: u64 },
    Unlocked,
}

/// Why a vault request was refused.
#[derive(Clone, Copy, Debug, PartialEq, Eq, Structural)]
pub enum VaultError {
    /// The request does not apply in the vault's current status.
    WrongState,
    /// The caller is not the account the request must come from.
    Unauthorized,
    /// The account holds no balance record in the vault.
    NotRegistered,
}

/// A reported price of one asset; absent where the feed has none.
pub struct AssetOptionalPrice {
    pub asset_id: String,
    pub price: Option<Price>,
}

/// A batch of prices pushed by a feed.
pub struct PriceData {
    pub timestamp: u64,
    pub recency_duration_sec: u32,
    pub prices: Vec<AssetOptionalPrice>,
}

/// The status after a price update: `qualifying` where the price is at or above the target.
/// Moving toward unlock: `Locked` starts the cooldown, `Unlocking` finishes it once it has
/// run its course, `Unlocked` refuses. Moving toward lock: `Unlocking` returns to `Locked`,
/// `Locked` stays, `Unlocked` refuses.
pub open spec fn next_status(s: Status, qualifying: bool, now: u64) -> Result<Status, VaultError> {
    if qualifying {
        match s {
            Status::Locked => Ok(Status::Unlocking { initiated_timestamp: now }),
            Status::Unlocking { initiated_timestamp } => if now - initiated_timestamp
                >= UNLOCKING_DURATION {
                Ok(Status::Unlocked)
            } else {
                Ok(s)
            },
            Status::Unlocked => Err(VaultError::WrongState),
        }
    } else {
        match s {
            Status::Locked => Ok(Status::Locked),
            Status::Unlocking { .. } => Ok(Status::Locked),
            Status::Unlocked => Err(VaultError::WrongState),
        }
    }
}

/// The position of the first price reported for `asset`.
pub open spec fn first_price_of(prices: Seq<AssetOptionalPrice>, asset: Seq<char>, i: int) -> bool {
    &&& 0 <= i < prices.len()
    &&& prices[i].asset_id@ == asset
    &&& forall|j: int| 0 <= j < i ==> (#[trigger] prices[j]).asset_id@ != asset
}

/// A reported price that is present and at or above `target`.
pub open spec fn at_or_above(price: Option<Price>, target: Price) -> bool {
    match price {
        Some(p) => p.spec_cmp(target) != Ordering::Less,
        None => false,
    }
}

/// A withdrawal in flight: `amount` was taken from `account_id`'s balance and is being
/// sent out.
pub struct Withdrawal {
    pub account_id: String,
    pub amount: u128,
}

/// How a finished transfer-out was settled.
pub struct TransferSettlement {
    /// The transfer went through.
    pub success: bool,
    /// The storage deposit released to the holder, whose emptied record was closed.
    pub storage_refund: Option<u128>,
}

/// A vault's state.
pub struct Contract {
    /// Balances of the wrapped token by holder.
    pub ledger: KeyedStore<u128>,
    pub token_id: String,
    pub meta: FungibleTokenMetadata,
    /// The authority that may force an unlock.
    pub backup_trigger_account_id: Option<String>,
    /// The feed whose prices drive the vault.
    pub price_oracle_account_id: String,
    /// The asset whose price is tracked.
    pub asset_id: String,
    /// The target: prices at or above it qualify.
    pub minimum_unlock_price: Price,
    /// The backing token.
    pub locked_token_account_id: String,
    pub factory_account_id: String,
    pub status: Status,
}

/// Whether the vault has nothing but its status changed.
pub open spec fn same_but_status(a: &Contract, b: &Contract) -> bool {
    &&& a.ledger == b.ledger
    &&& a.token_id == b.token_id
    &&& a.meta == b.meta
    &&& a.backup_trigger_account_id == b.backup_trigger_account_id
    &&& a.price_oracle_account_id == b.price_oracle_account_id
    &&& a.asset_id == b.asset_id
    &&& a.minimum_unlock_price == b.minimum_unlock_price
    &&& a.locked_token_account_id == b.locked_token_account_id
    &&& a.factory_account_id == b.factory_account_id
}

/// The vault's owner, who may change its price feed: `dreamproject.near`.
pub open spec fn owner_account() -> Seq<char> {
    seq!['d', 'r', 'e', 'a', 'm', 'p', 'r', 'o', 'j', 'e', 'c', 't', '.', 'n', 'e', 'a', 'r']
}

impl Contract {
    pub open spec fn wf(&self) -> bool {
        self.ledger.wf()
    }

    /// The balance of `account`: zero where it has no record.
    pub open spec fn balance_of(&self, account: Seq<char>) -> nat {
        if self.ledger.view().contains_key(account) {
            self.ledger.view()[account] as nat
        } else {
            0
        }
    }

    /// Whether a price update from the feed qualifies: the first price reported for the
    /// vault's asset is present and at or above the target.
    pub open spec fn qualifies(&self, prices: Seq<AssetOptionalPrice>) -> bool {
        exists|i: int|
            first_price_of(prices, self.asset_id@, i) && at_or_above(
                (#[trigger] prices[i]).price,
                self.minimum_unlock_price,
            )
    }

    /// A vault set up by the factory `factory_account_id`, locked and holding nothing.
    pub fn new(
        locked_token_account_id: String,
        token_id: String,
        meta: FungibleTokenMetadata,
        backup_trigger_account_id: Option<String>,
        price_oracle_account_id: String,
        asset_id: String,
        minimum_unlock_price: Price,
        factory_account_id: String,
    ) -> (r: Contract)
        ensures
            r.wf(),
            r.status == Status::Locked,
            r.ledger.view().is_empty(),
            r.locked_token_account_id == locked_token_account_id,
            r.token_id == token_id,
            r.meta == meta,
            r.backup_trigger_account_id == backup_trigger_account_id,
            r.price_oracle_account_id == price_oracle_account_id,
            r.asset_id == asset_id,
            r.minimum_unlock_price == minimum_unlock_price,
            r.factory_account_id == factory_account_id,
    {
        Contract {
            ledger: KeyedStore::new(),
            token_id,
            meta,
            backup_trigger_account_id,
            price_oracle_account_id,
            asset_id,
            minimum_unlock_price,
            locked_token_account_id,
            factory_account_id,
            status: Status::Locked,
        }
    }

    pub fn get_info(self) -> (r: Contract)
        ensures
            r == self,
    {
        self
    }

    pub fn get_status(&self) -> (r: Status)
        ensures
            r == self.status,
    {
        self.status
    }

    pub fn get_trigger_account_id(&self) -> (r: Option<String>)
        ensures
            r == self.backup_trigger_account_id,
    {
        crate::metadata::clone_opt_string(&self.backup_trigger_account_id)
    }

    pub fn get_locked_token_account_id(&self) -> (r: String)
        ensures
            r == self.locked_token_account_id,
    {
        self.locked_token_account_id.clone()
    }

    pub fn ft_metadata(&self) -> (r: FungibleTokenMetadata)
        ensures
            r@ == self.meta@,
    {
        self.meta.duplicate()
    }

    /// The balance of `account_id`, zero where it has no record.
    pub fn ft_balance_of(&self, account_id: &str) -> (r: u128)
        requires
            self.wf(),
        ensures
            r == self.balance_of(account_id@),
    {
        match self.ledger.get(account_id) {
            Some(b) => *b,
            None => 0,
        }
    }

    /// Moves toward unlock at time `now`.
    pub fn maybe_unlock(&mut self, now: u64) -> (r: Result<(), VaultError>)
        ensures
            same_but_status(final(self), old(self)),
            next_status(old(self).status, true, now) matches Ok(s) ==> r is Ok && final(self).status == s,
            next_status(old(self).status, true, now) matches Err(e) ==> r == Err::<(), VaultError>(
                e,
            ) && final(self).status == old(self).status,
    {
        match self.status {
            Status::Locked => {
                self.status = Status::Unlocking { initiated_timestamp: now };
                Ok(())
            },
            Status::Unlocking { initiated_timestamp } => {
                if now >= initiated_timestamp && now - initiated_timestamp >= UNLOCKING_DURATION {
                    self.status = Status::Unlocked;
                }
                Ok(())
            },
            Status::Unlocked => Err(VaultError::WrongState),
        }
    }

    /// Moves toward lock.
    pub fn maybe_lock(&mut self) -> (r: Result<(), VaultError>)
        ensures
            same_but_status(final(self), old(self)),
            next_status(old(self).status, false, 0) matches Ok(s) ==> r is Ok && final(self).status == s,
            next_status(old(self).status, false, 0) matches Err(e) ==> r == Err::<(), VaultError>(
                e,
            ) && final(self).status == old(self).status,
    {
        match self.status {
            Status::Locked => Ok(()),
            Status::Unlocking { .. } => {
                self.status = Status::Locked;
                Ok(())
            },
            Status::Unlocked => Err(VaultError::WrongState),
        }
    }

    /// A price update pushed by `predecessor_account_id` at time `now`. Only the configured
    /// feed may push; a qualifying price moves toward unlock, anything else (including no
    /// price for the vault's asset) toward lock.
    pub fn oracle_on_call(&mut self, predecessor_account_id: &str, data: &PriceData, now: u64) -> (r:
        Result<(), VaultError>)
        ensures
            same_but_status(final(self), old(self)),
            predecessor_account_id@ != old(self).price_oracle_account_id@ ==> r == Err::<
                (),
                VaultError,
            >(VaultError::Unauthorized) && final(self).status == old(self).status,
            predecessor_account_id@ == old(self).price_oracle_account_id@ ==> {
                let next = next_status(old(self).status, old(self).qualifies(data.prices@), now);
                &&& next matches Ok(s) ==> r is Ok && final(self).status == s
                &&& next matches Err(e) ==> r == Err::<(), VaultError>(e) && final(self).status
                    == old(self).status
            },
    {
        if !str_eq(predecessor_account_id, self.price_oracle_account_id.as_str()) {
            return Err(VaultError::Unauthorized);
        }
        let mut i: usize = 0;
        while i < data.prices.len()
            invariant
                *self == *old(self),
                predecessor_account_id@ == self.price_oracle_account_id@,
                i <= data.prices@.len(),
                forall|j: int| 0 <= j < i ==> (#[trigger] data.prices@[j]).asset_id@ != self.asset_id@,
            decreases data.prices@.len() - i,
        {
            let entry = &data.prices[i];
            if str_eq(entry.asset_id.as_str(), self.asset_id.as_str()) {
                assert(first_price_of(data.prices@, self.asset_id@, i as int));
                let qualifying = match entry.price {
                    Some(p) => match p.compare(&self.minimum_unlock_price) {
                        Ordering::Less => false,
                        _ => true,
                    },
                    None => false,
                };
                assert(qualifying == self.qualifies(data.prices@)) by {
                    if !qualifying && self.qualifies(data.prices@) {
                        let k = choose|k: int|
                            first_price_of(data.prices@, self.asset_id@, k) && at_or_above(
                                (#[trigger] data.prices@[k]).price,
                                self.minimum_unlock_price,
                            );
                        assert(k == i);
                    }
                }
                if qualifying {
                    return self.maybe_unlock(now);
                } else {
                    return self.maybe_lock();
                }
            }
            i = i + 1;
        }
        assert(!self.qualifies(data.prices@));
        self.maybe_lock()
    }

    /// Forces the vault open; only the backup authority may, and not once it is unlocked.
    pub fn unlock(&mut self, predecessor_account_id: &str) -> (r: Result<(), VaultError>)
        ensures
            same_but_status(final(self), old(self)),
            !(old(self).backup_trigger_account_id matches Some(b) && b@ == predecessor_account_id@)
                ==> r == Err::<(), VaultError>(VaultError::Unauthorized) && final(self).status == old(self).status,
            (old(self).backup_trigger_account_id matches Some(b) && b@ == predecessor_account_id@)
                && old(self).status == Status::Unlocked ==> r == Err::<(), VaultError>(
                VaultError::WrongState,
            ) && final(self).status == old(self).status,
            (old(self).backup_trigger_account_id matches Some(b) && b@ == predecessor_account_id@)
                && old(self).status != Status::Unlocked ==> r is Ok && final(self).status
                == Status::Unlocked,
    {
        let authorized = match &self.backup_trigger_account_id {
            Some(b) => str_eq(b.as_str(), predecessor_account_id),
            None => false,
        };
        if !authorized {
            return Err(VaultError::Unauthorized);
        }
        if self.status == Status::Unlocked {
            return Err(VaultError::WrongState);
        }
        self.status = Status::Unlocked;
        Ok(())
    }

    /// Points the vault at another price feed; only the owner may.
    pub fn update_price_oracle_account_id(
        &mut self,
        predecessor_account_id: &str,
        price_oracle_account_id: String,
    ) -> (r: Result<(), VaultError>)
        ensures
            predecessor_account_id@ != owner_account() ==> r == Err::<(), VaultError>(
                VaultError::Unauthorized,
            ) && *final(self) == *old(self),
            predecessor_account_id@ == owner_account() ==> r is Ok && *final(self) == (Contract {
                price_oracle_account_id,
                ..*old(self)
            }),
    {
        let owner = String::from_str("dreamproject.near");
        proof {
            reveal_strlit("dreamproject.near");
        }
        assert(owner@ =~= owner_account());
        if !str_eq(predecessor_account_id, owner.as_str()) {
            return Err(VaultError::Unauthorized);
        }
        self.price_oracle_account_id = price_oracle_account_id;
        Ok(())
    }

    /// Takes the answer to a metadata request: replaces the metadata where there is one.
    pub fn on_ft_metadata(&mut self, ft_metadata: Option<FungibleTokenMetadata>)
        ensures
            ft_metadata matches Some(m) ==> *final(self) == (Contract { meta: m, ..*old(self) }),
            ft_metadata is None ==> *final(self) == *old(self),
    {
        if let Some(m) = ft_metadata {
            self.meta = m;
        }
    }
}

/// `after` is `before` once `unwrap` by `caller` handed out `w`: the caller's whole
/// balance left the ledger, and no other balance moved.
pub open spec fn unwrap_post(before: &Contract, caller: Seq<char>, after: &Contract, w: &Withdrawal) -> bool {
    &&& w.account_id@ == caller
    &&& w.amount == before.balance_of(caller)
    &&& after.balance_of(caller) == 0
    &&& forall|a: Seq<char>| a != caller ==> #[trigger] after.balance_of(a) == before.balance_of(a)
}

/// `after` is `before` once the transfer-out of `w` was settled: kept on success,
/// re-credited in full on failure, and no other balance moved.
pub open spec fn settle_post(before: &Contract, w: &Withdrawal, success: bool, after: &Contract) -> bool {
    &&& success ==> after.balance_of(w.account_id@) == before.balance_of(w.account_id@)
    &&& !success ==> after.balance_of(w.account_id@) == before.balance_of(w.account_id@) + w.amount
    &&& forall|a: Seq<char>|
        a != w.account_id@ ==> #[trigger] after.balance_of(a) == before.balance_of(a)
}

/// Whether the vault has nothing but its ledger changed.
pub open spec fn same_but_ledger(a: &Contract, b: &Contract) -> bool {
    &&& a.token_id == b.token_id
    &&& a.meta == b.meta
    &&& a.backup_trigger_account_id == b.backup_trigger_account_id
    &&& a.price_oracle_account_id == b.price_oracle_account_id
    &&& a.asset_id == b.asset_id
    &&& a.minimum_unlock_price == b.minimum_unlock_price
    &&& a.locked_token_account_id == b.locked_token_account_id
    &&& a.factory_account_id == b.factory_account_id
    &&& a.status == b.status
}

impl Contract {
    /// Tokens of the backing token sent in by `sender_id`, reported by
    /// `predecessor_account_id`: credited while the vault is locked, if the report comes
    /// from the backing token itself. Returns the part of `amount` not taken, which is none.
    pub fn ft_on_transfer(&mut self, predecessor_account_id: &str, sender_id: String, amount: u128) -> (r:
        Result<u128, VaultError>)
        requires
            old(self).wf(),
            old(self).balance_of(sender_id@) + amount <= u128::MAX,
        ensures
            final(self).wf(),
            r is Err ==> *final(self) == *old(self),
            predecessor_account_id@ != old(self).locked_token_account_id@ ==> r == Err::<
                u128,
                VaultError,
            >(VaultError::Unauthorized),
            predecessor_account_id@ == old(self).locked_token_account_id@ && old(self).status
                != Status::Locked ==> r == Err::<u128, VaultError>(VaultError::WrongState),
            predecessor_account_id@ == old(self).locked_token_account_id@ && old(self).status
                == Status::Locked ==> {
                &&& r == Ok::<u128, VaultError>(0)
                &&& same_but_ledger(final(self), old(self))
                &&& final(self).ledger.view() == old(self).ledger.view().insert(
                    sender_id@,
                    (old(self).balance_of(sender_id@) + amount) as u128,
                )
            },
    {
        if !str_eq(predecessor_account_id, self.locked_token_account_id.as_str()) {
            return Err(VaultError::Unauthorized);
        }
        if self.status != Status::Locked {
            return Err(VaultError::WrongState);
        }
        let b = self.ft_balance_of(sender_id.as_str());
        self.ledger.insert(sender_id, b + amount);
        Ok(0)
    }

    /// Starts a withdrawal by `caller` from an unlocked vault: the caller's whole balance is
    /// taken off the ledger before it is sent out, so a retried transfer cannot spend it twice.
    pub fn unwrap(&mut self, caller: String) -> (r: Result<Withdrawal, VaultError>)
        requires
            old(self).wf(),
        ensures
            final(self).wf(),
            r is Err ==> *final(self) == *old(self),
            old(self).status != Status::Unlocked ==> r == Err::<Withdrawal, VaultError>(
                VaultError::WrongState,
            ),
            old(self).status == Status::Unlocked && !old(self).ledger.view().contains_key(caller@)
                ==> r == Err::<Withdrawal, VaultError>(VaultError::NotRegistered),
            old(self).status == Status::Unlocked && old(self).ledger.view().contains_key(caller@)
                ==> (r matches Ok(w) && unwrap_post(old(self), caller@, final(self), &w)
                && same_but_ledger(final(self), old(self))
                && final(self).ledger.view().contains_key(caller@)),
    {
        if self.status != Status::Unlocked {
            return Err(VaultError::WrongState);
        }
        let amount = match self.ledger.get(caller.as_str()) {
            Some(b) => *b,
            None => return Err(VaultError::NotRegistered),
        };
        let account_id = caller.clone();
        self.ledger.insert(caller, 0);
        Ok(Withdrawal { account_id, amount })
    }

    /// Settles the transfer-out of `w`. On success a holder left with nothing has its record
    /// closed and is released `min_storage_deposit`; on failure the amount is credited back.
    pub fn after_ft_transfer(&mut self, w: &Withdrawal, success: bool, min_storage_deposit: u128) -> (r:
        TransferSettlement)
        requires
            old(self).wf(),
            !success ==> old(self).balance_of(w.account_id@) + w.amount <= u128::MAX,
        ensures
            final(self).wf(),
            same_but_ledger(final(self), old(self)),
            settle_post(old(self), w, success, final(self)),
            r.success == success,
            success && old(self).ledger.view().contains_key(w.account_id@) && old(
                self
            ).ledger.view()[w.account_id@] == 0 ==> r.storage_refund == Some(min_storage_deposit)
                && final(self).ledger.view() == old(self).ledger.view().remove(w.account_id@),
            !(success && old(self).ledger.view().contains_key(w.account_id@) && old(
                self
            ).ledger.view()[w.account_id@] == 0) ==> r.storage_refund is None,
            success && !(old(self).ledger.view().contains_key(w.account_id@) && old(
                self
            ).ledger.view()[w.account_id@] == 0) ==> *final(self) == *old(self),
    {
        if success {
            let empty = match self.ledger.get(w.account_id.as_str()) {
                Some(b) => *b == 0,
                None => false,
            };
            if empty {
                self.ledger.remove(w.account_id.as_str());
                return TransferSettlement { success, storage_refund: Some(min_storage_deposit) };
            }
            TransferSettlement { success, storage_refund: None }
        } else {
            let b = self.ft_balance_of(w.account_id.as_str());
            self.ledger.insert(w.account_id.clone(), b + w.amount);
            TransferSettlement { success, storage_refund: None }
        }
    }
}

/// A withdrawal conserves balance: what the holder has after it was started and settled,
/// plus what left the vault, is what the holder had before; no other balance moves.
pub proof fn lemma_withdrawal_conserves(
    v0: &Contract,
    v1: &Contract,
    v2: &Contract,
    caller: Seq<char>,
    w: &Withdrawal,
    success: bool,
)
    requires
        unwrap_post(v0, caller, v1, w),
        settle_post(v1, w, success, v2),
    ensures
        v2.balance_of(caller) + (if success {
            w.amount as nat
        } else {
            0
        }) == v0.balance_of(caller),
        forall|a: Seq<char>| a != caller ==> #[trigger] v2.balance_of(a) == v0.balance_of(a),
{
    assert forall|a: Seq<char>| a != caller implies #[trigger] v2.balance_of(a) == v0.balance_of(
        a,
    ) by {
        assert(v2.balance_of(a) == v1.balance_of(a));
        assert(v1.balance_of(a) == v0.balance_of(a));
    }
}

/// While unlocking, qualifying prices before the cooldown has run leave the status as it is;
/// once it has run, one qualifying price unlocks, and a further one is refused.
pub proof fn lemma_cooldown_unlocks_once(initiated_timestamp: u64, now: u64, later: u64)
    ensures
        now - initiated_timestamp < UNLOCKING_DURATION ==> next_status(
            Status::Unlocking { initiated_timestamp },
            true,
            now,
        ) == Ok::<Status, VaultError>(Status::Unlocking { initiated_timestamp }),
        now - initiated_timestamp >= UNLOCKING_DURATION ==> next_status(
            Status::Unlocking { initiated_timestamp },
            true,
            now,
        ) == Ok::<Status, VaultError>(Status::Unlocked),
        next_status(Status::Unlocked, true, later) is Err,
{
}

/// Moving toward lock twice is moving toward lock once.
pub proof fn lemma_lock_idempotent(s: Status, t: Status, now: u64, later: u64)
    requires
        next_status(s, false, now) == Ok::<Status, VaultError>(t),
    ensures
        next_status(t, false, later) == Ok::<Status, VaultError>(t),
{
}

} // verus!
