//! The factory: whitelists, prepaid storage budgets, and the registry of created vaults.

use crate::metadata::{
    clone_opt_bytes, clone_opt_string, opt_view, valid_metadata, FungibleTokenMetadata, MetadataView,
};
use crate::price::Price;
use crate::store::KeyedStore;
use crate::text::{
    ascii_lower, decimal, decimal_padded4, format_title, is_upper_ascii, is_valid_account_id,
    lowercase_string_of, push_decimal, push_str, remove_trailing_zeros,
    string_of, strip_trailing_zeros, symbol_char, valid_account_id, without_white_space,
};
use vstd::prelude::*;
use vstd::string::{StrSliceExecFns, StringExecFns};

verus! {

/// Bytes of storage reserved for a vault beyond its code and initial arguments.
pub const EXTRA_BYTES: usize = 10000;

/// The authority that may force a vault created here to unlock: `dreamproject.near`.
pub open spec fn backup_trigger_account() -> Seq<char> {
    seq!['d', 'r', 'e', 'a', 'm', 'p', 'r', 'o', 'j', 'e', 'c', 't', '.', 'n', 'e', 'a', 'r']
}

/// Cost of one byte of storage, in the ledger's smallest unit.
pub open spec fn storage_byte_price() -> nat {
    10000000000000000000
}

/// Relies on `near_sdk::env::STORAGE_PRICE_PER_BYTE`, the price of a byte of storage.
#[verifier::external_body]
fn storage_price_per_byte() -> (r: u128)
    ensures
        r == storage_byte_price(),
{
    near_sdk::env::STORAGE_PRICE_PER_BYTE
}

/// Why a factory request was refused.
#[derive(Clone, Copy, Debug, PartialEq, Eq, Structural)]
pub enum FactoryError {
    /// The backing token is not whitelisted.
    NotWhitelisted,
    /// The price feed is missing or not whitelisted.
    FeedNotWhitelisted,
    /// The whitelisted metadata, the target price, or the derived metadata is unusable.
    InvalidMetadata,
    /// The derived vault account id is not a valid account id.
    InvalidIdentifier,
    /// A vault with the derived id already exists.
    IdentifierTaken,
    /// The caller's prepaid storage budget does not cover the request.
    InsufficientBudget,
    /// No vault is registered under the id.
    UnknownToken,
}

/// A backing token that vaults may be created for.
pub struct WhitelistedToken {
    /// Asset whose price the vaults track.
    pub asset_id: String,
    /// Name used for child tokens in place of the symbol, if set.
    pub ticker: Option<String>,
    pub metadata: FungibleTokenMetadata,
}

/// A request to create a vault.
pub struct TokenArgsInput {
    /// The whitelisted backing token.
    pub token_id: String,
    /// Target price in units of `10^-4`.
    pub target_price: u128,
    pub price_oracle_account_id: Option<String>,
}

/// The configuration a vault is created with; recorded in the factory.
pub struct TokenArgs {
    pub locked_token_account_id: String,
    pub token_id: String,
    pub meta: FungibleTokenMetadata,
    pub backup_trigger_account_id: Option<String>,
    pub price_oracle_account_id: String,
    pub asset_id: String,
    pub minimum_unlock_price: Price,
}

impl TokenArgs {
    /// Equal contents.
    pub open spec fn same(&self, o: &TokenArgs) -> bool {
        &&& self.locked_token_account_id == o.locked_token_account_id
        &&& self.token_id == o.token_id
        &&& self.meta@ == o.meta@
        &&& self.backup_trigger_account_id == o.backup_trigger_account_id
        &&& self.price_oracle_account_id == o.price_oracle_account_id
        &&& self.asset_id == o.asset_id
        &&& self.minimum_unlock_price == o.minimum_unlock_price
    }

    pub fn duplicate(&self) -> (r: TokenArgs)
        ensures
            r.same(self),
    {
        TokenArgs {
            locked_token_account_id: self.locked_token_account_id.clone(),
            token_id: self.token_id.clone(),
            meta: self.meta.duplicate(),
            backup_trigger_account_id: clone_opt_string(&self.backup_trigger_account_id),
            price_oracle_account_id: self.price_oracle_account_id.clone(),
            asset_id: self.asset_id.clone(),
            minimum_unlock_price: self.minimum_unlock_price,
        }
    }
}

/// A whitelisted token as listed to callers.
pub struct WhitelistedTokenOutput {
    pub token_id: String,
    pub asset_id: String,
    pub ticker: Option<String>,
    pub metadata: FungibleTokenMetadata,
}

impl WhitelistedTokenOutput {
    /// Whether this lists `t` under `token_id`.
    pub open spec fn lists(&self, token_id: Seq<char>, t: &WhitelistedToken) -> bool {
        &&& self.token_id@ == token_id
        &&& self.asset_id == t.asset_id
        &&& self.ticker == t.ticker
        &&& self.metadata@ == t.metadata@
    }

    pub fn from_token(t: &WhitelistedToken, token_id: &String) -> (r: WhitelistedTokenOutput)
        ensures
            r.lists(token_id@, t),
    {
        WhitelistedTokenOutput {
            token_id: token_id.clone(),
            asset_id: t.asset_id.clone(),
            ticker: clone_opt_string(&t.ticker),
            metadata: t.metadata.duplicate(),
        }
    }
}

/// A created vault as listed to callers.
pub struct TokenArgsOutput {
    pub token_id: Option<String>,
    pub locked_token_account_id: String,
    pub meta: FungibleTokenMetadata,
    pub backup_trigger_account_id: Option<String>,
    pub price_oracle_account_id: String,
    pub asset_id: String,
    pub minimum_unlock_price: Price,
}

impl TokenArgsOutput {
    /// Whether this lists `a` under `token_id`.
    pub open spec fn lists(&self, token_id: Seq<char>, a: &TokenArgs) -> bool {
        &&& (self.token_id matches Some(t) && t@ == token_id)
        &&& self.locked_token_account_id == a.locked_token_account_id
        &&& self.meta@ == a.meta@
        &&& self.backup_trigger_account_id == a.backup_trigger_account_id
        &&& self.price_oracle_account_id == a.price_oracle_account_id
        &&& self.asset_id == a.asset_id
        &&& self.minimum_unlock_price == a.minimum_unlock_price
    }

    pub fn from_args(a: &TokenArgs, token_id: &String) -> (r: TokenArgsOutput)
        ensures
            r.lists(token_id@, a),
    {
        TokenArgsOutput {
            token_id: Some(token_id.clone()),
            locked_token_account_id: a.locked_token_account_id.clone(),
            meta: a.meta.duplicate(),
            backup_trigger_account_id: clone_opt_string(&a.backup_trigger_account_id),
            price_oracle_account_id: a.price_oracle_account_id.clone(),
            asset_id: a.asset_id.clone(),
            minimum_unlock_price: a.minimum_unlock_price,
        }
    }
}

/// The first index past a page of `limit` items starting at `from`, in a list of `len`.
pub open spec fn page_end(from: u64, limit: u64, len: nat) -> int {
    if from + limit < len {
        from + limit
    } else {
        len as int
    }
}

/// The indices `from..page_end` of a list of `len` (none where `from` is past the end).
pub open spec fn page_len(from: u64, limit: u64, len: nat) -> int {
    if from < page_end(from, limit, len) {
        page_end(from, limit, len) - from
    } else {
        0
    }
}

/// Start and length of a page, computed without overflow.
fn page(from: u64, limit: u64, len: usize) -> (r: (usize, usize))
    ensures
        r.1 == page_len(from, limit, len as nat),
        r.1 > 0 ==> r.0 == from,
        r.0 + r.1 <= len,
{
    let n = len as u64;
    if from >= n {
        return (0, 0);
    }
    let end = if limit >= n - from {
        n
    } else {
        from + limit
    };
    (from as usize, (end - from) as usize)
}

/// Storage bytes a vault is funded for: its code, the reserve, and twice its arguments.
pub open spec fn vault_storage_bytes(code_len: nat, args_len: nat) -> nat {
    (code_len + EXTRA_BYTES + 2 * args_len) as nat
}

/// The factory's state.
pub struct TokenFactory {
    /// Created vaults by id.
    pub tokens: KeyedStore<TokenArgs>,
    /// Prepaid storage budget by account.
    pub storage_deposits: KeyedStore<u128>,
    /// What registering a budget costs, taken from the first deposit.
    pub storage_balance_cost: u128,
    /// Backing tokens by token account id.
    pub whitelisted_tokens: KeyedStore<WhitelistedToken>,
    /// Approved price feeds.
    pub whitelisted_price_oracles: KeyedStore<()>,
}

impl TokenFactory {
    pub open spec fn wf(&self) -> bool {
        &&& self.tokens.wf()
        &&& self.storage_deposits.wf()
        &&& self.whitelisted_tokens.wf()
        &&& self.whitelisted_price_oracles.wf()
    }

    /// The budget of `account`: zero where it has none.
    pub open spec fn budget(&self, account: Seq<char>) -> nat {
        if self.storage_deposits.view().contains_key(account) {
            self.storage_deposits.view()[account] as nat
        } else {
            0
        }
    }

    /// An empty factory; `storage_balance_cost` is what registering a budget costs.
    pub fn new(storage_balance_cost: u128) -> (r: TokenFactory)
        ensures
            r.wf(),
            r.storage_balance_cost == storage_balance_cost,
            r.tokens.view().is_empty(),
            r.storage_deposits.view().is_empty(),
            r.whitelisted_tokens.view().is_empty(),
            r.whitelisted_price_oracles.view().is_empty(),
    {
        TokenFactory {
            tokens: KeyedStore::new(),
            storage_deposits: KeyedStore::new(),
            storage_balance_cost,
            whitelisted_tokens: KeyedStore::new(),
            whitelisted_price_oracles: KeyedStore::new(),
        }
    }

    /// Approves a price feed.
    pub fn whitelist_price_oracle(&mut self, account_id: String)
        requires
            old(self).wf(),
        ensures
            final(self).wf(),
            final(self).whitelisted_price_oracles.view().dom() == old(self).whitelisted_price_oracles.view().dom().insert(account_id@),
            final(self).tokens == old(self).tokens,
            final(self).storage_deposits == old(self).storage_deposits,
            final(self).whitelisted_tokens == old(self).whitelisted_tokens,
            final(self).storage_balance_cost == old(self).storage_balance_cost,
    {
        self.whitelisted_price_oracles.insert(account_id, ());
        assert(self.whitelisted_price_oracles.view().dom() =~= old(self).whitelisted_price_oracles.view().dom().insert(account_id@));
    }

    /// Whitelists a backing token, replacing an earlier entry; refused where the symbol,
    /// lower-cased, holds a character other than `a-z0-9_-`.
    pub fn whitelist_token_with_metadata(
        &mut self,
        token_id: String,
        asset_id: String,
        ticker: Option<String>,
        metadata: FungibleTokenMetadata,
    ) -> (r: Result<(), FactoryError>)
        requires
            old(self).wf(),
        ensures
            final(self).wf(),
            r is Ok <==> (forall|i: int|
                0 <= i < metadata.symbol@.len() ==> is_upper_ascii(#[trigger] metadata.symbol@[i])
                    || symbol_char(metadata.symbol@[i])),
            r is Err ==> r == Err::<(), FactoryError>(FactoryError::InvalidMetadata) && *final(self) == *old(self),
            r is Ok ==> final(self).whitelisted_tokens.view() == old(self).whitelisted_tokens.view().insert(
                token_id@,
                (WhitelistedToken { asset_id, ticker, metadata }),
            ),
            final(self).tokens == old(self).tokens,
            final(self).storage_deposits == old(self).storage_deposits,
            final(self).whitelisted_price_oracles == old(self).whitelisted_price_oracles,
            final(self).storage_balance_cost == old(self).storage_balance_cost,
    {
        if !symbol_lowercase_valid(&metadata.symbol) {
            return Err(FactoryError::InvalidMetadata);
        }
        self.whitelisted_tokens.insert(token_id, WhitelistedToken { asset_id, ticker, metadata });
        Ok(())
    }

    /// The answer to a metadata request made while whitelisting: whitelists the token.
    pub fn on_ft_metadata(
        &mut self,
        ft_metadata: FungibleTokenMetadata,
        token_id: String,
        asset_id: String,
        ticker: Option<String>,
    ) -> (r: Result<(), FactoryError>)
        requires
            old(self).wf(),
        ensures
            final(self).wf(),
            r is Ok <==> (forall|i: int|
                0 <= i < ft_metadata.symbol@.len() ==> is_upper_ascii(
                    #[trigger] ft_metadata.symbol@[i],
                ) || symbol_char(ft_metadata.symbol@[i])),
            r is Err ==> *final(self) == *old(self),
            r is Ok ==> final(self).whitelisted_tokens.view() == old(self).whitelisted_tokens.view().insert(
                token_id@,
                (WhitelistedToken { asset_id, ticker, metadata: ft_metadata }),
            ),
    {
        self.whitelist_token_with_metadata(token_id, asset_id, ticker, ft_metadata)
    }

    /// Adds `deposit` to the budget of `account_id`. An account's first deposit must cover
    /// the registration cost, which is kept back.
    pub fn storage_deposit(&mut self, account_id: String, deposit: u128) -> (r: Result<
        (),
        FactoryError,
    >)
        requires
            old(self).wf(),
            old(self).budget(account_id@) + deposit <= u128::MAX,
        ensures
            final(self).wf(),
            r is Err <==> !old(self).storage_deposits.view().contains_key(account_id@) && deposit
                < old(self).storage_balance_cost,
            r is Err ==> r == Err::<(), FactoryError>(FactoryError::InsufficientBudget) && *final(self) == *old(self),
            r is Ok ==> final(self).storage_deposits.view() == old(self).storage_deposits.view().insert(
                account_id@,
                (if old(self).storage_deposits.view().contains_key(account_id@) {
                    old(self).budget(account_id@) + deposit
                } else {
                    deposit - old(self).storage_balance_cost
                }) as u128,
            ),
            final(self).tokens == old(self).tokens,
            final(self).whitelisted_tokens == old(self).whitelisted_tokens,
            final(self).whitelisted_price_oracles == old(self).whitelisted_price_oracles,
            final(self).storage_balance_cost == old(self).storage_balance_cost,
    {
        match self.storage_deposits.get(account_id.as_str()) {
            Some(previous) => {
                let b = *previous + deposit;
                self.storage_deposits.insert(account_id, b);
                Ok(())
            },
            None => {
                if deposit < self.storage_balance_cost {
                    return Err(FactoryError::InsufficientBudget);
                }
                let b = deposit - self.storage_balance_cost;
                self.storage_deposits.insert(account_id, b);
                Ok(())
            },
        }
    }

    /// The budget of `account_id`, zero where it has none.
    pub fn storage_balance_of(&self, account_id: &str) -> (r: u128)
        requires
            self.wf(),
        ensures
            r == self.budget(account_id@),
    {
        match self.storage_deposits.get(account_id) {
            Some(b) => *b,
            None => 0,
        }
    }

    /// What a vault's account must be funded with: its storage bytes at the byte price.
    pub fn get_min_attached_balance(code_len: usize, args_len: usize) -> (r: u128)
        requires
            vault_storage_bytes(code_len as nat, args_len as nat) * storage_byte_price()
                <= u128::MAX,
        ensures
            r == vault_storage_bytes(code_len as nat, args_len as nat) * storage_byte_price(),
    {
        let price = storage_price_per_byte();
        let bytes: u128 = code_len as u128 + EXTRA_BYTES as u128 + 2 * (args_len as u128);
        assert(bytes <= bytes * price) by (nonlinear_arith)
            requires
                price >= 1,
        ;
        bytes * price
    }

    pub fn get_number_of_tokens(&self) -> (r: u64)
        ensures
            r == self.tokens.entries@.len(),
    {
        self.tokens.len() as u64
    }

    /// A page of the approved price feeds, in the order they were approved.
    pub fn get_whitelisted_price_oracles(&self, from_index: u64, limit: u64) -> (r: Vec<String>)
        ensures
            r@.len() == page_len(from_index, limit, self.whitelisted_price_oracles.entries@.len()),
            forall|i: int|
                0 <= i < r@.len() ==> #[trigger] r@[i] == self.whitelisted_price_oracles.entries@[from_index
                    + i].0,
    {
        keys_page(&self.whitelisted_price_oracles, from_index, limit)
    }

    /// A page of the whitelisted token account ids, in the order they were whitelisted.
    pub fn get_whitelisted_token_account_ids(&self, from_index: u64, limit: u64) -> (r: Vec<
        String,
    >)
        ensures
            r@.len() == page_len(from_index, limit, self.whitelisted_tokens.entries@.len()),
            forall|i: int|
                0 <= i < r@.len() ==> #[trigger] r@[i] == self.whitelisted_tokens.entries@[from_index
                    + i].0,
    {
        keys_page(&self.whitelisted_tokens, from_index, limit)
    }

    /// A page of the whitelisted tokens, in the order they were whitelisted.
    pub fn get_whitelisted_tokens(&self, from_index: u64, limit: u64) -> (r: Vec<
        Option<WhitelistedTokenOutput>,
    >)
        ensures
            r@.len() == page_len(from_index, limit, self.whitelisted_tokens.entries@.len()),
            forall|i: int|
                0 <= i < r@.len() ==> (#[trigger] r@[i] matches Some(o) && o.lists(
                    self.whitelisted_tokens.entries@[from_index + i].0@,
                    &self.whitelisted_tokens.entries@[from_index + i].1,
                )),
    {
        let (start, n) = page(from_index, limit, self.whitelisted_tokens.len());
        let mut r: Vec<Option<WhitelistedTokenOutput>> = Vec::new();
        let mut i: usize = 0;
        while i < n
            invariant
                start as int + n as int <= self.whitelisted_tokens.entries@.len(),
                start as int + n as int <= usize::MAX,
                n > 0 ==> start == from_index,
                i <= n,
                r@.len() == i,
                forall|j: int|
                    0 <= j < i ==> (#[trigger] r@[j] matches Some(o) && o.lists(
                        self.whitelisted_tokens.entries@[start + j].0@,
                        &self.whitelisted_tokens.entries@[start + j].1,
                    )),
            decreases n - i,
        {
            let e = &self.whitelisted_tokens.entries[start + i];
            r.push(Some(WhitelistedTokenOutput::from_token(&e.1, &e.0)));
            i = i + 1;
        }
        r
    }

    /// The whitelisted token under `token_id`.
    pub fn get_whitelisted_token(&self, token_id: &String) -> (r: Option<WhitelistedTokenOutput>)
        requires
            self.wf(),
        ensures
            r is None <==> !self.whitelisted_tokens.view().contains_key(token_id@),
            r matches Some(o) ==> o.lists(
                token_id@,
                &self.whitelisted_tokens.view()[token_id@],
            ),
    {
        match self.whitelisted_tokens.get(token_id.as_str()) {
            Some(t) => Some(WhitelistedTokenOutput::from_token(t, token_id)),
            None => None,
        }
    }

    /// A page of the created vaults, in the order they were created.
    pub fn get_tokens(&self, from_index: u64, limit: u64) -> (r: Vec<TokenArgsOutput>)
        ensures
            r@.len() == page_len(from_index, limit, self.tokens.entries@.len()),
            forall|i: int|
                0 <= i < r@.len() ==> #[trigger] r@[i].lists(
                    self.tokens.entries@[from_index + i].0@,
                    &self.tokens.entries@[from_index + i].1,
                ),
    {
        let (start, n) = page(from_index, limit, self.tokens.len());
        let mut r: Vec<TokenArgsOutput> = Vec::new();
        let mut i: usize = 0;
        while i < n
            invariant
                start as int + n as int <= self.tokens.entries@.len(),
                start as int + n as int <= usize::MAX,
                n > 0 ==> start == from_index,
                i <= n,
                r@.len() == i,
                forall|j: int|
                    0 <= j < i ==> #[trigger] r@[j].lists(
                        self.tokens.entries@[start + j].0@,
                        &self.tokens.entries@[start + j].1,
                    ),
            decreases n - i,
        {
            let e = &self.tokens.entries[start + i];
            r.push(TokenArgsOutput::from_args(&e.1, &e.0));
            i = i + 1;
        }
        r
    }

    /// The vault registered under `token_id`.
    pub fn get_token(&self, token_id: &String) -> (r: Option<TokenArgsOutput>)
        requires
            self.wf(),
        ensures
            r is None <==> !self.tokens.view().contains_key(token_id@),
            r matches Some(o) ==> o.lists(token_id@, &self.tokens.view()[token_id@]),
    {
        match self.tokens.get(token_id.as_str()) {
            Some(a) => Some(TokenArgsOutput::from_args(a, token_id)),
            None => None,
        }
    }

    /// The metadata of the vault registered under `token_id`.
    pub fn ft_metadata(&self, token_id: &String) -> (r: Option<FungibleTokenMetadata>)
        requires
            self.wf(),
        ensures
            r is None <==> !self.tokens.view().contains_key(token_id@),
            r matches Some(m) ==> m@ == self.tokens.view()[token_id@].meta@,
    {
        match self.tokens.get(token_id.as_str()) {
            Some(a) => Some(a.meta.duplicate()),
            None => None,
        }
    }
}

/// Whether `symbol`, lower-cased, consists of `a-z0-9_-`: each character is a capital
/// letter or one of those.
fn symbol_lowercase_valid(symbol: &String) -> (r: bool)
    ensures
        r == (forall|i: int|
            0 <= i < symbol@.len() ==> is_upper_ascii(#[trigger] symbol@[i]) || symbol_char(
                symbol@[i],
            )),
{
    let s = symbol.as_str();
    let n = s.unicode_len();
    let mut i: usize = 0;
    while i < n
        invariant
            n == symbol@.len(),
            s@ == symbol@,
            i <= n,
            forall|j: int|
                0 <= j < i ==> is_upper_ascii(#[trigger] symbol@[j]) || symbol_char(symbol@[j]),
        decreases n - i,
    {
        let c = s.get_char(i);
        let ok = ('A' <= c && c <= 'Z') || ('0' <= c && c <= '9') || ('a' <= c && c <= 'z') || c
            == '_' || c == '-';
        if !ok {
            return false;
        }
        i = i + 1;
    }
    true
}

/// The keys at positions `from..` of a page.
fn keys_page<V>(store: &KeyedStore<V>, from: u64, limit: u64) -> (r: Vec<String>)
    ensures
        r@.len() == page_len(from, limit, store.entries@.len()),
        forall|i: int| 0 <= i < r@.len() ==> #[trigger] r@[i] == store.entries@[from + i].0,
{
    let (start, n) = page(from, limit, store.len());
    let mut r: Vec<String> = Vec::new();
    let mut i: usize = 0;
    while i < n
        invariant
            start as int + n as int <= store.entries@.len(),
            start as int + n as int <= usize::MAX,
            n > 0 ==> start == from,
            i <= n,
            r@.len() == i,
            forall|j: int| 0 <= j < i ==> #[trigger] r@[j] == store.entries@[start + j].0,
        decreases n - i,
    {
        r.push(store.entries[start + i].0.clone());
        i = i + 1;
    }
    r
}

/// The name a vault's token is shown with: the ticker, else the symbol without white space.
pub open spec fn ticker_of(t: &WhitelistedToken) -> Seq<char> {
    match t.ticker {
        Some(x) => x@,
        None => without_white_space(t.metadata.symbol@),
    }
}

/// The fractional part of a target price in units of `10^-4`, as shown: four digits
/// without trailing zeros (`"0"` where it is zero).
pub open spec fn fraction_text(target: nat) -> Seq<char> {
    strip_trailing_zeros(decimal_padded4(target % 10000), 4)
}

/// A target price in units of `10^-4` as shown: `<int>.<fraction>`, or `<int>` where the
/// fraction is zero.
pub open spec fn price_text(target: nat) -> Seq<char> {
    if target % 10000 > 0 {
        decimal(target / 10000) + seq!['.'] + fraction_text(target)
    } else {
        decimal(target / 10000)
    }
}

/// A vault id before lower-casing: `<name>-at-<int>-<fraction>`.
pub open spec fn vault_id_source(name: Seq<char>, target: nat) -> Seq<char> {
    name + seq!['-', 'a', 't', '-'] + decimal(target / 10000) + seq!['-'] + fraction_text(target)
}

/// The account of a child `id` under `parent`.
pub open spec fn sub_account(id: Seq<char>, parent: Seq<char>) -> Seq<char> {
    id + seq!['.'] + parent
}

/// The metadata of a vault over `t` at `target`: `t`'s, renamed to `<ticker> at $<price>`
/// with symbol `<ticker>@<price>`.
pub open spec fn vault_metadata(t: &WhitelistedToken, target: nat) -> MetadataView {
    let ticker = ticker_of(t);
    let price = price_text(target);
    MetadataView {
        spec: t.metadata.spec@,
        name: ticker + seq![' ', 'a', 't', ' ', '$'] + price,
        symbol: ticker + seq!['@'] + price,
        icon: opt_view(t.metadata.icon),
        reference: opt_view(t.metadata.reference),
        reference_hash: t.metadata@.reference_hash,
        decimals: t.metadata.decimals,
    }
}

/// Everything derived from a request to create a vault.
pub struct PreparedToken {
    /// The vault id, the key it is registered under.
    pub token_id: String,
    /// The vault's account: the id under the factory's account.
    pub token_account_id: String,
    /// The target price as shown.
    pub price: String,
    pub args: TokenArgs,
}

/// What the factory hands on for a created vault: create the account, fund it with
/// `required_balance` (less the storage the registry record used), install the code and
/// initialise it with `token.args`.
pub struct DeployPlan {
    pub token: PreparedToken,
    pub required_balance: u128,
}

impl TokenFactory {
    /// The error a request to create a vault meets before budget and registry are consulted.
    pub open spec fn prepare_error(&self, input: &TokenArgsInput, current: Seq<char>) -> Option<
        FactoryError,
    > {
        let t = self.whitelisted_tokens.view()[input.token_id@];
        let name = without_white_space(t.metadata.symbol@);
        let target = input.target_price as nat;
        if !self.whitelisted_tokens.view().contains_key(input.token_id@) {
            Some(FactoryError::NotWhitelisted)
        } else if !(input.price_oracle_account_id matches Some(o)
            && self.whitelisted_price_oracles.view().contains_key(o@)) {
            Some(FactoryError::FeedNotWhitelisted)
        } else if !(t.metadata.decimals > 0 && ticker_of(&t).len() > 0 && name.len() > 0
            && target > 0 && t.metadata.decimals + 4 <= u8::MAX) {
            Some(FactoryError::InvalidMetadata)
        } else if !valid_metadata(vault_metadata(&t, target)) {
            Some(FactoryError::InvalidMetadata)
        } else if !valid_account_id(
            sub_account(ascii_lower(vault_id_source(name, target)), current),
        ) {
            Some(FactoryError::InvalidIdentifier)
        } else {
            None
        }
    }

    /// `p` is what a request to create a vault derives.
    pub open spec fn prepared(&self, input: &TokenArgsInput, current: Seq<char>, p: &PreparedToken) -> bool {
        let t = self.whitelisted_tokens.view()[input.token_id@];
        let target = input.target_price as nat;
        &&& p.token_id@ == ascii_lower(vault_id_source(without_white_space(t.metadata.symbol@), target))
        &&& p.token_account_id@ == sub_account(p.token_id@, current)
        &&& p.price@ == price_text(target)
        &&& p.args.locked_token_account_id == input.token_id
        &&& p.args.token_id == p.token_id
        &&& p.args.meta@ == vault_metadata(&t, target)
        &&& (p.args.backup_trigger_account_id matches Some(b) && b@ == backup_trigger_account())
        &&& input.price_oracle_account_id == Some(p.args.price_oracle_account_id)
        &&& p.args.asset_id == t.asset_id
        &&& p.args.minimum_unlock_price == (Price {
            multiplier: input.target_price,
            decimals: (t.metadata.decimals + 4) as u8,
        })
    }

    /// Validates a request to create a vault and derives its id, account, metadata and
    /// configuration; changes nothing.
    pub fn prepare_token(&self, input: &TokenArgsInput, current_account_id: &str) -> (r: Result<
        PreparedToken,
        FactoryError,
    >)
        requires
            self.wf(),
        ensures
            self.prepare_error(input, current_account_id@) matches Some(e) ==> r == Err::<
                PreparedToken,
                FactoryError,
            >(e),
            self.prepare_error(input, current_account_id@) is None ==> (r matches Ok(p)
                && self.prepared(input, current_account_id@, &p)),
    {
        let t = match self.whitelisted_tokens.get(input.token_id.as_str()) {
            Some(t) => t,
            None => return Err(FactoryError::NotWhitelisted),
        };
        let oracle = match &input.price_oracle_account_id {
            Some(o) => o,
            None => return Err(FactoryError::FeedNotWhitelisted),
        };
        if !self.whitelisted_price_oracles.contains(oracle.as_str()) {
            return Err(FactoryError::FeedNotWhitelisted);
        }
        let token_name = format_title(t.metadata.symbol.as_str());
        let ticker = match &t.ticker {
            Some(x) => x.clone(),
            None => token_name.clone(),
        };
        let decimals = t.metadata.decimals;
        if !(decimals > 0 && ticker.as_str().unicode_len() > 0
            && token_name.as_str().unicode_len() > 0 && input.target_price > 0 && decimals
            <= u8::MAX - 4) {
            return Err(FactoryError::InvalidMetadata);
        }
        let target = input.target_price;
        let short = target / 10000;
        let remainder = target % 10000;
        let fraction = remove_trailing_zeros(remainder);

        let mut pv: Vec<char> = Vec::new();
        push_decimal(&mut pv, short);
        if remainder > 0 {
            pv.push('.');
            push_str(&mut pv, fraction.as_str());
        }
        let price = string_of(&pv);
        assert(price@ =~= price_text(target as nat));
        assert(ticker@ == ticker_of(t));

        let mut nv: Vec<char> = Vec::new();
        push_str(&mut nv, ticker.as_str());
        nv.push(' ');
        nv.push('a');
        nv.push('t');
        nv.push(' ');
        nv.push('$');
        push_str(&mut nv, price.as_str());
        let mut sv: Vec<char> = Vec::new();
        push_str(&mut sv, ticker.as_str());
        sv.push('@');
        push_str(&mut sv, price.as_str());

        let meta = FungibleTokenMetadata {
            spec: t.metadata.spec.clone(),
            name: string_of(&nv),
            symbol: string_of(&sv),
            icon: clone_opt_string(&t.metadata.icon),
            reference: clone_opt_string(&t.metadata.reference),
            reference_hash: clone_opt_bytes(&t.metadata.reference_hash),
            decimals,
        };
        assert(meta.name@ =~= ticker_of(t) + seq![' ', 'a', 't', ' ', '$'] + price_text(
            target as nat,
        ));
        assert(meta.symbol@ =~= ticker_of(t) + seq!['@'] + price_text(target as nat));
        assert(meta@.reference_hash == t.metadata@.reference_hash);
        assert(meta@ =~= vault_metadata(t, target as nat));
        if !meta.is_valid() {
            return Err(FactoryError::InvalidMetadata);
        }

        let mut iv: Vec<char> = Vec::new();
        push_str(&mut iv, token_name.as_str());
        iv.push('-');
        iv.push('a');
        iv.push('t');
        iv.push('-');
        push_decimal(&mut iv, short);
        iv.push('-');
        push_str(&mut iv, fraction.as_str());
        assert(iv@ =~= vault_id_source(without_white_space(t.metadata.symbol@), target as nat));
        let token_id = lowercase_string_of(&iv);

        let mut av: Vec<char> = Vec::new();
        push_str(&mut av, token_id.as_str());
        av.push('.');
        push_str(&mut av, current_account_id);
        let token_account_id = string_of(&av);
        assert(token_account_id@ =~= sub_account(token_id@, current_account_id@));
        if !is_valid_account_id(token_account_id.as_str()) {
            return Err(FactoryError::InvalidIdentifier);
        }

        let backup = String::from_str("dreamproject.near");
        proof {
            reveal_strlit("dreamproject.near");
        }
        assert(backup@ =~= backup_trigger_account());
        let args = TokenArgs {
            locked_token_account_id: input.token_id.clone(),
            token_id: token_id.clone(),
            meta,
            backup_trigger_account_id: Some(backup),
            price_oracle_account_id: oracle.clone(),
            asset_id: t.asset_id.clone(),
            minimum_unlock_price: Price { multiplier: target, decimals: decimals + 4 },
        };
        Ok(PreparedToken { token_id, token_account_id, price, args })
    }
}

/// The name a token account id was shown under: `<name>-<int>-<4-digit fraction>`.
pub open spec fn token_name_source(name: Seq<char>, target: nat) -> Seq<char> {
    name + seq!['-'] + decimal(target / 10000) + seq!['-'] + decimal_padded4(target % 10000)
}

impl TokenFactory {
    /// The budget of `account` after a deposit made with a request: `None` where the deposit
    /// cannot register the account.
    pub open spec fn budget_with_deposit(&self, account: Seq<char>, deposit: nat) -> Option<nat> {
        if deposit == 0 {
            Some(self.budget(account))
        } else if self.storage_deposits.view().contains_key(account) {
            Some(self.budget(account) + deposit)
        } else if deposit >= self.storage_balance_cost {
            Some((deposit - self.storage_balance_cost) as nat)
        } else {
            None
        }
    }

    /// The account id a vault over `input`'s token would get, in the older
    /// `<name>-<int>-<4-digit fraction>` form.
    pub fn get_token_name(&self, input: &TokenArgsInput, current_account_id: &str) -> (r: Result<
        String,
        FactoryError,
    >)
        requires
            self.wf(),
        ensures
            !self.whitelisted_tokens.view().contains_key(input.token_id@) ==> r == Err::<
                String,
                FactoryError,
            >(FactoryError::NotWhitelisted),
            self.whitelisted_tokens.view().contains_key(input.token_id@) ==> {
                let name = without_white_space(
                    self.whitelisted_tokens.view()[input.token_id@].metadata.symbol@,
                );
                let id = sub_account(
                    ascii_lower(token_name_source(name, input.target_price as nat)),
                    current_account_id@,
                );
                &&& valid_account_id(id) ==> (r matches Ok(s) && s@ == id)
                &&& !valid_account_id(id) ==> r == Err::<String, FactoryError>(
                    FactoryError::InvalidIdentifier,
                )
            },
    {
        let t = match self.whitelisted_tokens.get(input.token_id.as_str()) {
            Some(t) => t,
            None => return Err(FactoryError::NotWhitelisted),
        };
        let token_name = format_title(t.metadata.symbol.as_str());
        let short = input.target_price / 10000;
        let remainder = input.target_price % 10000;
        let mut rv: Vec<char> = Vec::new();
        push_decimal(&mut rv, remainder);
        let mut iv: Vec<char> = Vec::new();
        push_str(&mut iv, token_name.as_str());
        iv.push('-');
        push_decimal(&mut iv, short);
        iv.push('-');
        let mut k: usize = rv.len();
        while k < 4
            invariant
                rv@ == decimal(remainder as nat),
                rv.len() <= k <= 4 || (k == rv.len() && k > 4),
                iv@ == token_name@ + seq!['-'] + decimal(short as nat) + seq!['-'] + Seq::new(
                    (k - rv.len()) as nat,
                    |i: int| '0',
                ),
            decreases 4 - k,
        {
            iv.push('0');
            k = k + 1;
            assert(iv@ =~= token_name@ + seq!['-'] + decimal(short as nat) + seq!['-'] + Seq::new(
                (k - rv.len()) as nat,
                |i: int| '0',
            ));
        }
        push_str(&mut iv, string_of(&rv).as_str());
        assert(iv@ =~= token_name_source(token_name@, input.target_price as nat));
        let token_id = lowercase_string_of(&iv);
        let mut av: Vec<char> = Vec::new();
        push_str(&mut av, token_id.as_str());
        av.push('.');
        push_str(&mut av, current_account_id);
        let account = string_of(&av);
        assert(account@ =~= sub_account(token_id@, current_account_id@));
        if !is_valid_account_id(account.as_str()) {
            return Err(FactoryError::InvalidIdentifier);
        }
        Ok(account)
    }

    /// Creates a vault: validates the request, reserves its id, takes its funding from the
    /// caller's budget (after adding `attached_deposit` to it), and records it. `code_len`
    /// and `args_len` are the sizes of the vault's code and of its serialised arguments.
    /// A refused request changes nothing.
    pub fn create_token(
        &mut self,
        caller: &String,
        attached_deposit: u128,
        input: &TokenArgsInput,
        current_account_id: &str,
        code_len: usize,
        args_len: usize,
    ) -> (r: Result<DeployPlan, FactoryError>)
        requires
            old(self).wf(),
            vault_storage_bytes(code_len as nat, args_len as nat) * storage_byte_price()
                <= u128::MAX,
            old(self).budget(caller@) + attached_deposit <= u128::MAX,
        ensures
            final(self).wf(),
            r is Err ==> *final(self) == *old(self),
            !old(self).whitelisted_tokens.view().contains_key(input.token_id@) ==> r == Err::<
                DeployPlan,
                FactoryError,
            >(FactoryError::NotWhitelisted),
            old(self).whitelisted_tokens.view().contains_key(input.token_id@) && !(
            input.price_oracle_account_id matches Some(o)
                && old(self).whitelisted_price_oracles.view().contains_key(o@)) ==> r == Err::<
                DeployPlan,
                FactoryError,
            >(FactoryError::FeedNotWhitelisted),
            old(self).prepare_error(input, current_account_id@) matches Some(e) ==> r == Err::<
                DeployPlan,
                FactoryError,
            >(e),
            old(self).prepare_error(input, current_account_id@) is None ==> {
                let id = ascii_lower(
                    vault_id_source(
                        without_white_space(
                            old(self).whitelisted_tokens.view()[input.token_id@].metadata.symbol@,
                        ),
                        input.target_price as nat,
                    ),
                );
                let required = vault_storage_bytes(code_len as nat, args_len as nat)
                    * storage_byte_price();
                let budget = old(self).budget_with_deposit(caller@, attached_deposit as nat);
                &&& old(self).tokens.view().contains_key(id) ==> r == Err::<
                    DeployPlan,
                    FactoryError,
                >(FactoryError::IdentifierTaken)
                &&& !old(self).tokens.view().contains_key(id) && (budget is None || budget->0
                    < required) ==> r == Err::<DeployPlan, FactoryError>(
                    FactoryError::InsufficientBudget,
                )
                &&& (!old(self).tokens.view().contains_key(id) && budget is Some && budget->0
                    >= required) ==> (r matches Ok(plan) && {
                    &&& old(self).prepared(input, current_account_id@, &plan.token)
                    &&& plan.required_balance == required
                    &&& final(self).storage_deposits.view() == old(
                        self
                    ).storage_deposits.view().insert(caller@, (budget->0 - required) as u128)
                    &&& final(self).tokens.view().contains_key(id)
                    &&& final(self).tokens.view()[id].same(&plan.token.args)
                    &&& final(self).tokens.view() == old(self).tokens.view().insert(
                        id,
                        final(self).tokens.view()[id],
                    )
                    &&& final(self).tokens.keys() == old(self).tokens.keys().push(id)
                    &&& final(self).whitelisted_tokens == old(self).whitelisted_tokens
                    &&& final(self).whitelisted_price_oracles == old(
                        self
                    ).whitelisted_price_oracles
                    &&& final(self).storage_balance_cost == old(self).storage_balance_cost
                })
            },
    {
        let prepared = match self.prepare_token(input, current_account_id) {
            Ok(p) => p,
            Err(e) => return Err(e),
        };
        if self.tokens.contains(prepared.token_id.as_str()) {
            return Err(FactoryError::IdentifierTaken);
        }
        let balance = self.storage_balance_of(caller.as_str());
        let registered = self.storage_deposits.contains(caller.as_str());
        let budget = if attached_deposit == 0 {
            balance
        } else if registered {
            balance + attached_deposit
        } else if attached_deposit >= self.storage_balance_cost {
            attached_deposit - self.storage_balance_cost
        } else {
            return Err(FactoryError::InsufficientBudget);
        };
        let required = TokenFactory::get_min_attached_balance(code_len, args_len);
        if budget < required {
            return Err(FactoryError::InsufficientBudget);
        }
        self.storage_deposits.insert(caller.clone(), budget - required);
        let record = prepared.args.duplicate();
        self.tokens.insert(prepared.token_id.clone(), record);
        Ok(DeployPlan { token: prepared, required_balance: required })
    }

    /// Replaces the metadata of a whitelisted token.
    pub fn update_whitelisted_token_metadata(
        &mut self,
        token_id: String,
        metadata: FungibleTokenMetadata,
    ) -> (r: Result<(), FactoryError>)
        requires
            old(self).wf(),
        ensures
            final(self).wf(),
            r is Err <==> !old(self).whitelisted_tokens.view().contains_key(token_id@),
            r is Err ==> r == Err::<(), FactoryError>(FactoryError::NotWhitelisted) && *final(self)
                == *old(self),
            r is Ok ==> {
                let t = final(self).whitelisted_tokens.view()[token_id@];
                let o = old(self).whitelisted_tokens.view()[token_id@];
                &&& final(self).whitelisted_tokens.view() == old(
                    self
                ).whitelisted_tokens.view().insert(token_id@, t)
                &&& t.asset_id == o.asset_id
                &&& t.ticker == o.ticker
                &&& t.metadata == metadata
            },
            final(self).tokens == old(self).tokens,
            final(self).storage_deposits == old(self).storage_deposits,
            final(self).whitelisted_price_oracles == old(self).whitelisted_price_oracles,
    {
        let t = match self.whitelisted_tokens.get(token_id.as_str()) {
            Some(t) => WhitelistedToken {
                asset_id: t.asset_id.clone(),
                ticker: clone_opt_string(&t.ticker),
                metadata,
            },
            None => return Err(FactoryError::NotWhitelisted),
        };
        self.whitelisted_tokens.insert(token_id, t);
        Ok(())
    }

    /// Replaces the metadata recorded for a created vault.
    pub fn update_token_metadata(&mut self, token_id: String, meta: FungibleTokenMetadata) -> (r:
        Result<(), FactoryError>)
        requires
            old(self).wf(),
        ensures
            final(self).wf(),
            r is Err <==> !old(self).tokens.view().contains_key(token_id@),
            r is Err ==> r == Err::<(), FactoryError>(FactoryError::UnknownToken) && *final(self)
                == *old(self),
            r is Ok ==> {
                let a = final(self).tokens.view()[token_id@];
                let o = old(self).tokens.view()[token_id@];
                &&& final(self).tokens.view() == old(self).tokens.view().insert(token_id@, a)
                &&& final(self).tokens.keys() == old(self).tokens.keys()
                &&& a.meta == meta
                &&& a.locked_token_account_id == o.locked_token_account_id
                &&& a.token_id == o.token_id
                &&& a.backup_trigger_account_id == o.backup_trigger_account_id
                &&& a.price_oracle_account_id == o.price_oracle_account_id
                &&& a.asset_id == o.asset_id
                &&& a.minimum_unlock_price == o.minimum_unlock_price
            },
            final(self).storage_deposits == old(self).storage_deposits,
            final(self).whitelisted_tokens == old(self).whitelisted_tokens,
            final(self).whitelisted_price_oracles == old(self).whitelisted_price_oracles,
    {
        let a = match self.tokens.get(token_id.as_str()) {
            Some(a) => TokenArgs {
                locked_token_account_id: a.locked_token_account_id.clone(),
                token_id: a.token_id.clone(),
                meta,
                backup_trigger_account_id: clone_opt_string(&a.backup_trigger_account_id),
                price_oracle_account_id: a.price_oracle_account_id.clone(),
                asset_id: a.asset_id.clone(),
                minimum_unlock_price: a.minimum_unlock_price,
            },
            None => return Err(FactoryError::UnknownToken),
        };
        self.tokens.insert(token_id, a);
        Ok(())
    }
}

/// What a new vault's account is sent: its required funding less the storage its registry
/// record used; `None` where that storage exceeds the funding.
pub fn deploy_transfer_amount(required_balance: u128, storage_used: u128) -> (r: Option<u128>)
    ensures
        storage_used <= required_balance ==> r == Some((required_balance - storage_used) as u128),
        storage_used > required_balance ==> r is None,
{
    if storage_used <= required_balance {
        Some(required_balance - storage_used)
    } else {
        None
    }
}

/// A whitelist entry in the earlier layout: a title, an asset and decimals.
pub struct WhitelistedTokenOld {
    pub title: String,
    pub asset_id: String,
    pub decimals: u8,
}

/// The factory's state in the earlier layout, before price feeds were whitelisted.
pub struct TokenFactoryOld {
    pub tokens: KeyedStore<TokenArgs>,
    pub storage_deposits: KeyedStore<u128>,
    pub storage_balance_cost: u128,
    pub whitelisted_tokens: KeyedStore<WhitelistedTokenOld>,
}

/// `t` is the migrated form of `o`: same asset, no ticker, the title as name, version
/// `ft-1.0.0`, an empty symbol, the same decimals, and nothing else.
pub open spec fn migrated(o: &WhitelistedTokenOld, t: &WhitelistedToken) -> bool {
    &&& t.asset_id == o.asset_id
    &&& t.ticker is None
    &&& t.metadata@ == (MetadataView {
        spec: crate::metadata::ft_metadata_spec(),
        name: o.title@,
        symbol: Seq::empty(),
        icon: None,
        reference: None,
        reference_hash: None,
        decimals: o.decimals,
    })
}

impl TokenFactory {
    /// Rewrites a factory in the earlier layout: vaults, budgets and the registration cost
    /// are kept as they are, each whitelist entry is converted under the same key and in
    /// the same order, and no price feed is whitelisted.
    pub fn migrate_1(old: TokenFactoryOld) -> (r: TokenFactory)
        requires
            old.tokens.wf(),
            old.storage_deposits.wf(),
            old.whitelisted_tokens.wf(),
        ensures
            r.wf(),
            r.tokens == old.tokens,
            r.storage_deposits == old.storage_deposits,
            r.storage_balance_cost == old.storage_balance_cost,
            r.whitelisted_price_oracles.view().is_empty(),
            r.whitelisted_tokens.entries@.len() == old.whitelisted_tokens.entries@.len(),
            forall|i: int|
                0 <= i < r.whitelisted_tokens.entries@.len() ==> {
                    &&& #[trigger] r.whitelisted_tokens.entries@[i].0
                        == old.whitelisted_tokens.entries@[i].0
                    &&& migrated(
                        &old.whitelisted_tokens.entries@[i].1,
                        &r.whitelisted_tokens.entries@[i].1,
                    )
                },
    {
        let src = &old.whitelisted_tokens;
        let mut entries: Vec<(String, WhitelistedToken)> = Vec::new();
        let mut i: usize = 0;
        while i < src.entries.len()
            invariant
                i <= src.entries@.len(),
                entries@.len() == i,
                forall|j: int|
                    0 <= j < i ==> {
                        &&& #[trigger] entries@[j].0 == src.entries@[j].0
                        &&& migrated(&src.entries@[j].1, &entries@[j].1)
                    },
            decreases src.entries@.len() - i,
        {
            let e = &src.entries[i];
            let tag = String::from_str("ft-1.0.0");
            proof {
                reveal_strlit("ft-1.0.0");
            }
            assert(tag@ =~= crate::metadata::ft_metadata_spec());
            let metadata = FungibleTokenMetadata {
                spec: tag,
                name: e.1.title.clone(),
                symbol: String::new(),
                icon: None,
                reference: None,
                reference_hash: None,
                decimals: e.1.decimals,
            };
            assert(metadata@ =~= (MetadataView {
                spec: crate::metadata::ft_metadata_spec(),
                name: e.1.title@,
                symbol: Seq::empty(),
                icon: None,
                reference: None,
                reference_hash: None,
                decimals: e.1.decimals,
            }));
            entries.push(
                (e.0.clone(), WhitelistedToken { asset_id: e.1.asset_id.clone(), ticker: None, metadata }),
            );
            i = i + 1;
        }
        let whitelisted_tokens = KeyedStore { entries };
        assert forall|a: int, b: int|
            0 <= a < whitelisted_tokens.entries@.len() && 0 <= b
                < whitelisted_tokens.entries@.len() && a != b implies #[trigger] whitelisted_tokens.entries@[a].0@
            != #[trigger] whitelisted_tokens.entries@[b].0@ by {
            assert(whitelisted_tokens.entries@[a].0 == src.entries@[a].0);
            assert(whitelisted_tokens.entries@[b].0 == src.entries@[b].0);
        }
        TokenFactory {
            tokens: old.tokens,
            storage_deposits: old.storage_deposits,
            storage_balance_cost: old.storage_balance_cost,
            whitelisted_tokens,
            whitelisted_price_oracles: KeyedStore::new(),
        }
    }
}

} // verus!
