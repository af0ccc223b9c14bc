//! Off-chain token data of a wallet: addresses, balance and the list of
//! transactions, with lookups over the list.

use vstd::prelude::*;

verus! {

/// A transaction of an off-chain token wallet.
#[derive(Clone, Debug, PartialEq)]
pub struct TokenOCTransaction {
    pub transaction_id: String,
    pub token_oc_wallet_address: String,
    pub token_oc_wallet_balance: u64,
}

/// A transaction as a mathematical value.
pub struct TransactionView {
    pub transaction_id: Seq<char>,
    pub wallet_address: Seq<char>,
    pub balance: u64,
}

impl View for TokenOCTransaction {
    type V = TransactionView;

    open spec fn view(&self) -> TransactionView {
        TransactionView {
            transaction_id: self.transaction_id@,
            wallet_address: self.token_oc_wallet_address@,
            balance: self.token_oc_wallet_balance,
        }
    }
}

/// The token data of a wallet.
#[derive(Clone, Debug, PartialEq)]
pub struct TokenOCData {
    pub token_oc_master_address: String,
    pub token_oc_wallet_address: String,
    pub token_oc_wallet_balance: u64,
    pub token_oc_wallet_transactions: Vec<TokenOCTransaction>,
}

/// Token data as a mathematical value.
#[verifier::ext_equal]
pub struct TokenDataView {
    pub master_address: Seq<char>,
    pub wallet_address: Seq<char>,
    pub balance: u64,
    pub transactions: Seq<TransactionView>,
}

/// The views of a list of transactions.
pub open spec fn transaction_views(txs: Seq<TokenOCTransaction>) -> Seq<TransactionView> {
    txs.map_values(|t: TokenOCTransaction| t@)
}

impl View for TokenOCData {
    type V = TokenDataView;

    open spec fn view(&self) -> TokenDataView {
        TokenDataView {
            master_address: self.token_oc_master_address@,
            wallet_address: self.token_oc_wallet_address@,
            balance: self.token_oc_wallet_balance,
            transactions: transaction_views(self.token_oc_wallet_transactions@),
        }
    }
}

/// Whether a transaction differs from `t`.
pub open spec fn differs_from(t: TransactionView) -> spec_fn(TransactionView) -> bool {
    |x: TransactionView| x != t
}

/// Whether a transaction has the identifier `id`.
pub open spec fn has_id(id: Seq<char>) -> spec_fn(TransactionView) -> bool {
    |x: TransactionView| x.transaction_id == id
}

/// Whether a transaction names the wallet `address`.
pub open spec fn has_wallet_address(address: Seq<char>) -> spec_fn(TransactionView) -> bool {
    |x: TransactionView| x.wallet_address == address
}

/// Whether a transaction records the balance `balance`.
pub open spec fn has_balance(balance: u64) -> spec_fn(TransactionView) -> bool {
    |x: TransactionView| x.balance == balance
}

/// The index of the first transaction, from the `k`th on, that satisfies
/// `pred`.
pub open spec fn first_match(s: Seq<TransactionView>, pred: spec_fn(TransactionView) -> bool, k: int) -> Option<int>
    decreases s.len() - k,
{
    if k < 0 || k >= s.len() {
        None
    } else if pred(s[k]) {
        Some(k)
    } else {
        first_match(s, pred, k + 1)
    }
}

/// The first transaction of `s` that satisfies `pred`, if any.
pub open spec fn find_first(s: Seq<TransactionView>, pred: spec_fn(TransactionView) -> bool) -> Option<TransactionView> {
    match first_match(s, pred, 0) {
        Some(i) => Some(s[i]),
        None => None,
    }
}

/// A first match lies within the list, satisfies the predicate, and no
/// earlier transaction from `k` on does.
pub proof fn lemma_first_match(s: Seq<TransactionView>, pred: spec_fn(TransactionView) -> bool, k: int)
    requires
        0 <= k,
    ensures
        first_match(s, pred, k) matches Some(i) ==> k <= i < s.len() && pred(s[i])
            && forall|j: int| k <= j < i ==> !pred(#[trigger] s[j]),
        first_match(s, pred, k) is None ==> forall|j: int| k <= j < s.len() ==> !pred(#[trigger] s[j]),
    decreases s.len() - k,
{
    if k < s.len() {
        lemma_first_match(s, pred, k + 1);
    }
}

/// A copy of a transaction.
fn copy_transaction(t: &TokenOCTransaction) -> (r: TokenOCTransaction)
    ensures
        r@ == t@,
{
    TokenOCTransaction {
        transaction_id: t.transaction_id.clone(),
        token_oc_wallet_address: t.token_oc_wallet_address.clone(),
        token_oc_wallet_balance: t.token_oc_wallet_balance,
    }
}

/// Whether two transactions agree in all fields.
fn same_transaction(a: &TokenOCTransaction, b: &TokenOCTransaction) -> (r: bool)
    ensures
        r == (a@ == b@),
{
    a.transaction_id == b.transaction_id && a.token_oc_wallet_address == b.token_oc_wallet_address
        && a.token_oc_wallet_balance == b.token_oc_wallet_balance
}

/// A copy of a list of transactions.
fn copy_transactions(txs: &Vec<TokenOCTransaction>) -> (r: Vec<TokenOCTransaction>)
    ensures
        transaction_views(r@) == transaction_views(txs@),
{
    let mut out: Vec<TokenOCTransaction> = Vec::new();
    let mut i: usize = 0;
    while i < txs.len()
        invariant
            i <= txs@.len(),
            transaction_views(out@) == transaction_views(txs@).take(i as int),
        decreases txs@.len() - i,
    {
        let ghost before = out@;
        let t = copy_transaction(&txs[i]);
        out.push(t);
        assert(transaction_views(out@) =~= transaction_views(before).push(txs@[i as int]@));
        i = i + 1;
        assert(transaction_views(out@) =~= transaction_views(txs@).take(i as int));
    }
    assert(transaction_views(txs@).take(txs@.len() as int) =~= transaction_views(txs@));
    out
}

impl TokenOCData {
    /// Token data with the given fields.
    pub fn new(
        token_oc_master_address: String,
        token_oc_wallet_address: String,
        token_oc_wallet_balance: u64,
        token_oc_wallet_transactions: Vec<TokenOCTransaction>,
    ) -> (r: TokenOCData)
        ensures
            r@ == (TokenDataView {
                master_address: token_oc_master_address@,
                wallet_address: token_oc_wallet_address@,
                balance: token_oc_wallet_balance,
                transactions: transaction_views(token_oc_wallet_transactions@),
            }),
    {
        TokenOCData {
            token_oc_master_address,
            token_oc_wallet_address,
            token_oc_wallet_balance,
            token_oc_wallet_transactions,
        }
    }

    /// A copy of the whole token data.
    pub fn duplicate(&self) -> (r: TokenOCData)
        ensures
            r@ == self@,
    {
        TokenOCData {
            token_oc_master_address: self.token_oc_master_address.clone(),
            token_oc_wallet_address: self.token_oc_wallet_address.clone(),
            token_oc_wallet_balance: self.token_oc_wallet_balance,
            token_oc_wallet_transactions: copy_transactions(&self.token_oc_wallet_transactions),
        }
    }

    /// The master address.
    pub fn get_token_oc_master_address(&self) -> (r: String)
        ensures
            r@ == self@.master_address,
    {
        self.token_oc_master_address.clone()
    }

    /// The wallet address.
    pub fn get_token_oc_wallet_address(&self) -> (r: String)
        ensures
            r@ == self@.wallet_address,
    {
        self.token_oc_wallet_address.clone()
    }

    /// The wallet balance.
    pub fn get_token_oc_wallet_balance(&self) -> (r: u64)
        ensures
            r == self@.balance,
    {
        self.token_oc_wallet_balance
    }

    /// A copy of the transactions.
    pub fn get_token_oc_wallet_transactions(&self) -> (r: Vec<TokenOCTransaction>)
        ensures
            transaction_views(r@) == self@.transactions,
    {
        copy_transactions(&self.token_oc_wallet_transactions)
    }

    /// Replaces the balance.
    pub fn set_token_oc_wallet_balance(&mut self, token_oc_wallet_balance: u64)
        ensures
            final(self)@ == (TokenDataView { balance: token_oc_wallet_balance, ..old(self)@ }),
    {
        self.token_oc_wallet_balance = token_oc_wallet_balance;
    }

    /// Replaces the transactions.
    pub fn set_token_oc_wallet_transactions(&mut self, token_oc_wallet_transactions: Vec<TokenOCTransaction>)
        ensures
            final(self)@ == (TokenDataView {
                transactions: transaction_views(token_oc_wallet_transactions@),
                ..old(self)@
            }),
    {
        self.token_oc_wallet_transactions = token_oc_wallet_transactions;
    }

    /// Appends a transaction.
    pub fn add_token_oc_wallet_transaction(&mut self, token_oc_wallet_transaction: TokenOCTransaction)
        ensures
            final(self)@ == (TokenDataView {
                transactions: old(self)@.transactions.push(token_oc_wallet_transaction@),
                ..old(self)@
            }),
    {
        self.token_oc_wallet_transactions.push(token_oc_wallet_transaction);
        assert(self@.transactions =~= old(self)@.transactions.push(token_oc_wallet_transaction@));
    }

    /// Removes every transaction equal to the given one, keeping the order of
    /// the others.
    pub fn remove_token_oc_wallet_transaction(&mut self, token_oc_wallet_transaction: TokenOCTransaction)
        ensures
            final(self)@ == (TokenDataView {
                transactions: old(self)@.transactions.filter(
                    differs_from(token_oc_wallet_transaction@),
                ),
                ..old(self)@
            }),
    {
        let ghost pred = differs_from(token_oc_wallet_transaction@);
        let ghost s = old(self)@.transactions;
        let mut kept: Vec<TokenOCTransaction> = Vec::new();
        let mut i: usize = 0;
        while i < self.token_oc_wallet_transactions.len()
            invariant
                i <= self.token_oc_wallet_transactions@.len(),
                *self == *old(self),
                s == self@.transactions,
                pred == differs_from(token_oc_wallet_transaction@),
                transaction_views(kept@) == s.take(i as int).filter(pred),
            decreases self.token_oc_wallet_transactions@.len() - i,
        {
            let t = &self.token_oc_wallet_transactions[i];
            let ghost before = kept@;
            proof {
                let u = s.take(i + 1);
                assert(u.drop_last() =~= s.take(i as int));
                assert(u.last() == t@);
                reveal(Seq::filter);
            }
            if !same_transaction(t, &token_oc_wallet_transaction) {
                kept.push(copy_transaction(t));
                assert(transaction_views(kept@) =~= transaction_views(before).push(t@));
            }
            i = i + 1;
        }
        assert(s.take(s.len() as int) =~= s);
        self.token_oc_wallet_transactions = kept;
    }

    /// The first transaction with the given identifier, if any.
    pub fn get_token_oc_wallet_transaction(&self, transaction_id: String) -> (r: Option<TokenOCTransaction>)
        ensures
            match find_first(self@.transactions, has_id(transaction_id@)) {
                Some(t) => r matches Some(x) && x@ == t,
                None => r is None,
            },
    {
        let ghost s = self@.transactions;
        let ghost pred = has_id(transaction_id@);
        proof {
            lemma_first_match(s, pred, 0);
        }
        let mut i: usize = 0;
        while i < self.token_oc_wallet_transactions.len()
            invariant
                i <= self.token_oc_wallet_transactions@.len(),
                s == self@.transactions,
                pred == has_id(transaction_id@),
                first_match(s, pred, 0) == first_match(s, pred, i as int),
            decreases self.token_oc_wallet_transactions@.len() - i,
        {
            let t = &self.token_oc_wallet_transactions[i];
            assert(s[i as int] == t@);
            if t.transaction_id == transaction_id {
                return Some(copy_transaction(t));
            }
            i = i + 1;
        }
        None
    }

    /// A copy of the transaction at `index`, if there is one.
    pub fn get_token_oc_wallet_transaction_by_index(&self, index: usize) -> (r: Option<TokenOCTransaction>)
        ensures
            index < self@.transactions.len() ==> (r matches Some(x) && x@ == self@.transactions[index as int]),
            index >= self@.transactions.len() ==> r is None,
    {
        if index < self.token_oc_wallet_transactions.len() {
            Some(copy_transaction(&self.token_oc_wallet_transactions[index]))
        } else {
            None
        }
    }

    /// The first transaction that names the given wallet address, if any.
    pub fn get_token_oc_wallet_transaction_by_wallet_address(&self, token_oc_wallet_address: String) -> (r: Option<TokenOCTransaction>)
        ensures
            match find_first(self@.transactions, has_wallet_address(token_oc_wallet_address@)) {
                Some(t) => r matches Some(x) && x@ == t,
                None => r is None,
            },
    {
        let ghost s = self@.transactions;
        let ghost pred = has_wallet_address(token_oc_wallet_address@);
        let mut i: usize = 0;
        while i < self.token_oc_wallet_transactions.len()
            invariant
                i <= self.token_oc_wallet_transactions@.len(),
                s == self@.transactions,
                pred == has_wallet_address(token_oc_wallet_address@),
                first_match(s, pred, 0) == first_match(s, pred, i as int),
            decreases self.token_oc_wallet_transactions@.len() - i,
        {
            let t = &self.token_oc_wallet_transactions[i];
            assert(s[i as int] == t@);
            if t.token_oc_wallet_address == token_oc_wallet_address {
                return Some(copy_transaction(t));
            }
            i = i + 1;
        }
        None
    }

    /// The first transaction that records the given balance, if any.
    pub fn get_token_oc_wallet_transaction_by_balance(&self, token_oc_wallet_balance: u64) -> (r: Option<TokenOCTransaction>)
        ensures
            match find_first(self@.transactions, has_balance(token_oc_wallet_balance)) {
                Some(t) => r matches Some(x) && x@ == t,
                None => r is None,
            },
    {
        let ghost s = self@.transactions;
        let ghost pred = has_balance(token_oc_wallet_balance);
        let mut i: usize = 0;
        while i < self.token_oc_wallet_transactions.len()
            invariant
                i <= self.token_oc_wallet_transactions@.len(),
                s == self@.transactions,
                pred == has_balance(token_oc_wallet_balance),
                first_match(s, pred, 0) == first_match(s, pred, i as int),
            decreases self.token_oc_wallet_transactions@.len() - i,
        {
            let t = &self.token_oc_wallet_transactions[i];
            assert(s[i as int] == t@);
            if t.token_oc_wallet_balance == token_oc_wallet_balance {
                return Some(copy_transaction(t));
            }
            i = i + 1;
        }
        None
    }
}

/// Holds the token data of one wallet.
pub struct TokenOCManager {
    token_oc_data: TokenOCData,
}

impl View for TokenOCManager {
    type V = TokenDataView;

    closed spec fn view(&self) -> TokenDataView {
        self.token_oc_data@
    }
}

impl TokenOCManager {
    /// A manager of the given token data.
    pub fn new(token_oc_data: TokenOCData) -> (r: TokenOCManager)
        ensures
            r@ == token_oc_data@,
    {
        TokenOCManager { token_oc_data }
    }

    /// A copy of the token data.
    pub fn get_token_oc_data(&self) -> (r: TokenOCData)
        ensures
            r@ == self@,
    {
        self.token_oc_data.duplicate()
    }

    /// Replaces the token data.
    pub fn set_token_oc_data(&mut self, token_oc_data: TokenOCData)
        ensures
            final(self)@ == token_oc_data@,
    {
        self.token_oc_data = token_oc_data;
    }

    /// The master address.
    pub fn get_token_oc_master_address(&self) -> (r: String)
        ensures
            r@ == self@.master_address,
    {
        self.token_oc_data.get_token_oc_master_address()
    }

    /// The wallet address.
    pub fn get_token_oc_wallet_address(&self) -> (r: String)
        ensures
            r@ == self@.wallet_address,
    {
        self.token_oc_data.get_token_oc_wallet_address()
    }

    /// The wallet balance.
    pub fn get_token_oc_wallet_balance(&self) -> (r: u64)
        ensures
            r == self@.balance,
    {
        self.token_oc_data.get_token_oc_wallet_balance()
    }

    /// A copy of the transactions.
    pub fn get_token_oc_wallet_transactions(&self) -> (r: Vec<TokenOCTransaction>)
        ensures
            transaction_views(r@) == self@.transactions,
    {
        self.token_oc_data.get_token_oc_wallet_transactions()
    }
}

} // verus!
