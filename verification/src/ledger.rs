//! The ledger of deposit accounts and the deposit/withdraw engine.
//!
//! Every operation follows one shape: validate (authorize, match the
//! asset, check the balance), hand the settlement gateway a plan, and
//! mutate the record only on the outcome the gateway reported. A call
//! either fully succeeds — record mutated, audit event returned — or
//! fully fails with the ledger exactly as it was.

use vstd::prelude::*;
use crate::identity::{Identity, native_sentinel};
use crate::asset::{Asset, AssetView};
use crate::account::{DepositAccount, AccountModel, account_wf, DepositEvent, WithdrawEvent};
use crate::errors::{SovereignError, GatewayError};
use crate::gateway::GatewayRequest;
use crate::authority::{vault_authority_of, derive_vault_authority};
use crate::authorization::authorize;

verus! {

/// One ledger entry: an account's identity and its persisted record.
#[derive(Clone, Copy, Debug)]
pub struct LedgerEntry {
    pub id: Identity,
    pub record: DepositAccount,
}

/// The ledger: every registered deposit account, keyed by its identity,
/// under one fixed ledger program identity.
pub struct Ledger {
    program_id: Identity,
    accounts: Vec<LedgerEntry>,
}

/// The map a sequence of entries represents.
pub open spec fn entries_map(s: Seq<LedgerEntry>) -> Map<Seq<u8>, AccountModel>
    decreases s.len(),
{
    if s.len() == 0 {
        Map::empty()
    } else {
        entries_map(s.drop_last()).insert(s.last().id@, s.last().record@)
    }
}

/// Entry identities are pairwise distinct.
pub open spec fn entries_unique(s: Seq<LedgerEntry>) -> bool {
    forall|j: int, k: int| 0 <= j < k < s.len() ==> s[j].id@ != s[k].id@
}

impl View for Ledger {
    type V = Map<Seq<u8>, AccountModel>;

    closed spec fn view(&self) -> Map<Seq<u8>, AccountModel> {
        entries_map(self.accounts@)
    }
}

proof fn lemma_entries_map_contains(s: Seq<LedgerEntry>, id: Seq<u8>)
    ensures
        entries_map(s).contains_key(id) <==> exists|j: int| 0 <= j < s.len() && s[j].id@ == id,
    decreases s.len(),
{
    if s.len() > 0 {
        lemma_entries_map_contains(s.drop_last(), id);
        if s.last().id@ == id {
            assert(s[s.len() - 1].id@ == id);
        } else if entries_map(s).contains_key(id) {
            let j = choose|j: int| 0 <= j < s.drop_last().len() && s.drop_last()[j].id@ == id;
            assert(s[j].id@ == id);
        } else if exists|j: int| 0 <= j < s.len() && s[j].id@ == id {
            let j = choose|j: int| 0 <= j < s.len() && s[j].id@ == id;
            assert(j < s.len() - 1);
            assert(s.drop_last()[j].id@ == id);
        }
    }
}

proof fn lemma_entries_map_get(s: Seq<LedgerEntry>, j: int)
    requires
        0 <= j < s.len(),
        entries_unique(s),
    ensures
        entries_map(s).contains_key(s[j].id@),
        entries_map(s)[s[j].id@] == s[j].record@,
    decreases s.len(),
{
    if j == s.len() - 1 {
        assert(s.last() == s[j]);
    } else {
        assert(entries_unique(s.drop_last())) by {
            assert(forall|a: int, b: int|
                0 <= a < b < s.drop_last().len() ==> s.drop_last()[a] == s[a] && s.drop_last()[b] == s[b]);
        }
        assert(s.drop_last()[j] == s[j]);
        lemma_entries_map_get(s.drop_last(), j);
        assert(s.last().id@ != s[j].id@);
    }
}

proof fn lemma_entries_map_update(s: Seq<LedgerEntry>, j: int, e: LedgerEntry)
    requires
        0 <= j < s.len(),
        entries_unique(s),
        e.id@ == s[j].id@,
    ensures
        entries_map(s.update(j, e)) == entries_map(s).insert(e.id@, e.record@),
    decreases s.len(),
{
    let su = s.update(j, e);
    if j == s.len() - 1 {
        assert(su.last() == e);
        assert(su.drop_last() =~= s.drop_last());
        assert(entries_map(su) =~= entries_map(s).insert(e.id@, e.record@));
    } else {
        assert(entries_unique(s.drop_last())) by {
            assert(forall|a: int, b: int|
                0 <= a < b < s.drop_last().len() ==> s.drop_last()[a] == s[a] && s.drop_last()[b] == s[b]);
        }
        assert(s.drop_last()[j] == s[j]);
        lemma_entries_map_update(s.drop_last(), j, e);
        assert(su.last() == s.last());
        assert(su.drop_last() =~= s.drop_last().update(j, e));
        assert(s.last().id@ != e.id@);
        assert(entries_map(su) =~= entries_map(s).insert(e.id@, e.record@));
    }
}

proof fn lemma_entries_map_push(s: Seq<LedgerEntry>, e: LedgerEntry)
    ensures
        entries_map(s.push(e)) == entries_map(s).insert(e.id@, e.record@),
{
    assert(s.push(e).drop_last() =~= s);
    assert(s.push(e).last() == e);
}

/// Two distinct accounts are fully independent: an operation that
/// rewrites the ledger at one identity leaves the record under every
/// other identity — same owner or not — exactly as it was.
pub proof fn lemma_account_independence(
    pre: Map<Seq<u8>, AccountModel>,
    post: Map<Seq<u8>, AccountModel>,
    id: Seq<u8>,
    a: AccountModel,
    other: Seq<u8>,
)
    requires
        post == pre.insert(id, a),
        other != id,
    ensures
        post.contains_key(other) == pre.contains_key(other),
        pre.contains_key(other) ==> post[other] == pre[other],
{
}

impl Ledger {
    /// Every identity is bound to at most one record, and every record
    /// is well-formed.
    pub closed spec fn wf(&self) -> bool {
        &&& entries_unique(self.accounts@)
        &&& forall|j: int|
            0 <= j < self.accounts@.len() ==> account_wf(#[trigger] self.accounts@[j].record@)
    }

    /// The ledger program's own fixed identity, set once at creation.
    pub closed spec fn spec_program_id(&self) -> Seq<u8> {
        self.program_id@
    }

    /// An empty ledger under the given program identity.
    pub fn new(program_id: Identity) -> (r: Ledger)
        ensures
            r.wf(),
            r@ == Map::<Seq<u8>, AccountModel>::empty(),
            r.spec_program_id() == program_id@,
    {
        Ledger { program_id, accounts: Vec::new() }
    }

    pub fn program_id(&self) -> (r: Identity)
        ensures
            r@ == self.spec_program_id(),
    {
        self.program_id
    }

    /// The index of the entry bound to `account_id`, if any.
    fn find_index(&self, account_id: &Identity) -> (r: Option<usize>)
        requires
            self.wf(),
        ensures
            match r {
                Some(i) => {
                    &&& i < self.accounts@.len()
                    &&& self.accounts@[i as int].id@ == account_id@
                    &&& self@.contains_key(account_id@)
                    &&& self@[account_id@] == self.accounts@[i as int].record@
                },
                None => !self@.contains_key(account_id@),
            },
    {
        let n = self.accounts.len();
        let mut i: usize = 0;
        while i < n
            invariant
                self.wf(),
                n == self.accounts@.len(),
                i <= n,
                forall|j: int| 0 <= j < i ==> self.accounts@[j].id@ != account_id@,
            decreases n - i,
        {
            if self.accounts[i].id.eq_id(account_id) {
                proof {
                    lemma_entries_map_get(self.accounts@, i as int);
                }
                return Some(i);
            }
            i += 1;
        }
        proof {
            lemma_entries_map_contains(self.accounts@, account_id@);
        }
        None
    }

    /// The record bound to `account_id`, if any.
    pub fn lookup(&self, account_id: &Identity) -> (r: Option<DepositAccount>)
        requires
            self.wf(),
        ensures
            match r {
                Some(a) => self@.contains_key(account_id@) && a@ == self@[account_id@],
                None => !self@.contains_key(account_id@),
            },
    {
        match self.find_index(account_id) {
            Some(i) => Some(self.accounts[i].record),
            None => None,
        }
    }

    /// The recorded balance of `account_id`, if the account exists.
    pub fn balance_of(&self, account_id: &Identity) -> (r: Option<u64>)
        requires
            self.wf(),
        ensures
            match r {
                Some(b) => self@.contains_key(account_id@) && b == self@[account_id@].balance,
                None => !self@.contains_key(account_id@),
            },
    {
        match self.lookup(account_id) {
            Some(a) => Some(a.balance),
            None => None,
        }
    }

    /// Registers a native-currency deposit account with balance 0 owned
    /// by `owner`. Fails if the identity is already bound to an account,
    /// and then changes nothing.
    pub fn initialize(&mut self, account_id: &Identity, owner: &Identity) -> (r: Result<
        (),
        SovereignError,
    >)
        requires
            old(self).wf(),
        ensures
            final(self).wf(),
            final(self).spec_program_id() == old(self).spec_program_id(),
            if old(self)@.contains_key(account_id@) {
                r == Err::<(), SovereignError>(SovereignError::AlreadyExists)
                    && final(self)@ == old(self)@
            } else {
                r == Ok::<(), SovereignError>(()) && final(self)@ == old(self)@.insert(
                    account_id@,
                    (AccountModel { owner: owner@, asset: AssetView::Native, balance: 0 }),
                )
            },
    {
        match self.find_index(account_id) {
            Some(_) => Err(SovereignError::AlreadyExists),
            None => {
                let entry = LedgerEntry {
                    id: *account_id,
                    record: DepositAccount { owner: *owner, asset: Asset::Native, balance: 0 },
                };
                proof {
                    lemma_entries_map_contains(self.accounts@, account_id@);
                    lemma_entries_map_push(self.accounts@, entry);
                }
                self.accounts.push(entry);
                Ok(())
            },
        }
    }

    /// Appends `entry`, whose identity must be fresh, and keeps the
    /// ledger well-formed.
    fn push_fresh(&mut self, entry: LedgerEntry)
        requires
            old(self).wf(),
            !old(self)@.contains_key(entry.id@),
            account_wf(entry.record@),
        ensures
            final(self).wf(),
            final(self).spec_program_id() == old(self).spec_program_id(),
            final(self)@ == old(self)@.insert(entry.id@, entry.record@),
    {
        proof {
            lemma_entries_map_contains(self.accounts@, entry.id@);
            lemma_entries_map_push(self.accounts@, entry);
        }
        self.accounts.push(entry);
    }

    /// Overwrites the balance of the entry at `i`, and keeps the ledger
    /// well-formed.
    fn set_balance(&mut self, i: usize, nb: u64)
        requires
            old(self).wf(),
            i < old(self).accounts@.len(),
        ensures
            final(self).wf(),
            final(self).spec_program_id() == old(self).spec_program_id(),
            ({
                let e = old(self).accounts@[i as int];
                final(self)@ == old(self)@.insert(
                    e.id@,
                    (AccountModel { owner: e.record.owner@, asset: e.record.asset@, balance: nb }),
                )
            }),
    {
        let ghost pre = self.accounts@;
        self.accounts[i].record.balance = nb;
        proof {
            let e2 = self.accounts@[i as int];
            assert(self.accounts@ == pre.update(i as int, e2));
            assert(e2.id@ == pre[i as int].id@);
            assert(account_wf(pre[i as int].record@));
            assert(e2.record.owner == pre[i as int].record.owner);
            assert(e2.record.asset == pre[i as int].record.asset);
            assert(account_wf(e2.record@));
            lemma_entries_map_update(pre, i as int, e2);
            assert(forall|x: int| 0 <= x < self.accounts@.len() ==> self.accounts@[x].id@ == pre[x].id@);
        }
    }

    /// Applies the outcome of an inbound native-currency transfer:
    /// authorizes the caller as the owner, demands a native-asset
    /// account, and — only if the gateway confirmed the move —
    /// increments the balance and reports the audit event. Every
    /// failure leaves the ledger unchanged.
    pub fn deposit(
        &mut self,
        account_id: &Identity,
        caller: &Identity,
        amount: u64,
        transfer: Result<(), GatewayError>,
    ) -> (r: Result<DepositEvent, SovereignError>)
        requires
            old(self).wf(),
            amount > 0,
            (old(self)@.contains_key(account_id@) && old(self)@[account_id@].owner == caller@
                && old(self)@[account_id@].asset is Native && transfer is Ok) ==> old(
                self,
            )@[account_id@].balance + amount <= u64::MAX,
        ensures
            final(self).wf(),
            final(self).spec_program_id() == old(self).spec_program_id(),
            ({
                let m = old(self)@;
                if !m.contains_key(account_id@) || m[account_id@].owner != caller@ {
                    r == Err::<DepositEvent, SovereignError>(SovereignError::Unauthorized)
                        && final(self)@ == m
                } else if !(m[account_id@].asset is Native) {
                    r == Err::<DepositEvent, SovereignError>(SovereignError::AssetMismatch)
                        && final(self)@ == m
                } else if transfer is Err {
                    r == Err::<DepositEvent, SovereignError>(SovereignError::TransferFailed)
                        && final(self)@ == m
                } else {
                    let a = m[account_id@];
                    let nb = (a.balance + amount) as u64;
                    r matches Ok(ev) && ev.owner@ == a.owner && ev.asset@ == a.asset && ev.amount
                        == amount && ev.new_balance == nb && final(self)@ == m.insert(
                        account_id@,
                        (AccountModel { owner: a.owner, asset: a.asset, balance: nb }),
                    )
                }
            }),
    {
        let i = match self.find_index(account_id) {
            Some(i) => i,
            None => { return Err(SovereignError::Unauthorized) },
        };
        let entry = self.accounts[i];
        if let Err(e) = authorize(caller, &entry.record) {
            return Err(e);
        }
        match entry.record.asset {
            Asset::Native => {},
            _ => { return Err(SovereignError::AssetMismatch) },
        }
        if transfer.is_err() {
            return Err(SovereignError::TransferFailed);
        }
        let nb = entry.record.balance + amount;
        self.set_balance(i, nb);
        Ok(DepositEvent {
            owner: entry.record.owner,
            asset: entry.record.asset,
            amount,
            new_balance: nb,
        })
    }

    /// Applies the outcome of an outbound native-currency transfer:
    /// authorizes the caller as the owner, demands a native-asset
    /// account and a balance covering `amount`, and — only if the
    /// gateway confirmed the move — decrements the balance and reports
    /// the audit event. Every failure leaves the ledger unchanged.
    pub fn withdraw(
        &mut self,
        account_id: &Identity,
        caller: &Identity,
        amount: u64,
        transfer: Result<(), GatewayError>,
    ) -> (r: Result<WithdrawEvent, SovereignError>)
        requires
            old(self).wf(),
            amount > 0,
        ensures
            final(self).wf(),
            final(self).spec_program_id() == old(self).spec_program_id(),
            ({
                let m = old(self)@;
                if !m.contains_key(account_id@) || m[account_id@].owner != caller@ {
                    r == Err::<WithdrawEvent, SovereignError>(SovereignError::Unauthorized)
                        && final(self)@ == m
                } else if !(m[account_id@].asset is Native) {
                    r == Err::<WithdrawEvent, SovereignError>(SovereignError::AssetMismatch)
                        && final(self)@ == m
                } else if amount > m[account_id@].balance {
                    r == Err::<WithdrawEvent, SovereignError>(SovereignError::InsufficientBalance)
                        && final(self)@ == m
                } else if transfer is Err {
                    r == Err::<WithdrawEvent, SovereignError>(SovereignError::TransferFailed)
                        && final(self)@ == m
                } else {
                    let a = m[account_id@];
                    let nb = (a.balance - amount) as u64;
                    r matches Ok(ev) && ev.owner@ == a.owner && ev.asset@ == a.asset && ev.amount
                        == amount && ev.new_balance == nb && final(self)@ == m.insert(
                        account_id@,
                        (AccountModel { owner: a.owner, asset: a.asset, balance: nb }),
                    )
                }
            }),
    {
        let i = match self.find_index(account_id) {
            Some(i) => i,
            None => { return Err(SovereignError::Unauthorized) },
        };
        let entry = self.accounts[i];
        if let Err(e) = authorize(caller, &entry.record) {
            return Err(e);
        }
        match entry.record.asset {
            Asset::Native => {},
            _ => { return Err(SovereignError::AssetMismatch) },
        }
        if amount > entry.record.balance {
            return Err(SovereignError::InsufficientBalance);
        }
        if transfer.is_err() {
            return Err(SovereignError::TransferFailed);
        }
        let nb = entry.record.balance - amount;
        self.set_balance(i, nb);
        Ok(WithdrawEvent {
            owner: entry.record.owner,
            asset: entry.record.asset,
            amount,
            new_balance: nb,
        })
    }

    /// Applies the outcome of provisioning a token account's custody
    /// vault: registers the account with balance 0 once the vault
    /// stands, rolls the whole creation back with `VaultProvisionError`
    /// when it does not. An invalid asset descriptor — the reserved
    /// native sentinel offered as a mint — is refused the same way.
    pub fn initialize_token(
        &mut self,
        account_id: &Identity,
        owner: &Identity,
        mint: &Identity,
        provision: Result<(), GatewayError>,
    ) -> (r: Result<(), SovereignError>)
        requires
            old(self).wf(),
        ensures
            final(self).wf(),
            final(self).spec_program_id() == old(self).spec_program_id(),
            ({
                let m = old(self)@;
                if m.contains_key(account_id@) {
                    r == Err::<(), SovereignError>(SovereignError::AlreadyExists) && final(self)@
                        == m
                } else if mint@ == native_sentinel() || provision is Err {
                    r == Err::<(), SovereignError>(SovereignError::VaultProvisionError)
                        && final(self)@ == m
                } else {
                    r == Ok::<(), SovereignError>(()) && final(self)@ == m.insert(
                        account_id@,
                        (AccountModel {
                            owner: owner@,
                            asset: AssetView::Token { mint: mint@ },
                            balance: 0,
                        }),
                    )
                }
            }),
    {
        match self.find_index(account_id) {
            Some(_) => { return Err(SovereignError::AlreadyExists) },
            None => {},
        }
        if mint.is_native_sentinel() {
            return Err(SovereignError::VaultProvisionError);
        }
        if provision.is_err() {
            return Err(SovereignError::VaultProvisionError);
        }
        let entry = LedgerEntry {
            id: *account_id,
            record: DepositAccount {
                owner: *owner,
                asset: Asset::Token { mint: *mint },
                balance: 0,
            },
        };
        self.push_fresh(entry);
        Ok(())
    }

    /// Applies the outcome of an inbound token transfer into the
    /// account's custody vault: authorizes the caller as the owner,
    /// demands that the account is denominated in exactly `mint`, and —
    /// only if the gateway confirmed the move — increments the balance
    /// and reports the audit event. Every failure leaves the ledger
    /// unchanged.
    pub fn deposit_token(
        &mut self,
        account_id: &Identity,
        caller: &Identity,
        mint: &Identity,
        amount: u64,
        transfer: Result<(), GatewayError>,
    ) -> (r: Result<DepositEvent, SovereignError>)
        requires
            old(self).wf(),
            amount > 0,
            (old(self)@.contains_key(account_id@) && old(self)@[account_id@].owner == caller@
                && old(self)@[account_id@].asset == (AssetView::Token { mint: mint@ }) && transfer
                is Ok) ==> old(self)@[account_id@].balance + amount <= u64::MAX,
        ensures
            final(self).wf(),
            final(self).spec_program_id() == old(self).spec_program_id(),
            ({
                let m = old(self)@;
                if !m.contains_key(account_id@) || m[account_id@].owner != caller@ {
                    r == Err::<DepositEvent, SovereignError>(SovereignError::Unauthorized)
                        && final(self)@ == m
                } else if m[account_id@].asset != (AssetView::Token { mint: mint@ }) {
                    r == Err::<DepositEvent, SovereignError>(SovereignError::AssetMismatch)
                        && final(self)@ == m
                } else if transfer is Err {
                    r == Err::<DepositEvent, SovereignError>(SovereignError::TransferFailed)
                        && final(self)@ == m
                } else {
                    let a = m[account_id@];
                    let nb = (a.balance + amount) as u64;
                    r matches Ok(ev) && ev.owner@ == a.owner && ev.asset@ == a.asset && ev.amount
                        == amount && ev.new_balance == nb && final(self)@ == m.insert(
                        account_id@,
                        (AccountModel { owner: a.owner, asset: a.asset, balance: nb }),
                    )
                }
            }),
    {
        let i = match self.find_index(account_id) {
            Some(i) => i,
            None => { return Err(SovereignError::Unauthorized) },
        };
        let entry = self.accounts[i];
        if let Err(e) = authorize(caller, &entry.record) {
            return Err(e);
        }
        match &entry.record.asset {
            Asset::Token { mint: recorded } => {
                if !recorded.eq_id(mint) {
                    return Err(SovereignError::AssetMismatch);
                }
            },
            _ => { return Err(SovereignError::AssetMismatch) },
        }
        if transfer.is_err() {
            return Err(SovereignError::TransferFailed);
        }
        let nb = entry.record.balance + amount;
        self.set_balance(i, nb);
        Ok(DepositEvent {
            owner: entry.record.owner,
            asset: entry.record.asset,
            amount,
            new_balance: nb,
        })
    }

    /// Applies the outcome of an outbound token transfer from the
    /// account's custody vault: authorizes the caller as the owner,
    /// demands the exact `mint` and a balance covering `amount`, and —
    /// only if the gateway confirmed the move — decrements the balance
    /// and reports the audit event. Every failure leaves the ledger
    /// unchanged.
    pub fn withdraw_token(
        &mut self,
        account_id: &Identity,
        caller: &Identity,
        mint: &Identity,
        amount: u64,
        transfer: Result<(), GatewayError>,
    ) -> (r: Result<WithdrawEvent, SovereignError>)
        requires
            old(self).wf(),
            amount > 0,
        ensures
            final(self).wf(),
            final(self).spec_program_id() == old(self).spec_program_id(),
            ({
                let m = old(self)@;
                if !m.contains_key(account_id@) || m[account_id@].owner != caller@ {
                    r == Err::<WithdrawEvent, SovereignError>(SovereignError::Unauthorized)
                        && final(self)@ == m
                } else if m[account_id@].asset != (AssetView::Token { mint: mint@ }) {
                    r == Err::<WithdrawEvent, SovereignError>(SovereignError::AssetMismatch)
                        && final(self)@ == m
                } else if amount > m[account_id@].balance {
                    r == Err::<WithdrawEvent, SovereignError>(SovereignError::InsufficientBalance)
                        && final(self)@ == m
                } else if transfer is Err {
                    r == Err::<WithdrawEvent, SovereignError>(SovereignError::TransferFailed)
                        && final(self)@ == m
                } else {
                    let a = m[account_id@];
                    let nb = (a.balance - amount) as u64;
                    r matches Ok(ev) && ev.owner@ == a.owner && ev.asset@ == a.asset && ev.amount
                        == amount && ev.new_balance == nb && final(self)@ == m.insert(
                        account_id@,
                        (AccountModel { owner: a.owner, asset: a.asset, balance: nb }),
                    )
                }
            }),
    {
        let i = match self.find_index(account_id) {
            Some(i) => i,
            None => { return Err(SovereignError::Unauthorized) },
        };
        let entry = self.accounts[i];
        if let Err(e) = authorize(caller, &entry.record) {
            return Err(e);
        }
        match &entry.record.asset {
            Asset::Token { mint: recorded } => {
                if !recorded.eq_id(mint) {
                    return Err(SovereignError::AssetMismatch);
                }
            },
            _ => { return Err(SovereignError::AssetMismatch) },
        }
        if amount > entry.record.balance {
            return Err(SovereignError::InsufficientBalance);
        }
        if transfer.is_err() {
            return Err(SovereignError::TransferFailed);
        }
        let nb = entry.record.balance - amount;
        self.set_balance(i, nb);
        Ok(WithdrawEvent {
            owner: entry.record.owner,
            asset: entry.record.asset,
            amount,
            new_balance: nb,
        })
    }

    /// Validates a token-account creation and plans the provisioning of
    /// its custody vault, controlled by the account's freshly derived
    /// signing identity. Nothing is planned — so no vault is touched —
    /// when the identity is taken or the descriptor invalid.
    pub fn plan_initialize_token(
        &self,
        account_id: &Identity,
        mint: &Identity,
    ) -> (r: Result<GatewayRequest, SovereignError>)
        requires
            self.wf(),
        ensures
            ({
                let m = self@;
                if m.contains_key(account_id@) {
                    r == Err::<GatewayRequest, SovereignError>(SovereignError::AlreadyExists)
                } else if mint@ == native_sentinel() || vault_authority_of(
                    self.spec_program_id(),
                    account_id@,
                ) is None {
                    r == Err::<GatewayRequest, SovereignError>(SovereignError::VaultProvisionError)
                } else {
                    r matches Ok(p) && p matches GatewayRequest::ProvisionVault {
                        mint: pm,
                        vault_of,
                        authority,
                        bump,
                    } && pm@ == mint@ && vault_of@ == account_id@ && vault_authority_of(
                        self.spec_program_id(),
                        account_id@,
                    ) == Some((authority@, bump))
                }
            }),
    {
        match self.find_index(account_id) {
            Some(_) => { return Err(SovereignError::AlreadyExists) },
            None => {},
        }
        if mint.is_native_sentinel() {
            return Err(SovereignError::VaultProvisionError);
        }
        match derive_vault_authority(&self.program_id, account_id) {
            None => Err(SovereignError::VaultProvisionError),
            Some((authority, bump)) => Ok(GatewayRequest::ProvisionVault {
                mint: *mint,
                vault_of: *account_id,
                authority,
                bump,
            }),
        }
    }

    /// Validates an inbound native-currency move and plans the transfer
    /// from the caller to the account's custody, authorized by the
    /// caller's own signature. Nothing is planned — so no transfer is
    /// attempted — when validation fails.
    pub fn plan_deposit(
        &self,
        account_id: &Identity,
        caller: &Identity,
        amount: u64,
    ) -> (r: Result<GatewayRequest, SovereignError>)
        requires
            self.wf(),
            amount > 0,
        ensures
            ({
                let m = self@;
                if !m.contains_key(account_id@) || m[account_id@].owner != caller@ {
                    r == Err::<GatewayRequest, SovereignError>(SovereignError::Unauthorized)
                } else if !(m[account_id@].asset is Native) {
                    r == Err::<GatewayRequest, SovereignError>(SovereignError::AssetMismatch)
                } else {
                    r matches Ok(p) && p matches GatewayRequest::NativeTransfer {
                        from,
                        to,
                        amount: pa,
                    } && from@ == caller@ && to@ == account_id@ && pa == amount
                }
            }),
    {
        let i = match self.find_index(account_id) {
            Some(i) => i,
            None => { return Err(SovereignError::Unauthorized) },
        };
        let entry = self.accounts[i];
        if let Err(e) = authorize(caller, &entry.record) {
            return Err(e);
        }
        match entry.record.asset {
            Asset::Native => {},
            _ => { return Err(SovereignError::AssetMismatch) },
        }
        Ok(GatewayRequest::NativeTransfer { from: *caller, to: *account_id, amount })
    }

    /// Validates an outbound native-currency move and plans the
    /// transfer from the account's custody to the recipient. The move
    /// is self-authorized: the ledger program owns the custody, so no
    /// private credential signs it. The balance is checked here, before
    /// any transfer is attempted — an overdraft never reaches the
    /// gateway. Nothing is planned when validation fails.
    pub fn plan_withdraw(
        &self,
        account_id: &Identity,
        caller: &Identity,
        recipient: &Identity,
        amount: u64,
    ) -> (r: Result<GatewayRequest, SovereignError>)
        requires
            self.wf(),
            amount > 0,
        ensures
            ({
                let m = self@;
                if !m.contains_key(account_id@) || m[account_id@].owner != caller@ {
                    r == Err::<GatewayRequest, SovereignError>(SovereignError::Unauthorized)
                } else if !(m[account_id@].asset is Native) {
                    r == Err::<GatewayRequest, SovereignError>(SovereignError::AssetMismatch)
                } else if amount > m[account_id@].balance {
                    r == Err::<GatewayRequest, SovereignError>(SovereignError::InsufficientBalance)
                } else {
                    r matches Ok(p) && p matches GatewayRequest::NativeTransfer {
                        from,
                        to,
                        amount: pa,
                    } && from@ == account_id@ && to@ == recipient@ && pa == amount
                }
            }),
    {
        let i = match self.find_index(account_id) {
            Some(i) => i,
            None => { return Err(SovereignError::Unauthorized) },
        };
        let entry = self.accounts[i];
        if let Err(e) = authorize(caller, &entry.record) {
            return Err(e);
        }
        match entry.record.asset {
            Asset::Native => {},
            _ => { return Err(SovereignError::AssetMismatch) },
        }
        if amount > entry.record.balance {
            return Err(SovereignError::InsufficientBalance);
        }
        Ok(GatewayRequest::NativeTransfer { from: *account_id, to: *recipient, amount })
    }

    /// Validates an inbound token move and plans the transfer from the
    /// caller's holding into the account's custody vault, authorized by
    /// the caller's own signature. Nothing is planned when validation
    /// fails.
    pub fn plan_deposit_token(
        &self,
        account_id: &Identity,
        caller: &Identity,
        mint: &Identity,
        amount: u64,
    ) -> (r: Result<GatewayRequest, SovereignError>)
        requires
            self.wf(),
            amount > 0,
        ensures
            ({
                let m = self@;
                if !m.contains_key(account_id@) || m[account_id@].owner != caller@ {
                    r == Err::<GatewayRequest, SovereignError>(SovereignError::Unauthorized)
                } else if m[account_id@].asset != (AssetView::Token { mint: mint@ }) {
                    r == Err::<GatewayRequest, SovereignError>(SovereignError::AssetMismatch)
                } else {
                    r matches Ok(p) && p matches GatewayRequest::TokenTransferBySigner {
                        mint: pm,
                        signer,
                        vault_of,
                        amount: pa,
                    } && pm@ == mint@ && signer@ == caller@ && vault_of@ == account_id@ && pa
                        == amount
                }
            }),
    {
        let i = match self.find_index(account_id) {
            Some(i) => i,
            None => { return Err(SovereignError::Unauthorized) },
        };
        let entry = self.accounts[i];
        if let Err(e) = authorize(caller, &entry.record) {
            return Err(e);
        }
        match &entry.record.asset {
            Asset::Token { mint: recorded } => {
                if !recorded.eq_id(mint) {
                    return Err(SovereignError::AssetMismatch);
                }
            },
            _ => { return Err(SovereignError::AssetMismatch) },
        }
        Ok(GatewayRequest::TokenTransferBySigner {
            mint: *mint,
            signer: *caller,
            vault_of: *account_id,
            amount,
        })
    }

    /// Validates an outbound token move and plans the transfer from the
    /// account's custody vault to the recipient's holding, authorized
    /// by the vault's signing identity — derived anew on every call,
    /// never by the caller's or owner's credential. The balance is
    /// checked here, before any transfer is attempted. A derivation
    /// that fails to validate is refused as `Unauthorized`. Nothing is
    /// planned when validation fails.
    pub fn plan_withdraw_token(
        &self,
        account_id: &Identity,
        caller: &Identity,
        recipient: &Identity,
        mint: &Identity,
        amount: u64,
    ) -> (r: Result<GatewayRequest, SovereignError>)
        requires
            self.wf(),
            amount > 0,
        ensures
            ({
                let m = self@;
                if !m.contains_key(account_id@) || m[account_id@].owner != caller@ {
                    r == Err::<GatewayRequest, SovereignError>(SovereignError::Unauthorized)
                } else if m[account_id@].asset != (AssetView::Token { mint: mint@ }) {
                    r == Err::<GatewayRequest, SovereignError>(SovereignError::AssetMismatch)
                } else if amount > m[account_id@].balance {
                    r == Err::<GatewayRequest, SovereignError>(SovereignError::InsufficientBalance)
                } else if vault_authority_of(self.spec_program_id(), account_id@) is None {
                    r == Err::<GatewayRequest, SovereignError>(SovereignError::Unauthorized)
                } else {
                    r matches Ok(p) && p matches GatewayRequest::TokenTransferByVaultAuthority {
                        mint: pm,
                        vault_of,
                        recipient: pr,
                        amount: pa,
                        authority,
                        bump,
                    } && pm@ == mint@ && vault_of@ == account_id@ && pr@ == recipient@ && pa
                        == amount && vault_authority_of(self.spec_program_id(), account_id@)
                        == Some((authority@, bump))
                }
            }),
    {
        let i = match self.find_index(account_id) {
            Some(i) => i,
            None => { return Err(SovereignError::Unauthorized) },
        };
        let entry = self.accounts[i];
        if let Err(e) = authorize(caller, &entry.record) {
            return Err(e);
        }
        match &entry.record.asset {
            Asset::Token { mint: recorded } => {
                if !recorded.eq_id(mint) {
                    return Err(SovereignError::AssetMismatch);
                }
            },
            _ => { return Err(SovereignError::AssetMismatch) },
        }
        if amount > entry.record.balance {
            return Err(SovereignError::InsufficientBalance);
        }
        match derive_vault_authority(&self.program_id, account_id) {
            None => Err(SovereignError::Unauthorized),
            Some((authority, bump)) => Ok(GatewayRequest::TokenTransferByVaultAuthority {
                mint: *mint,
                vault_of: *account_id,
                recipient: *recipient,
                amount,
                authority,
                bump,
            }),
        }
    }

    /// Recomputes the signing identity bound to one of this ledger's
    /// deposit accounts.
    pub fn vault_authority(&self, account_id: &Identity) -> (r: Option<(Identity, u8)>)
        ensures
            match r {
                Some(p) => vault_authority_of(self.spec_program_id(), account_id@) == Some(
                    (p.0@, p.1),
                ),
                None => vault_authority_of(self.spec_program_id(), account_id@) is None,
            },
    {
        derive_vault_authority(&self.program_id, account_id)
    }
}

} // verus!
