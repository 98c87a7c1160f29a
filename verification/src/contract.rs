//! The contract state and its operations.
//!
//! Every mutating operation runs its gates in a fixed order —
//! authorization, pause state, compliance, whitelist — short-circuiting on
//! the first failure, and only then touches the ledger. Each operation's
//! result equals a spec-level decision function of the pre-state and the
//! arguments, a successful call relates pre- and post-state through an
//! `..._applied` relation, and a failed call leaves the state untouched.
//!
//! The caller-authentication and clock collaborators stay outside: an
//! operation receives the authenticated principal (`caller`, or `from` for
//! a transfer) and the ledger clock reading (`now`) as plain values.

use crate::compliance::admission_error;
use crate::compliance::ComplianceData;
use crate::compliance::ComplianceMode;
use crate::compliance::ComplianceRegistry;
use crate::errors::Error;
use crate::ledger::lemma_balance_le_sum;
use crate::ledger::lemma_sum_nonneg;
use crate::ledger::sum_balances;
use crate::ledger::Ledger;
use crate::whitelist::Whitelist;
use vstd::prelude::*;

verus! {

/// Descriptive data for the underlying asset.
pub struct AssetMetadata {
    pub name: String,
    pub symbol: String,
    pub description: String,
    pub asset_type: String,
    pub legal_doc_hash: String,
    pub valuation: i128,
    pub last_valuation_date: u64,
}

impl Clone for AssetMetadata {
    fn clone(&self) -> (r: Self)
        ensures
            r == *self,
    {
        AssetMetadata {
            name: self.name.clone(),
            symbol: self.symbol.clone(),
            description: self.description.clone(),
            asset_type: self.asset_type.clone(),
            legal_doc_hash: self.legal_doc_hash.clone(),
            valuation: self.valuation,
            last_valuation_date: self.last_valuation_date,
        }
    }
}

/// The whole contract state: admin identity, asset metadata, ledger,
/// compliance registry, whitelist and pause flag.
pub struct RealWorldAssetContract {
    pub admin: Option<u64>,
    pub metadata: Option<AssetMetadata>,
    pub ledger: Ledger,
    pub compliance: ComplianceRegistry,
    pub whitelist: Whitelist,
    pub paused: bool,
}

/// The parts a balance operation leaves alone: everything but the
/// ledger.
pub open spec fn policy_unchanged(
    pre: RealWorldAssetContract,
    post: RealWorldAssetContract,
) -> bool {
    &&& post.admin == pre.admin
    &&& post.metadata == pre.metadata
    &&& post.compliance == pre.compliance
    &&& post.whitelist == pre.whitelist
    &&& post.paused == pre.paused
}

/// How a successful `initialize` relates post-state to pre-state.
pub open spec fn initialize_applied(
    pre: RealWorldAssetContract,
    post: RealWorldAssetContract,
    admin: u64,
    m: AssetMetadata,
    initial_supply: i128,
) -> bool {
    &&& post.admin == Some(admin)
    &&& post.metadata == Some(m)
    &&& !post.paused
    &&& post.supply() == initial_supply
    &&& post.bal(admin) == initial_supply
    &&& forall|b: u64| b != admin ==> post.bal(b) == 0
    &&& post.compliance == pre.compliance
    &&& post.whitelist == pre.whitelist
}

/// How a successful mint relates post-state to pre-state: the recipient
/// gains `amount`, every other balance is unchanged, the supply rises by
/// `amount`, and nothing else moves.
pub open spec fn mint_applied(
    pre: RealWorldAssetContract,
    post: RealWorldAssetContract,
    to: u64,
    amount: i128,
) -> bool {
    &&& post.bal(to) == pre.bal(to) + amount
    &&& forall|b: u64| b != to ==> post.bal(b) == pre.bal(b)
    &&& post.supply() == pre.supply() + amount
    &&& policy_unchanged(pre, post)
}

/// How a successful burn relates post-state to pre-state: the debited
/// holder loses `amount`, every other balance is unchanged, the supply
/// falls by `amount`, and nothing else moves.
pub open spec fn burn_applied(
    pre: RealWorldAssetContract,
    post: RealWorldAssetContract,
    from: u64,
    amount: i128,
) -> bool {
    &&& post.bal(from) == pre.bal(from) - amount
    &&& forall|b: u64| b != from ==> post.bal(b) == pre.bal(b)
    &&& post.supply() == pre.supply() - amount
    &&& policy_unchanged(pre, post)
}

/// How a successful transfer relates post-state to pre-state: `amount`
/// moves from `from` to `to`, every other balance and the supply are
/// unchanged, and nothing else moves. A transfer to oneself changes no
/// balance at all.
pub open spec fn transfer_applied(
    pre: RealWorldAssetContract,
    post: RealWorldAssetContract,
    from: u64,
    to: u64,
    amount: i128,
) -> bool {
    &&& from != to ==> post.bal(from) == pre.bal(from) - amount
    &&& from != to ==> post.bal(to) == pre.bal(to) + amount
    &&& from == to ==> post.bal(from) == pre.bal(from)
    &&& forall|b: u64| b != from && b != to ==> post.bal(b) == pre.bal(b)
    &&& post.supply() == pre.supply()
    &&& policy_unchanged(pre, post)
}

impl RealWorldAssetContract {
    /// Well-formedness: the ledger invariants hold, each registry keeps
    /// one entry per key, and admin and metadata are set together.
    pub open spec fn wf(self) -> bool {
        &&& self.ledger.wf()
        &&& self.compliance.wf()
        &&& self.whitelist.wf()
        &&& (self.admin is Some <==> self.metadata is Some)
    }

    /// The contract has been initialized.
    pub open spec fn initialized(self) -> bool {
        self.admin is Some
    }

    /// The balance of `a`; zero for an address that holds nothing.
    pub open spec fn bal(self, a: u64) -> int {
        self.ledger.bal(a)
    }

    /// The total supply.
    pub open spec fn supply(self) -> int {
        self.ledger.supply()
    }

    /// Why `caller` may not act as admin: `NotFound` before
    /// initialization, `Unauthorized` for anyone but the stored admin.
    pub open spec fn admin_gate(self, caller: u64) -> Option<Error> {
        match self.admin {
            None => Some(Error::NotFound),
            Some(ad) => if caller != ad {
                Some(Error::Unauthorized)
            } else {
                None
            },
        }
    }

    /// The outcome `initialize` owes for `initial_supply`.
    pub open spec fn initialize_decision(self, initial_supply: i128) -> Result<(), Error> {
        if self.admin is Some {
            Err(Error::AlreadyInitialized)
        } else if initial_supply < 0 {
            Err(Error::InvalidAmount)
        } else {
            Ok(())
        }
    }

    /// The outcome a mint owes: admin gate, then pause, then the
    /// compliance check under `mode`, then the amount must be positive.
    pub open spec fn mint_decision(
        self,
        caller: u64,
        to: u64,
        amount: i128,
        mode: ComplianceMode,
        now: u64,
    ) -> Result<(), Error> {
        match self.admin_gate(caller) {
            Some(e) => Err(e),
            None => if self.paused {
                Err(Error::Paused)
            } else {
                match admission_error(self.compliance.record_of(to), now, mode) {
                    Some(e) => Err(e),
                    None => if amount <= 0 {
                        Err(Error::InvalidAmount)
                    } else {
                        Ok(())
                    },
                }
            },
        }
    }

    /// The outcome a burn owes: admin gate, then pause, then the amount
    /// must be positive and covered by the holder's balance.
    pub open spec fn burn_decision(self, caller: u64, from: u64, amount: i128) -> Result<
        (),
        Error,
    > {
        match self.admin_gate(caller) {
            Some(e) => Err(e),
            None => if self.paused {
                Err(Error::Paused)
            } else if amount <= 0 {
                Err(Error::InvalidAmount)
            } else if self.bal(from) < amount {
                Err(Error::InsufficientBalance)
            } else {
                Ok(())
            },
        }
    }

    /// The outcome a transfer owes: pause, then the recipient's strict
    /// compliance check, then the whitelist, then the amount must be
    /// positive and covered by the sender's balance.
    pub open spec fn transfer_decision(
        self,
        from: u64,
        to: u64,
        amount: i128,
        now: u64,
    ) -> Result<(), Error> {
        if self.paused {
            Err(Error::Paused)
        } else {
            match admission_error(self.compliance.record_of(to), now, ComplianceMode::Strict) {
                Some(e) => Err(e),
                None => if !self.whitelist.has(to) {
                    Err(Error::NotWhitelisted)
                } else if amount <= 0 {
                    Err(Error::InvalidAmount)
                } else if self.bal(from) < amount {
                    Err(Error::InsufficientBalance)
                } else {
                    Ok(())
                },
            }
        }
    }

    /// The outcome an admin-only bookkeeping operation owes. The pause
    /// flag gates only balance-affecting operations, so it plays no part.
    pub open spec fn admin_op_decision(self, caller: u64) -> Result<(), Error> {
        match self.admin_gate(caller) {
            Some(e) => Err(e),
            None => Ok(()),
        }
    }

    /// A fresh, uninitialized contract: no admin, no metadata, an empty
    /// ledger, no compliance records, an empty whitelist, not paused.
    pub fn new() -> (r: Self)
        ensures
            r.wf(),
            !r.initialized(),
            !r.paused,
            r.supply() == 0,
            forall|a: u64| r.bal(a) == 0,
            forall|a: u64| !r.whitelist.has(a),
            forall|a: u64| r.compliance.record_of(a) is None,
    {
        RealWorldAssetContract {
            admin: None,
            metadata: None,
            ledger: Ledger::new(),
            compliance: ComplianceRegistry::new(),
            whitelist: Whitelist::new(),
            paused: false,
        }
    }

    /// Why `caller` may not act as admin, or `None` if it is the admin.
    fn require_admin(&self, caller: u64) -> (r: Option<Error>)
        ensures
            r == self.admin_gate(caller),
    {
        match self.admin {
            None => Some(Error::NotFound),
            Some(ad) => if caller != ad {
                Some(Error::Unauthorized)
            } else {
                None
            },
        }
    }

    /// One-time setup: records the admin and the metadata, clears the
    /// pause flag, and credits `initial_supply` (if positive) to the
    /// admin. Refused with `AlreadyInitialized` on a second call and with
    /// `InvalidAmount` for a negative supply.
    pub fn initialize(
        &mut self,
        admin: u64,
        asset_metadata: AssetMetadata,
        initial_supply: i128,
    ) -> (r: Result<(), Error>)
        requires
            old(self).wf(),
        ensures
            final(self).wf(),
            r == old(self).initialize_decision(initial_supply),
            r is Ok ==> initialize_applied(*old(self), *final(self), admin, asset_metadata, initial_supply),
            r is Err ==> *final(self) == *old(self),
    {
        if self.admin.is_some() {
            return Err(Error::AlreadyInitialized);
        }
        if initial_supply < 0 {
            return Err(Error::InvalidAmount);
        }
        self.admin = Some(admin);
        self.metadata = Some(asset_metadata);
        self.paused = false;
        self.ledger = Ledger::new();
        if initial_supply > 0 {
            self.ledger.credit(admin, initial_supply);
        }
        Ok(())
    }

    /// Mint `amount` new units to `to` under the compliance checks that
    /// `mode` selects. Admin-only; refused while paused.
    pub fn mint(
        &mut self,
        caller: u64,
        to: u64,
        amount: i128,
        mode: ComplianceMode,
        now: u64,
    ) -> (r: Result<(), Error>)
        requires
            old(self).wf(),
            old(self).supply() + amount <= i128::MAX,
        ensures
            final(self).wf(),
            r == old(self).mint_decision(caller, to, amount, mode, now),
            r is Ok ==> mint_applied(*old(self), *final(self), to, amount),
            r is Err ==> *final(self) == *old(self),
    {
        match self.require_admin(caller) {
            Some(e) => {
                return Err(e);
            }
            None => {}
        }
        if self.paused {
            return Err(Error::Paused);
        }
        match self.compliance.check(to, now, mode) {
            Some(e) => {
                return Err(e);
            }
            None => {}
        }
        if amount <= 0 {
            return Err(Error::InvalidAmount);
        }
        self.ledger.credit(to, amount);
        Ok(())
    }

    /// Mint with no compliance check at all: `mint` in `Skip` mode.
    pub fn mint_simple(&mut self, caller: u64, to: u64, amount: i128) -> (r: Result<(), Error>)
        requires
            old(self).wf(),
            old(self).supply() + amount <= i128::MAX,
        ensures
            final(self).wf(),
            r == old(self).mint_decision(caller, to, amount, ComplianceMode::Skip, 0),
            r is Ok ==> mint_applied(*old(self), *final(self), to, amount),
            r is Err ==> *final(self) == *old(self),
    {
        self.mint(caller, to, amount, ComplianceMode::Skip, 0)
    }

    /// Mint with no compliance check at all: `mint` in `Skip` mode.
    pub fn mint_no_compliance(
        &mut self,
        caller: u64,
        to: u64,
        amount: i128,
    ) -> (r: Result<(), Error>)
        requires
            old(self).wf(),
            old(self).supply() + amount <= i128::MAX,
        ensures
            final(self).wf(),
            r == old(self).mint_decision(caller, to, amount, ComplianceMode::Skip, 0),
            r is Ok ==> mint_applied(*old(self), *final(self), to, amount),
            r is Err ==> *final(self) == *old(self),
    {
        self.mint(caller, to, amount, ComplianceMode::Skip, 0)
    }

    /// Mint checking the verification flag but not the expiry: `mint` in
    /// `VerifyOnly` mode.
    pub fn mint_simple_compliance(
        &mut self,
        caller: u64,
        to: u64,
        amount: i128,
    ) -> (r: Result<(), Error>)
        requires
            old(self).wf(),
            old(self).supply() + amount <= i128::MAX,
        ensures
            final(self).wf(),
            r == old(self).mint_decision(caller, to, amount, ComplianceMode::VerifyOnly, 0),
            r is Ok ==> mint_applied(*old(self), *final(self), to, amount),
            r is Err ==> *final(self) == *old(self),
    {
        self.mint(caller, to, amount, ComplianceMode::VerifyOnly, 0)
    }

    /// Burn `amount` units held by `from`. Admin-only; refused while
    /// paused; the holder must cover the amount.
    pub fn burn(&mut self, caller: u64, from: u64, amount: i128) -> (r: Result<(), Error>)
        requires
            old(self).wf(),
        ensures
            final(self).wf(),
            r == old(self).burn_decision(caller, from, amount),
            r is Ok ==> burn_applied(*old(self), *final(self), from, amount),
            r is Err ==> *final(self) == *old(self),
    {
        match self.require_admin(caller) {
            Some(e) => {
                return Err(e);
            }
            None => {}
        }
        if self.paused {
            return Err(Error::Paused);
        }
        if amount <= 0 {
            return Err(Error::InvalidAmount);
        }
        let bal = self.ledger.balance_of(from);
        if bal < amount {
            return Err(Error::InsufficientBalance);
        }
        self.ledger.debit(from, amount);
        Ok(())
    }

    /// Move `amount` units from `from` to `to`. `from` is the
    /// authenticated principal; the recipient must pass the strict
    /// compliance check and be whitelisted; refused while paused.
    pub fn transfer(&mut self, from: u64, to: u64, amount: i128, now: u64) -> (r: Result<
        (),
        Error,
    >)
        requires
            old(self).wf(),
        ensures
            final(self).wf(),
            r == old(self).transfer_decision(from, to, amount, now),
            r is Ok ==> transfer_applied(*old(self), *final(self), from, to, amount),
            r is Err ==> *final(self) == *old(self),
    {
        if self.paused {
            return Err(Error::Paused);
        }
        match self.compliance.check(to, now, ComplianceMode::Strict) {
            Some(e) => {
                return Err(e);
            }
            None => {}
        }
        if !self.whitelist.contains(to) {
            return Err(Error::NotWhitelisted);
        }
        if amount <= 0 {
            return Err(Error::InvalidAmount);
        }
        let bal = self.ledger.balance_of(from);
        if bal < amount {
            return Err(Error::InsufficientBalance);
        }
        self.ledger.debit(from, amount);
        self.ledger.credit(to, amount);
        Ok(())
    }

    /// Read the balance of `address`; zero for an address that holds
    /// nothing. Never gated.
    pub fn balance(&self, address: u64) -> (r: i128)
        requires
            self.wf(),
        ensures
            r == self.bal(address),
    {
        self.ledger.balance_of(address)
    }

    /// Store (or overwrite wholesale) the compliance record of
    /// `address`. Admin-only; available while paused.
    pub fn add_compliance(
        &mut self,
        caller: u64,
        address: u64,
        compliance_data: ComplianceData,
    ) -> (r: Result<(), Error>)
        requires
            old(self).wf(),
        ensures
            final(self).wf(),
            r == old(self).admin_op_decision(caller),
            r is Ok ==> final(self).compliance.record_of(address) == Some(compliance_data),
            r is Ok ==> forall|b: u64|
                b != address ==> final(self).compliance.record_of(b)
                    == old(self).compliance.record_of(b),
            r is Ok ==> final(self).ledger == old(self).ledger,
            r is Ok ==> final(self).whitelist == old(self).whitelist,
            r is Ok ==> final(self).admin == old(self).admin,
            r is Ok ==> final(self).metadata == old(self).metadata,
            r is Ok ==> final(self).paused == old(self).paused,
            r is Err ==> *final(self) == *old(self),
    {
        match self.require_admin(caller) {
            Some(e) => {
                return Err(e);
            }
            None => {}
        }
        self.compliance.set_record(address, compliance_data);
        Ok(())
    }

    /// Read the compliance record of `address`, if any. Never gated.
    pub fn get_compliance(&self, address: u64) -> (r: Option<ComplianceData>)
        requires
            self.wf(),
        ensures
            r == self.compliance.record_of(address),
    {
        match self.compliance.get(address) {
            Some(rec) => Some(rec.clone()),
            None => None,
        }
    }

    /// Admit `address` to the whitelist. Admin-only; available while
    /// paused; admitting an address already listed changes nothing.
    pub fn add_to_whitelist(&mut self, caller: u64, address: u64) -> (r: Result<(), Error>)
        requires
            old(self).wf(),
        ensures
            final(self).wf(),
            r == old(self).admin_op_decision(caller),
            r is Ok ==> final(self).whitelist.has(address),
            r is Ok ==> forall|b: u64|
                b != address ==> final(self).whitelist.has(b) == old(self).whitelist.has(b),
            r is Ok ==> final(self).ledger == old(self).ledger,
            r is Ok ==> final(self).compliance == old(self).compliance,
            r is Ok ==> final(self).admin == old(self).admin,
            r is Ok ==> final(self).metadata == old(self).metadata,
            r is Ok ==> final(self).paused == old(self).paused,
            r is Err ==> *final(self) == *old(self),
    {
        match self.require_admin(caller) {
            Some(e) => {
                return Err(e);
            }
            None => {}
        }
        self.whitelist.add(address);
        Ok(())
    }

    /// Expel `address` from the whitelist. Admin-only; available while
    /// paused; expelling an address not listed changes nothing.
    pub fn remove_from_whitelist(&mut self, caller: u64, address: u64) -> (r: Result<(), Error>)
        requires
            old(self).wf(),
        ensures
            final(self).wf(),
            r == old(self).admin_op_decision(caller),
            r is Ok ==> !final(self).whitelist.has(address),
            r is Ok ==> forall|b: u64|
                b != address ==> final(self).whitelist.has(b) == old(self).whitelist.has(b),
            r is Ok ==> final(self).ledger == old(self).ledger,
            r is Ok ==> final(self).compliance == old(self).compliance,
            r is Ok ==> final(self).admin == old(self).admin,
            r is Ok ==> final(self).metadata == old(self).metadata,
            r is Ok ==> final(self).paused == old(self).paused,
            r is Err ==> *final(self) == *old(self),
    {
        match self.require_admin(caller) {
            Some(e) => {
                return Err(e);
            }
            None => {}
        }
        self.whitelist.remove(address);
        Ok(())
    }

    /// `address` may receive units as far as the whitelist is concerned.
    /// Never gated.
    pub fn is_whitelisted(&self, address: u64) -> (r: bool)
        ensures
            r == self.whitelist.has(address),
    {
        self.whitelist.contains(address)
    }

    /// Replace the asset metadata wholesale. Admin-only; available while
    /// paused.
    pub fn update_metadata(&mut self, caller: u64, new_metadata: AssetMetadata) -> (r: Result<
        (),
        Error,
    >)
        requires
            old(self).wf(),
        ensures
            final(self).wf(),
            r == old(self).admin_op_decision(caller),
            r is Ok ==> final(self).metadata == Some(new_metadata),
            r is Ok ==> final(self).ledger == old(self).ledger,
            r is Ok ==> final(self).compliance == old(self).compliance,
            r is Ok ==> final(self).whitelist == old(self).whitelist,
            r is Ok ==> final(self).admin == old(self).admin,
            r is Ok ==> final(self).paused == old(self).paused,
            r is Err ==> *final(self) == *old(self),
    {
        match self.require_admin(caller) {
            Some(e) => {
                return Err(e);
            }
            None => {}
        }
        self.metadata = Some(new_metadata);
        Ok(())
    }

    /// Record a new valuation and its timestamp, leaving the rest of the
    /// metadata alone. Admin-only; available while paused.
    pub fn update_valuation(&mut self, caller: u64, new_valuation: i128, timestamp: u64) -> (r:
        Result<(), Error>)
        requires
            old(self).wf(),
        ensures
            final(self).wf(),
            r == old(self).admin_op_decision(caller),
            r is Ok ==> final(self).metadata is Some,
            r is Ok ==> final(self).metadata->0.valuation == new_valuation,
            r is Ok ==> final(self).metadata->0.last_valuation_date == timestamp,
            r is Ok ==> final(self).metadata->0.name == old(self).metadata->0.name,
            r is Ok ==> final(self).metadata->0.symbol == old(self).metadata->0.symbol,
            r is Ok ==> final(self).metadata->0.description == old(self).metadata->0.description,
            r is Ok ==> final(self).metadata->0.asset_type == old(self).metadata->0.asset_type,
            r is Ok ==> final(self).metadata->0.legal_doc_hash == old(
                self,
            ).metadata->0.legal_doc_hash,
            r is Ok ==> final(self).ledger == old(self).ledger,
            r is Ok ==> final(self).compliance == old(self).compliance,
            r is Ok ==> final(self).whitelist == old(self).whitelist,
            r is Ok ==> final(self).admin == old(self).admin,
            r is Ok ==> final(self).paused == old(self).paused,
            r is Err ==> *final(self) == *old(self),
    {
        match self.require_admin(caller) {
            Some(e) => {
                return Err(e);
            }
            None => {}
        }
        match &mut self.metadata {
            Some(m) => {
                m.valuation = new_valuation;
                m.last_valuation_date = timestamp;
            }
            None => {}
        }
        Ok(())
    }

    /// Read the asset metadata; `NotFound` before initialization.
    pub fn get_metadata(&self) -> (r: Result<AssetMetadata, Error>)
        requires
            self.wf(),
        ensures
            self.initialized() ==> r == Ok::<AssetMetadata, Error>(self.metadata->0),
            !self.initialized() ==> r == Err::<AssetMetadata, Error>(Error::NotFound),
    {
        match &self.metadata {
            Some(m) => Ok(m.clone()),
            None => Err(Error::NotFound),
        }
    }

    /// Set or clear the pause flag. Admin-only. While paused, mint, burn
    /// and transfer are refused; reads and administrative edits are not.
    pub fn set_paused(&mut self, caller: u64, paused: bool) -> (r: Result<(), Error>)
        requires
            old(self).wf(),
        ensures
            final(self).wf(),
            r == old(self).admin_op_decision(caller),
            r is Ok ==> final(self).paused == paused,
            r is Ok ==> final(self).ledger == old(self).ledger,
            r is Ok ==> final(self).compliance == old(self).compliance,
            r is Ok ==> final(self).whitelist == old(self).whitelist,
            r is Ok ==> final(self).admin == old(self).admin,
            r is Ok ==> final(self).metadata == old(self).metadata,
            r is Err ==> *final(self) == *old(self),
    {
        match self.require_admin(caller) {
            Some(e) => {
                return Err(e);
            }
            None => {}
        }
        self.paused = paused;
        Ok(())
    }

    /// The contract is paused. Never gated.
    pub fn is_paused(&self) -> (r: bool)
        ensures
            r == self.paused,
    {
        self.paused
    }

    /// Hand the admin role to `new_admin`, atomically. Admin-only.
    pub fn transfer_admin(&mut self, caller: u64, new_admin: u64) -> (r: Result<(), Error>)
        requires
            old(self).wf(),
        ensures
            final(self).wf(),
            r == old(self).admin_op_decision(caller),
            r is Ok ==> final(self).admin == Some(new_admin),
            r is Ok ==> final(self).ledger == old(self).ledger,
            r is Ok ==> final(self).compliance == old(self).compliance,
            r is Ok ==> final(self).whitelist == old(self).whitelist,
            r is Ok ==> final(self).metadata == old(self).metadata,
            r is Ok ==> final(self).paused == old(self).paused,
            r is Err ==> *final(self) == *old(self),
    {
        match self.require_admin(caller) {
            Some(e) => {
                return Err(e);
            }
            None => {}
        }
        self.admin = Some(new_admin);
        Ok(())
    }

    /// Read the admin address; `NotFound` before initialization.
    pub fn get_admin(&self) -> (r: Result<u64, Error>)
        ensures
            self.initialized() ==> r == Ok::<u64, Error>(self.admin->0),
            !self.initialized() ==> r == Err::<u64, Error>(Error::NotFound),
    {
        match self.admin {
            Some(ad) => Ok(ad),
            None => Err(Error::NotFound),
        }
    }

    /// Read the total supply. Never gated.
    pub fn get_total_supply(&self) -> (r: i128)
        ensures
            r == self.supply(),
    {
        self.ledger.total
    }
}

/// In every well-formed state the total supply equals the sum of the
/// balance entries. Every operation requires and preserves
/// well-formedness, so this holds in every reachable state.
pub proof fn lemma_supply_is_sum_of_balances(s: RealWorldAssetContract)
    requires
        s.wf(),
    ensures
        s.supply() == sum_balances(s.ledger.entries@),
{
}

/// In every well-formed state no balance is negative, and neither is the
/// supply. Every operation requires and preserves well-formedness, so
/// this holds in every reachable state.
pub proof fn lemma_no_negative_balance(s: RealWorldAssetContract)
    requires
        s.wf(),
    ensures
        forall|a: u64| 0 <= s.bal(a),
        0 <= s.supply(),
{
    assert forall|a: u64| 0 <= s.bal(a) by {
        lemma_balance_le_sum(s.ledger.entries@, a);
    }
    lemma_sum_nonneg(s.ledger.entries@);
}

/// A mint of `x` to `a` followed by a burn of `x` from `a` restores
/// `a`'s balance, every other balance, and the total supply.
pub proof fn lemma_mint_then_burn_restores(
    s0: RealWorldAssetContract,
    s1: RealWorldAssetContract,
    s2: RealWorldAssetContract,
    a: u64,
    x: i128,
)
    requires
        mint_applied(s0, s1, a, x),
        burn_applied(s1, s2, a, x),
    ensures
        s2.bal(a) == s0.bal(a),
        s2.supply() == s0.supply(),
        forall|b: u64| b != a ==> s2.bal(b) == s0.bal(b),
{
}

/// A transfer leaves the sum of the two parties' balances and the total
/// supply unchanged.
pub proof fn lemma_transfer_conserves(
    s0: RealWorldAssetContract,
    s1: RealWorldAssetContract,
    from: u64,
    to: u64,
    x: i128,
)
    requires
        transfer_applied(s0, s1, from, to, x),
    ensures
        s1.bal(from) + s1.bal(to) == s0.bal(from) + s0.bal(to),
        s1.supply() == s0.supply(),
{
}

/// A transfer to an address absent from the whitelist never succeeds,
/// whatever the recipient's compliance status, the amount, or the
/// sender's balance.
pub proof fn lemma_unwhitelisted_transfer_never_succeeds(
    s: RealWorldAssetContract,
    from: u64,
    to: u64,
    amount: i128,
    now: u64,
)
    requires
        !s.whitelist.has(to),
    ensures
        s.transfer_decision(from, to, amount, now) is Err,
{
}

/// Once the pause and compliance gates pass, a transfer to an address
/// absent from the whitelist fails with exactly `NotWhitelisted`,
/// whatever the amount or the sender's balance.
pub proof fn lemma_unwhitelisted_transfer_rejected(
    s: RealWorldAssetContract,
    from: u64,
    to: u64,
    amount: i128,
    now: u64,
)
    requires
        !s.paused,
        admission_error(s.compliance.record_of(to), now, ComplianceMode::Strict) is None,
        !s.whitelist.has(to),
    ensures
        s.transfer_decision(from, to, amount, now) == Err::<(), Error>(Error::NotWhitelisted),
{
}

/// The expiry boundary is exact: a transfer to a whitelisted, verified
/// recipient whose record expires exactly now is admitted.
pub proof fn lemma_transfer_at_expiry_passes(
    s: RealWorldAssetContract,
    from: u64,
    to: u64,
    amount: i128,
    now: u64,
)
    requires
        !s.paused,
        s.whitelist.has(to),
        s.compliance.record_of(to) is Some,
        s.compliance.record_of(to)->0.kyc_verified,
        s.compliance.record_of(to)->0.compliance_expiry == now,
        0 < amount <= s.bal(from),
    ensures
        s.transfer_decision(from, to, amount, now) == Ok::<(), Error>(()),
{
}

/// The expiry boundary is exact: a transfer to a whitelisted, verified
/// recipient whose record expired one instant ago fails with
/// `ComplianceExpired`.
pub proof fn lemma_transfer_past_expiry_rejected(
    s: RealWorldAssetContract,
    from: u64,
    to: u64,
    amount: i128,
    now: u64,
)
    requires
        !s.paused,
        s.whitelist.has(to),
        s.compliance.record_of(to) is Some,
        s.compliance.record_of(to)->0.kyc_verified,
        now >= 1,
        s.compliance.record_of(to)->0.compliance_expiry == now - 1,
    ensures
        s.transfer_decision(from, to, amount, now) == Err::<(), Error>(Error::ComplianceExpired),
{
}

} // verus!
