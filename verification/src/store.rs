use std::collections::HashMap;

use vstd::prelude::*;

use crate::state::AccountId;
use crate::state::MemberPass;
use crate::state::PlatformConfig;

verus! {

broadcast use vstd::std_specs::hash::group_hash_axioms;

/// The durable keyed store of credentials: at most one slot per principal.
/// Creation goes through `create_if_absent`, never read-then-write, so
/// concurrent creation attempts for one principal resolve to exactly one
/// winner.
pub struct CredentialStore {
    passes: HashMap<AccountId, MemberPass>,
}

impl View for CredentialStore {
    type V = Map<AccountId, MemberPass>;

    closed spec fn view(&self) -> Map<AccountId, MemberPass> {
        self.passes@
    }
}

impl CredentialStore {
    /// A store with no credential slots.
    pub fn new() -> (store: CredentialStore)
        ensures
            store@ == Map::<AccountId, MemberPass>::empty(),
    {
        CredentialStore { passes: HashMap::new() }
    }

    pub fn contains(&self, principal: AccountId) -> (present: bool)
        ensures
            present == self@.contains_key(principal),
    {
        self.passes.contains_key(&principal)
    }

    pub fn get(&self, principal: AccountId) -> (slot: Option<&MemberPass>)
        ensures
            match slot {
                Some(pass) => self@.contains_key(principal) && *pass == self@[principal],
                None => !self@.contains_key(principal),
            },
    {
        self.passes.get(&principal)
    }

    /// Creates the slot for `principal` only where none exists; an occupied
    /// slot is left exactly as it was.
    pub fn create_if_absent(&mut self, principal: AccountId, pass: MemberPass) -> (created: bool)
        ensures
            created == !old(self)@.contains_key(principal),
            created ==> final(self)@ == old(self)@.insert(principal, pass),
            !created ==> final(self)@ == old(self)@,
    {
        if self.passes.contains_key(&principal) {
            false
        } else {
            self.passes.insert(principal, pass);
            true
        }
    }

    pub fn len(&self) -> (n: usize)
        ensures
            n == self@.len(),
    {
        self.passes.len()
    }
}

/// The singleton slot the platform configuration lives in. Creation goes
/// through `create_if_absent`: once a configuration exists, a second
/// initialization attempt changes nothing and reports failure.
pub struct ConfigStore {
    config: Option<PlatformConfig>,
}

impl ConfigStore {
    pub closed spec fn spec_config(&self) -> Option<PlatformConfig> {
        self.config
    }

    /// An empty slot: the platform is not yet initialized.
    pub fn new() -> (store: ConfigStore)
        ensures
            store.spec_config() is None,
    {
        ConfigStore { config: None }
    }

    pub fn is_initialized(&self) -> (initialized: bool)
        ensures
            initialized == self.spec_config() is Some,
    {
        self.config.is_some()
    }

    /// Installs `config` only where the slot is empty.
    pub fn create_if_absent(&mut self, config: PlatformConfig) -> (created: bool)
        ensures
            created == old(self).spec_config() is None,
            created ==> final(self).spec_config() == Some(config),
            !created ==> final(self).spec_config() == old(self).spec_config(),
    {
        match &self.config {
            Some(_) => false,
            None => {
                self.config = Some(config);
                true
            },
        }
    }

    pub fn get(&self) -> (config: Option<&PlatformConfig>)
        ensures
            match config {
                Some(c) => self.spec_config() == Some(*c),
                None => self.spec_config() is None,
            },
    {
        self.config.as_ref()
    }

    /// Replaces the stored configuration; the transactional read-modify-write
    /// the mutating operations go through.
    pub fn replace(&mut self, config: PlatformConfig)
        requires
            old(self).spec_config() is Some,
        ensures
            final(self).spec_config() == Some(config),
    {
        self.config = Some(config);
    }
}

} // verus!
