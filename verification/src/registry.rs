use std::collections::HashMap;

use vstd::prelude::*;

use crate::state::AccountId;

verus! {

broadcast use vstd::std_specs::hash::group_hash_axioms;

/// An asset group (collection) a tier's credentials are minted into.
#[derive(Clone, Debug)]
pub struct AssetGroup {
    pub admin: AccountId,
    pub name: String,
    pub uri: String,
}

/// One uniquely issued asset, bound to its group and its owner.
#[derive(Clone, Debug)]
pub struct AssetRecord {
    pub group: AccountId,
    pub owner: AccountId,
    pub name: String,
    pub uri: String,
}

/// The asset-issuance registry: it creates asset groups and mints uniquely
/// identified assets into them. Identifiers are allocated from counters, so a
/// freshly issued identifier is never one that exists already.
pub struct AssetRegistry {
    next_group_id: AccountId,
    next_asset_id: AccountId,
    groups: HashMap<AccountId, AssetGroup>,
    assets: HashMap<AccountId, AssetRecord>,
}

impl AssetRegistry {
    pub closed spec fn groups(&self) -> Map<AccountId, AssetGroup> {
        self.groups@
    }

    pub closed spec fn assets(&self) -> Map<AccountId, AssetRecord> {
        self.assets@
    }

    pub closed spec fn spec_next_group_id(&self) -> AccountId {
        self.next_group_id
    }

    pub closed spec fn spec_next_asset_id(&self) -> AccountId {
        self.next_asset_id
    }

    /// Every identifier on record lies below its counter, so the counters
    /// always point at fresh identifiers.
    pub closed spec fn wf(&self) -> bool {
        &&& forall|g: AccountId| #[trigger]
            self.groups@.contains_key(g) ==> g < self.next_group_id
        &&& forall|a: AccountId| #[trigger]
            self.assets@.contains_key(a) ==> a < self.next_asset_id
    }

    /// An empty registry.
    pub fn new() -> (registry: AssetRegistry)
        ensures
            registry.wf(),
            registry.groups() == Map::<AccountId, AssetGroup>::empty(),
            registry.assets() == Map::<AccountId, AssetRecord>::empty(),
            registry.spec_next_group_id() == 0,
            registry.spec_next_asset_id() == 0,
    {
        AssetRegistry {
            next_group_id: 0,
            next_asset_id: 0,
            groups: HashMap::new(),
            assets: HashMap::new(),
        }
    }

    pub fn next_group_id(&self) -> (id: AccountId)
        ensures
            id == self.spec_next_group_id(),
    {
        self.next_group_id
    }

    pub fn next_asset_id(&self) -> (id: AccountId)
        ensures
            id == self.spec_next_asset_id(),
    {
        self.next_asset_id
    }

    pub fn has_group(&self, group: AccountId) -> (present: bool)
        ensures
            present == self.groups().contains_key(group),
    {
        self.groups.contains_key(&group)
    }

    /// Creates a new asset group under a fresh identifier, administered by
    /// `admin`.
    pub fn create_asset_group(&mut self, admin: AccountId, name: String, uri: String) -> (group_id:
        AccountId)
        requires
            old(self).wf(),
            old(self).spec_next_group_id() < u64::MAX,
        ensures
            final(self).wf(),
            group_id == old(self).spec_next_group_id(),
            !old(self).groups().contains_key(group_id),
            final(self).groups() == old(self).groups().insert(
                group_id,
                (AssetGroup { admin, name, uri }),
            ),
            final(self).spec_next_group_id() == old(self).spec_next_group_id() + 1,
            final(self).assets() == old(self).assets(),
            final(self).spec_next_asset_id() == old(self).spec_next_asset_id(),
    {
        let group_id = self.next_group_id;
        self.groups.insert(group_id, AssetGroup { admin, name, uri });
        self.next_group_id = group_id + 1;
        group_id
    }

    /// Mints a new unique asset into an existing group, owned by `owner`.
    /// The returned identifier is fresh: it names no asset minted earlier.
    pub fn mint_asset(&mut self, group: AccountId, owner: AccountId, name: String, uri: String) -> (
        asset_id: AccountId)
        requires
            old(self).wf(),
            old(self).groups().contains_key(group),
            old(self).spec_next_asset_id() < u64::MAX,
        ensures
            final(self).wf(),
            asset_id == old(self).spec_next_asset_id(),
            !old(self).assets().contains_key(asset_id),
            final(self).assets() == old(self).assets().insert(
                asset_id,
                (AssetRecord { group, owner, name, uri }),
            ),
            final(self).spec_next_asset_id() == old(self).spec_next_asset_id() + 1,
            final(self).groups() == old(self).groups(),
            final(self).spec_next_group_id() == old(self).spec_next_group_id(),
    {
        let asset_id = self.next_asset_id;
        self.assets.insert(asset_id, AssetRecord { group, owner, name, uri });
        self.next_asset_id = asset_id + 1;
        asset_id
    }

    /// Looks an asset up by its identifier.
    pub fn asset(&self, asset_id: AccountId) -> (record: Option<&AssetRecord>)
        ensures
            match record {
                Some(r) => self.assets().contains_key(asset_id) && *r == self.assets()[asset_id],
                None => !self.assets().contains_key(asset_id),
            },
    {
        self.assets.get(&asset_id)
    }
}

} // verus!
