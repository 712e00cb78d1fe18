//! The filesystem registry: at most one shared instance for each type of
//! filesystem, found again by the identity of the type alone.

use crate::errno::ErrorCode;
use crate::errno::ENOTRECOVERABLE;
use std::collections::HashMap;
use vstd::prelude::*;

verus! {

broadcast use vstd::std_specs::hash::group_hash_axioms;

/// The identity of a type of filesystem.
pub type TypeKey = u64;

/// A lookup found nothing under the key.
#[derive(Clone, Copy, Debug, PartialEq, Eq, Structural)]
pub struct NotRegistered {
    pub key: TypeKey,
}

/// The registry. `H` is the shared handle through which an instance is
/// reached.
#[derive(Debug)]
pub struct Registry<H> {
    slots: HashMap<TypeKey, H>,
}

impl<H> View for Registry<H> {
    type V = Map<TypeKey, H>;

    closed spec fn view(&self) -> Map<TypeKey, H> {
        self.slots@
    }
}

/// What a lookup under `key` finds in the slots `slots`.
pub open spec fn lookup<H>(slots: Map<TypeKey, H>, key: TypeKey) -> Result<H, NotRegistered> {
    if slots.contains_key(key) {
        Ok(slots[key])
    } else {
        Err(NotRegistered { key })
    }
}

impl<H> Registry<H> {
    /// A registry that holds nothing.
    pub fn new() -> (registry: Registry<H>)
        ensures
            registry@ == Map::<TypeKey, H>::empty(),
    {
        Registry { slots: HashMap::new() }
    }

    /// Stores `instance` under `key`, in place of what was stored there.
    /// Nothing else changes.
    pub fn register(&mut self, key: TypeKey, instance: H)
        ensures
            final(self)@ == old(self)@.insert(key, instance),
    {
        self.slots.insert(key, instance);
    }

    /// The instance stored under `key`, or the failure of the lookup when
    /// nothing is stored there.
    pub fn get(&self, key: TypeKey) -> (r: Result<&H, NotRegistered>)
        ensures
            match lookup(self@, key) {
                Ok(instance) => r is Ok && *r->Ok_0 == instance,
                Err(failure) => r == Err::<&H, NotRegistered>(failure),
            },
    {
        match self.slots.get(&key) {
            Some(instance) => Ok(instance),
            None => Err(NotRegistered { key }),
        }
    }

    /// Whether an instance is stored under `key`.
    pub fn contains(&self, key: TypeKey) -> (yes: bool)
        ensures
            yes == self@.contains_key(key),
    {
        self.slots.contains_key(&key)
    }

    /// Removes every instance.
    pub fn clear(&mut self)
        ensures
            final(self)@ == Map::<TypeKey, H>::empty(),
    {
        self.slots.clear();
    }
}

/// After a clear every lookup fails, whatever was registered before and
/// whichever key is asked for.
pub proof fn lemma_lookup_after_clear<H>(key: TypeKey)
    ensures
        lookup(Map::<TypeKey, H>::empty(), key) == Err::<H, NotRegistered>(NotRegistered { key }),
{
}

/// After a registration a lookup under the same key succeeds and finds the
/// instance that was registered, whatever the slots held before: nothing,
/// after a clear, or an earlier instance.
pub proof fn lemma_lookup_after_register<H>(before: Map<TypeKey, H>, key: TypeKey, instance: H)
    ensures
        lookup(before.insert(key, instance), key) == Ok::<H, NotRegistered>(instance),
{
}

/// A registration leaves the lookups under every other key as they were.
pub proof fn lemma_register_keeps_others<H>(
    before: Map<TypeKey, H>,
    key: TypeKey,
    instance: H,
    other: TypeKey,
)
    requires
        other != key,
    ensures
        lookup(before.insert(key, instance), other) == lookup(before, other),
{
}

/// The start of the message of a failed lookup.
pub open spec fn lookup_message_start() -> Seq<char> {
    "State lookup for `"@
}

/// The end of the message of a failed lookup.
pub open spec fn lookup_message_end() -> Seq<char> {
    "` failed. Registry corrupted?"@
}

/// Fetches the filesystem of the type `key` from the registry. A lookup
/// that finds nothing fails with `ENOTRECOVERABLE`: either nothing was ever
/// registered or the registry was emptied after a panic. `fs_name` names
/// the type in the message.
pub fn fetch_fs_from_registry<'a, H>(registry: &'a Registry<H>, key: TypeKey, fs_name: &str) -> (r:
    Result<&'a H, (String, ErrorCode)>)
    ensures
        registry@.contains_key(key) ==> r is Ok && *r->Ok_0 == registry@[key],
        !registry@.contains_key(key) ==> r is Err && r->Err_0.1@ == ENOTRECOVERABLE
            && r->Err_0.0@ == lookup_message_start() + fs_name@ + lookup_message_end(),
{
    match registry.get(key) {
        Ok(fs) => Ok(fs),
        Err(_) => {
            let mut message: String = String::from_str("State lookup for `");
            message.append(fs_name);
            message.append("` failed. Registry corrupted?");
            Err((message, ErrorCode::not_recoverable()))
        },
    }
}

} // verus!
