//! The slot map that holds the window records, behind trusted items.
use crate::registry::Record;
use slotmap::{DefaultKey, Key, KeyData, SlotMap};
use vstd::prelude::*;

verus! {

/// A slot map of window records, addressed by the integer form of its keys.
#[verifier::external_body]
pub struct Slots {
    inner: SlotMap<DefaultKey, Record>,
}

/// What the slot map holds: the integer form of each live key, and its record.
pub uninterp spec fn slot_entries(s: Slots) -> Map<u64, Record>;

/// Keys handed out by the slot map carry an odd version in their upper half.
pub open spec fn odd_version(k: u64) -> bool {
    (k >> 32u64) & 1u64 == 1u64
}

impl Slots {
    /// Relies on SlotMap::new: a new slot map holds nothing.
    #[verifier::external_body]
    pub(crate) fn new() -> (r: Slots)
        ensures
            slot_entries(r).dom().is_empty(),
    {
        Slots { inner: SlotMap::new() }
    }

    /// Relies on SlotMap::len: the number of occupied slots.
    #[verifier::external_body]
    pub(crate) fn len(&self) -> (r: usize)
        ensures
            r as nat == slot_entries(*self).len(),
    {
        self.inner.len()
    }

    /// Relies on SlotMap::insert: the value goes under a key that was not
    /// occupied, whose version is odd; it panics only once about u32::MAX
    /// values are held at once.
    #[verifier::external_body]
    pub(crate) fn insert(&mut self, v: Record) -> (k: u64)
        requires
            slot_entries(*old(self)).len() < u32::MAX - 1,
        ensures
            !slot_entries(*old(self)).contains_key(k),
            odd_version(k),
            slot_entries(*final(self)) == slot_entries(*old(self)).insert(k, v),
    {
        self.inner.insert(v).data().as_ffi()
    }

    /// Relies on SlotMap::get: the value under the key, if it is occupied.
    #[verifier::external_body]
    pub(crate) fn get(&self, k: u64) -> (r: Option<&Record>)
        requires
            odd_version(k),
        ensures
            r == (if slot_entries(*self).contains_key(k) {
                Some(&slot_entries(*self)[k])
            } else {
                None
            }),
    {
        self.inner.get(DefaultKey::from(KeyData::from_ffi(k)))
    }

    /// Relies on SlotMap::get_mut: the value under an occupied key is swapped
    /// for a new one, and the old one handed back.
    #[verifier::external_body]
    pub(crate) fn replace(&mut self, k: u64, v: Record) -> (r: Option<Record>)
        requires
            odd_version(k),
        ensures
            slot_entries(*old(self)).contains_key(k) ==> r == Some(slot_entries(*old(self))[k])
                && slot_entries(*final(self)) == slot_entries(*old(self)).insert(k, v),
            !slot_entries(*old(self)).contains_key(k) ==> r.is_none()
                && slot_entries(*final(self)) == slot_entries(*old(self)),
    {
        self.inner.get_mut(DefaultKey::from(KeyData::from_ffi(k))).map(|slot| std::mem::replace(slot, v))
    }

    /// Relies on SlotMap::remove: the value under an occupied key is taken out.
    #[verifier::external_body]
    pub(crate) fn remove(&mut self, k: u64) -> (r: Option<Record>)
        requires
            odd_version(k),
        ensures
            r == (if slot_entries(*old(self)).contains_key(k) {
                Some(slot_entries(*old(self))[k])
            } else {
                None
            }),
            slot_entries(*final(self)) == slot_entries(*old(self)).remove(k),
    {
        self.inner.remove(DefaultKey::from(KeyData::from_ffi(k)))
    }
}

} // verus!
