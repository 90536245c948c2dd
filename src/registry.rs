//! The window registry: one record per live remote window, addressed by a
//! key that no later window ever takes over.
use crate::slots::{odd_version, slot_entries, Slots};
use vstd::prelude::*;

verus! {

/// Local identity of a tracked window: the slot that holds its record, and
/// the serial number it was given when it was announced.
#[derive(Clone, Copy, PartialEq, Eq, Structural, Hash, Debug)]
pub struct ToplevelKey {
    pub slot: u64,
    pub serial: u64,
}

/// What the registry keeps of one window.
pub struct Record {
    pub title: String,
    pub app_id: String,
    pub attached: bool,
    pub serial: u64,
}

/// The state of one window as the contracts see it.
pub struct WindowView {
    pub title: Seq<char>,
    pub app_id: Seq<char>,
    pub attached: bool,
}

/// The registry as the contracts see it: the live windows, and the serial
/// number that the next window will get.
pub struct RegistryModel {
    pub windows: Map<ToplevelKey, WindowView>,
    pub next_serial: nat,
}

impl RegistryModel {
    /// Every live key was handed out before.
    pub open spec fn wf(self) -> bool {
        forall|k: ToplevelKey| #[trigger] self.windows.contains_key(k) ==> k.serial < self.next_serial
    }

    /// The key carries a serial number that has been handed out already.
    pub open spec fn issued(self, k: ToplevelKey) -> bool {
        k.serial < self.next_serial
    }
}

/// What a record says of its window.
pub open spec fn window_of(r: Record) -> WindowView {
    WindowView { title: r.title@, app_id: r.app_id@, attached: r.attached }
}

/// A window as it is announced: no attributes yet, no listener.
pub open spec fn fresh_window() -> WindowView {
    WindowView { title: Seq::empty(), app_id: Seq::empty(), attached: false }
}

/// The model after a window is announced under the given key: it holds a
/// fresh record, and the next serial number moves on.
pub open spec fn allocated(m: RegistryModel, key: ToplevelKey) -> RegistryModel {
    RegistryModel {
        windows: m.windows.insert(key, fresh_window()),
        next_serial: m.next_serial + 1,
    }
}

/// The model after a title is staged: a live window takes it, a dead key
/// changes nothing.
pub open spec fn set_title(m: RegistryModel, key: ToplevelKey, text: Seq<char>) -> RegistryModel {
    if m.windows.contains_key(key) {
        RegistryModel {
            windows: m.windows.insert(key, WindowView { title: text, ..m.windows[key] }),
            ..m
        }
    } else {
        m
    }
}

/// The model after an application id is staged.
pub open spec fn set_app_id(m: RegistryModel, key: ToplevelKey, text: Seq<char>) -> RegistryModel {
    if m.windows.contains_key(key) {
        RegistryModel {
            windows: m.windows.insert(key, WindowView { app_id: text, ..m.windows[key] }),
            ..m
        }
    } else {
        m
    }
}

/// The keyed collection of window records.
pub struct Registry {
    slots: Slots,
    next_serial: u64,
}

impl Registry {
    /// The records, under the integer form of their slot keys.
    pub closed spec fn entries(&self) -> Map<u64, Record> {
        slot_entries(self.slots)
    }

    /// The key names a record, and that record was created for this key
    /// (not for an earlier window that held the same slot).
    pub closed spec fn live(&self, k: ToplevelKey) -> bool {
        &&& odd_version(k.slot)
        &&& self.entries().contains_key(k.slot)
        &&& self.entries()[k.slot].serial == k.serial
    }

    pub closed spec fn view(&self) -> RegistryModel {
        RegistryModel {
            windows: Map::new(
                |k: ToplevelKey| self.live(k),
                |k: ToplevelKey| window_of(self.entries()[k.slot]),
            ),
            next_serial: self.next_serial as nat,
        }
    }

    /// Every record carries a serial number that has been handed out.
    pub closed spec fn wf(&self) -> bool {
        &&& self.entries().dom().finite()
        &&& forall|s: u64| #[trigger]
            self.entries().contains_key(s) ==> self.entries()[s].serial < self.next_serial
    }

    /// Room for one more window: the slot map and the serial numbers are
    /// not exhausted.
    pub closed spec fn has_room(&self) -> bool {
        &&& self.entries().len() < u32::MAX - 1
        &&& self.next_serial < u64::MAX
    }

    /// A well-formed registry has a well-formed model.
    pub proof fn lemma_model_wf(&self)
        requires
            self.wf(),
        ensures
            self@.wf(),
    {
    }

    /// An empty registry.
    pub fn new() -> (r: Registry)
        ensures
            r.wf(),
            r@.wf(),
            r@.windows == Map::<ToplevelKey, WindowView>::empty(),
            r@.next_serial == 0,
            r.has_room(),
    {
        let r = Registry { slots: Slots::new(), next_serial: 0 };
        assert(r@.windows =~= Map::<ToplevelKey, WindowView>::empty());
        r
    }

    /// Whether a new window can be allocated.
    pub fn can_allocate(&self) -> (r: bool)
        requires
            self.wf(),
        ensures
            r == self.has_room(),
    {
        self.slots.len() < (u32::MAX - 1) as usize && self.next_serial < u64::MAX
    }

    /// The record of a live key.
    fn find(&self, key: ToplevelKey) -> (r: Option<&Record>)
        requires
            self.wf(),
        ensures
            r.is_some() == self.live(key),
            r.is_some() ==> *r->0 == self.entries()[key.slot],
    {
        if (key.slot >> 32u64) & 1u64 != 1u64 {
            return None;
        }
        match self.slots.get(key.slot) {
            Some(rec) => {
                if rec.serial == key.serial {
                    Some(rec)
                } else {
                    None
                }
            },
            None => None,
        }
    }

    /// Whether the key belongs to a live window.
    pub fn is_live(&self, key: ToplevelKey) -> (r: bool)
        requires
            self.wf(),
        ensures
            r == self@.windows.contains_key(key),
    {
        self.find(key).is_some()
    }

    /// Creates the record of a newly announced window, with empty attributes
    /// and no listener, under a key that no earlier window had.
    pub fn allocate(&mut self) -> (key: ToplevelKey)
        requires
            old(self).wf(),
            old(self).has_room(),
        ensures
            final(self).wf(),
            key.serial == old(self)@.next_serial,
            !old(self)@.windows.contains_key(key),
            final(self)@ == allocated(old(self)@, key),
    {
        let serial = self.next_serial;
        let rec = Record { title: String::new(), app_id: String::new(), attached: false, serial };
        let slot = self.slots.insert(rec);
        self.next_serial = serial + 1;
        let key = ToplevelKey { slot, serial };
        assert(self@.windows =~= allocated(old(self)@, key).windows);
        key
    }

    /// Overwrites the record of a live key with the given attributes.
    fn put(&mut self, key: ToplevelKey, title: String, app_id: String, attached: bool)
        requires
            old(self).wf(),
            old(self).live(key),
        ensures
            final(self).wf(),
            final(self)@.windows == old(self)@.windows.insert(
                key,
                WindowView { title: title@, app_id: app_id@, attached },
            ),
            final(self)@.next_serial == old(self)@.next_serial,
    {
        let rec = Record { title, app_id, attached, serial: key.serial };
        let _ = self.slots.replace(key.slot, rec);
        assert(self@.windows =~= old(self)@.windows.insert(
            key,
            WindowView { title: title@, app_id: app_id@, attached },
        ));
    }

    /// Records that the observer's listener for a live window is in place.
    pub fn attach_listener(&mut self, key: ToplevelKey)
        requires
            old(self).wf(),
            old(self)@.windows.contains_key(key),
            !old(self)@.windows[key].attached,
        ensures
            final(self).wf(),
            final(self)@.windows == old(self)@.windows.insert(
                key,
                WindowView { attached: true, ..old(self)@.windows[key] },
            ),
            final(self)@.next_serial == old(self)@.next_serial,
    {
        let rec = self.find(key).unwrap();
        let title = rec.title.clone();
        let app_id = rec.app_id.clone();
        self.put(key, title, app_id, true);
    }

    /// Stages a new title for a live window; a dead key is ignored.
    pub fn stage_title(&mut self, key: ToplevelKey, text: String)
        requires
            old(self).wf(),
        ensures
            final(self).wf(),
            final(self)@ == set_title(old(self)@, key, text@),
    {
        match self.find(key) {
            Some(rec) => {
                let app_id = rec.app_id.clone();
                let attached = rec.attached;
                self.put(key, text, app_id, attached);
            },
            None => {},
        }
    }

    /// Stages a new application id for a live window; a dead key is ignored.
    pub fn stage_app_id(&mut self, key: ToplevelKey, text: String)
        requires
            old(self).wf(),
        ensures
            final(self).wf(),
            final(self)@ == set_app_id(old(self)@, key, text@),
    {
        match self.find(key) {
            Some(rec) => {
                let title = rec.title.clone();
                let attached = rec.attached;
                self.put(key, title, text, attached);
            },
            None => {},
        }
    }

    /// The snapshot owed to the listener when a batch of changes is
    /// complete: the staged title and application id of a live window whose
    /// listener is in place, and nothing otherwise.
    pub fn commit(&self, key: ToplevelKey) -> (r: Option<(String, String)>)
        requires
            self.wf(),
        ensures
            r.is_some() == (self@.windows.contains_key(key) && self@.windows[key].attached),
            r.is_some() ==> (r->0).0@ == self@.windows[key].title && (r->0).1@
                == self@.windows[key].app_id,
    {
        match self.find(key) {
            Some(rec) => {
                if rec.attached {
                    Some((rec.title.clone(), rec.app_id.clone()))
                } else {
                    None
                }
            },
            None => None,
        }
    }

    /// Deletes the record of a live window; tells whether its listener is to
    /// hear that it closed.
    pub fn remove(&mut self, key: ToplevelKey) -> (notify: bool)
        requires
            old(self).wf(),
        ensures
            final(self).wf(),
            final(self)@.windows == old(self)@.windows.remove(key),
            final(self)@.next_serial == old(self)@.next_serial,
            notify == (old(self)@.windows.contains_key(key) && old(self)@.windows[key].attached),
    {
        let notify = match self.find(key) {
            Some(rec) => rec.attached,
            None => {
                assert(self@.windows =~= old(self)@.windows.remove(key));
                return false;
            },
        };
        let _ = self.slots.remove(key.slot);
        assert(self@.windows =~= old(self)@.windows.remove(key));
        notify
    }
}

} // verus!
