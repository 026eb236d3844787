//! The job registry: a concurrent associative store from upload identifier
//! to its record. Many uploads proceed at once; mutation of one record goes
//! through exclusive access, while status reads never block a writer.

use vstd::prelude::*;
use crate::file::FileObject;
use crate::file::UploadState;

verus! {

/// Task handle keeping track of every upload admitted in this process.
///
/// The backing store is a sharded concurrent map; Verus sees it only
/// through `registry_map` and the contracts of the methods below.
#[verifier::external_body]
pub struct JobRegistry {
    map: dashmap::DashMap<u128, FileObject>,
}

/// The name that stands for what the concurrent map holds: each present
/// identifier bound to its record.
pub uninterp spec fn registry_map(r: JobRegistry) -> Map<u128, FileObject>;

/// The contents of a registry with nothing admitted yet.
pub open spec fn empty_registry() -> Map<u128, FileObject> {
    Map::empty()
}

/// Every record in the registry keeps its invariant and sits under its own
/// identifier.
pub open spec fn registry_wf(m: Map<u128, FileObject>) -> bool {
    forall|id: u128| m.contains_key(id) ==> (#[trigger] m[id]).wf() && m[id].uuid == id
}

impl JobRegistry {
    /// Relies on `dashmap::DashMap::new`: the fresh map is empty.
    #[verifier::external_body]
    pub fn new() -> (r: JobRegistry)
        ensures
            registry_map(r) == empty_registry(),
    {
        JobRegistry { map: dashmap::DashMap::new() }
    }

    /// Relies on `dashmap::DashMap::entry`: atomically inserts the record
    /// when the identifier is absent, and leaves the map unchanged when it
    /// is present. Returns whether the record was inserted.
    #[verifier::external_body]
    pub fn insert_if_absent(&mut self, id: u128, rec: FileObject) -> (r: bool)
        ensures
            r == !registry_map(*old(self)).contains_key(id),
            registry_map(*final(self)) == (if registry_map(*old(self)).contains_key(id) {
                registry_map(*old(self))
            } else {
                registry_map(*old(self)).insert(id, rec)
            }),
    {
        match self.map.entry(id) {
            dashmap::mapref::entry::Entry::Occupied(_) => false,
            dashmap::mapref::entry::Entry::Vacant(v) => {
                let _ = v.insert(rec);
                true
            },
        }
    }

    /// Relies on `dashmap::DashMap::get`: a snapshot read of one record's
    /// state that never blocks on a writer of another key.
    #[verifier::external_body]
    pub fn get(&self, id: u128) -> (r: Option<UploadState>)
        ensures
            r == (if registry_map(*self).contains_key(id) {
                Some(registry_map(*self)[id].state)
            } else {
                None::<UploadState>
            }),
    {
        self.map.get(&id).map(|e| e.value().get_state())
    }

    /// Relies on `dashmap::DashMap::get`: clones the record under the
    /// identifier, if present.
    #[verifier::external_body]
    pub fn get_record(&self, id: u128) -> (r: Option<FileObject>)
        ensures
            r == (if registry_map(*self).contains_key(id) {
                Some(registry_map(*self)[id])
            } else {
                None::<FileObject>
            }),
    {
        self.map.get(&id).map(|e| e.value().clone())
    }

    /// Relies on `dashmap::DashMap::get_mut`: an exclusive in-place update
    /// of one record's state. Returns whether the identifier was present.
    #[verifier::external_body]
    pub fn set_state_of(&mut self, id: u128, st: UploadState) -> (r: bool)
        requires
            registry_map(*old(self)).contains_key(id) ==> st.fits(
                registry_map(*old(self))[id].file_size,
            ),
        ensures
            r == registry_map(*old(self)).contains_key(id),
            registry_map(*final(self)) == (if registry_map(*old(self)).contains_key(id) {
                registry_map(*old(self)).insert(
                    id,
                    (FileObject { state: st, ..registry_map(*old(self))[id] }),
                )
            } else {
                registry_map(*old(self))
            }),
    {
        match self.map.get_mut(&id) {
            Some(mut e) => {
                e.value_mut().set_state(st);
                true
            },
            None => false,
        }
    }
}

} // verus!
