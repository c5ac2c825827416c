//! The key-value store behind the data manager: the contract that any
//! backend has to meet, and a backend that keeps its entries in memory.

use vstd::hash_map::StringHashMap;
use vstd::prelude::*;
use vstd::slice::slice_to_vec;
use vstd::string::StringExecFns;
use crate::errors::StorageError;

verus! {

/// A store of byte strings under string keys.
///
/// `contents` is what the store holds. A backend may fail any request, and
/// a failed request changes nothing; a request that succeeds does what its
/// name says, on `contents` exactly.
pub trait Storage {
    /// What is stored, each value under its key.
    spec fn contents(&self) -> Map<Seq<char>, Seq<u8>>;

    /// The store is in a consistent state.
    spec fn usable(&self) -> bool;

    /// Stores `data` under `key`, in place of what was there.
    fn save(&mut self, key: &str, data: &[u8]) -> (r: Result<(), StorageError>)
        requires
            old(self).usable(),
        ensures
            final(self).usable(),
            match r {
                Ok(_) => final(self).contents() == old(self).contents().insert(key@, data@),
                Err(_) => final(self).contents() == old(self).contents(),
            },
    ;

    /// The bytes stored under `key`.
    fn load(&self, key: &str) -> (r: Result<Vec<u8>, StorageError>)
        requires
            self.usable(),
        ensures
            match r {
                Ok(data) => self.contents().contains_key(key@) && data@ == self.contents()[key@],
                Err(StorageError::KeyNotFound(k)) => !self.contents().contains_key(key@) && k@
                    == key@,
                Err(StorageError::Unavailable) => true,
            },
    ;

    /// Removes what is stored under `key`, if anything.
    fn delete(&mut self, key: &str) -> (r: Result<(), StorageError>)
        requires
            old(self).usable(),
        ensures
            final(self).usable(),
            match r {
                Ok(_) => final(self).contents() == old(self).contents().remove(key@),
                Err(_) => final(self).contents() == old(self).contents(),
            },
    ;

    /// Whether anything is stored under `key`.
    fn contains(&self, key: &str) -> (r: Result<bool, StorageError>)
        requires
            self.usable(),
        ensures
            match r {
                Ok(found) => found == self.contents().contains_key(key@),
                Err(_) => true,
            },
    ;
}

/// A store that keeps its entries in memory, under the name of a database.
/// It never fails a request.
pub struct SledStorage {
    db_name: String,
    entries: StringHashMap<Vec<u8>>,
}

impl SledStorage {
    /// The name of the database.
    pub closed spec fn name(&self) -> Seq<char> {
        self.db_name@
    }

    /// An empty store named `db_name`.
    pub fn new(db_name: &str) -> (store: Self)
        ensures
            store.usable(),
            store.name() == db_name@,
            store.contents() == Map::<Seq<char>, Seq<u8>>::empty(),
    {
        let store = Self { db_name: String::from_str(db_name), entries: StringHashMap::new() };
        assert(store.contents() =~= Map::<Seq<char>, Seq<u8>>::empty());
        store
    }

    /// The name of the database.
    pub fn db_name(&self) -> (name: &String)
        ensures
            name@ == self.name(),
    {
        &self.db_name
    }
}

impl Storage for SledStorage {
    closed spec fn contents(&self) -> Map<Seq<char>, Seq<u8>> {
        self.entries@.map_values(|v: Vec<u8>| v@)
    }

    closed spec fn usable(&self) -> bool {
        true
    }

    fn save(&mut self, key: &str, data: &[u8]) -> (r: Result<(), StorageError>)
        ensures
            r is Ok,
    {
        let ghost before = self.contents();
        let held = slice_to_vec(data);
        self.entries.insert(String::from_str(key), held);
        assert(self.contents() =~= before.insert(key@, data@));
        Ok(())
    }

    fn load(&self, key: &str) -> (r: Result<Vec<u8>, StorageError>)
        ensures
            r is Ok <==> self.contents().contains_key(key@),
            r is Err ==> r->Err_0 is KeyNotFound,
    {
        match self.entries.get(key) {
            Some(data) => {
                let copy = data.clone();
                assert(copy@ =~= data@);
                Ok(copy)
            },
            None => Err(StorageError::KeyNotFound(String::from_str(key))),
        }
    }

    fn delete(&mut self, key: &str) -> (r: Result<(), StorageError>)
        ensures
            r is Ok,
    {
        let ghost before = self.contents();
        self.entries.remove(key);
        assert(self.contents() =~= before.remove(key@));
        Ok(())
    }

    fn contains(&self, key: &str) -> (r: Result<bool, StorageError>)
        ensures
            r is Ok,
    {
        Ok(self.entries.contains_key(key))
    }
}

} // verus!
