//! The persistent store: a durable map from keys to values, and one kept in
//! memory.

use crate::bytes::copy_bytes;
use crate::table::Table;
use vstd::prelude::*;

verus! {

/// Why the store gave no value.
#[derive(Clone, Copy, Debug, PartialEq, Eq, Structural)]
pub enum StoreError {
    /// Nothing is kept under the key.
    NotFound,
    /// The store itself failed.
    Failed,
}

/// A key-value store.
///
/// Of a store as such nothing is known: it may fail at any call and may
/// answer anything. A store that is [`reliable`](Database::reliable) never
/// fails and answers from [`contents`](Database::contents), which holds what
/// was put and nothing else.
pub trait Database {
    /// What a reliable store holds.
    open spec fn contents(&self) -> Map<Seq<u8>, Seq<u8>> {
        Map::empty()
    }

    /// Whether the store never fails and answers from its contents.
    open spec fn reliable(&self) -> bool {
        false
    }

    /// The value under `key`.
    fn get(&self, key: &[u8]) -> (r: Result<Vec<u8>, StoreError>)
        ensures
            self.reliable() ==> (match r {
                Ok(value) => self.contents().contains_key(key@) && value@ == self.contents()[key@],
                Err(e) => e == StoreError::NotFound && !self.contents().contains_key(key@),
            }),
    ;

    /// Whether there is a value under `key`.
    fn has(&self, key: &[u8]) -> (r: Result<bool, StoreError>)
        ensures
            self.reliable() ==> r == Ok::<bool, StoreError>(self.contents().contains_key(key@)),
    ;

    /// Puts `value` under `key`.
    fn put(&mut self, key: &[u8], value: &[u8]) -> (r: Result<(), StoreError>)
        ensures
            final(self).reliable() == old(self).reliable(),
            old(self).reliable() ==> r is Ok && final(self).contents() == old(self).contents().insert(
                key@,
                value@,
            ),
    ;
}

/// A store kept in memory. It never fails.
pub struct MemDb {
    table: Table<Vec<u8>>,
}

impl MemDb {
    /// An empty store.
    pub fn new() -> (db: MemDb)
        ensures
            db.contents() == Map::<Seq<u8>, Seq<u8>>::empty(),
            db.reliable(),
    {
        let db = MemDb { table: Table::new() };
        assert(db.contents() =~= Map::<Seq<u8>, Seq<u8>>::empty());
        db
    }
}

impl Database for MemDb {
    closed spec fn contents(&self) -> Map<Seq<u8>, Seq<u8>> {
        Map::new(|k: Seq<u8>| self.table@.contains_key(k), |k: Seq<u8>| self.table@[k]@)
    }

    open spec fn reliable(&self) -> bool {
        true
    }

    fn get(&self, key: &[u8]) -> (r: Result<Vec<u8>, StoreError>) {
        match self.table.find(key) {
            Some(value) => Ok(copy_bytes(value.as_slice())),
            None => Err(StoreError::NotFound),
        }
    }

    fn has(&self, key: &[u8]) -> (r: Result<bool, StoreError>) {
        Ok(self.table.find(key).is_some())
    }

    fn put(&mut self, key: &[u8], value: &[u8]) -> (r: Result<(), StoreError>) {
        self.table.insert(copy_bytes(key), copy_bytes(value));
        assert(self.contents() =~= old(self).contents().insert(key@, value@));
        Ok(())
    }
}

impl Default for MemDb {
    fn default() -> (db: MemDb)
        ensures
            db.contents() == Map::<Seq<u8>, Seq<u8>>::empty(),
            db.reliable(),
    {
        MemDb::new()
    }
}

} // verus!
