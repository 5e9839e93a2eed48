//! A small in-memory record store: an unordered set of records, unique by
//! identity, with an optional policy that rejects duplicates.
//!
//! A [`Database`] is modelled by a [`DatabaseView`]: its three configuration
//! values and the mathematical set of its records. Each operation states, over
//! that model, what it returns and what it leaves behind.

use std::collections::HashSet;
use std::hash::Hash;
use vstd::prelude::*;
use vstd::std_specs::hash::{obeys_key_model, spec_hash_keys_iter};
use vstd::std_specs::iter::IteratorSpec;

pub mod error;
pub mod laws;
pub mod persist;

use crate::error::DatabaseError;

verus! {

/// What follows the label in the name of the file that a database without an
/// explicit location is persisted to.
pub const DEFAULT_EXTENSION: &'static str = ".tinydb";

/// What a [`Database`] stands for: its configuration and the set of its records.
#[verifier::reject_recursive_types(T)]
pub struct DatabaseView<T> {
    pub label: Seq<char>,
    pub save_path: Option<Seq<char>>,
    pub strict_dupes: bool,
    pub items: Set<T>,
}

impl<T> DatabaseView<T> {
    /// A model is well formed when it holds finitely many records.
    pub open spec fn wf(self) -> bool {
        self.items.finite()
    }

    /// Storing `item`: refused where duplicates are rejected and the record is
    /// present already; otherwise the record is present afterwards.
    pub open spec fn with_added(self, item: T) -> Result<Self, DatabaseError> {
        if self.strict_dupes && self.items.contains(item) {
            Err(DatabaseError::DupeFound)
        } else {
            Ok(DatabaseView { items: self.items.insert(item), ..self })
        }
    }

    /// Removing `item`: refused where the record is absent.
    pub open spec fn with_removed(self, item: T) -> Result<Self, DatabaseError> {
        if self.items.contains(item) {
            Ok(DatabaseView { items: self.items.remove(item), ..self })
        } else {
            Err(DatabaseError::ItemNotFound)
        }
    }

    /// The model that a call leaves behind: the new one where the call went
    /// through, and the one it began with where it failed.
    pub open spec fn settled(self, outcome: Result<Self, DatabaseError>) -> Self {
        match outcome {
            Ok(v) => v,
            Err(_) => self,
        }
    }

    /// Where the database is persisted: the explicit location where one is
    /// set, else the label followed by the default extension.
    pub open spec fn resolved_path(self) -> Seq<char> {
        match self.save_path {
            Some(p) => p,
            None => self.label + DEFAULT_EXTENSION@,
        }
    }

    /// Replacing `item` by `new`: refused where `item` is absent, and, where
    /// duplicates are rejected, where `new` is another record that is present.
    pub open spec fn with_updated(self, item: T, new: T) -> Result<Self, DatabaseError> {
        if !self.items.contains(item) {
            Err(DatabaseError::ItemNotFound)
        } else if self.strict_dupes && new != item && self.items.contains(new) {
            Err(DatabaseError::DupeFound)
        } else {
            Ok(DatabaseView { items: self.items.remove(item).insert(new), ..self })
        }
    }
}

/// What a call returns, given what it made of the model.
pub open spec fn verdict<T>(outcome: Result<DatabaseView<T>, DatabaseError>) -> Result<
    (),
    DatabaseError,
> {
    match outcome {
        Ok(_) => Ok(()),
        Err(e) => Err(e),
    }
}

/// The record store. `T` is the record type; its `Hash` and `Eq` must agree
/// with each other and with the identity of its values, which
/// `obeys_key_model::<T>()` states.
pub struct Database<T: Hash + Eq> {
    /// Name of the database; the default file name is derived from it.
    pub label: String,
    /// Where to persist to, where that is not the default location.
    pub save_path: Option<String>,
    /// Whether storing a record that is already present is an error.
    pub strict_dupes: bool,
    items: HashSet<T>,
}

impl<T: Hash + Eq> View for Database<T> {
    type V = DatabaseView<T>;

    closed spec fn view(&self) -> DatabaseView<T> {
        DatabaseView {
            label: self.label@,
            save_path: self.save_path.deep_view(),
            strict_dupes: self.strict_dupes,
            items: self.items@,
        }
    }
}

/// Whether the projection `value` can give, for the record `t`, a result whose
/// comparison with `query` can come out as `hit`.
pub open spec fn judged<T, Q: PartialEq, F: Fn(&T) -> Q>(
    value: F,
    query: Q,
    t: T,
    hit: bool,
) -> bool {
    exists|q: Q| call_ensures(value, (&t,), q) && call_ensures(Q::eq, (&q, &query), hit)
}

impl<T: Hash + Eq> Database<T> {
    /// Every database holds finitely many records.
    pub proof fn lemma_view_wf(&self)
        ensures
            self@.wf(),
    {
        let all = spec_hash_keys_iter(&self.items).remaining().unref();
        assert(all.to_set() == self.items@);
        vstd::seq_lib::seq_to_set_is_finite(all);
    }

    /// A database without records. Nothing is read or written.
    pub fn new(label: String, save_path: Option<String>, strict_dupes: bool) -> (db: Self)
        ensures
            db@ == (DatabaseView {
                label: label@,
                save_path: save_path.deep_view(),
                strict_dupes,
                items: Set::<T>::empty(),
            }),
    {
        Database { label, save_path, strict_dupes, items: HashSet::new() }
    }

    /// A database that holds the given records, as one that was persisted
    /// earlier is put together again. Nothing is read or written.
    pub fn from_parts(
        label: String,
        save_path: Option<String>,
        strict_dupes: bool,
        items: HashSet<T>,
    ) -> (db: Self)
        ensures
            db@ == (DatabaseView {
                label: label@,
                save_path: save_path.deep_view(),
                strict_dupes,
                items: items@,
            }),
    {
        Database { label, save_path, strict_dupes, items }
    }

    /// Takes a database apart into its label, its location, its policy and
    /// its records: what [`Database::from_parts`] puts together.
    pub fn into_parts(self) -> (parts: (String, Option<String>, bool, HashSet<T>))
        ensures
            self@ == (DatabaseView {
                label: parts.0@,
                save_path: parts.1.deep_view(),
                strict_dupes: parts.2,
                items: parts.3@,
            }),
    {
        (self.label, self.save_path, self.strict_dupes, self.items)
    }

    /// Stores `item`. Under `strict_dupes` a record that is already present is
    /// refused with [`DatabaseError::DupeFound`] and the database stays as it was;
    /// otherwise the call succeeds, and the record is present afterwards.
    pub fn add_item(&mut self, item: T) -> (res: Result<(), DatabaseError>)
        requires
            obeys_key_model::<T>(),
        ensures
            res == verdict(old(self)@.with_added(item)),
            final(self)@ == old(self)@.settled(old(self)@.with_added(item)),
    {
        if self.strict_dupes {
            if self.items.contains(&item) {
                return Err(DatabaseError::DupeFound);
            }
        }
        self.items.insert(item);
        Ok(())
    }

    /// Replaces the record equal to `item` by `new`. Where `item` is not stored
    /// the call fails with [`DatabaseError::ItemNotFound`]; where duplicates are
    /// rejected and `new` is another record that is stored already, with
    /// [`DatabaseError::DupeFound`]. A failed call leaves the database as it was.
    pub fn update_item(&mut self, item: T, new: T) -> (res: Result<(), DatabaseError>)
        requires
            obeys_key_model::<T>(),
        ensures
            res == verdict(old(self)@.with_updated(item, new)),
            final(self)@ == old(self)@.settled(old(self)@.with_updated(item, new)),
    {
        if !self.items.remove(&item) {
            assert(self.items@ =~= old(self).items@);
            return Err(DatabaseError::ItemNotFound);
        }
        if self.strict_dupes && self.items.contains(&new) {
            self.items.insert(item);
            assert(self.items@ =~= old(self).items@);
            return Err(DatabaseError::DupeFound);
        }
        self.items.insert(new);
        Ok(())
    }

    /// Removes the record equal to `item`. Where none is stored the call fails
    /// with [`DatabaseError::ItemNotFound`] and the database stays as it was.
    pub fn remove_item(&mut self, item: T) -> (res: Result<(), DatabaseError>)
        requires
            obeys_key_model::<T>(),
        ensures
            res == verdict(old(self)@.with_removed(item)),
            final(self)@ == old(self)@.settled(old(self)@.with_removed(item)),
    {
        if self.items.remove(&item) {
            Ok(())
        } else {
            assert(self.items@ =~= old(self).items@);
            Err(DatabaseError::ItemNotFound)
        }
    }

    /// The records, for reading only.
    pub fn read_db(&self) -> (items: &HashSet<T>)
        ensures
            items@ == self@.items,
    {
        &self.items
    }

    /// Looks through the records for one whose projection by `value` equals
    /// `query`, and hands out the first it meets. The records have no order, so
    /// where several match, any of them may be the one. Where none matches the
    /// call fails with [`DatabaseError::ItemNotFound`].
    pub fn query_item<Q: PartialEq, F: Fn(&T) -> Q>(&self, value: F, query: Q) -> (res: Result<
        &T,
        DatabaseError,
    >)
        requires
            obeys_key_model::<T>(),
            forall|t: T| self@.items.contains(t) ==> call_requires(value, (&t,)),
        ensures
            match res {
                Ok(r) => self@.items.contains(*r) && judged(value, query, *r, true),
                Err(e) => e == DatabaseError::ItemNotFound && forall|t: T|
                    self@.items.contains(t) ==> judged(value, query, t, false),
            },
    {
        let ghost all: Seq<T> = spec_hash_keys_iter(&self.items).remaining().unref();
        for item in iter: self.items.iter()
            invariant
                iter.seq().unref() == all,
                all.to_set() == self.items@,
                forall|t: T| self@.items.contains(t) ==> call_requires(value, (&t,)),
                forall|i: int|
                    0 <= i < iter.index() ==> judged(value, query, #[trigger] all[i], false),
        {
            assert(all[iter.index()] == *item);
            assert(self@.items.contains(*item));
            let q = value(item);
            if q == query {
                return Ok(item);
            }
        }
        assert forall|t: T| self@.items.contains(t) implies judged(value, query, t, false) by {
            let i = choose|i: int| 0 <= i < all.len() && all[i] == t;
            assert(judged(value, query, all[i], false));
        }
        Err(DatabaseError::ItemNotFound)
    }

    /// The location to persist to: `save_path` where it is set, else the label
    /// followed by [`DEFAULT_EXTENSION`].
    pub fn smart_path_get(&self) -> (path: String)
        ensures
            path@ == self@.resolved_path(),
    {
        match &self.save_path {
            Some(p) => p.clone(),
            None => self.label.clone().concat(DEFAULT_EXTENSION),
        }
    }

    /// The location to persist to, for a caller that may do without the
    /// default: with `fallback` it is that of [`Database::smart_path_get`];
    /// without, a database that has no `save_path` is refused with
    /// [`DatabaseError::SavePathRequired`].
    pub fn resolve_path(&self, fallback: bool) -> (res: Result<String, DatabaseError>)
        ensures
            fallback || self@.save_path is Some ==> res is Ok && res->Ok_0@
                == self@.resolved_path(),
            !fallback && self@.save_path is None ==> res == Err::<String, DatabaseError>(
                DatabaseError::SavePathRequired,
            ),
    {
        if !fallback && self.save_path.is_none() {
            return Err(DatabaseError::SavePathRequired);
        }
        Ok(self.smart_path_get())
    }

    /// Whether a record equal to `query` is stored.
    pub fn contains(&self, query: &T) -> (found: bool)
        requires
            obeys_key_model::<T>(),
        ensures
            found == self@.items.contains(*query),
    {
        self.items.contains(query)
    }
}

} // verus!
