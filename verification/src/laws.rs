//! What holds of every database, stated over its model.
//!
//! Each operation of [`crate::Database`] is specified by a function of
//! [`DatabaseView`]; the laws below relate those functions to each other.

use vstd::prelude::*;

use crate::error::DatabaseError;
use crate::DatabaseView;

verus! {

/// A record that is not stored can always be stored, and is present afterwards.
pub proof fn lemma_added_is_contained<T>(v: DatabaseView<T>, r: T)
    requires
        !v.items.contains(r),
    ensures
        v.with_added(r) is Ok,
        v.with_added(r)->Ok_0.items.contains(r),
{
}

/// Where storing a record succeeds, removing it right after succeeds too, and
/// the record is absent afterwards. Storing succeeds unless duplicates are
/// rejected and the record is present.
pub proof fn lemma_added_then_removed<T>(v: DatabaseView<T>, r: T)
    requires
        !(v.strict_dupes && v.items.contains(r)),
    ensures
        v.with_added(r) is Ok,
        v.with_added(r)->Ok_0.with_removed(r) is Ok,
        !v.with_added(r)->Ok_0.with_removed(r)->Ok_0.items.contains(r),
{
}

/// Removing a record that is not stored fails with `ItemNotFound`; the
/// failed call changes nothing, so as many records are held as before.
pub proof fn lemma_remove_of_absent_fails<T>(v: DatabaseView<T>, r: T)
    requires
        !v.items.contains(r),
    ensures
        v.with_removed(r) == Err::<DatabaseView<T>, DatabaseError>(DatabaseError::ItemNotFound),
        v.settled(v.with_removed(r)) == v,
        v.settled(v.with_removed(r)).items.len() == v.items.len(),
{
}

/// Where duplicates are rejected, storing a record that is not stored yet
/// succeeds, storing it once more fails with `DupeFound`, and the record is
/// then held once: one record more than before.
pub proof fn lemma_strict_second_add_fails<T>(v: DatabaseView<T>, r: T)
    requires
        v.wf(),
        v.strict_dupes,
        !v.items.contains(r),
    ensures
        v.with_added(r) is Ok,
        v.with_added(r)->Ok_0.with_added(r) == Err::<DatabaseView<T>, DatabaseError>(
            DatabaseError::DupeFound,
        ),
        v.with_added(r)->Ok_0.settled(v.with_added(r)->Ok_0.with_added(r)).items == v.items.insert(
            r,
        ),
        v.items.insert(r).len() == v.items.len() + 1,
{
}

/// Where duplicates are not rejected, storing a record twice succeeds both
/// times, and the second time changes nothing: the record is held once.
pub proof fn lemma_lenient_second_add_is_idle<T>(v: DatabaseView<T>, r: T)
    requires
        v.wf(),
        !v.strict_dupes,
    ensures
        v.with_added(r) is Ok,
        v.with_added(r)->Ok_0.with_added(r) == v.with_added(r),
        v.with_added(r)->Ok_0.with_added(r)->Ok_0.items == v.items.insert(r),
        v.items.insert(r).len() == v.items.len() + if v.items.contains(r) {
            0int
        } else {
            1int
        },
{
    assert(v.items.insert(r).insert(r) =~= v.items.insert(r));
}

/// Every operation keeps a model well formed, and leaves the label, the
/// location and the policy as they were.
pub proof fn lemma_operations_keep_configuration<T>(v: DatabaseView<T>, r: T, n: T)
    requires
        v.wf(),
    ensures
        v.with_added(r) matches Ok(w) ==> w.wf() && w.label == v.label && w.save_path
            == v.save_path && w.strict_dupes == v.strict_dupes,
        v.with_removed(r) matches Ok(w) ==> w.wf() && w.label == v.label && w.save_path
            == v.save_path && w.strict_dupes == v.strict_dupes,
        v.with_updated(r, n) matches Ok(w) ==> w.wf() && w.label == v.label && w.save_path
            == v.save_path && w.strict_dupes == v.strict_dupes,
{
}

} // verus!
