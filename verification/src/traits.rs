//! Small conversions between database results and collections.

use vstd::prelude::*;

verus! {

/// Builds a value from a database result.
pub trait FromDbResult<T>: Sized {
    fn from_db_result(value: T) -> Self;
}

impl<T> FromDbResult<Option<T>> for Vec<T> {
    /// No row gives an empty list, one row a list of it.
    fn from_db_result(value: Option<T>) -> (r: Self)
        ensures
            r@ == (match value {
                Some(x) => seq![x],
                None => Seq::<T>::empty(),
            }),
    {
        let mut v: Vec<T> = Vec::new();
        match value {
            Some(x) => v.push(x),
            None => {},
        }
        v
    }
}

impl<T> FromDbResult<Vec<T>> for Option<T> {
    /// The first row, if any.
    fn from_db_result(value: Vec<T>) -> (r: Self)
        ensures
            r == (if value@.len() > 0 {
                Some(value@[0])
            } else {
                None::<T>
            }),
    {
        let mut value = value;
        if value.len() > 0 {
            Some(value.swap_remove(0))
        } else {
            None
        }
    }
}

/// Removal from a vector that reports an index out of range instead of panicking.
pub trait VecExt<T> {
    fn try_swap_remove(&mut self, index: usize) -> Option<T>;
}

impl<T> VecExt<T> for Vec<T> {
    /// Removes the element at `index`, moving the last element into its
    /// place; nothing when `index` is out of range.
    fn try_swap_remove(&mut self, index: usize) -> (r: Option<T>)
        ensures
            index < old(self)@.len() ==> r == Some(old(self)@[index as int]) && final(self)@
                == old(self)@.update(index as int, old(self)@.last()).drop_last(),
            index >= old(self)@.len() ==> r is None && final(self)@ == old(self)@,
    {
        if index < self.len() {
            Some(self.swap_remove(index))
        } else {
            None
        }
    }
}

} // verus!
