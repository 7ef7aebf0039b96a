//! Small general-purpose carriers.

use vstd::prelude::*;

verus! {

/// Either one value or many; lets a caller hand over a single item where a
/// list is accepted.
#[derive(Debug, Clone, PartialEq, Eq)]
pub enum SingleOrMultiple<T> {
    Single(T),
    Multiple(Vec<T>),
}

impl<T> SingleOrMultiple<T> {
    /// The carried values in order, a single value being a list of one.
    pub open spec fn as_seq(self) -> Seq<T> {
        match self {
            SingleOrMultiple::Single(item) => seq![item],
            SingleOrMultiple::Multiple(items) => items@,
        }
    }

    /// Collects a list of values.
    pub fn from_iter(items: Vec<T>) -> (r: Self)
        ensures
            r == SingleOrMultiple::Multiple(items),
    {
        SingleOrMultiple::Multiple(items)
    }

    /// Wraps one value.
    pub fn from_single(item: T) -> (r: Self)
        ensures
            r == SingleOrMultiple::Single(item),
    {
        SingleOrMultiple::Single(item)
    }

    /// Hands the carried values out as a list.
    pub fn into_vec(self) -> (r: Vec<T>)
        ensures
            r@ == self.as_seq(),
    {
        match self {
            SingleOrMultiple::Single(item) => {
                let mut items = Vec::new();
                items.push(item);
                items
            },
            SingleOrMultiple::Multiple(items) => items,
        }
    }
}

impl<T> From<T> for SingleOrMultiple<T> {
    /// One value wraps as `Single`.
    fn from(item: T) -> (r: Self) {
        SingleOrMultiple::Single(item)
    }
}

impl<T> vstd::std_specs::convert::FromSpecImpl<T> for SingleOrMultiple<T> {
    open spec fn obeys_from_spec() -> bool {
        true
    }

    open spec fn from_spec(item: T) -> Self {
        SingleOrMultiple::Single(item)
    }
}

impl<T> From<Vec<T>> for SingleOrMultiple<T> {
    /// A list of values wraps as `Multiple`.
    fn from(items: Vec<T>) -> (r: Self) {
        SingleOrMultiple::Multiple(items)
    }
}

impl<T> vstd::std_specs::convert::FromSpecImpl<Vec<T>> for SingleOrMultiple<T> {
    open spec fn obeys_from_spec() -> bool {
        true
    }

    open spec fn from_spec(items: Vec<T>) -> Self {
        SingleOrMultiple::Multiple(items)
    }
}

} // verus!
