//! A named source of events of one type.

use vstd::prelude::*;
use vstd::string::*;
use std::marker::PhantomData;

verus! {

/// A source of events that carry a `T`.
pub struct EventEmitter<T> {
    name: String,
    _phantom: PhantomData<T>,
}

impl<T> EventEmitter<T> {
    /// The name of the source.
    pub closed spec fn view(&self) -> Seq<char> {
        self.name@
    }

    /// A source with the given name.
    pub fn new(name: &str) -> (emitter: EventEmitter<T>)
        ensures
            emitter@ == name@,
    {
        EventEmitter { name: name.to_owned(), _phantom: PhantomData }
    }

    /// The name of the source.
    pub fn name(&self) -> (name: &str)
        ensures
            name@ == self@,
    {
        self.name.as_str()
    }
}

} // verus!
