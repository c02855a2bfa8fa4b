use std::marker::PhantomData;
use vstd::prelude::*;

pub mod laws;

verus! {

/// Read and write access to a value of type `T` that an implementing type
/// either always holds or never holds.
pub trait Toggle<T> {
    /// The value held, or `None` for a type that holds none.
    spec fn held(&self) -> Option<T>;

    /// A shared reference to the value held, if any.
    fn as_ref(&self) -> (r: Option<&T>)
        ensures
            yields(self.held(), r),
    ;

    /// An exclusive reference to the value held, if any. What is written
    /// through it is what the instance holds once the reference is gone.
    fn as_mut(&mut self) -> (r: Option<&mut T>)
        ensures
            lends(old(self).held(), r),
            final(self).held() == (match r {
                Some(x) => Some(*final(x)),
                None => None,
            }),
    ;
}

/// `r` is what a shared accessor yields for the model `held`: the same
/// value where one is held, nothing where none is.
pub open spec fn yields<T>(held: Option<T>, r: Option<&T>) -> bool {
    match held {
        Some(v) => r is Some && *r->0 == v,
        None => r is None,
    }
}

/// `r` is what an exclusive accessor yields for the model `held`: a
/// reference to the same value where one is held, nothing where none is.
pub open spec fn lends<T>(held: Option<T>, r: Option<&mut T>) -> bool {
    match held {
        Some(v) => r is Some && *r->0 == v,
        None => r is None,
    }
}

/// A toggle that holds no value; it carries only its type parameter.
pub struct Disable<T> {
    _marker: PhantomData<T>,
}

/// Another name for `Disable`.
pub type Disabled<T> = Disable<T>;

impl<T> Disable<T> {
    /// A toggle for `T` that holds nothing.
    pub fn new() -> (r: Disable<T>)
        ensures
            r.held() is None,
    {
        Disable { _marker: PhantomData }
    }
}

impl<T> Toggle<T> for Disable<T> {
    open spec fn held(&self) -> Option<T> {
        None
    }

    fn as_ref(&self) -> (r: Option<&T>) {
        None
    }

    fn as_mut(&mut self) -> (r: Option<&mut T>) {
        None
    }
}

impl<T: Clone> Clone for Disable<T> {
    /// Another empty toggle; nothing is copied.
    fn clone(&self) -> (r: Disable<T>)
        ensures
            r == *self,
    {
        Disable { _marker: PhantomData }
    }
}

impl<T: Copy> Copy for Disable<T> {}

/// A toggle that owns exactly one value of type `T`.
pub struct Enable<T> {
    value: T,
}

/// Another name for `Enable`.
pub type Enabled<T> = Enable<T>;

impl<T> Enable<T> {
    /// The value owned.
    pub closed spec fn value(&self) -> T {
        self.value
    }

    /// A toggle that takes ownership of `value` and holds it.
    pub fn new(value: T) -> (r: Enable<T>)
        ensures
            r.value() == value,
    {
        Enable { value: value }
    }
}

impl<T> Toggle<T> for Enable<T> {
    open spec fn held(&self) -> Option<T> {
        Some(self.value())
    }

    fn as_ref(&self) -> (r: Option<&T>) {
        Some(&self.value)
    }

    fn as_mut(&mut self) -> (r: Option<&mut T>) {
        Some(&mut self.value)
    }
}

impl<T: Clone> Clone for Enable<T> {
    /// The copy owns a duplicate of the value, made by `T`'s own `clone`.
    fn clone(&self) -> (r: Enable<T>)
        ensures
            vstd::pervasive::strictly_cloned(self.value(), r.value()),
    {
        Enable { value: self.value.clone() }
    }
}

impl<T: Copy> Copy for Enable<T> {}

} // verus!
