//! A client-side model of INDIGO elements: each element holds its current value
//! and, while a change requested by the client awaits the server's confirmation,
//! the pending value.
use vstd::prelude::*;
use vstd::std_specs::cmp::PartialEqSpec;
use crate::error::{BusError, IndigoError};

verus! {

/// The model of the INDIGO objects a client sees.
pub struct IndigoModel {}

impl IndigoModel {
    pub fn new() -> (r: IndigoModel) {
        IndigoModel {}
    }
}

/// An element value with a pending change.
///
/// An element is dirty from a successful `request` until the `update` that
/// confirms it.
pub struct IndigoElement<T> {
    dirty: bool,
    current: T,
    pending: T,
}

/// The state of an element: its current value, the pending value and whether a
/// change is pending.
pub struct ElementView<T> {
    pub current: T,
    pub pending: T,
    pub dirty: bool,
}

impl<T> View for IndigoElement<T> {
    type V = ElementView<T>;

    closed spec fn view(&self) -> ElementView<T> {
        ElementView { current: self.current, pending: self.pending, dirty: self.dirty }
    }
}

/// Whether `a == b` is true of two values, where `T`'s `==` follows its
/// specification.
pub open spec fn spec_equal<T: PartialEq>(a: T, b: T) -> bool {
    a.eq_spec(&b)
}

/// The outcome of `request(val)` on an element in state `s`, where `T`'s `==`
/// follows its specification: a value equal to the current one is refused, as is
/// any value while a change is pending; otherwise the value becomes pending.
pub open spec fn spec_request<T: PartialEq>(
    s: ElementView<T>,
    val: T,
    r: Result<(), IndigoError>,
    t: ElementView<T>,
) -> bool {
    if spec_equal(val, s.current) {
        &&& r matches Err(IndigoError::Other(m)) && m@ == "No change from the current value."@
        &&& t == s
    } else if s.dirty {
        &&& r matches Err(IndigoError::Other(m)) && m@ == "Element is dirty."@
        &&& t == s
    } else {
        &&& r is Ok
        &&& t == (ElementView { current: s.current, pending: val, dirty: true })
    }
}

/// The outcome of `update(val)` on an element in state `s`, where `T`'s `==`
/// follows its specification: while a change is pending, only the pending value is
/// accepted; an accepted value becomes the current one and the element is clean.
pub open spec fn spec_update<T: PartialEq>(
    s: ElementView<T>,
    val: T,
    r: Result<(), IndigoError>,
    t: ElementView<T>,
) -> bool {
    if s.dirty && !spec_equal(val, s.pending) {
        &&& r == Err::<(), IndigoError>(IndigoError::Bus(BusError::Failed))
        &&& t == s
    } else {
        &&& r is Ok
        &&& t == (ElementView { current: val, pending: s.pending, dirty: false })
    }
}

impl<T: Clone + PartialEq> IndigoElement<T> {
    /// Create a new element and assign a value.
    pub fn new(val: T) -> (r: IndigoElement<T>)
        ensures
            r@.current == val,
            cloned(val, r@.pending),
            !r@.dirty,
    {
        let p = val.clone();
        IndigoElement { dirty: false, current: val, pending: p }
    }

    /// Get the element value.
    pub fn get(&self) -> (r: T)
        ensures
            cloned(self@.current, r),
    {
        self.current.clone()
    }

    /// Return `true` if a new value is requested but has not yet been confirmed by the server.
    pub fn dirty(&self) -> (r: bool)
        ensures
            r == self@.dirty,
    {
        self.dirty
    }

    /// Request an update of the element value; returns an error if the value is the
    /// current one or if the element is dirty.
    pub fn request(&mut self, val: T) -> (r: Result<(), IndigoError>)
        ensures
            T::obeys_eq_spec() ==> spec_request(old(self)@, val, r, final(self)@),
            r is Ok ==> final(self)@ == (ElementView { current: old(self)@.current, pending: val, dirty: true }),
            r is Err ==> final(self)@ == old(self)@,
    {
        if val == self.current {
            return Err(IndigoError::Other("No change from the current value.".to_owned()));
        }
        if self.dirty {
            return Err(IndigoError::Other("Element is dirty.".to_owned()));
        }
        self.pending = val;
        self.dirty = true;
        Ok(())
    }

    /// Update the element with a new value. If the element is dirty, the update is
    /// expected to match the pending value; should this not be the case,
    /// `IndigoError::Bus(BusError::Failed)` is returned.
    pub fn update(&mut self, val: T) -> (r: Result<(), IndigoError>)
        ensures
            T::obeys_eq_spec() ==> spec_update(old(self)@, val, r, final(self)@),
            r is Ok ==> final(self)@ == (ElementView { current: val, pending: old(self)@.pending, dirty: false }),
            r is Err ==> final(self)@ == old(self)@,
    {
        if self.dirty && val != self.pending {
            return Err(IndigoError::Bus(BusError::Failed));
        }
        self.current = val;
        self.dirty = false;
        Ok(())
    }
}

/// A requested change that the server confirms with the same value becomes the
/// element's value, and the element is clean again; where equal values compare
/// equal.
pub proof fn lemma_request_then_confirm<T: PartialEq>(
    s0: ElementView<T>,
    s1: ElementView<T>,
    s2: ElementView<T>,
    val: T,
    r2: Result<(), IndigoError>,
)
    requires
        spec_request(s0, val, Ok(()), s1),
        spec_update(s1, val, r2, s2),
        spec_equal(val, val),
    ensures
        r2 is Ok,
        s2.current == val,
        !s2.dirty,
{
}

/// A refused request leaves the element as it was, and so does a refused update.
pub proof fn lemma_refusals_change_nothing<T: PartialEq>(
    s: ElementView<T>,
    val: T,
    r: Result<(), IndigoError>,
    t: ElementView<T>,
)
    ensures
        spec_request(s, val, r, t) && r is Err ==> t == s,
        spec_update(s, val, r, t) && r is Err ==> t == s,
{
}

} // verus!
