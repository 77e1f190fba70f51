//! Driver registration and lifecycle management.
//!
//! The registry holds each driver with its information, its context and whether it
//! is attached, and decides each step of a driver's lifecycle. The calls into the
//! drivers themselves, which are asynchronous, are made by the runtime between a
//! step and its completion: a step names the slot of the driver to call, the
//! runtime borrows the driver and its context with `slot_mut`, and reports the
//! outcome back.
use vstd::prelude::*;
use crate::error::IndigoError;
use crate::keyed::{
    keyed_map, keys_of, lemma_keyed_map_at, lemma_keyed_map_dom, lemma_keyed_map_len,
    lemma_keyed_map_push, lemma_keyed_map_remove, lemma_keyed_map_update, lemma_named_keys,
    lemma_named_push, lemma_named_remove, lemma_named_update, name_texts, named_entries,
};
use crate::text::str_equals;
use super::context::{ContextView, DeviceContext};
use super::driver::{DriverInfo, InfoView};
use super::property_manager::ManagerView;

verus! {

/// What the registry holds of one driver: the driver itself, its information, its
/// context and whether it is attached.
pub struct SlotView<D> {
    pub driver: D,
    pub info: InfoView,
    pub context: ContextView,
    pub attached: bool,
}

/// The registered drivers by name.
pub type RegistryView<D> = Map<Seq<char>, SlotView<D>>;

/// The context a driver gets when it registers: its device's empty property
/// manager, not connected.
pub open spec fn fresh_context(name: Seq<char>) -> ContextView {
    ContextView {
        properties: ManagerView { device_name: name, properties: Map::empty(), pending: Seq::empty() },
        connected: false,
    }
}

/// Entry in the driver registry
struct DriverSlot<D> {
    driver: D,
    info: DriverInfo,
    context: DeviceContext,
    attached: bool,
}

impl<D> View for DriverSlot<D> {
    type V = SlotView<D>;

    closed spec fn view(&self) -> SlotView<D> {
        SlotView { driver: self.driver, info: self.info@, context: self.context@, attached: self.attached }
    }
}

/// The registered drivers: each name with the slot at the same place.
struct DriverTable<D> {
    names: Vec<String>,
    slots: Vec<DriverSlot<D>>,
}

/// Registry for managing device driver lifecycle.
///
/// The DriverRegistry handles registration, attachment, detachment,
/// and routing of property changes to the appropriate drivers. Each name stands
/// for at most one driver.
pub struct DriverRegistry<D> {
    table: DriverTable<D>,
}

impl<D> View for DriverRegistry<D> {
    type V = RegistryView<D>;

    closed spec fn view(&self) -> RegistryView<D> {
        keyed_map(self.entries())
    }
}

impl<D> DriverRegistry<D> {
    #[verifier::type_invariant]
    spec fn names_distinct(self) -> bool {
        &&& self.table.names@.len() == self.table.slots@.len()
        &&& name_texts(self.table.names@).no_duplicates()
    }

    /// The registered drivers as entries keyed by name.
    closed spec fn entries(&self) -> Seq<(Seq<char>, SlotView<D>)> {
        named_entries(self.table.names@, self.table.slots@)
    }

    /// The order in which the registry holds the driver names; a slot is a place
    /// in it.
    pub closed spec fn name_order(&self) -> Seq<Seq<char>> {
        keys_of(self.entries())
    }

    /// Where the driver `name` is held, if it is.
    fn find(&self, name: &str) -> (r: Option<usize>)
        ensures
            match r {
                Some(i) => {
                    &&& i < self.name_order().len()
                    &&& self.name_order()[i as int] == name@
                    &&& self@.contains_key(name@)
                    &&& self@[name@] == self.entries()[i as int].1
                },
                None => !self@.contains_key(name@),
            },
    {
        proof {
            use_type_invariant(self);
            lemma_named_keys(self.table.names@, self.table.slots@);
        }
        let mut i: usize = 0;
        while i < self.table.names.len()
            invariant
                i <= self.table.names@.len(),
                self.table.names@.len() == self.table.slots@.len(),
                forall|j: int| 0 <= j < i ==> self.table.names@[j]@ != name@,
            decreases self.table.names.len() - i,
        {
            if str_equals(self.table.names[i].as_str(), name) {
                proof {
                    use_type_invariant(self);
                    lemma_named_keys(self.table.names@, self.table.slots@);
                    lemma_keyed_map_at(self.entries(), i as int);
                }
                return Some(i);
            }
            i = i + 1;
        }
        proof {
            lemma_keyed_map_dom(self.entries());
            if keys_of(self.entries()).contains(name@) {
                let j = choose|j: int| 0 <= j < keys_of(self.entries()).len() && keys_of(self.entries())[j] == name@;
                assert(self.table.names@[j]@ == name@);
            }
        }
        None
    }

    /// Create a new empty registry
    pub fn new() -> (r: DriverRegistry<D>)
        ensures
            r@ == RegistryView::<D>::empty(),
    {
        let r = DriverRegistry { table: DriverTable { names: Vec::new(), slots: Vec::new() } };
        assert(r.entries() =~= Seq::<(Seq<char>, SlotView<D>)>::empty());
        assert(name_texts(r.table.names@) =~= Seq::<Seq<char>>::empty());
        assert(keyed_map(r.entries()) =~= RegistryView::<D>::empty());
        r
    }

    /// Register a device driver under the name in its information, with a fresh
    /// context. The driver is not yet attached.
    pub fn register(&mut self, driver: D, info: DriverInfo) -> (r: Result<(), IndigoError>)
        ensures
            old(self)@.dom().finite(),
            final(self)@.dom().finite(),
            old(self)@.contains_key(info.name@) ==> {
                &&& r matches Err(IndigoError::DriverAlreadyRegistered(n)) && n@ == info.name@
                &&& final(self)@ == old(self)@
            },
            !old(self)@.contains_key(info.name@) ==> {
                &&& r is Ok
                &&& final(self)@ == old(self)@.insert(
                    info.name@,
                    SlotView { driver, info: info@, context: fresh_context(info.name@), attached: false },
                )
            },
    {
        proof {
            use_type_invariant(&*self);
            lemma_named_keys(self.table.names@, self.table.slots@);
            lemma_keyed_map_dom(self.entries());
        }
        if let Some(_) = self.find(info.name.as_str()) {
            return Err(IndigoError::DriverAlreadyRegistered(info.name.clone()));
        }
        let context = DeviceContext::new(info.name.as_str());
        let key = info.name.clone();
        let slot = DriverSlot { driver, info, context, attached: false };
        let ghost before = self.entries();
        let ghost sv = slot@;
        proof {
            lemma_keyed_map_dom(before);
            lemma_keyed_map_push(before, key@, sv);
        }
        let mut table = DriverTable { names: Vec::new(), slots: Vec::new() };
        std::mem::swap(&mut table, &mut self.table);
        let ghost names0 = table.names@;
        let ghost slots0 = table.slots@;
        table.names.push(key);
        table.slots.push(slot);
        proof {
            lemma_named_push(names0, slots0, table.names@.last(), table.slots@.last());
            assert(table.names@ == names0.push(table.names@.last()));
            assert(table.slots@ == slots0.push(table.slots@.last()));
            lemma_named_keys(table.names@, table.slots@);
        }
        std::mem::swap(&mut table, &mut self.table);
        Ok(())
    }

    /// The slot of a registered driver that is not attached: the step before
    /// attaching it.
    pub fn detached_slot(&self, name: &str) -> (r: Result<usize, IndigoError>)
        ensures
            !self@.contains_key(name@) ==> (r matches Err(IndigoError::DriverNotFound(n)) && n@ == name@),
            self@.contains_key(name@) && self@[name@].attached ==> (r matches Err(
                IndigoError::DriverAlreadyAttached(n),
            ) && n@ == name@),
            self@.contains_key(name@) && !self@[name@].attached ==> (r matches Ok(i) && i
                < self.name_order().len() && self.name_order()[i as int] == name@),
    {
        match self.find(name) {
            None => Err(IndigoError::DriverNotFound(name.to_owned())),
            Some(i) => {
                if self.table.slots[i].attached {
                    Err(IndigoError::DriverAlreadyAttached(name.to_owned()))
                } else {
                    Ok(i)
                }
            },
        }
    }

    /// The slot of a registered driver that is attached: the step before detaching
    /// it or handing it a property change.
    pub fn attached_slot(&self, name: &str) -> (r: Result<usize, IndigoError>)
        ensures
            !self@.contains_key(name@) ==> (r matches Err(IndigoError::DriverNotFound(n)) && n@ == name@),
            self@.contains_key(name@) && !self@[name@].attached ==> (r matches Err(
                IndigoError::DriverNotAttached(n),
            ) && n@ == name@),
            self@.contains_key(name@) && self@[name@].attached ==> (r matches Ok(i) && i
                < self.name_order().len() && self.name_order()[i as int] == name@),
    {
        match self.find(name) {
            None => Err(IndigoError::DriverNotFound(name.to_owned())),
            Some(i) => {
                if self.table.slots[i].attached {
                    Ok(i)
                } else {
                    Err(IndigoError::DriverNotAttached(name.to_owned()))
                }
            },
        }
    }

    /// The driver and the context of a slot, for the runtime to call the driver.
    /// What the driver does to its context stays in the registry.
    pub fn slot_mut(&mut self, i: usize) -> (r: (&mut D, &mut DeviceContext))
        requires
            i < old(self).name_order().len(),
        ensures
            *r.0 == old(self)@[old(self).name_order()[i as int]].driver,
            (*r.1)@ == old(self)@[old(self).name_order()[i as int]].context,
            final(self).name_order() == old(self).name_order(),
            final(self)@ == old(self)@.insert(
                old(self).name_order()[i as int],
                SlotView {
                    driver: *final(r.0),
                    context: (*final(r.1))@,
                    ..old(self)@[old(self).name_order()[i as int]]
                },
            ),
    {
        proof {
            use_type_invariant(&*self);
            lemma_named_keys(self.table.names@, self.table.slots@);
            lemma_keyed_map_at(self.entries(), i as int);
        }
        let ghost before = self.entries();
        let ghost names = self.table.names@;
        let ghost slots = self.table.slots@;
        proof {
            assert forall|x: DriverSlot<D>| #[trigger] keyed_map(named_entries(names, slots.update(i as int, x)))
                == keyed_map(before).insert(names[i as int]@, x@) by {
                lemma_named_update(names, slots, i as int, x);
                lemma_keyed_map_update(before, i as int, x@);
            }
        }
        let slot = &mut self.table.slots[i];
        let r = (&mut slot.driver, &mut slot.context);
        r
    }

    /// Records the outcome of attaching the driver of a slot: an attached driver
    /// stays attached; the outcome is handed back.
    pub fn complete_attach(&mut self, i: usize, outcome: Result<(), IndigoError>) -> (r: Result<(), IndigoError>)
        requires
            i < old(self).name_order().len(),
        ensures
            r == outcome,
            final(self).name_order() == old(self).name_order(),
            outcome is Ok ==> final(self)@ == old(self)@.insert(
                old(self).name_order()[i as int],
                SlotView { attached: true, ..old(self)@[old(self).name_order()[i as int]] },
            ),
            outcome is Err ==> final(self)@ == old(self)@,
    {
        if outcome.is_ok() {
            self.set_attached(i, true);
        }
        outcome
    }

    /// Records the outcome of detaching the driver of a slot: a detached driver is
    /// no longer attached; the outcome is handed back.
    pub fn complete_detach(&mut self, i: usize, outcome: Result<(), IndigoError>) -> (r: Result<(), IndigoError>)
        requires
            i < old(self).name_order().len(),
        ensures
            r == outcome,
            final(self).name_order() == old(self).name_order(),
            outcome is Ok ==> final(self)@ == old(self)@.insert(
                old(self).name_order()[i as int],
                SlotView { attached: false, ..old(self)@[old(self).name_order()[i as int]] },
            ),
            outcome is Err ==> final(self)@ == old(self)@,
    {
        if outcome.is_ok() {
            self.set_attached(i, false);
        }
        outcome
    }

    fn set_attached(&mut self, i: usize, attached: bool)
        requires
            i < old(self).name_order().len(),
        ensures
            final(self).name_order() == old(self).name_order(),
            final(self)@ == old(self)@.insert(
                old(self).name_order()[i as int],
                SlotView { attached, ..old(self)@[old(self).name_order()[i as int]] },
            ),
    {
        proof {
            use_type_invariant(&*self);
            lemma_named_keys(self.table.names@, self.table.slots@);
            lemma_keyed_map_at(self.entries(), i as int);
        }
        let ghost before = self.entries();
        let ghost names = self.table.names@;
        let ghost slots = self.table.slots@;
        let slot = &mut self.table.slots[i];
        slot.attached = attached;
        proof {
            let fin = DriverSlot {
                driver: slots[i as int].driver,
                info: slots[i as int].info,
                context: slots[i as int].context,
                attached,
            };
            lemma_named_update(names, slots, i as int, fin);
            lemma_keyed_map_update(before, i as int, fin@);
            lemma_named_keys(names, slots.update(i as int, fin));
        }
    }

    /// The names of all registered drivers, in the registry's order.
    pub fn names(&self) -> (r: Vec<String>)
        ensures
            name_texts(r@) == self.name_order(),
            self.name_order().no_duplicates(),
            forall|k: Seq<char>| #[trigger] self@.contains_key(k) <==> self.name_order().contains(k),
    {
        proof {
            use_type_invariant(self);
            lemma_named_keys(self.table.names@, self.table.slots@);
            lemma_keyed_map_dom(self.entries());
        }
        let mut r: Vec<String> = Vec::new();
        let mut i: usize = 0;
        while i < self.table.names.len()
            invariant
                i <= self.table.names@.len(),
                name_texts(r@) == name_texts(self.table.names@).take(i as int),
            decreases self.table.names.len() - i,
        {
            let ghost old_r = r@;
            r.push(self.table.names[i].clone());
            proof {
                assert(r@ == old_r.push(self.table.names@[i as int]));
                assert(name_texts(r@) =~= name_texts(old_r).push(self.table.names@[i as int]@));
                assert(name_texts(r@) =~= name_texts(self.table.names@).take(i + 1));
            }
            i = i + 1;
        }
        proof {
            assert(name_texts(self.table.names@).take(i as int) =~= name_texts(self.table.names@));
        }
        r
    }

    /// The names of the attached drivers, in the registry's order.
    pub fn attached_names(&self) -> (r: Vec<String>)
        ensures
            name_texts(r@) == attached_in(self.name_order(), self@),
    {
        proof {
            use_type_invariant(self);
            lemma_named_keys(self.table.names@, self.table.slots@);
        }
        let mut r: Vec<String> = Vec::new();
        let mut i: usize = 0;
        while i < self.table.names.len()
            invariant
                i <= self.table.names@.len(),
                self.table.names@.len() == self.table.slots@.len(),
                name_texts(self.table.names@).no_duplicates(),
                name_texts(r@) == attached_in(name_texts(self.table.names@).take(i as int), self@),
            decreases self.table.names.len() - i,
        {
            let ghost order = name_texts(self.table.names@);
            proof {
                lemma_named_keys(self.table.names@, self.table.slots@);
                lemma_keyed_map_at(self.entries(), i as int);
                assert(order.take(i + 1).drop_last() =~= order.take(i as int));
            }
            if self.table.slots[i].attached {
                r.push(self.table.names[i].clone());
                proof {
                    assert(name_texts(r@) =~= attached_in(order.take(i as int), self@).push(order[i as int]));
                }
            }
            i = i + 1;
        }
        proof {
            assert(name_texts(self.table.names@).take(i as int) =~= name_texts(self.table.names@));
        }
        r
    }

    /// Information about all registered drivers, with whether each is attached, in
    /// the registry's order.
    pub fn list_drivers(&self) -> (r: Vec<(DriverInfo, bool)>)
        ensures
            r@.len() == self.name_order().len(),
            forall|i: int|
                0 <= i < r@.len() ==> (#[trigger] r@[i]).0@ == self@[self.name_order()[i]].info && r@[i].1
                    == self@[self.name_order()[i]].attached,
    {
        proof {
            use_type_invariant(self);
            lemma_named_keys(self.table.names@, self.table.slots@);
        }
        let mut r: Vec<(DriverInfo, bool)> = Vec::new();
        let mut i: usize = 0;
        while i < self.table.slots.len()
            invariant
                i <= self.table.slots@.len(),
                r@.len() == i,
                forall|j: int|
                    0 <= j < i ==> (#[trigger] r@[j]).0@ == self.table.slots@[j]@.info && r@[j].1
                        == self.table.slots@[j]@.attached,
            decreases self.table.slots.len() - i,
        {
            let slot = &self.table.slots[i];
            r.push((slot.info.duplicate(), slot.attached));
            i = i + 1;
        }
        proof {
            assert forall|j: int| 0 <= j < r@.len() implies (#[trigger] r@[j]).0@ == self@[self.name_order()[j]].info
                && r@[j].1 == self@[self.name_order()[j]].attached by {
                lemma_keyed_map_at(self.entries(), j);
            }
        }
        r
    }

    /// Check if a driver is registered
    pub fn is_registered(&self, name: &str) -> (r: bool)
        ensures
            r == self@.contains_key(name@),
    {
        self.find(name).is_some()
    }

    /// Check if a driver is attached
    pub fn is_attached(&self, name: &str) -> (r: bool)
        ensures
            r == (self@.contains_key(name@) && self@[name@].attached),
    {
        match self.find(name) {
            Some(i) => self.table.slots[i].attached,
            None => false,
        }
    }

    /// Get the number of registered drivers
    pub fn count(&self) -> (r: usize)
        ensures
            r == self@.len(),
            self@.dom().finite(),
    {
        proof {
            use_type_invariant(self);
            lemma_named_keys(self.table.names@, self.table.slots@);
            lemma_keyed_map_len(self.entries());
            lemma_keyed_map_dom(self.entries());
        }
        self.table.slots.len()
    }

    /// Unregister a driver (must be detached first)
    pub fn unregister(&mut self, name: &str) -> (r: Result<(), IndigoError>)
        ensures
            old(self)@.dom().finite(),
            final(self)@.dom().finite(),
            !old(self)@.contains_key(name@) ==> {
                &&& r matches Err(IndigoError::DriverNotFound(n)) && n@ == name@
                &&& final(self)@ == old(self)@
            },
            old(self)@.contains_key(name@) && old(self)@[name@].attached ==> {
                &&& r matches Err(IndigoError::DriverStillAttached(n)) && n@ == name@
                &&& final(self)@ == old(self)@
            },
            old(self)@.contains_key(name@) && !old(self)@[name@].attached ==> {
                &&& r is Ok
                &&& final(self)@ == old(self)@.remove(name@)
            },
    {
        proof {
            use_type_invariant(&*self);
            lemma_named_keys(self.table.names@, self.table.slots@);
            lemma_keyed_map_dom(self.entries());
        }
        let i = match self.find(name) {
            Some(i) => i,
            None => {
                return Err(IndigoError::DriverNotFound(name.to_owned()));
            },
        };
        if self.table.slots[i].attached {
            return Err(IndigoError::DriverStillAttached(name.to_owned()));
        }
        let ghost before = self.entries();
        proof {
            lemma_keyed_map_remove(before, i as int);
        }
        let mut table = DriverTable { names: Vec::new(), slots: Vec::new() };
        std::mem::swap(&mut table, &mut self.table);
        let ghost names0 = table.names@;
        let ghost slots0 = table.slots@;
        let _ = table.names.remove(i);
        let _ = table.slots.remove(i);
        proof {
            lemma_named_remove(names0, slots0, i as int);
            lemma_named_keys(table.names@, table.slots@);
        }
        std::mem::swap(&mut table, &mut self.table);
        Ok(())
    }
}

/// The names of a list that stand for attached drivers, in order.
pub open spec fn attached_in<D>(order: Seq<Seq<char>>, m: RegistryView<D>) -> Seq<Seq<char>>
    decreases order.len(),
{
    if order.len() == 0 {
        Seq::empty()
    } else {
        let rest = attached_in(order.drop_last(), m);
        if m[order.last()].attached {
            rest.push(order.last())
        } else {
            rest
        }
    }
}

impl<D> Default for DriverRegistry<D> {
    fn default() -> (r: DriverRegistry<D>)
        ensures
            r@ == RegistryView::<D>::empty(),
    {
        DriverRegistry::new()
    }
}

/// The registry after `register` accepted a driver with this information.
pub open spec fn registered<D>(r: RegistryView<D>, driver: D, info: InfoView) -> RegistryView<D> {
    r.insert(info.name, SlotView { driver, info, context: fresh_context(info.name), attached: false })
}

/// The registry after the attach or detach of driver `name` completed: the driver
/// is attached or not.
pub open spec fn marked<D>(r: RegistryView<D>, name: Seq<char>, attached: bool) -> RegistryView<D> {
    r.insert(name, SlotView { attached, ..r[name] })
}

/// A driver that registers is there, not attached, with a fresh context; once it is
/// attached it is attached (so attaching it again and unregistering it are refused,
/// and detaching it is accepted); once it is detached again, unregistering it leaves
/// the registry as it was before it registered.
pub proof fn lemma_driver_lifecycle<D>(r: RegistryView<D>, driver: D, info: InfoView)
    requires
        !r.contains_key(info.name),
    ensures
        registered(r, driver, info).contains_key(info.name),
        registered(r, driver, info)[info.name].driver == driver,
        !registered(r, driver, info)[info.name].attached,
        registered(r, driver, info)[info.name].context == fresh_context(info.name),
        marked(registered(r, driver, info), info.name, true)[info.name].attached,
        marked(registered(r, driver, info), info.name, true)[info.name].driver == driver,
        !marked(marked(registered(r, driver, info), info.name, true), info.name, false)[info.name].attached,
        marked(marked(registered(r, driver, info), info.name, true), info.name, false).remove(info.name) == r,
{
    assert(marked(marked(registered(r, driver, info), info.name, true), info.name, false).remove(info.name) =~= r);
}

} // verus!
