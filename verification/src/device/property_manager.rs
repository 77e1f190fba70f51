//! Property lifecycle management for device drivers.
use vstd::prelude::*;
use crate::error::IndigoError;
use crate::keyed::{
    keyed_map, keys_of, lemma_keyed_map_at, lemma_keyed_map_dom, lemma_keyed_map_len,
    lemma_keyed_map_push, lemma_keyed_map_remove, lemma_keyed_map_update, lemma_keyed_map_update_key,
    lemma_named_keys, lemma_named_update, name_texts, named_entries,
};
use crate::text::{decimal_string, decimal_text, str_equals};
use crate::types::property::{
    item_entries, ItemView, Property, PropertyItem, PropertyPerm, PropertyState, PropertyType,
    PropertyView,
};
use crate::types::value::{PropertyValue, SwitchState, ValueView};

verus! {

/// A pending property update to be sent to clients
#[derive(Debug, Clone)]
pub struct PropertyUpdate {
    pub property_name: String,
    pub values: Vec<(String, PropertyValue)>,
    pub state: PropertyState,
}

/// What a pending update holds.
pub struct UpdateView {
    pub property_name: Seq<char>,
    pub values: Seq<(Seq<char>, ValueView)>,
    pub state: PropertyState,
}

/// Item values as entries keyed by item name, in the order given.
pub open spec fn value_entries(values: Seq<(String, PropertyValue)>) -> Seq<(Seq<char>, ValueView)> {
    values.map_values(|e: (String, PropertyValue)| (e.0@, e.1@))
}

impl View for PropertyUpdate {
    type V = UpdateView;

    open spec fn view(&self) -> UpdateView {
        UpdateView {
            property_name: self.property_name@,
            values: value_entries(self.values@),
            state: self.state,
        }
    }
}

/// The item `k` with its value replaced, if the property has such an item.
pub open spec fn set_item_value(items: Map<Seq<char>, ItemView>, k: Seq<char>, v: ValueView) -> Map<
    Seq<char>,
    ItemView,
> {
    if items.contains_key(k) {
        items.insert(k, with_value(items[k], v))
    } else {
        items
    }
}

/// The items after the given values were written in order: each value goes to the
/// item of its name, values for names the property lacks are ignored, and of two
/// values for one item the later stays.
pub open spec fn apply_values(items: Map<Seq<char>, ItemView>, values: Seq<(Seq<char>, ValueView)>) -> Map<
    Seq<char>,
    ItemView,
>
    decreases values.len(),
{
    if values.len() == 0 {
        items
    } else {
        set_item_value(apply_values(items, values.drop_last()), values.last().0, values.last().1)
    }
}

/// What a property manager holds: its device, its properties by name, and the
/// updates not yet sent to clients, oldest first.
pub struct ManagerView {
    pub device_name: Seq<char>,
    pub properties: Map<Seq<char>, PropertyView>,
    pub pending: Seq<UpdateView>,
}

/// The standard CONNECTION property of a device: a read-write switch in group
/// `Main`, idle, with `CONNECTED` off and `DISCONNECTED` on.
pub open spec fn connection_property(device: Seq<char>) -> PropertyView {
    PropertyView {
        device,
        name: "CONNECTION"@,
        group: "Main"@,
        label: "Connection"@,
        state: PropertyState::Idle,
        perm: PropertyPerm::ReadWrite,
        property_type: PropertyType::Switch,
        items: map![
            "CONNECTED"@ => ItemView { name: "CONNECTED"@, label: "Connected"@, value: ValueView::Switch { state: SwitchState::Off } },
            "DISCONNECTED"@ => ItemView { name: "DISCONNECTED"@, label: "Disconnected"@, value: ValueView::Switch { state: SwitchState::On } },
        ],
        timeout: None,
        timestamp: None,
        message: None,
    }
}

/// The standard INFO property of a device: a read-only text property in group
/// `Main`, in state Ok, with the interface mask in decimal, the description and the
/// driver version.
pub open spec fn info_property(device: Seq<char>, description: Seq<char>, version: Seq<char>, interface: u32) -> PropertyView {
    PropertyView {
        device,
        name: "INFO"@,
        group: "Main"@,
        label: "Device Info"@,
        state: PropertyState::Okay,
        perm: PropertyPerm::ReadOnly,
        property_type: PropertyType::Text,
        items: map![
            "DEVICE_INTERFACE"@ => ItemView { name: "DEVICE_INTERFACE"@, label: "Interface"@, value: ValueView::Text(decimal_text(interface as nat)) },
            "DEVICE_DESCRIPTION"@ => ItemView { name: "DEVICE_DESCRIPTION"@, label: "Description"@, value: ValueView::Text(description) },
            "DRIVER_VERSION"@ => ItemView { name: "DRIVER_VERSION"@, label: "Version"@, value: ValueView::Text(version) },
        ],
        timeout: None,
        timestamp: None,
        message: None,
    }
}

/// Manages property registration, state, and updates for a device driver.
///
/// The PropertyManager maintains the canonical state of all properties
/// owned by a device driver and provides methods to define, update,
/// and remove properties. Each name stands for at most one property.
pub struct PropertyManager {
    device_name: String,
    table: PropertyTable,
    pending_updates: Vec<PropertyUpdate>,
}

/// The registered properties: each name with the property at the same place.
struct PropertyTable {
    names: Vec<String>,
    properties: Vec<Property>,
}

impl View for PropertyManager {
    type V = ManagerView;

    closed spec fn view(&self) -> ManagerView {
        ManagerView {
            device_name: self.device_name@,
            properties: keyed_map(self.entries()),
            pending: self.pending_updates@.map_values(|u: PropertyUpdate| u@),
        }
    }
}

impl PropertyManager {
    #[verifier::type_invariant]
    spec fn names_distinct(self) -> bool {
        &&& self.table.names@.len() == self.table.properties@.len()
        &&& name_texts(self.table.names@).no_duplicates()
    }

    /// The registered properties as entries keyed by name.
    closed spec fn entries(&self) -> Seq<(Seq<char>, PropertyView)> {
        named_entries(self.table.names@, self.table.properties@)
    }

    /// The order in which the manager holds its property names.
    pub closed spec fn name_order(&self) -> Seq<Seq<char>> {
        keys_of(self.entries())
    }

    /// Where the property `name` is held, if it is.
    fn find(&self, name: &str) -> (r: Option<usize>)
        ensures
            match r {
                Some(i) => {
                    &&& i < self.table.properties@.len()
                    &&& self.entries()[i as int].0 == name@
                    &&& self@.properties.contains_key(name@)
                },
                None => !self@.properties.contains_key(name@),
            },
    {
        proof {
            use_type_invariant(self);
            lemma_named_keys(self.table.names@, self.table.properties@);
        }
        let mut i: usize = 0;
        while i < self.table.names.len()
            invariant
                i <= self.table.names@.len(),
                self.table.names@.len() == self.table.properties@.len(),
                forall|j: int| 0 <= j < i ==> self.table.names@[j]@ != name@,
            decreases self.table.names.len() - i,
        {
            if str_equals(self.table.names[i].as_str(), name) {
                proof {
                    lemma_keyed_map_dom(self.entries());
                    assert(keys_of(self.entries())[i as int] == name@);
                }
                return Some(i);
            }
            i = i + 1;
        }
        proof {
            lemma_keyed_map_dom(self.entries());
            if keys_of(self.entries()).contains(name@) {
                let j = choose|j: int| 0 <= j < keys_of(self.entries()).len() && keys_of(self.entries())[j] == name@;
                assert(self.table.names@[j]@ == name@);
            }
        }
        None
    }

    /// Create a new PropertyManager for the given device
    pub fn new(device_name: &str) -> (r: PropertyManager)
        ensures
            r@ == (ManagerView {
                device_name: device_name@,
                properties: Map::empty(),
                pending: Seq::empty(),
            }),
    {
        let r = PropertyManager {
            device_name: device_name.to_owned(),
            table: PropertyTable { names: Vec::new(), properties: Vec::new() },
            pending_updates: Vec::new(),
        };
        assert(r.entries() =~= Seq::<(Seq<char>, PropertyView)>::empty());
        assert(keyed_map(r.entries()) =~= Map::<Seq<char>, PropertyView>::empty());
        assert(r.pending_updates@.map_values(|u: PropertyUpdate| u@) =~= Seq::<UpdateView>::empty());
        r
    }

    /// Get the device name
    pub fn device_name(&self) -> (r: &str)
        ensures
            r@ == self@.device_name,
    {
        self.device_name.as_str()
    }

    /// Register a new property definition.
    /// Returns error if a property with the same name already exists.
    pub fn define_property(&mut self, property: Property) -> (r: Result<(), IndigoError>)
        ensures
            old(self)@.properties.dom().finite(),
            final(self)@.properties.dom().finite(),
            old(self)@.properties.contains_key(property.name@) ==> {
                &&& r matches Err(IndigoError::PropertyAlreadyExists(n)) && n@ == property.name@
                &&& final(self)@ == old(self)@
            },
            !old(self)@.properties.contains_key(property.name@) ==> {
                &&& r is Ok
                &&& final(self)@ == (ManagerView {
                    properties: old(self)@.properties.insert(property.name@, property@),
                    ..old(self)@
                })
            },
    {
        proof {
            use_type_invariant(&*self);
            lemma_named_keys(self.table.names@, self.table.properties@);
            lemma_keyed_map_dom(self.entries());
        }
        if let Some(_) = self.find(property.name.as_str()) {
            return Err(IndigoError::PropertyAlreadyExists(property.name.clone()));
        }
        let ghost before = self.entries();
        let ghost n = property.name@;
        let ghost v = property@;
        proof {
            lemma_keyed_map_dom(before);
            lemma_keyed_map_push(before, n, v);
        }
        let key = property.name.clone();
        let mut table = PropertyTable { names: Vec::new(), properties: Vec::new() };
        std::mem::swap(&mut table, &mut self.table);
        table.names.push(key);
        table.properties.push(property);
        proof {
            assert(named_entries(table.names@, table.properties@) =~= before.push((n, v)));
            lemma_named_keys(table.names@, table.properties@);
        }
        std::mem::swap(&mut table, &mut self.table);
        Ok(())
    }

    /// Register the standard CONNECTION property (Switch type).
    /// This is a convenience method as almost all devices need this.
    pub fn register_standard_connection(&mut self) -> (r: Result<(), IndigoError>)
        ensures
            old(self)@.properties.contains_key("CONNECTION"@) ==> {
                &&& r matches Err(IndigoError::PropertyAlreadyExists(n)) && n@ == "CONNECTION"@
                &&& final(self)@ == old(self)@
            },
            !old(self)@.properties.contains_key("CONNECTION"@) ==> {
                &&& r is Ok
                &&& final(self)@ == (ManagerView {
                    properties: old(self)@.properties.insert(
                        "CONNECTION"@,
                        connection_property(old(self)@.device_name),
                    ),
                    ..old(self)@
                })
            },
    {
        let mut items: Vec<PropertyItem> = Vec::new();
        items.push(PropertyItem::new("CONNECTED", "Connected", PropertyValue::switch(SwitchState::Off)));
        items.push(
            PropertyItem::new("DISCONNECTED", "Disconnected", PropertyValue::switch(SwitchState::On)),
        );
        let property = Property {
            device: self.device_name.clone(),
            name: "CONNECTION".to_owned(),
            group: "Main".to_owned(),
            label: "Connection".to_owned(),
            state: PropertyState::Idle,
            perm: PropertyPerm::ReadWrite,
            property_type: PropertyType::Switch,
            items,
            timeout: None,
            timestamp: None,
            message: None,
        };
        proof {
            let e = item_entries(property.items@);
            reveal_with_fuel(keyed_map, 3);
            assert(e.drop_last().drop_last() =~= Seq::<(Seq<char>, ItemView)>::empty());
            assert(e.drop_last().last() == e[0]);
            assert(keyed_map(e) =~= connection_property(self@.device_name).items);
            assert(property@ =~= connection_property(self@.device_name));
        }
        self.define_property(property)
    }

    /// Register the standard DEVICE_INFO property (Text type, read-only).
    pub fn register_device_info(&mut self, description: &str, version: &str, interface: u32) -> (r: Result<
        (),
        IndigoError,
    >)
        ensures
            old(self)@.properties.contains_key("INFO"@) ==> {
                &&& r matches Err(IndigoError::PropertyAlreadyExists(n)) && n@ == "INFO"@
                &&& final(self)@ == old(self)@
            },
            !old(self)@.properties.contains_key("INFO"@) ==> {
                &&& r is Ok
                &&& final(self)@ == (ManagerView {
                    properties: old(self)@.properties.insert(
                        "INFO"@,
                        info_property(old(self)@.device_name, description@, version@, interface),
                    ),
                    ..old(self)@
                })
            },
    {
        let mut items: Vec<PropertyItem> = Vec::new();
        let mask = decimal_string(interface as u64);
        items.push(PropertyItem::new("DEVICE_INTERFACE", "Interface", PropertyValue::text(mask.as_str())));
        items.push(
            PropertyItem::new("DEVICE_DESCRIPTION", "Description", PropertyValue::text(description)),
        );
        items.push(PropertyItem::new("DRIVER_VERSION", "Version", PropertyValue::text(version)));
        let property = Property {
            device: self.device_name.clone(),
            name: "INFO".to_owned(),
            group: "Main".to_owned(),
            label: "Device Info".to_owned(),
            state: PropertyState::Okay,
            perm: PropertyPerm::ReadOnly,
            property_type: PropertyType::Text,
            items,
            timeout: None,
            timestamp: None,
            message: None,
        };
        proof {
            let e = item_entries(property.items@);
            reveal_with_fuel(keyed_map, 4);
            assert(e.drop_last().drop_last().drop_last() =~= Seq::<(Seq<char>, ItemView)>::empty());
            assert(e.drop_last().drop_last().last() == e[0]);
            assert(e.drop_last().last() == e[1]);
            let want = info_property(self@.device_name, description@, version@, interface);
            assert(keyed_map(e) =~= want.items);
            assert(property@ =~= want);
        }
        self.define_property(property)
    }

    /// Get a registered property by name
    pub fn get_property(&self, name: &str) -> (r: Option<&Property>)
        ensures
            match r {
                Some(p) => self@.properties.contains_key(name@) && p@ == self@.properties[name@],
                None => !self@.properties.contains_key(name@),
            },
    {
        proof {
            use_type_invariant(self);
            lemma_named_keys(self.table.names@, self.table.properties@);
        }
        match self.find(name) {
            Some(i) => {
                proof {
                    lemma_keyed_map_at(self.entries(), i as int);
                }
                Some(&self.table.properties[i])
            },
            None => None,
        }
    }

    /// Get a mutable reference to a registered property
    pub fn get_property_mut(&mut self, name: &str) -> (r: Option<&mut Property>)
        ensures
            r is Some <==> old(self)@.properties.contains_key(name@),
            r is None ==> final(self)@ == old(self)@,
            r matches Some(p) ==> {
                &&& (*p)@ == old(self)@.properties[name@]
                &&& final(self)@ == (ManagerView {
                    properties: old(self)@.properties.insert(name@, (*final(p))@),
                    ..old(self)@
                })
            },
    {
        proof {
            use_type_invariant(&*self);
            lemma_named_keys(self.table.names@, self.table.properties@);
        }
        match self.find(name) {
            Some(i) => {
                let ghost before = self.entries();
                let ghost names = self.table.names@;
                let ghost props = self.table.properties@;
                let r = &mut self.table.properties[i];
                proof {
                    lemma_keyed_map_at(before, i as int);
                    lemma_keyed_map_update(before, i as int, (*final(r))@);
                    lemma_named_update(names, props, i as int, *final(r));
                }
                Some(r)
            },
            None => None,
        }
    }

    /// Update property state and values, queueing the update for sending to clients.
    ///
    /// Each value goes to the item of its name; values for items the property
    /// lacks are ignored, but are sent with the update.
    pub fn update_property(
        &mut self,
        name: &str,
        state: PropertyState,
        values: Vec<(String, PropertyValue)>,
    ) -> (r: Result<(), IndigoError>)
        ensures
            !old(self)@.properties.contains_key(name@) ==> {
                &&& r matches Err(IndigoError::PropertyNotFound(n)) && n@ == name@
                &&& final(self)@ == old(self)@
            },
            old(self)@.properties.contains_key(name@) ==> {
                &&& r is Ok
                &&& final(self)@ == (ManagerView {
                    device_name: old(self)@.device_name,
                    properties: old(self)@.properties.insert(
                        name@,
                        PropertyView {
                            state,
                            items: apply_values(
                                old(self)@.properties[name@].items,
                                value_entries(values@),
                            ),
                            ..old(self)@.properties[name@]
                        },
                    ),
                    pending: old(self)@.pending.push(
                        UpdateView { property_name: name@, values: value_entries(values@), state },
                    ),
                })
            },
    {
        proof {
            use_type_invariant(&*self);
            lemma_named_keys(self.table.names@, self.table.properties@);
        }
        let i = match self.find(name) {
            Some(i) => i,
            None => {
                return Err(IndigoError::PropertyNotFound(name.to_owned()));
            },
        };
        let ghost before = self.entries();
        let ghost pending_before = self.pending_updates@;
        proof {
            lemma_keyed_map_at(before, i as int);
        }
        let mut table = PropertyTable { names: Vec::new(), properties: Vec::new() };
        std::mem::swap(&mut table, &mut self.table);
        let ghost props0 = table.properties@;
        let mut property = table.properties.remove(i);
        let ghost p0 = property@;
        assert(p0 == before[i as int].1);
        property.state = state;
        let ghost items0 = keyed_map(item_entries(property.items@));
        let mut j: usize = 0;
        while j < values.len()
            invariant
                j <= values@.len(),
                items0 == p0.items,
                (PropertyView { items: p0.items, ..property@ }) == (PropertyView { state, ..p0 }),
                keyed_map(item_entries(property.items@)) == apply_values(
                    items0,
                    value_entries(values@).take(j as int),
                ),
            decreases values.len() - j,
        {
            let (item_name, value) = &values[j];
            set_item_values(&mut property.items, item_name.as_str(), value);
            proof {
                let ve = value_entries(values@);
                assert(ve.take(j + 1).drop_last() =~= ve.take(j as int));
            }
            j = j + 1;
        }
        proof {
            assert(value_entries(values@).take(values@.len() as int) =~= value_entries(values@));
        }
        let ghost pv = property@;
        assert(pv == (PropertyView {
            state,
            items: apply_values(p0.items, value_entries(values@)),
            ..p0
        }));
        table.properties.insert(i, property);
        proof {
            assert(table.properties@ =~= props0.update(i as int, table.properties@[i as int]));
            assert(named_entries(table.names@, table.properties@) =~= before.update(i as int, (before[i as int].0, pv)));
            lemma_keyed_map_update(before, i as int, pv);
            lemma_named_keys(table.names@, table.properties@);
        }
        std::mem::swap(&mut table, &mut self.table);
        let ghost vs = value_entries(values@);
        let mut pending: Vec<PropertyUpdate> = Vec::new();
        std::mem::swap(&mut pending, &mut self.pending_updates);
        pending.push(PropertyUpdate { property_name: name.to_owned(), values, state });
        std::mem::swap(&mut pending, &mut self.pending_updates);
        proof {
            assert(self.pending_updates@.map_values(|u: PropertyUpdate| u@) =~= pending_before.map_values(
                |u: PropertyUpdate| u@,
            ).push(UpdateView { property_name: name@, values: vs, state }));
        }
        Ok(())
    }

    /// Remove a property definition
    pub fn delete_property(&mut self, name: &str) -> (r: Result<(), IndigoError>)
        ensures
            old(self)@.properties.dom().finite(),
            final(self)@.properties.dom().finite(),
            !old(self)@.properties.contains_key(name@) ==> {
                &&& r matches Err(IndigoError::PropertyNotFound(n)) && n@ == name@
                &&& final(self)@ == old(self)@
            },
            old(self)@.properties.contains_key(name@) ==> {
                &&& r is Ok
                &&& final(self)@ == (ManagerView {
                    properties: old(self)@.properties.remove(name@),
                    ..old(self)@
                })
            },
    {
        proof {
            use_type_invariant(&*self);
            lemma_named_keys(self.table.names@, self.table.properties@);
            lemma_keyed_map_dom(self.entries());
        }
        match self.find(name) {
            Some(i) => {
                let ghost before = self.entries();
                proof {
                    lemma_keyed_map_remove(before, i as int);
                }
                let mut table = PropertyTable { names: Vec::new(), properties: Vec::new() };
                std::mem::swap(&mut table, &mut self.table);
                let _ = table.names.remove(i);
                let _ = table.properties.remove(i);
                proof {
                    assert(named_entries(table.names@, table.properties@) =~= before.remove(i as int));
                    lemma_named_keys(table.names@, table.properties@);
                }
                std::mem::swap(&mut table, &mut self.table);
                Ok(())
            },
            None => Err(IndigoError::PropertyNotFound(name.to_owned())),
        }
    }

    /// Remove all properties
    pub fn delete_all_properties(&mut self)
        ensures
            final(self)@ == (ManagerView {
                device_name: old(self)@.device_name,
                properties: Map::empty(),
                pending: Seq::empty(),
            }),
    {
        let mut table = PropertyTable { names: Vec::new(), properties: Vec::new() };
        proof {
            assert(name_texts(table.names@) =~= Seq::<Seq<char>>::empty());
        }
        std::mem::swap(&mut table, &mut self.table);
        let mut pending: Vec<PropertyUpdate> = Vec::new();
        std::mem::swap(&mut pending, &mut self.pending_updates);
        proof {
            assert(self.entries() =~= Seq::<(Seq<char>, PropertyView)>::empty());
            assert(keyed_map(self.entries()) =~= Map::<Seq<char>, PropertyView>::empty());
            assert(self.pending_updates@.map_values(|u: PropertyUpdate| u@) =~= Seq::<UpdateView>::empty());
        }
    }

    /// Get and clear pending updates (consumed by the runtime to send to clients)
    pub fn drain_pending_updates(&mut self) -> (r: Vec<PropertyUpdate>)
        ensures
            r@.map_values(|u: PropertyUpdate| u@) == old(self)@.pending,
            final(self)@ == (ManagerView { pending: Seq::empty(), ..old(self)@ }),
    {
        proof {
            use_type_invariant(&*self);
            lemma_named_keys(self.table.names@, self.table.properties@);
        }
        let mut taken: Vec<PropertyUpdate> = Vec::new();
        std::mem::swap(&mut taken, &mut self.pending_updates);
        proof {
            assert(self.pending_updates@.map_values(|u: PropertyUpdate| u@) =~= Seq::<UpdateView>::empty());
        }
        taken
    }

    /// Get all registered properties, in the order in which the manager holds them.
    pub fn properties(&self) -> (r: Vec<&Property>)
        ensures
            self.name_order().no_duplicates(),
            forall|k: Seq<char>| #[trigger] self@.properties.contains_key(k) <==> self.name_order().contains(k),
            r@.len() == self.name_order().len(),
            forall|i: int| 0 <= i < r@.len() ==> (#[trigger] r@[i])@ == self@.properties[self.name_order()[i]],
    {
        proof {
            use_type_invariant(self);
            lemma_named_keys(self.table.names@, self.table.properties@);
            lemma_keyed_map_dom(self.entries());
        }
        let mut r: Vec<&Property> = Vec::new();
        let mut i: usize = 0;
        while i < self.table.properties.len()
            invariant
                i <= self.table.properties@.len(),
                r@.len() == i,
                forall|j: int| 0 <= j < i ==> (#[trigger] r@[j])@ == self.table.properties@[j]@,
            decreases self.table.properties.len() - i,
        {
            r.push(&self.table.properties[i]);
            i = i + 1;
        }
        proof {
            assert forall|j: int| 0 <= j < r@.len() implies (#[trigger] r@[j])@ == self@.properties[self.name_order()[j]] by {
                lemma_keyed_map_at(self.entries(), j);
            }
        }
        r
    }

    /// Check if a property is registered
    pub fn has_property(&self, name: &str) -> (r: bool)
        ensures
            r == self@.properties.contains_key(name@),
    {
        self.find(name).is_some()
    }

    /// Get number of registered properties
    pub fn property_count(&self) -> (r: usize)
        ensures
            r == self@.properties.len(),
            self@.properties.dom().finite(),
    {
        proof {
            use_type_invariant(self);
            lemma_named_keys(self.table.names@, self.table.properties@);
            lemma_keyed_map_dom(self.entries());
            lemma_keyed_map_len(self.entries());
        }
        self.table.properties.len()
    }
}

/// The item with its value replaced.
pub open spec fn with_value(x: ItemView, v: ValueView) -> ItemView {
    ItemView { value: v, ..x }
}

/// Writes `value` to every item named `name`.
fn set_item_values(items: &mut Vec<PropertyItem>, name: &str, value: &PropertyValue)
    ensures
        keyed_map(item_entries(final(items)@)) == set_item_value(
            keyed_map(item_entries(old(items)@)),
            name@,
            value@,
        ),
{
    let ghost orig = item_entries(items@);
    let mut i: usize = 0;
    while i < items.len()
        invariant
            orig == item_entries(old(items)@),
            items@.len() == orig.len(),
            i <= items@.len(),
            forall|j: int|
                0 <= j < items@.len() ==> #[trigger] item_entries(items@)[j] == (if j < i && orig[j].0
                    == name@ {
                    (name@, with_value(orig[j].1, value@))
                } else {
                    orig[j]
                }),
        decreases items.len() - i,
    {
        let ghost prev = items@;
        if str_equals(items[i].name.as_str(), name) {
            let v = value.duplicate();
            items[i].value = v;
            proof {
                assert(items@.len() == prev.len());
                assert(items@[i as int].name == prev[i as int].name);
                assert(items@[i as int].label == prev[i as int].label);
                assert(items@[i as int].value@ == value@);
                assert(items@[i as int]@ == with_value(prev[i as int]@, value@));
            }
        }
        proof {
            assert forall|j: int| 0 <= j < items@.len() implies #[trigger] item_entries(items@)[j] == (if j < i + 1 && orig[j].0 == name@ {
                (name@, with_value(orig[j].1, value@))
            } else {
                orig[j]
            }) by {
                assert(item_entries(prev)[j] == (if j < i && orig[j].0 == name@ {
                    (name@, with_value(orig[j].1, value@))
                } else {
                    orig[j]
                }));
                if j != i {
                    assert(items@[j] == prev[j]);
                    assert(item_entries(prev)[j] == item_entries(items@)[j]);
                } else {
                    assert(item_entries(prev)[j] == orig[j]);
                }
            }
        }
        i = i + 1;
    }
    proof {
        lemma_keyed_map_update_key(orig, item_entries(items@), name@, |x: ItemView| with_value(x, value@));
        assert(keyed_map(item_entries(items@)) =~= set_item_value(keyed_map(orig), name@, value@));
    }
}

/// The manager after `define_property` accepted `p`.
pub open spec fn defined(m: ManagerView, p: PropertyView) -> ManagerView {
    ManagerView { properties: m.properties.insert(p.name, p), ..m }
}

/// A property that was defined is found under its name as it was given; the other
/// properties, the device and the pending updates stay as they were.
pub proof fn lemma_define_then_get(m: ManagerView, p: PropertyView, other: Seq<char>)
    requires
        !m.properties.contains_key(p.name),
    ensures
        defined(m, p).properties.contains_key(p.name),
        defined(m, p).properties[p.name] == p,
        other != p.name ==> defined(m, p).properties.contains_key(other) == m.properties.contains_key(other)
            && defined(m, p).properties[other] == m.properties[other],
        defined(m, p).device_name == m.device_name,
        defined(m, p).pending == m.pending,
{
}

/// Deleting a property that was just defined leaves the manager as it was.
pub proof fn lemma_define_then_delete(m: ManagerView, p: PropertyView)
    requires
        !m.properties.contains_key(p.name),
    ensures
        (ManagerView { properties: defined(m, p).properties.remove(p.name), ..defined(m, p) }) == m,
{
    assert(defined(m, p).properties.remove(p.name) =~= m.properties);
}

/// After an update of a defined property, that property has the new state, an item
/// named by the last of the values has the value, and draining the pending updates
/// hands out the update last.
pub proof fn lemma_update_then_read(
    m: ManagerView,
    name: Seq<char>,
    state: PropertyState,
    values: Seq<(Seq<char>, ValueView)>,
)
    requires
        m.properties.contains_key(name),
        values.len() > 0,
        m.properties[name].items.contains_key(values.last().0),
    ensures
        ({
            let p = PropertyView { state, items: apply_values(m.properties[name].items, values), ..m.properties[name] };
            let after = ManagerView {
                properties: m.properties.insert(name, p),
                pending: m.pending.push(UpdateView { property_name: name, values, state }),
                ..m
            };
            &&& after.properties[name].state == state
            &&& after.properties[name].items.contains_key(values.last().0)
            &&& after.properties[name].items[values.last().0].value == values.last().1
            &&& after.pending.last() == UpdateView { property_name: name, values, state }
        }),
{
    lemma_apply_values_keys(m.properties[name].items, values.drop_last());
}

/// Writing values keeps the item names.
pub proof fn lemma_apply_values_keys(items: Map<Seq<char>, ItemView>, values: Seq<(Seq<char>, ValueView)>)
    ensures
        apply_values(items, values).dom() == items.dom(),
    decreases values.len(),
{
    if values.len() > 0 {
        lemma_apply_values_keys(items, values.drop_last());
        let m = apply_values(items, values.drop_last());
        if m.contains_key(values.last().0) {
            assert(set_item_value(m, values.last().0, values.last().1).dom() =~= m.dom());
        }
    }
}

} // verus!
