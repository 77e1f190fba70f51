//! DeviceProxy - bridge between high-level traits and property-based ClientStrategy.
use vstd::prelude::*;
use crate::error::IndigoError;
use crate::keyed::{
    keyed_map, keys_of, lemma_keyed_map_at, lemma_keyed_map_dom, lemma_keyed_map_push,
    lemma_keyed_map_update, lemma_named_keys, lemma_named_push, lemma_named_update, name_texts,
    named_entries,
};
use crate::text::str_equals;
use crate::types::property::{find_item, item_entries, opt_text, Property, PropertyView};
use crate::types::value::{PropertyValue, SwitchState, ValueView};

verus! {

/// What a device proxy holds: the device, what is known of it, and the cached
/// properties by name.
pub struct ProxyView {
    pub device_name: Seq<char>,
    pub description: Option<Seq<char>>,
    pub driver_version: Option<Seq<char>>,
    pub connected: bool,
    pub properties: Map<Seq<char>, PropertyView>,
}

/// The value of item `item` of the cached property `property`, if both are there.
pub open spec fn cached_item(props: Map<Seq<char>, PropertyView>, property: Seq<char>, item: Seq<char>) -> Option<
    ValueView,
> {
    if props.contains_key(property) && props[property].items.contains_key(item) {
        Some(props[property].items[item].value)
    } else {
        None
    }
}

/// `<property>.<item>`, the name of an item in error messages.
pub open spec fn item_path(property: Seq<char>, item: Seq<char>) -> Seq<char> {
    property + "."@ + item
}

/// The message for an item that holds another kind of value than asked for.
pub open spec fn wrong_kind(property: Seq<char>, item: Seq<char>, kind: Seq<char>) -> Seq<char> {
    "Property "@ + item_path(property, item) + " is not "@ + kind
}

/// Bridge between high-level device traits and the property-based ClientStrategy.
///
/// DeviceProxy caches the properties of one device and provides helper methods
/// for reading them that device trait implementations use. A number is read as
/// the decimal text the protocol carried.
pub struct DeviceProxy {
    device_name: String,
    description: Option<String>,
    driver_version: Option<String>,
    connected: bool,
    table: ProxyTable,
}

/// The cached properties: each name with the property at the same place.
struct ProxyTable {
    names: Vec<String>,
    properties: Vec<Property>,
}

impl View for DeviceProxy {
    type V = ProxyView;

    closed spec fn view(&self) -> ProxyView {
        ProxyView {
            device_name: self.device_name@,
            description: opt_text(self.description),
            driver_version: opt_text(self.driver_version),
            connected: self.connected,
            properties: keyed_map(named_entries(self.table.names@, self.table.properties@)),
        }
    }
}

impl DeviceProxy {
    #[verifier::type_invariant]
    spec fn names_distinct(self) -> bool {
        &&& self.table.names@.len() == self.table.properties@.len()
        &&& name_texts(self.table.names@).no_duplicates()
    }

    closed spec fn entries(&self) -> Seq<(Seq<char>, PropertyView)> {
        named_entries(self.table.names@, self.table.properties@)
    }

    /// Where the property `name` is cached, if it is.
    fn find(&self, name: &str) -> (r: Option<usize>)
        ensures
            match r {
                Some(i) => {
                    &&& i < self.table.properties@.len()
                    &&& self.entries()[i as int].0 == name@
                    &&& self@.properties.contains_key(name@)
                    &&& self@.properties[name@] == self.table.properties@[i as int]@
                },
                None => !self@.properties.contains_key(name@),
            },
    {
        proof {
            use_type_invariant(self);
            lemma_named_keys(self.table.names@, self.table.properties@);
        }
        let mut i: usize = 0;
        while i < self.table.names.len()
            invariant
                i <= self.table.names@.len(),
                self.table.names@.len() == self.table.properties@.len(),
                forall|j: int| 0 <= j < i ==> self.table.names@[j]@ != name@,
            decreases self.table.names.len() - i,
        {
            if str_equals(self.table.names[i].as_str(), name) {
                proof {
                    use_type_invariant(self);
                    lemma_named_keys(self.table.names@, self.table.properties@);
                    lemma_keyed_map_at(self.entries(), i as int);
                }
                return Some(i);
            }
            i = i + 1;
        }
        proof {
            lemma_keyed_map_dom(self.entries());
            if keys_of(self.entries()).contains(name@) {
                let j = choose|j: int| 0 <= j < keys_of(self.entries()).len() && keys_of(self.entries())[j] == name@;
                assert(self.table.names@[j]@ == name@);
            }
        }
        None
    }

    /// Create a new device proxy for the named device: nothing known, not
    /// connected, nothing cached.
    pub fn new(device_name: &str) -> (r: DeviceProxy)
        ensures
            r@ == (ProxyView {
                device_name: device_name@,
                description: None,
                driver_version: None,
                connected: false,
                properties: Map::empty(),
            }),
    {
        let r = DeviceProxy {
            device_name: device_name.to_owned(),
            description: None,
            driver_version: None,
            connected: false,
            table: ProxyTable { names: Vec::new(), properties: Vec::new() },
        };
        assert(r.entries() =~= Seq::<(Seq<char>, PropertyView)>::empty());
        assert(name_texts(r.table.names@) =~= Seq::<Seq<char>>::empty());
        assert(keyed_map(r.entries()) =~= Map::<Seq<char>, PropertyView>::empty());
        r
    }

    /// Get the device name
    pub fn device_name(&self) -> (r: &str)
        ensures
            r@ == self@.device_name,
    {
        self.device_name.as_str()
    }

    /// Check if connected
    pub fn is_connected(&self) -> (r: bool)
        ensures
            r == self@.connected,
    {
        self.connected
    }

    /// Set connection state
    pub fn set_connected(&mut self, connected: bool)
        ensures
            final(self)@ == (ProxyView { connected, ..old(self)@ }),
    {
        proof {
            use_type_invariant(&*self);
        }
        self.connected = connected;
    }

    /// Get device description
    pub fn description(&self) -> (r: Option<&str>)
        ensures
            match r {
                Some(d) => self@.description == Some(d@),
                None => self@.description is None,
            },
    {
        match &self.description {
            Some(d) => Some(d.as_str()),
            None => None,
        }
    }

    /// Set device description
    pub fn set_description(&mut self, description: &str)
        ensures
            final(self)@ == (ProxyView { description: Some(description@), ..old(self)@ }),
    {
        proof {
            use_type_invariant(&*self);
        }
        self.description = Some(description.to_owned());
    }

    /// Get driver version
    pub fn driver_version(&self) -> (r: Option<&str>)
        ensures
            match r {
                Some(v) => self@.driver_version == Some(v@),
                None => self@.driver_version is None,
            },
    {
        match &self.driver_version {
            Some(v) => Some(v.as_str()),
            None => None,
        }
    }

    /// Set driver version
    pub fn set_driver_version(&mut self, version: &str)
        ensures
            final(self)@ == (ProxyView { driver_version: Some(version@), ..old(self)@ }),
    {
        proof {
            use_type_invariant(&*self);
        }
        self.driver_version = Some(version.to_owned());
    }

    /// Cache a property value, replacing a cached property of the same name.
    pub fn cache_property(&mut self, property: Property)
        ensures
            final(self)@ == (ProxyView {
                properties: old(self)@.properties.insert(property.name@, property@),
                ..old(self)@
            }),
    {
        proof {
            use_type_invariant(&*self);
            lemma_named_keys(self.table.names@, self.table.properties@);
        }
        let ghost before = self.entries();
        let ghost n = property.name@;
        let ghost v = property@;
        let found = self.find(property.name.as_str());
        let mut table = ProxyTable { names: Vec::new(), properties: Vec::new() };
        std::mem::swap(&mut table, &mut self.table);
        let ghost names0 = table.names@;
        let ghost props0 = table.properties@;
        match found {
            Some(i) => {
                proof {
                    lemma_keyed_map_update(before, i as int, v);
                }
                table.properties.set(i, property);
                proof {
                    lemma_named_update(names0, props0, i as int, table.properties@[i as int]);
                    assert(table.properties@ == props0.update(i as int, table.properties@[i as int]));
                }
            },
            None => {
                proof {
                    lemma_keyed_map_dom(before);
                    lemma_keyed_map_push(before, n, v);
                }
                let key = property.name.clone();
                table.names.push(key);
                table.properties.push(property);
                proof {
                    lemma_named_push(names0, props0, table.names@.last(), table.properties@.last());
                    assert(table.names@ == names0.push(table.names@.last()));
                    assert(table.properties@ == props0.push(table.properties@.last()));
                }
            },
        }
        proof {
            lemma_named_keys(table.names@, table.properties@);
        }
        std::mem::swap(&mut table, &mut self.table);
    }

    /// Get a cached property
    pub fn get_cached_property(&self, name: &str) -> (r: Option<&Property>)
        ensures
            match r {
                Some(p) => self@.properties.contains_key(name@) && p@ == self@.properties[name@],
                None => !self@.properties.contains_key(name@),
            },
    {
        match self.find(name) {
            Some(i) => Some(&self.table.properties[i]),
            None => None,
        }
    }

    /// Get a specific item value from a cached property
    pub fn get_property_item(&self, property_name: &str, item_name: &str) -> (r: Option<&PropertyValue>)
        ensures
            match r {
                Some(v) => cached_item(self@.properties, property_name@, item_name@) == Some(v@),
                None => cached_item(self@.properties, property_name@, item_name@) is None,
            },
    {
        match self.find(property_name) {
            Some(i) => match find_item(&self.table.properties[i].items, item_name) {
                Some(item) => Some(&item.value),
                None => None,
            },
            None => None,
        }
    }

    /// The error for an item that is missing or holds another kind of value.
    fn item_error(property_name: &str, item_name: &str, found: bool, kind: &str) -> (r: IndigoError)
        ensures
            found ==> (r matches IndigoError::InvalidParameter(m) && m@ == wrong_kind(property_name@, item_name@, kind@)),
            !found ==> (r matches IndigoError::PropertyNotFound(m) && m@ == item_path(property_name@, item_name@)),
    {
        let mut path = property_name.to_owned();
        path.append(".");
        path.append(item_name);
        if found {
            let mut m = "Property ".to_owned();
            m.append(path.as_str());
            m.append(" is not ");
            m.append(kind);
            IndigoError::InvalidParameter(m)
        } else {
            IndigoError::PropertyNotFound(path)
        }
    }

    /// Get a number value from a cached property item, as its decimal text.
    pub fn get_number(&self, property_name: &str, item_name: &str) -> (r: Result<String, IndigoError>)
        ensures
            match cached_item(self@.properties, property_name@, item_name@) {
                Some(ValueView::Number { value, .. }) => r matches Ok(s) && s@ == value,
                Some(_) => r matches Err(IndigoError::InvalidParameter(m)) && m@ == wrong_kind(
                    property_name@,
                    item_name@,
                    "a number"@,
                ),
                None => r matches Err(IndigoError::PropertyNotFound(m)) && m@ == item_path(
                    property_name@,
                    item_name@,
                ),
            },
    {
        match self.get_property_item(property_name, item_name) {
            Some(PropertyValue::Number { value, .. }) => Ok(value.clone()),
            Some(_) => Err(Self::item_error(property_name, item_name, true, "a number")),
            None => Err(Self::item_error(property_name, item_name, false, "a number")),
        }
    }

    /// Get a text value from a cached property item
    pub fn get_text(&self, property_name: &str, item_name: &str) -> (r: Result<String, IndigoError>)
        ensures
            match cached_item(self@.properties, property_name@, item_name@) {
                Some(ValueView::Text(t)) => r matches Ok(s) && s@ == t,
                Some(_) => r matches Err(IndigoError::InvalidParameter(m)) && m@ == wrong_kind(
                    property_name@,
                    item_name@,
                    "text"@,
                ),
                None => r matches Err(IndigoError::PropertyNotFound(m)) && m@ == item_path(
                    property_name@,
                    item_name@,
                ),
            },
    {
        match self.get_property_item(property_name, item_name) {
            Some(PropertyValue::Text(t)) => Ok(t.clone()),
            Some(_) => Err(Self::item_error(property_name, item_name, true, "text")),
            None => Err(Self::item_error(property_name, item_name, false, "text")),
        }
    }

    /// Get a switch value from a cached property item: whether it is on.
    pub fn get_switch(&self, property_name: &str, item_name: &str) -> (r: Result<bool, IndigoError>)
        ensures
            match cached_item(self@.properties, property_name@, item_name@) {
                Some(ValueView::Switch { state }) => r == Ok::<bool, IndigoError>(state == SwitchState::On),
                Some(_) => r matches Err(IndigoError::InvalidParameter(m)) && m@ == wrong_kind(
                    property_name@,
                    item_name@,
                    "a switch"@,
                ),
                None => r matches Err(IndigoError::PropertyNotFound(m)) && m@ == item_path(
                    property_name@,
                    item_name@,
                ),
            },
    {
        match self.get_property_item(property_name, item_name) {
            Some(PropertyValue::Switch { state }) => Ok(
                match state {
                    SwitchState::On => true,
                    SwitchState::Off => false,
                },
            ),
            Some(_) => Err(Self::item_error(property_name, item_name, true, "a switch")),
            None => Err(Self::item_error(property_name, item_name, false, "a switch")),
        }
    }

    /// Get a BLOB value from a cached property item: its data and format.
    pub fn get_blob(&self, property_name: &str, item_name: &str) -> (r: Result<(Vec<u8>, String), IndigoError>)
        ensures
            match cached_item(self@.properties, property_name@, item_name@) {
                Some(ValueView::Blob { data, format, .. }) => r matches Ok(b) && b.0@ == data && b.1@ == format,
                Some(_) => r matches Err(IndigoError::InvalidParameter(m)) && m@ == wrong_kind(
                    property_name@,
                    item_name@,
                    "a BLOB"@,
                ),
                None => r matches Err(IndigoError::PropertyNotFound(m)) && m@ == item_path(
                    property_name@,
                    item_name@,
                ),
            },
    {
        match self.get_property_item(property_name, item_name) {
            Some(PropertyValue::Blob { data, format, .. }) => {
                let d = data.clone();
                assert(d@ =~= data@);
                Ok((d, format.clone()))
            },
            Some(_) => Err(Self::item_error(property_name, item_name, true, "a BLOB")),
            None => Err(Self::item_error(property_name, item_name, false, "a BLOB")),
        }
    }

    /// Clear all cached properties
    pub fn clear_cache(&mut self)
        ensures
            final(self)@ == (ProxyView { properties: Map::empty(), ..old(self)@ }),
    {
        let mut table = ProxyTable { names: Vec::new(), properties: Vec::new() };
        proof {
            assert(name_texts(table.names@) =~= Seq::<Seq<char>>::empty());
        }
        std::mem::swap(&mut table, &mut self.table);
        proof {
            assert(self.entries() =~= Seq::<(Seq<char>, PropertyView)>::empty());
            assert(keyed_map(self.entries()) =~= Map::<Seq<char>, PropertyView>::empty());
        }
    }
}

/// A property that was cached is read back as it was given, item by item, and the
/// other cached properties stay as they were.
pub proof fn lemma_cache_then_read(v: ProxyView, p: PropertyView, item: Seq<char>, other: Seq<char>)
    ensures
        ({
            let after = ProxyView { properties: v.properties.insert(p.name, p), ..v };
            &&& after.properties[p.name] == p
            &&& cached_item(after.properties, p.name, item) == (if p.items.contains_key(item) {
                Some(p.items[item].value)
            } else {
                None
            })
            &&& other != p.name ==> cached_item(after.properties, other, item) == cached_item(v.properties, other, item)
        }),
{
}

} // verus!
