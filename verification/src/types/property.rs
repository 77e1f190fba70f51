//! Property states, permissions and types.
use vstd::prelude::*;
use crate::text::str_equals;
use crate::keyed::{keyed_map, keys_of, lemma_keyed_map_dom, lemma_keyed_map_last, lemma_keyed_map_push, lemma_keyed_map_update};
use super::value::{PropertyValue, SwitchState, ValueView};
use crate::name::{CONNECTION_CONNECTED_ITEM, CONNECTION_DISCONNECTED_ITEM};

verus! {

/// State of a property.
#[derive(Debug, Clone, Copy, PartialEq, Eq, Hash)]
pub enum PropertyState {
    /// Property is idle.
    Idle,
    /// Property operation completed successfully.
    Okay,
    /// Property operation is in progress.
    Busy,
    /// Property operation failed or is in alert state.
    Alert,
}

/// Permission level for a property.
#[derive(Debug, Clone, Copy, PartialEq, Eq, Hash)]
pub enum PropertyPerm {
    /// Read-only property.
    ReadOnly,
    /// Write-only property.
    WriteOnly,
    /// Read-write property.
    ReadWrite,
}

/// Type of property.
#[derive(Debug, Clone, Copy, PartialEq, Eq, Hash)]
pub enum PropertyType {
    /// Text property.
    Text,
    /// Number property.
    Number,
    /// Switch property.
    Switch,
    /// Light property (read-only indicator).
    Light,
    /// BLOB property (Binary Large Object).
    Blob,
}

impl PropertyState {
    /// The protocol name of the state.
    pub open spec fn spec_as_str(self) -> &'static str {
        match self {
            PropertyState::Idle => "Idle",
            PropertyState::Okay => "Ok",
            PropertyState::Busy => "Busy",
            PropertyState::Alert => "Alert",
        }
    }

    /// The state that a protocol name stands for.
    pub open spec fn spec_parse(s: Seq<char>) -> Option<PropertyState> {
        if s == "Idle"@ {
            Some(PropertyState::Idle)
        } else if s == "Ok"@ {
            Some(PropertyState::Okay)
        } else if s == "Busy"@ {
            Some(PropertyState::Busy)
        } else if s == "Alert"@ {
            Some(PropertyState::Alert)
        } else {
            None
        }
    }

    /// Parses a property state from a string.
    ///
    /// An unknown name gives the message `Invalid property state: <name>`.
    pub fn from_str(s: &str) -> (r: Result<PropertyState, String>)
        ensures
            match PropertyState::spec_parse(s@) {
                Some(v) => r == Ok::<PropertyState, String>(v),
                None => r is Err && r->Err_0@ == "Invalid property state: "@ + s@,
            },
    {
        if str_equals(s, "Idle") {
            Ok(PropertyState::Idle)
        } else if str_equals(s, "Ok") {
            Ok(PropertyState::Okay)
        } else if str_equals(s, "Busy") {
            Ok(PropertyState::Busy)
        } else if str_equals(s, "Alert") {
            Ok(PropertyState::Alert)
        } else {
            let mut m = "Invalid property state: ".to_owned();
            m.append(s);
            Err(m)
        }
    }

    /// Converts the property state to a string.
    pub fn as_str(&self) -> (r: &'static str)
        ensures
            r == self.spec_as_str(),
    {
        match self {
            PropertyState::Idle => "Idle",
            PropertyState::Okay => "Ok",
            PropertyState::Busy => "Busy",
            PropertyState::Alert => "Alert",
        }
    }
}

impl Default for PropertyState {
    fn default() -> (r: PropertyState)
        ensures
            r == PropertyState::Idle,
    {
        PropertyState::Idle
    }
}

impl PropertyPerm {
    /// The protocol name of the permission.
    pub open spec fn spec_as_str(self) -> &'static str {
        match self {
            PropertyPerm::ReadOnly => "ro",
            PropertyPerm::WriteOnly => "wo",
            PropertyPerm::ReadWrite => "rw",
        }
    }

    /// The permission that a protocol name stands for.
    pub open spec fn spec_parse(s: Seq<char>) -> Option<PropertyPerm> {
        if s == "ro"@ {
            Some(PropertyPerm::ReadOnly)
        } else if s == "wo"@ {
            Some(PropertyPerm::WriteOnly)
        } else if s == "rw"@ {
            Some(PropertyPerm::ReadWrite)
        } else {
            None
        }
    }

    /// Parses a property permission from a string.
    ///
    /// An unknown name gives the message `Invalid property permission: <name>`.
    pub fn from_str(s: &str) -> (r: Result<PropertyPerm, String>)
        ensures
            match PropertyPerm::spec_parse(s@) {
                Some(v) => r == Ok::<PropertyPerm, String>(v),
                None => r is Err && r->Err_0@ == "Invalid property permission: "@ + s@,
            },
    {
        if str_equals(s, "ro") {
            Ok(PropertyPerm::ReadOnly)
        } else if str_equals(s, "wo") {
            Ok(PropertyPerm::WriteOnly)
        } else if str_equals(s, "rw") {
            Ok(PropertyPerm::ReadWrite)
        } else {
            let mut m = "Invalid property permission: ".to_owned();
            m.append(s);
            Err(m)
        }
    }

    /// Converts the property permission to a string.
    pub fn as_str(&self) -> (r: &'static str)
        ensures
            r == self.spec_as_str(),
    {
        match self {
            PropertyPerm::ReadOnly => "ro",
            PropertyPerm::WriteOnly => "wo",
            PropertyPerm::ReadWrite => "rw",
        }
    }
}

impl Default for PropertyPerm {
    fn default() -> (r: PropertyPerm)
        ensures
            r == PropertyPerm::ReadWrite,
    {
        PropertyPerm::ReadWrite
    }
}

impl PropertyType {
    pub open spec fn spec_text(self) -> &'static str {
        match self {
            PropertyType::Text => "text",
            PropertyType::Number => "number",
            PropertyType::Switch => "switch",
            PropertyType::Light => "light",
            PropertyType::Blob => "blob",
        }
    }

    /// The display text of the property type.
    pub fn text(&self) -> (r: &'static str)
        ensures
            r == self.spec_text(),
    {
        match self {
            PropertyType::Text => "text",
            PropertyType::Number => "number",
            PropertyType::Switch => "switch",
            PropertyType::Light => "light",
            PropertyType::Blob => "blob",
        }
    }
}

/// Parsing the protocol name of a state gives the state back.
pub proof fn lemma_state_name_parses_back(s: PropertyState)
    ensures
        PropertyState::spec_parse(s.spec_as_str()@) == Some(s),
{
    reveal_strlit("Idle");
    reveal_strlit("Ok");
    reveal_strlit("Busy");
    reveal_strlit("Alert");
    assert("Idle"@.len() != "Ok"@.len() && "Idle"@.len() != "Alert"@.len());
    assert("Ok"@.len() != "Busy"@.len() && "Ok"@.len() != "Alert"@.len() && "Busy"@.len() != "Alert"@.len());
    assert("Idle"@[0] != "Busy"@[0]);
}

/// Parsing the protocol name of a permission gives the permission back.
pub proof fn lemma_perm_name_parses_back(p: PropertyPerm)
    ensures
        PropertyPerm::spec_parse(p.spec_as_str()@) == Some(p),
{
    reveal_strlit("ro");
    reveal_strlit("wo");
    reveal_strlit("rw");
    assert("ro"@[0] != "wo"@[0]);
    assert("ro"@[1] != "rw"@[1]);
    assert("wo"@[0] != "rw"@[0]);
}

/// The protocol names of the property states are fixed: `Idle`, `Ok`, `Busy` and
/// `Alert`. Each state is written under its own name, and a text is read as a state
/// exactly when it is that state's name.
pub proof fn lemma_state_names(st: PropertyState, s: Seq<char>)
    ensures
        st.spec_as_str()@ == (match st {
            PropertyState::Idle => "Idle"@,
            PropertyState::Okay => "Ok"@,
            PropertyState::Busy => "Busy"@,
            PropertyState::Alert => "Alert"@,
        }),
        PropertyState::spec_parse(s) == Some(st) <==> s == st.spec_as_str()@,
{
    lemma_state_name_parses_back(st);
}

/// The protocol names of the permissions are fixed: `ro`, `wo` and `rw`. Each
/// permission is written under its own name, and a text is read as a permission
/// exactly when it is that permission's name.
pub proof fn lemma_perm_names(pm: PropertyPerm, s: Seq<char>)
    ensures
        pm.spec_as_str()@ == (match pm {
            PropertyPerm::ReadOnly => "ro"@,
            PropertyPerm::WriteOnly => "wo"@,
            PropertyPerm::ReadWrite => "rw"@,
        }),
        PropertyPerm::spec_parse(s) == Some(pm) <==> s == pm.spec_as_str()@,
{
    lemma_perm_name_parses_back(pm);
}

/// Represents a single item within a property.
#[derive(Debug, Clone, PartialEq)]
pub struct PropertyItem {
    /// Item name.
    pub name: String,
    /// Human-readable label.
    pub label: String,
    /// Item value.
    pub value: PropertyValue,
}

/// What a property item holds.
pub struct ItemView {
    pub name: Seq<char>,
    pub label: Seq<char>,
    pub value: ValueView,
}

impl View for PropertyItem {
    type V = ItemView;

    open spec fn view(&self) -> ItemView {
        ItemView { name: self.name@, label: self.label@, value: self.value@ }
    }
}

impl PropertyItem {
    /// Creates a new property item.
    pub fn new(name: &str, label: &str, value: PropertyValue) -> (r: PropertyItem)
        ensures
            r@ == (ItemView { name: name@, label: label@, value: value@ }),
    {
        PropertyItem { name: name.to_owned(), label: label.to_owned(), value }
    }
}

/// The items of a property as entries keyed by item name.
pub open spec fn item_entries(items: Seq<PropertyItem>) -> Seq<(Seq<char>, ItemView)> {
    items.map_values(|i: PropertyItem| (i.name@, i@))
}

/// The text of an optional string.
pub open spec fn opt_text(o: Option<String>) -> Option<Seq<char>> {
    match o {
        Some(s) => Some(s@),
        None => None,
    }
}

/// Represents an INDIGO property with its metadata and items.
///
/// The items form a map by item name: no two items have one name
/// (`well_formed`). The timeout is held as decimal text.
#[derive(Debug, Clone, PartialEq)]
pub struct Property {
    /// Device name this property belongs to.
    pub device: String,
    /// Property name.
    pub name: String,
    /// Property group (for UI organization).
    pub group: String,
    /// Human-readable label.
    pub label: String,
    /// Current state of the property.
    pub state: PropertyState,
    /// Permission level for the property.
    pub perm: PropertyPerm,
    /// Type of the property.
    pub property_type: PropertyType,
    /// Property items, each name at most once.
    pub items: Vec<PropertyItem>,
    /// Optional timeout in seconds.
    pub timeout: Option<String>,
    /// Optional timestamp.
    pub timestamp: Option<String>,
    /// Optional message.
    pub message: Option<String>,
}

/// What a property holds; its items as a map from item name to item.
pub struct PropertyView {
    pub device: Seq<char>,
    pub name: Seq<char>,
    pub group: Seq<char>,
    pub label: Seq<char>,
    pub state: PropertyState,
    pub perm: PropertyPerm,
    pub property_type: PropertyType,
    pub items: Map<Seq<char>, ItemView>,
    pub timeout: Option<Seq<char>>,
    pub timestamp: Option<Seq<char>>,
    pub message: Option<Seq<char>>,
}

impl View for Property {
    type V = PropertyView;

    open spec fn view(&self) -> PropertyView {
        PropertyView {
            device: self.device@,
            name: self.name@,
            group: self.group@,
            label: self.label@,
            state: self.state,
            perm: self.perm,
            property_type: self.property_type,
            items: keyed_map(item_entries(self.items@)),
            timeout: opt_text(self.timeout),
            timestamp: opt_text(self.timestamp),
            message: opt_text(self.message),
        }
    }
}

impl Property {
    /// No two items have one name.
    pub open spec fn well_formed(&self) -> bool {
        keys_of(item_entries(self.items@)).no_duplicates()
    }

    /// Creates a new property builder.
    pub fn builder() -> (r: PropertyBuilder)
        ensures
            r@ == PropertyBuilder::spec_empty(),
    {
        PropertyBuilder::default()
    }

    /// Gets the full property key (device.name).
    pub fn key(&self) -> (r: String)
        ensures
            r@ == self.device@ + "."@ + self.name@,
    {
        let mut k = self.device.clone();
        k.append(".");
        k.append(self.name.as_str());
        k
    }
}

/// The item that a list of items holds under `name`: the last one of that name.
pub(crate) fn find_item<'a>(items: &'a Vec<PropertyItem>, name: &str) -> (r: Option<&'a PropertyItem>)
    ensures
        match r {
            Some(it) => keyed_map(item_entries(items@)).contains_key(name@) && it@ == keyed_map(
                item_entries(items@),
            )[name@],
            None => !keyed_map(item_entries(items@)).contains_key(name@),
        },
{
    let mut i: usize = items.len();
    while i > 0
        invariant
            i <= items@.len(),
            forall|j: int| i <= j < items@.len() ==> items@[j].name@ != name@,
        decreases i,
    {
        i = i - 1;
        if str_equals(items[i].name.as_str(), name) {
            proof {
                let e = item_entries(items@);
                assert forall|j: int| i < j < e.len() implies e[j].0 != e[i as int].0 by {}
                lemma_keyed_map_last(e, i as int);
            }
            return Some(&items[i]);
        }
    }
    proof {
        let e = item_entries(items@);
        lemma_keyed_map_dom(e);
        if keys_of(e).contains(name@) {
            let j = choose|j: int| 0 <= j < keys_of(e).len() && keys_of(e)[j] == name@;
            assert(items@[j].name@ == name@);
        }
    }
    None
}

/// Adds an item to a list of items with distinct names, replacing the item of the
/// same name.
pub(crate) fn put_item(items: &mut Vec<PropertyItem>, item: PropertyItem)
    requires
        keys_of(item_entries(old(items)@)).no_duplicates(),
    ensures
        keys_of(item_entries(final(items)@)).no_duplicates(),
        keyed_map(item_entries(final(items)@)) == keyed_map(item_entries(old(items)@)).insert(item.name@, item@),
{
    let ghost before = item_entries(items@);
    let mut i: usize = 0;
    while i < items.len()
        invariant
            item_entries(items@) == before,
            before == item_entries(old(items)@),
            keys_of(before).no_duplicates(),
            i <= items@.len(),
            forall|j: int| 0 <= j < i ==> items@[j].name@ != item.name@,
        decreases items.len() - i,
    {
        if str_equals(items[i].name.as_str(), item.name.as_str()) {
            proof {
                assert(before[i as int].0 == item.name@);
                lemma_keyed_map_update(before, i as int, item@);
            }
            items.set(i, item);
            proof {
                assert(item_entries(items@) =~= before.update(i as int, (before[i as int].0, item@)));
            }
            return;
        }
        i = i + 1;
    }
    proof {
        assert forall|j: int| 0 <= j < keys_of(before).len() implies keys_of(before)[j] != item.name@ by {
            assert(keys_of(before)[j] == items@[j].name@);
        }
        lemma_keyed_map_push(before, item.name@, item@);
    }
    let ghost n = item.name@;
    let ghost v = item@;
    items.push(item);
    proof {
        assert(item_entries(items@) =~= before.push((n, v)));
    }
}

/// What a property builder holds so far.
pub struct BuilderView {
    pub device: Option<Seq<char>>,
    pub name: Option<Seq<char>>,
    pub group: Option<Seq<char>>,
    pub label: Option<Seq<char>>,
    pub state: PropertyState,
    pub perm: PropertyPerm,
    pub property_type: Option<PropertyType>,
    pub items: Map<Seq<char>, ItemView>,
    pub timeout: Option<Seq<char>>,
    pub timestamp: Option<Seq<char>>,
    pub message: Option<Seq<char>>,
}

/// Builder for constructing properties.
pub struct PropertyBuilder {
    device: Option<String>,
    name: Option<String>,
    group: Option<String>,
    label: Option<String>,
    state: PropertyState,
    perm: PropertyPerm,
    property_type: Option<PropertyType>,
    items: Vec<PropertyItem>,
    timeout: Option<String>,
    timestamp: Option<String>,
    message: Option<String>,
}

impl View for PropertyBuilder {
    type V = BuilderView;

    closed spec fn view(&self) -> BuilderView {
        BuilderView {
            device: opt_text(self.device),
            name: opt_text(self.name),
            group: opt_text(self.group),
            label: opt_text(self.label),
            state: self.state,
            perm: self.perm,
            property_type: self.property_type,
            items: keyed_map(item_entries(self.items@)),
            timeout: opt_text(self.timeout),
            timestamp: opt_text(self.timestamp),
            message: opt_text(self.message),
        }
    }
}

impl Default for PropertyBuilder {
    fn default() -> (r: PropertyBuilder)
        ensures
            r@ == PropertyBuilder::spec_empty(),
    {
        let r = PropertyBuilder {
            device: None,
            name: None,
            group: None,
            label: None,
            state: PropertyState::Idle,
            perm: PropertyPerm::ReadWrite,
            property_type: None,
            items: Vec::new(),
            timeout: None,
            timestamp: None,
            message: None,
        };
        assert(item_entries(r.items@) =~= Seq::<(Seq<char>, ItemView)>::empty());
        assert(keyed_map(item_entries(r.items@)) =~= Map::<Seq<char>, ItemView>::empty());
        r
    }
}

impl PropertyBuilder {
    #[verifier::type_invariant]
    spec fn items_distinct(self) -> bool {
        keys_of(item_entries(self.items@)).no_duplicates()
    }

    /// A builder with nothing set: idle, read-write, no items.
    pub open spec fn spec_empty() -> BuilderView {
        BuilderView {
            device: None,
            name: None,
            group: None,
            label: None,
            state: PropertyState::Idle,
            perm: PropertyPerm::ReadWrite,
            property_type: None,
            items: Map::empty(),
            timeout: None,
            timestamp: None,
            message: None,
        }
    }

    /// Sets the device name.
    pub fn device(self, device: &str) -> (r: PropertyBuilder)
        ensures
            r@ == (BuilderView { device: Some(device@), ..self@ }),
    {
        proof {
            use_type_invariant(&self);
        }
        PropertyBuilder { device: Some(device.to_owned()), ..self }
    }

    /// Sets the property name.
    pub fn name(self, name: &str) -> (r: PropertyBuilder)
        ensures
            r@ == (BuilderView { name: Some(name@), ..self@ }),
    {
        proof {
            use_type_invariant(&self);
        }
        PropertyBuilder { name: Some(name.to_owned()), ..self }
    }

    /// Sets the property group.
    pub fn group(self, group: &str) -> (r: PropertyBuilder)
        ensures
            r@ == (BuilderView { group: Some(group@), ..self@ }),
    {
        proof {
            use_type_invariant(&self);
        }
        PropertyBuilder { group: Some(group.to_owned()), ..self }
    }

    /// Sets the property label.
    pub fn label(self, label: &str) -> (r: PropertyBuilder)
        ensures
            r@ == (BuilderView { label: Some(label@), ..self@ }),
    {
        proof {
            use_type_invariant(&self);
        }
        PropertyBuilder { label: Some(label.to_owned()), ..self }
    }

    /// Sets the property state.
    pub fn state(self, state: PropertyState) -> (r: PropertyBuilder)
        ensures
            r@ == (BuilderView { state, ..self@ }),
    {
        proof {
            use_type_invariant(&self);
        }
        PropertyBuilder { state, ..self }
    }

    /// Sets the property permission.
    pub fn perm(self, perm: PropertyPerm) -> (r: PropertyBuilder)
        ensures
            r@ == (BuilderView { perm, ..self@ }),
    {
        proof {
            use_type_invariant(&self);
        }
        PropertyBuilder { perm, ..self }
    }

    /// Sets the property type.
    pub fn property_type(self, property_type: PropertyType) -> (r: PropertyBuilder)
        ensures
            r@ == (BuilderView { property_type: Some(property_type), ..self@ }),
    {
        proof {
            use_type_invariant(&self);
        }
        PropertyBuilder { property_type: Some(property_type), ..self }
    }

    /// Adds an item to the property, replacing an item of the same name.
    pub fn item(self, item: PropertyItem) -> (r: PropertyBuilder)
        ensures
            r@ == (BuilderView { items: self@.items.insert(item.name@, item@), ..self@ }),
    {
        proof {
            use_type_invariant(&self);
        }
        let PropertyBuilder {
            device,
            name,
            group,
            label,
            state,
            perm,
            property_type,
            items,
            timeout,
            timestamp,
            message,
        } = self;
        let mut items = items;
        put_item(&mut items, item);
        PropertyBuilder {
            device,
            name,
            group,
            label,
            state,
            perm,
            property_type,
            items,
            timeout,
            timestamp,
            message,
        }
    }

    /// Sets the timeout, given as decimal text.
    pub fn timeout(self, timeout: &str) -> (r: PropertyBuilder)
        ensures
            r@ == (BuilderView { timeout: Some(timeout@), ..self@ }),
    {
        proof {
            use_type_invariant(&self);
        }
        PropertyBuilder { timeout: Some(timeout.to_owned()), ..self }
    }

    /// Sets the timestamp.
    pub fn timestamp(self, timestamp: &str) -> (r: PropertyBuilder)
        ensures
            r@ == (BuilderView { timestamp: Some(timestamp@), ..self@ }),
    {
        proof {
            use_type_invariant(&self);
        }
        PropertyBuilder { timestamp: Some(timestamp.to_owned()), ..self }
    }

    /// Sets the message.
    pub fn message(self, message: &str) -> (r: PropertyBuilder)
        ensures
            r@ == (BuilderView { message: Some(message@), ..self@ }),
    {
        proof {
            use_type_invariant(&self);
        }
        PropertyBuilder { message: Some(message.to_owned()), ..self }
    }

    /// Builds the property; group and label default to empty text.
    ///
    /// The device, the name and the property type must have been set.
    pub fn build(self) -> (r: Property)
        requires
            self@.device is Some,
            self@.name is Some,
            self@.property_type is Some,
        ensures
            r.well_formed(),
            r@ == (PropertyView {
                device: self@.device->0,
                name: self@.name->0,
                group: match self@.group { Some(g) => g, None => Seq::empty() },
                label: match self@.label { Some(l) => l, None => Seq::empty() },
                state: self@.state,
                perm: self@.perm,
                property_type: self@.property_type->0,
                items: self@.items,
                timeout: self@.timeout,
                timestamp: self@.timestamp,
                message: self@.message,
            }),
    {
        proof {
            use_type_invariant(&self);
        }
        let PropertyBuilder {
            device,
            name,
            group,
            label,
            state,
            perm,
            property_type,
            items,
            timeout,
            timestamp,
            message,
        } = self;
        let group = match group {
            Some(g) => g,
            None => String::new(),
        };
        let label = match label {
            Some(l) => l,
            None => String::new(),
        };
        Property {
            device: device.unwrap(),
            name: name.unwrap(),
            group,
            label,
            state,
            perm,
            property_type: property_type.unwrap(),
            items,
            timeout,
            timestamp,
            message,
        }
    }
}

/// What the items of a CONNECTION property, in order, say of the connection: the
/// first item named `CONNECTED` or `DISCONNECTED` decides; as a switch, `CONNECTED`
/// on or `DISCONNECTED` off means connected. An item of another kind, or no such
/// item, is an alert.
pub open spec fn connection_from_items(items: Seq<ItemView>) -> Result<bool, PropertyState>
    decreases items.len(),
{
    if items.len() == 0 {
        Err(PropertyState::Alert)
    } else {
        let it = items[0];
        if it.name == CONNECTION_CONNECTED_ITEM@ || it.name == CONNECTION_DISCONNECTED_ITEM@ {
            match it.value {
                ValueView::Switch { state } => Ok(
                    if it.name == CONNECTION_CONNECTED_ITEM@ {
                        state == SwitchState::On
                    } else {
                        state != SwitchState::On
                    },
                ),
                _ => Err(PropertyState::Alert),
            }
        } else {
            connection_from_items(items.drop_first())
        }
    }
}

/// The views of a list of items, in order.
pub open spec fn item_views(items: Seq<PropertyItem>) -> Seq<ItemView> {
    items.map_values(|i: PropertyItem| i@)
}

/// Whether a device is connected, by its CONNECTION property: an alert without the
/// property; the property's state when that is not Ok; else what its items say.
pub open spec fn spec_connection_status(connection: Option<Property>) -> Result<bool, PropertyState> {
    match connection {
        None => Err(PropertyState::Alert),
        Some(p) => if p.state != PropertyState::Okay {
            Err(p.state)
        } else {
            connection_from_items(item_views(p.items@))
        },
    }
}

/// A CONNECTION property whose state is not Ok gives exactly that state as the
/// error, whatever its items hold; and the status is known (`Ok`) only for a property
/// in the Ok state.
pub proof fn lemma_connection_status_not_ok(p: Property)
    ensures
        p.state != PropertyState::Okay ==> spec_connection_status(Some(p)) == Err::<bool, PropertyState>(p.state),
        spec_connection_status(Some(p)) is Ok ==> p.state == PropertyState::Okay,
        spec_connection_status(None) == Err::<bool, PropertyState>(PropertyState::Alert),
{
}

/// A CONNECTION property in the Ok state whose items are the `CONNECTED` and the
/// `DISCONNECTED` switch, in either order, reports the device connected exactly when
/// `CONNECTED` is on (in the other order: exactly when `DISCONNECTED` is off).
pub proof fn lemma_connection_status_switches(
    p: Property,
    on: SwitchState,
    off: SwitchState,
    l1: Seq<char>,
    l2: Seq<char>,
)
    requires
        p.state == PropertyState::Okay,
    ensures
        item_views(p.items@) == seq![
            ItemView { name: "CONNECTED"@, label: l1, value: ValueView::Switch { state: on } },
            ItemView { name: "DISCONNECTED"@, label: l2, value: ValueView::Switch { state: off } },
        ] ==> spec_connection_status(Some(p)) == Ok::<bool, PropertyState>(on == SwitchState::On),
        item_views(p.items@) == seq![
            ItemView { name: "DISCONNECTED"@, label: l2, value: ValueView::Switch { state: off } },
            ItemView { name: "CONNECTED"@, label: l1, value: ValueView::Switch { state: on } },
        ] ==> spec_connection_status(Some(p)) == Ok::<bool, PropertyState>(off != SwitchState::On),
{
    reveal_strlit("CONNECTED");
    reveal_strlit("DISCONNECTED");
    assert("CONNECTED"@.len() != "DISCONNECTED"@.len());
    assert(CONNECTION_CONNECTED_ITEM@ == "CONNECTED"@);
    assert(CONNECTION_DISCONNECTED_ITEM@ == "DISCONNECTED"@);
}

/// Whether a device is connected, by its CONNECTION property (`None` where the
/// device has none): `Ok(true)` when connected, `Ok(false)` when disconnected, and
/// otherwise the state that stands in the way: the property's own state when it is
/// not Ok, an alert when the property is missing or has no `CONNECTED` or
/// `DISCONNECTED` switch item.
pub fn connection_status(connection: Option<&Property>) -> (r: Result<bool, PropertyState>)
    ensures
        r == spec_connection_status(match connection {
            Some(p) => Some(*p),
            None => None,
        }),
        connection is None ==> r == Err::<bool, PropertyState>(PropertyState::Alert),
        forall|p: &Property|
            connection == Some(p) && p.state != PropertyState::Okay ==> r == Err::<bool, PropertyState>(p.state),
        r is Ok ==> (connection matches Some(p) && p.state == PropertyState::Okay),
{
    let p = match connection {
        None => {
            return Err(PropertyState::Alert);
        },
        Some(p) => p,
    };
    match p.state {
        PropertyState::Okay => {},
        other => {
            return Err(other);
        },
    }
    let ghost views = item_views(p.items@);
    assert(views.skip(0) =~= views);
    let mut i: usize = 0;
    while i < p.items.len()
        invariant
            connection == Some(p),
            p.state == PropertyState::Okay,
            i <= p.items@.len(),
            views == item_views(p.items@),
            connection_from_items(views) == connection_from_items(views.skip(i as int)),
        decreases p.items.len() - i,
    {
        let item = &p.items[i];
        assert(views.skip(i as int)[0] == item@);
        let connected = str_equals(item.name.as_str(), CONNECTION_CONNECTED_ITEM);
        let disconnected = str_equals(item.name.as_str(), CONNECTION_DISCONNECTED_ITEM);
        if connected || disconnected {
            return match &item.value {
                PropertyValue::Switch { state } => {
                    let on = match state {
                        SwitchState::On => true,
                        SwitchState::Off => false,
                    };
                    Ok(if connected { on } else { !on })
                },
                _ => Err(PropertyState::Alert),
            };
        }
        assert(views.skip(i as int).drop_first() =~= views.skip(i + 1));
        i = i + 1;
    }
    assert(views.skip(i as int) =~= Seq::<ItemView>::empty());
    Err(PropertyState::Alert)
}

} // verus!
