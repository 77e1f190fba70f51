//! INDIGO XML protocol messages.
//!
//! The INDIGO protocol uses XML messages over TCP between clients and servers:
//! `defXXXVector` define property vectors (text, number, switch, light, BLOB),
//! `setXXXVector` set property values, `newXXXVector` carry new values from a client,
//! `delProperty` deletes a property, `message` carries a status message,
//! `getProperties` requests property definitions and `enableBLOB` controls BLOB
//! transfer.
//!
//! Numbers travel as text: the numeric fields of the messages hold the text of the
//! number as it stands in the XML (or as it is to be written there).
use vstd::prelude::*;
use crate::error::IndigoError;
use crate::text::str_equals;

pub use crate::types::property::{PropertyPerm, PropertyState};

verus! {

/// State of a switch element.
#[derive(Debug, Clone, Copy, PartialEq, Eq, Hash)]
pub enum SwitchState {
    /// Switch is off.
    Off,
    /// Switch is on.
    On,
}

/// Rule for switch vectors.
#[derive(Debug, Clone, Copy, PartialEq, Eq, Hash)]
pub enum SwitchRule {
    /// Only one switch can be on at a time.
    OneOfMany,
    /// At most one switch can be on.
    AtMostOne,
    /// Any number of switches can be on.
    AnyOfMany,
}

/// BLOB enable mode.
#[derive(Debug, Clone, Copy, PartialEq, Eq, Hash)]
pub enum BLOBEnable {
    /// Never send BLOBs.
    Never,
    /// Send BLOBs in addition to URLs.
    Also,
    /// Only send BLOBs, no URLs.
    Only,
}

/// The message of a parse error of the protocol.
pub open spec fn parse_error_text(e: IndigoError) -> Option<Seq<char>> {
    match e {
        IndigoError::ParseError(m) => Some(m@),
        _ => None,
    }
}

impl SwitchState {
    pub open spec fn spec_as_str(self) -> &'static str {
        match self {
            SwitchState::Off => "Off",
            SwitchState::On => "On",
        }
    }

    pub open spec fn spec_parse(s: Seq<char>) -> Option<SwitchState> {
        if s == "Off"@ {
            Some(SwitchState::Off)
        } else if s == "On"@ {
            Some(SwitchState::On)
        } else {
            None
        }
    }

    /// Parses a switch state from a string.
    pub fn from_str(s: &str) -> (r: Result<SwitchState, IndigoError>)
        ensures
            match SwitchState::spec_parse(s@) {
                Some(v) => r matches Ok(x) && x == v,
                None => r is Err && parse_error_text(r->Err_0) == Some(
                    "Invalid switch state: "@ + s@,
                ),
            },
    {
        if str_equals(s, "Off") {
            Ok(SwitchState::Off)
        } else if str_equals(s, "On") {
            Ok(SwitchState::On)
        } else {
            let mut m = "Invalid switch state: ".to_owned();
            m.append(s);
            Err(IndigoError::ParseError(m))
        }
    }

    /// Converts the switch state to a string.
    pub fn as_str(&self) -> (r: &'static str)
        ensures
            r == self.spec_as_str(),
    {
        match self {
            SwitchState::Off => "Off",
            SwitchState::On => "On",
        }
    }
}

impl SwitchRule {
    pub open spec fn spec_as_str(self) -> &'static str {
        match self {
            SwitchRule::OneOfMany => "OneOfMany",
            SwitchRule::AtMostOne => "AtMostOne",
            SwitchRule::AnyOfMany => "AnyOfMany",
        }
    }

    pub open spec fn spec_parse(s: Seq<char>) -> Option<SwitchRule> {
        if s == "OneOfMany"@ {
            Some(SwitchRule::OneOfMany)
        } else if s == "AtMostOne"@ {
            Some(SwitchRule::AtMostOne)
        } else if s == "AnyOfMany"@ {
            Some(SwitchRule::AnyOfMany)
        } else {
            None
        }
    }

    /// Parses a switch rule from a string.
    pub fn from_str(s: &str) -> (r: Result<SwitchRule, IndigoError>)
        ensures
            match SwitchRule::spec_parse(s@) {
                Some(v) => r matches Ok(x) && x == v,
                None => r is Err && parse_error_text(r->Err_0) == Some(
                    "Invalid switch rule: "@ + s@,
                ),
            },
    {
        if str_equals(s, "OneOfMany") {
            Ok(SwitchRule::OneOfMany)
        } else if str_equals(s, "AtMostOne") {
            Ok(SwitchRule::AtMostOne)
        } else if str_equals(s, "AnyOfMany") {
            Ok(SwitchRule::AnyOfMany)
        } else {
            let mut m = "Invalid switch rule: ".to_owned();
            m.append(s);
            Err(IndigoError::ParseError(m))
        }
    }

    /// Converts the switch rule to a string.
    pub fn as_str(&self) -> (r: &'static str)
        ensures
            r == self.spec_as_str(),
    {
        match self {
            SwitchRule::OneOfMany => "OneOfMany",
            SwitchRule::AtMostOne => "AtMostOne",
            SwitchRule::AnyOfMany => "AnyOfMany",
        }
    }
}

impl BLOBEnable {
    pub open spec fn spec_as_str(self) -> &'static str {
        match self {
            BLOBEnable::Never => "Never",
            BLOBEnable::Also => "Also",
            BLOBEnable::Only => "Only",
        }
    }

    pub open spec fn spec_parse(s: Seq<char>) -> Option<BLOBEnable> {
        if s == "Never"@ {
            Some(BLOBEnable::Never)
        } else if s == "Also"@ {
            Some(BLOBEnable::Also)
        } else if s == "Only"@ {
            Some(BLOBEnable::Only)
        } else {
            None
        }
    }

    /// Parses a BLOB enable mode from a string.
    pub fn from_str(s: &str) -> (r: Result<BLOBEnable, IndigoError>)
        ensures
            match BLOBEnable::spec_parse(s@) {
                Some(v) => r matches Ok(x) && x == v,
                None => r is Err && parse_error_text(r->Err_0) == Some(
                    "Invalid BLOB enable: "@ + s@,
                ),
            },
    {
        if str_equals(s, "Never") {
            Ok(BLOBEnable::Never)
        } else if str_equals(s, "Also") {
            Ok(BLOBEnable::Also)
        } else if str_equals(s, "Only") {
            Ok(BLOBEnable::Only)
        } else {
            let mut m = "Invalid BLOB enable: ".to_owned();
            m.append(s);
            Err(IndigoError::ParseError(m))
        }
    }

    /// Converts the BLOB enable mode to a string.
    pub fn as_str(&self) -> (r: &'static str)
        ensures
            r == self.spec_as_str(),
    {
        match self {
            BLOBEnable::Never => "Never",
            BLOBEnable::Also => "Also",
            BLOBEnable::Only => "Only",
        }
    }
}

/// Parses a property state from its protocol name; an unknown name is a parse error.
pub fn parse_property_state(s: &str) -> (r: Result<PropertyState, IndigoError>)
    ensures
        match PropertyState::spec_parse(s@) {
            Some(v) => r matches Ok(x) && x == v,
            None => r is Err && parse_error_text(r->Err_0) == Some(
                "Invalid property state: "@ + s@,
            ),
        },
{
    match PropertyState::from_str(s) {
        Ok(v) => Ok(v),
        Err(m) => Err(IndigoError::ParseError(m)),
    }
}

/// Parses a property permission from its protocol name; an unknown name is a parse error.
pub fn parse_property_perm(s: &str) -> (r: Result<PropertyPerm, IndigoError>)
    ensures
        match PropertyPerm::spec_parse(s@) {
            Some(v) => r matches Ok(x) && x == v,
            None => r is Err && parse_error_text(r->Err_0) == Some(
                "Invalid property permission: "@ + s@,
            ),
        },
{
    match PropertyPerm::from_str(s) {
        Ok(v) => Ok(v),
        Err(m) => Err(IndigoError::ParseError(m)),
    }
}

// ============================================================================
// Property elements
// ============================================================================

/// A text property element definition.
#[derive(Debug, Clone, PartialEq)]
pub struct DefText {
    pub name: String,
    pub label: String,
    pub value: String,
}

/// A number property element definition; the numbers are held as their text.
#[derive(Debug, Clone, PartialEq)]
pub struct DefNumber {
    pub name: String,
    pub label: String,
    /// Number format string.
    pub format: String,
    pub min: String,
    pub max: String,
    pub step: String,
    pub value: String,
}

/// A switch property element definition.
#[derive(Debug, Clone, PartialEq)]
pub struct DefSwitch {
    pub name: String,
    pub label: String,
    pub value: SwitchState,
}

/// A light property element definition.
#[derive(Debug, Clone, PartialEq)]
pub struct DefLight {
    pub name: String,
    pub label: String,
    pub value: PropertyState,
}

/// A BLOB property element definition.
#[derive(Debug, Clone, PartialEq)]
pub struct DefBLOB {
    pub name: String,
    pub label: String,
}

/// A text property element value.
#[derive(Debug, Clone, PartialEq)]
pub struct OneText {
    pub name: String,
    pub value: String,
}

/// A number property element value, held as its text.
#[derive(Debug, Clone, PartialEq)]
pub struct OneNumber {
    pub name: String,
    pub value: String,
}

/// A switch property element value.
#[derive(Debug, Clone, PartialEq)]
pub struct OneSwitch {
    pub name: String,
    pub value: SwitchState,
}

/// A light property element value.
#[derive(Debug, Clone, PartialEq)]
pub struct OneLight {
    pub name: String,
    pub value: PropertyState,
}

/// A BLOB property element value.
#[derive(Debug, Clone, PartialEq)]
pub struct OneBLOB {
    pub name: String,
    /// BLOB size in bytes.
    pub size: usize,
    /// BLOB format/extension.
    pub format: String,
    /// Base64-encoded BLOB data.
    pub value: String,
}

// ============================================================================
// Property vectors
// ============================================================================

/// Common attributes for property vectors.
#[derive(Debug, Clone, PartialEq)]
pub struct VectorAttributes {
    pub device: String,
    pub name: String,
    pub label: String,
    pub group: String,
    pub state: PropertyState,
    /// Timeout in seconds, as text.
    pub timeout: Option<String>,
    pub timestamp: Option<String>,
    pub message: Option<String>,
}

#[derive(Debug, Clone, PartialEq)]
pub struct DefTextVector {
    pub attrs: VectorAttributes,
    pub perm: PropertyPerm,
    pub elements: Vec<DefText>,
}

#[derive(Debug, Clone, PartialEq)]
pub struct DefNumberVector {
    pub attrs: VectorAttributes,
    pub perm: PropertyPerm,
    pub elements: Vec<DefNumber>,
}

#[derive(Debug, Clone, PartialEq)]
pub struct DefSwitchVector {
    pub attrs: VectorAttributes,
    pub perm: PropertyPerm,
    pub rule: SwitchRule,
    pub elements: Vec<DefSwitch>,
}

#[derive(Debug, Clone, PartialEq)]
pub struct DefLightVector {
    pub attrs: VectorAttributes,
    pub elements: Vec<DefLight>,
}

#[derive(Debug, Clone, PartialEq)]
pub struct DefBLOBVector {
    pub attrs: VectorAttributes,
    pub perm: PropertyPerm,
    pub elements: Vec<DefBLOB>,
}

/// Common attributes for set vectors.
#[derive(Debug, Clone, PartialEq)]
pub struct SetVectorAttributes {
    pub device: String,
    pub name: String,
    pub state: Option<PropertyState>,
    /// Timeout in seconds, as text.
    pub timeout: Option<String>,
    pub timestamp: Option<String>,
    pub message: Option<String>,
}

#[derive(Debug, Clone, PartialEq)]
pub struct SetTextVector {
    pub attrs: SetVectorAttributes,
    pub elements: Vec<OneText>,
}

#[derive(Debug, Clone, PartialEq)]
pub struct SetNumberVector {
    pub attrs: SetVectorAttributes,
    pub elements: Vec<OneNumber>,
}

#[derive(Debug, Clone, PartialEq)]
pub struct SetSwitchVector {
    pub attrs: SetVectorAttributes,
    pub elements: Vec<OneSwitch>,
}

#[derive(Debug, Clone, PartialEq)]
pub struct SetLightVector {
    pub attrs: SetVectorAttributes,
    pub elements: Vec<OneLight>,
}

#[derive(Debug, Clone, PartialEq)]
pub struct SetBLOBVector {
    pub attrs: SetVectorAttributes,
    pub elements: Vec<OneBLOB>,
}

/// Common attributes for new vectors.
#[derive(Debug, Clone, PartialEq)]
pub struct NewVectorAttributes {
    pub device: String,
    pub name: String,
    pub timestamp: Option<String>,
}

#[derive(Debug, Clone, PartialEq)]
pub struct NewTextVector {
    pub attrs: NewVectorAttributes,
    pub elements: Vec<OneText>,
}

#[derive(Debug, Clone, PartialEq)]
pub struct NewNumberVector {
    pub attrs: NewVectorAttributes,
    pub elements: Vec<OneNumber>,
}

#[derive(Debug, Clone, PartialEq)]
pub struct NewSwitchVector {
    pub attrs: NewVectorAttributes,
    pub elements: Vec<OneSwitch>,
}

#[derive(Debug, Clone, PartialEq)]
pub struct NewBLOBVector {
    pub attrs: NewVectorAttributes,
    pub elements: Vec<OneBLOB>,
}

// ============================================================================
// Control messages
// ============================================================================

/// Get properties request.
#[derive(Debug, Clone, PartialEq)]
pub struct GetProperties {
    pub version: Option<String>,
    pub device: Option<String>,
    pub name: Option<String>,
}

/// Enable BLOB transfer control.
#[derive(Debug, Clone, PartialEq)]
pub struct EnableBLOB {
    pub device: String,
    pub name: Option<String>,
    pub value: BLOBEnable,
}

/// Status message.
#[derive(Debug, Clone, PartialEq)]
pub struct Message {
    pub device: Option<String>,
    pub timestamp: Option<String>,
    pub message: Option<String>,
}

/// Delete property command.
#[derive(Debug, Clone, PartialEq)]
pub struct DelProperty {
    pub device: String,
    pub name: Option<String>,
    pub timestamp: Option<String>,
    pub message: Option<String>,
}

/// Represents an INDIGO protocol message.
#[derive(Debug, Clone, PartialEq)]
pub enum ProtocolMessage {
    DefTextVector(DefTextVector),
    DefNumberVector(DefNumberVector),
    DefSwitchVector(DefSwitchVector),
    DefLightVector(DefLightVector),
    DefBLOBVector(DefBLOBVector),
    SetTextVector(SetTextVector),
    SetNumberVector(SetNumberVector),
    SetSwitchVector(SetSwitchVector),
    SetLightVector(SetLightVector),
    SetBLOBVector(SetBLOBVector),
    NewTextVector(NewTextVector),
    NewNumberVector(NewNumberVector),
    NewSwitchVector(NewSwitchVector),
    NewBLOBVector(NewBLOBVector),
    GetProperties(GetProperties),
    EnableBLOB(EnableBLOB),
    Message(Message),
    DelProperty(DelProperty),
}

/// Protocol message parser: reads INDIGO XML messages.
pub struct ProtocolParser;

/// Protocol message serializer: writes INDIGO XML messages.
pub struct ProtocolSerializer;

// ============================================================================
// Views
// ============================================================================

/// The text of an optional string.
pub open spec fn opt_text(o: Option<String>) -> Option<Seq<char>> {
    match o {
        Some(s) => Some(s@),
        None => None,
    }
}

pub struct VectorAttributesView {
    pub device: Seq<char>,
    pub name: Seq<char>,
    pub label: Seq<char>,
    pub group: Seq<char>,
    pub state: PropertyState,
    pub timeout: Option<Seq<char>>,
    pub timestamp: Option<Seq<char>>,
    pub message: Option<Seq<char>>,
}

pub struct SetVectorAttributesView {
    pub device: Seq<char>,
    pub name: Seq<char>,
    pub state: Option<PropertyState>,
    pub timeout: Option<Seq<char>>,
    pub timestamp: Option<Seq<char>>,
    pub message: Option<Seq<char>>,
}

pub struct NewVectorAttributesView {
    pub device: Seq<char>,
    pub name: Seq<char>,
    pub timestamp: Option<Seq<char>>,
}

/// Name, label and value of a text definition.
pub type DefTextView = (Seq<char>, Seq<char>, Seq<char>);

/// Name, label, format, min, max, step and value of a number definition.
pub type DefNumberView = (Seq<char>, Seq<char>, Seq<char>, Seq<char>, Seq<char>, Seq<char>, Seq<char>);

pub type DefSwitchView = (Seq<char>, Seq<char>, SwitchState);

pub type DefLightView = (Seq<char>, Seq<char>, PropertyState);

pub type DefBLOBView = (Seq<char>, Seq<char>);

pub type OneTextView = (Seq<char>, Seq<char>);

pub type OneSwitchView = (Seq<char>, SwitchState);

pub type OneLightView = (Seq<char>, PropertyState);

/// Name, size, format and value of a BLOB value.
pub type OneBLOBView = (Seq<char>, usize, Seq<char>, Seq<char>);

/// The abstract content of a protocol message.
pub enum MessageView {
    DefTextVector(VectorAttributesView, PropertyPerm, Seq<DefTextView>),
    DefNumberVector(VectorAttributesView, PropertyPerm, Seq<DefNumberView>),
    DefSwitchVector(VectorAttributesView, PropertyPerm, SwitchRule, Seq<DefSwitchView>),
    DefLightVector(VectorAttributesView, Seq<DefLightView>),
    DefBLOBVector(VectorAttributesView, PropertyPerm, Seq<DefBLOBView>),
    SetTextVector(SetVectorAttributesView, Seq<OneTextView>),
    SetNumberVector(SetVectorAttributesView, Seq<OneTextView>),
    SetSwitchVector(SetVectorAttributesView, Seq<OneSwitchView>),
    SetLightVector(SetVectorAttributesView, Seq<OneLightView>),
    SetBLOBVector(SetVectorAttributesView, Seq<OneBLOBView>),
    NewTextVector(NewVectorAttributesView, Seq<OneTextView>),
    NewNumberVector(NewVectorAttributesView, Seq<OneTextView>),
    NewSwitchVector(NewVectorAttributesView, Seq<OneSwitchView>),
    NewBLOBVector(NewVectorAttributesView, Seq<OneBLOBView>),
    GetProperties(Option<Seq<char>>, Option<Seq<char>>, Option<Seq<char>>),
    EnableBLOB(Seq<char>, Option<Seq<char>>, BLOBEnable),
    Message(Option<Seq<char>>, Option<Seq<char>>, Option<Seq<char>>),
    DelProperty(Seq<char>, Option<Seq<char>>, Option<Seq<char>>, Option<Seq<char>>),
}

/// The element name of each kind of message in the protocol.
pub open spec fn message_name(m: MessageView) -> Seq<char> {
    match m {
        MessageView::DefTextVector(..) => "defTextVector"@,
        MessageView::DefNumberVector(..) => "defNumberVector"@,
        MessageView::DefSwitchVector(..) => "defSwitchVector"@,
        MessageView::DefLightVector(..) => "defLightVector"@,
        MessageView::DefBLOBVector(..) => "defBLOBVector"@,
        MessageView::SetTextVector(..) => "setTextVector"@,
        MessageView::SetNumberVector(..) => "setNumberVector"@,
        MessageView::SetSwitchVector(..) => "setSwitchVector"@,
        MessageView::SetLightVector(..) => "setLightVector"@,
        MessageView::SetBLOBVector(..) => "setBLOBVector"@,
        MessageView::NewTextVector(..) => "newTextVector"@,
        MessageView::NewNumberVector(..) => "newNumberVector"@,
        MessageView::NewSwitchVector(..) => "newSwitchVector"@,
        MessageView::NewBLOBVector(..) => "newBLOBVector"@,
        MessageView::GetProperties(..) => "getProperties"@,
        MessageView::EnableBLOB(..) => "enableBLOB"@,
        MessageView::Message(..) => "message"@,
        MessageView::DelProperty(..) => "delProperty"@,
    }
}

impl View for VectorAttributes {
    type V = VectorAttributesView;

    open spec fn view(&self) -> VectorAttributesView {
        VectorAttributesView {
            device: self.device@,
            name: self.name@,
            label: self.label@,
            group: self.group@,
            state: self.state,
            timeout: opt_text(self.timeout),
            timestamp: opt_text(self.timestamp),
            message: opt_text(self.message),
        }
    }
}

impl View for SetVectorAttributes {
    type V = SetVectorAttributesView;

    open spec fn view(&self) -> SetVectorAttributesView {
        SetVectorAttributesView {
            device: self.device@,
            name: self.name@,
            state: self.state,
            timeout: opt_text(self.timeout),
            timestamp: opt_text(self.timestamp),
            message: opt_text(self.message),
        }
    }
}

impl View for NewVectorAttributes {
    type V = NewVectorAttributesView;

    open spec fn view(&self) -> NewVectorAttributesView {
        NewVectorAttributesView {
            device: self.device@,
            name: self.name@,
            timestamp: opt_text(self.timestamp),
        }
    }
}

impl View for DefText {
    type V = DefTextView;

    open spec fn view(&self) -> DefTextView {
        (self.name@, self.label@, self.value@)
    }
}

impl View for DefNumber {
    type V = DefNumberView;

    open spec fn view(&self) -> DefNumberView {
        (self.name@, self.label@, self.format@, self.min@, self.max@, self.step@, self.value@)
    }
}

impl View for DefSwitch {
    type V = DefSwitchView;

    open spec fn view(&self) -> DefSwitchView {
        (self.name@, self.label@, self.value)
    }
}

impl View for DefLight {
    type V = DefLightView;

    open spec fn view(&self) -> DefLightView {
        (self.name@, self.label@, self.value)
    }
}

impl View for DefBLOB {
    type V = DefBLOBView;

    open spec fn view(&self) -> DefBLOBView {
        (self.name@, self.label@)
    }
}

impl View for OneText {
    type V = OneTextView;

    open spec fn view(&self) -> OneTextView {
        (self.name@, self.value@)
    }
}

impl View for OneNumber {
    type V = OneTextView;

    open spec fn view(&self) -> OneTextView {
        (self.name@, self.value@)
    }
}

impl View for OneSwitch {
    type V = OneSwitchView;

    open spec fn view(&self) -> OneSwitchView {
        (self.name@, self.value)
    }
}

impl View for OneLight {
    type V = OneLightView;

    open spec fn view(&self) -> OneLightView {
        (self.name@, self.value)
    }
}

impl View for OneBLOB {
    type V = OneBLOBView;

    open spec fn view(&self) -> OneBLOBView {
        (self.name@, self.size, self.format@, self.value@)
    }
}

/// The views of the items of a vector.
pub open spec fn items_view<T: View>(v: Vec<T>) -> Seq<T::V> {
    v@.map_values(|x: T| x@)
}

impl View for ProtocolMessage {
    type V = MessageView;

    open spec fn view(&self) -> MessageView {
        match self {
            ProtocolMessage::DefTextVector(v) => MessageView::DefTextVector(
                v.attrs@,
                v.perm,
                items_view(v.elements),
            ),
            ProtocolMessage::DefNumberVector(v) => MessageView::DefNumberVector(
                v.attrs@,
                v.perm,
                items_view(v.elements),
            ),
            ProtocolMessage::DefSwitchVector(v) => MessageView::DefSwitchVector(
                v.attrs@,
                v.perm,
                v.rule,
                items_view(v.elements),
            ),
            ProtocolMessage::DefLightVector(v) => MessageView::DefLightVector(
                v.attrs@,
                items_view(v.elements),
            ),
            ProtocolMessage::DefBLOBVector(v) => MessageView::DefBLOBVector(
                v.attrs@,
                v.perm,
                items_view(v.elements),
            ),
            ProtocolMessage::SetTextVector(v) => MessageView::SetTextVector(
                v.attrs@,
                items_view(v.elements),
            ),
            ProtocolMessage::SetNumberVector(v) => MessageView::SetNumberVector(
                v.attrs@,
                items_view(v.elements),
            ),
            ProtocolMessage::SetSwitchVector(v) => MessageView::SetSwitchVector(
                v.attrs@,
                items_view(v.elements),
            ),
            ProtocolMessage::SetLightVector(v) => MessageView::SetLightVector(
                v.attrs@,
                items_view(v.elements),
            ),
            ProtocolMessage::SetBLOBVector(v) => MessageView::SetBLOBVector(
                v.attrs@,
                items_view(v.elements),
            ),
            ProtocolMessage::NewTextVector(v) => MessageView::NewTextVector(
                v.attrs@,
                items_view(v.elements),
            ),
            ProtocolMessage::NewNumberVector(v) => MessageView::NewNumberVector(
                v.attrs@,
                items_view(v.elements),
            ),
            ProtocolMessage::NewSwitchVector(v) => MessageView::NewSwitchVector(
                v.attrs@,
                items_view(v.elements),
            ),
            ProtocolMessage::NewBLOBVector(v) => MessageView::NewBLOBVector(
                v.attrs@,
                items_view(v.elements),
            ),
            ProtocolMessage::GetProperties(g) => MessageView::GetProperties(
                opt_text(g.version),
                opt_text(g.device),
                opt_text(g.name),
            ),
            ProtocolMessage::EnableBLOB(e) => MessageView::EnableBLOB(
                e.device@,
                opt_text(e.name),
                e.value,
            ),
            ProtocolMessage::Message(m) => MessageView::Message(
                opt_text(m.device),
                opt_text(m.timestamp),
                opt_text(m.message),
            ),
            ProtocolMessage::DelProperty(d) => MessageView::DelProperty(
                d.device@,
                opt_text(d.name),
                opt_text(d.timestamp),
                opt_text(d.message),
            ),
        }
    }
}

/// Parsing the protocol name of a switch state gives the state back.
pub proof fn lemma_switch_state_name_parses_back(s: SwitchState)
    ensures
        SwitchState::spec_parse(s.spec_as_str()@) == Some(s),
{
    reveal_strlit("Off");
    reveal_strlit("On");
    assert("Off"@.len() != "On"@.len());
}

/// Parsing the protocol name of a switch rule gives the rule back.
pub proof fn lemma_switch_rule_name_parses_back(r: SwitchRule)
    ensures
        SwitchRule::spec_parse(r.spec_as_str()@) == Some(r),
{
    reveal_strlit("OneOfMany");
    reveal_strlit("AtMostOne");
    reveal_strlit("AnyOfMany");
    assert("OneOfMany"@[0] != "AtMostOne"@[0]);
    assert("OneOfMany"@[0] != "AnyOfMany"@[0]);
    assert("AtMostOne"@[1] != "AnyOfMany"@[1]);
}

/// The protocol names of the switch states are fixed: `Off` and `On`. Each state is
/// written under its own name, and a text is read as a state exactly when it is
/// that state's name.
pub proof fn lemma_switch_state_names(st: SwitchState, s: Seq<char>)
    ensures
        st.spec_as_str()@ == (match st {
            SwitchState::Off => "Off"@,
            SwitchState::On => "On"@,
        }),
        SwitchState::spec_parse(s) == Some(st) <==> s == st.spec_as_str()@,
{
    lemma_switch_state_name_parses_back(st);
}

/// The protocol names of the switch rules are fixed: `OneOfMany`, `AtMostOne` and
/// `AnyOfMany`. Each rule is written under its own name, and a text is read as a
/// rule exactly when it is that rule's name.
pub proof fn lemma_switch_rule_names(rule: SwitchRule, s: Seq<char>)
    ensures
        rule.spec_as_str()@ == (match rule {
            SwitchRule::OneOfMany => "OneOfMany"@,
            SwitchRule::AtMostOne => "AtMostOne"@,
            SwitchRule::AnyOfMany => "AnyOfMany"@,
        }),
        SwitchRule::spec_parse(s) == Some(rule) <==> s == rule.spec_as_str()@,
{
    lemma_switch_rule_name_parses_back(rule);
}

/// The protocol names of the BLOB modes are fixed: `Never`, `Also` and `Only`. Each
/// mode is written under its own name, and a text is read as a mode exactly when it
/// is that mode's name.
pub proof fn lemma_blob_enable_names(b: BLOBEnable, s: Seq<char>)
    ensures
        b.spec_as_str()@ == (match b {
            BLOBEnable::Never => "Never"@,
            BLOBEnable::Also => "Also"@,
            BLOBEnable::Only => "Only"@,
        }),
        BLOBEnable::spec_parse(s) == Some(b) <==> s == b.spec_as_str()@,
{
    lemma_blob_enable_name_parses_back(b);
}

/// Parsing the protocol name of a BLOB mode gives the mode back.
pub proof fn lemma_blob_enable_name_parses_back(b: BLOBEnable)
    ensures
        BLOBEnable::spec_parse(b.spec_as_str()@) == Some(b),
{
    reveal_strlit("Never");
    reveal_strlit("Also");
    reveal_strlit("Only");
    assert("Never"@.len() != "Also"@.len());
    assert("Never"@.len() != "Only"@.len());
    assert("Also"@[0] != "Only"@[0]);
}

} // verus!
