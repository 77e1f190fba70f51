//! Value types for INDIGO properties.
use vstd::prelude::*;

verus! {

/// State of a switch property item.
#[derive(Debug, Clone, Copy, PartialEq, Eq, Hash)]
pub enum SwitchState {
    /// Switch is off.
    Off,
    /// Switch is on.
    On,
}

/// Rule for switch property behavior.
#[derive(Debug, Clone, Copy, PartialEq, Eq, Hash)]
pub enum SwitchRule {
    /// At most one switch can be on.
    OneOfMany,
    /// At most one switch can be on, but all can be off.
    AtMostOne,
    /// Any number of switches can be on.
    AnyOfMany,
}

/// State of a light property item (read-only indicator).
#[derive(Debug, Clone, Copy, PartialEq, Eq, Hash)]
pub enum LightState {
    /// Idle state.
    Idle,
    /// OK/success state.
    Okay,
    /// Busy/in-progress state.
    Busy,
    /// Alert/error state.
    Alert,
}

impl SwitchState {
    pub open spec fn spec_text(self) -> &'static str {
        match self {
            SwitchState::Off => "Off",
            SwitchState::On => "On",
        }
    }

    /// The display text of the state.
    pub fn text(&self) -> (r: &'static str)
        ensures
            r == self.spec_text(),
    {
        match self {
            SwitchState::Off => "Off",
            SwitchState::On => "On",
        }
    }
}

impl SwitchRule {
    pub open spec fn spec_text(self) -> &'static str {
        match self {
            SwitchRule::OneOfMany => "OneOfMany",
            SwitchRule::AtMostOne => "AtMostOne",
            SwitchRule::AnyOfMany => "AnyOfMany",
        }
    }

    /// The display text of the rule.
    pub fn text(&self) -> (r: &'static str)
        ensures
            r == self.spec_text(),
    {
        match self {
            SwitchRule::OneOfMany => "OneOfMany",
            SwitchRule::AtMostOne => "AtMostOne",
            SwitchRule::AnyOfMany => "AnyOfMany",
        }
    }
}

impl LightState {
    pub open spec fn spec_text(self) -> &'static str {
        match self {
            LightState::Idle => "Idle",
            LightState::Okay => "Ok",
            LightState::Busy => "Busy",
            LightState::Alert => "Alert",
        }
    }

    /// The display text of the state.
    pub fn text(&self) -> (r: &'static str)
        ensures
            r == self.spec_text(),
    {
        match self {
            LightState::Idle => "Idle",
            LightState::Okay => "Ok",
            LightState::Busy => "Busy",
            LightState::Alert => "Alert",
        }
    }
}

/// The text of the lowest number a default number value allows (`f64::MIN`).
pub const NUMBER_MIN_TEXT: &'static str = "-1.7976931348623157e308";

/// The text of the highest number a default number value allows (`f64::MAX`).
pub const NUMBER_MAX_TEXT: &'static str = "1.7976931348623157e308";

/// Represents the different types of values that can be stored in a property.
///
/// A number, its range and its step are held as the decimal text that the INDIGO
/// protocol carries; the library itself does no arithmetic on them.
#[derive(Debug, Clone, PartialEq)]
pub enum PropertyValue {
    /// Text value.
    Text(String),
    /// Numeric value with optional format information.
    Number {
        /// The numeric value.
        value: String,
        /// Minimum allowed value.
        min: String,
        /// Maximum allowed value.
        max: String,
        /// Step size for increments.
        step: String,
        /// Display format string (printf-style).
        format: String,
    },
    /// Switch (boolean) value.
    Switch {
        /// Current state of the switch.
        state: SwitchState,
    },
    /// Light indicator value (read-only status).
    Light {
        /// Current state of the light.
        state: LightState,
    },
    /// Binary Large Object (BLOB) value.
    Blob {
        /// BLOB data.
        data: Vec<u8>,
        /// MIME type of the data.
        format: String,
        /// Size of the data in bytes.
        size: usize,
    },
}

/// What a property value holds.
pub enum ValueView {
    Text(Seq<char>),
    Number { value: Seq<char>, min: Seq<char>, max: Seq<char>, step: Seq<char>, format: Seq<char> },
    Switch { state: SwitchState },
    Light { state: LightState },
    Blob { data: Seq<u8>, format: Seq<char>, size: nat },
}

impl View for PropertyValue {
    type V = ValueView;

    open spec fn view(&self) -> ValueView {
        match self {
            PropertyValue::Text(t) => ValueView::Text(t@),
            PropertyValue::Number { value, min, max, step, format } => ValueView::Number {
                value: value@,
                min: min@,
                max: max@,
                step: step@,
                format: format@,
            },
            PropertyValue::Switch { state } => ValueView::Switch { state: *state },
            PropertyValue::Light { state } => ValueView::Light { state: *state },
            PropertyValue::Blob { data, format, size } => ValueView::Blob {
                data: data@,
                format: format@,
                size: *size as nat,
            },
        }
    }
}

impl PropertyValue {
    /// Creates a new text value.
    pub fn text(value: &str) -> (r: PropertyValue)
        ensures
            r@ == ValueView::Text(value@),
    {
        PropertyValue::Text(value.to_owned())
    }

    /// Creates a new number value, given as decimal text, with the widest range, a
    /// step of `0` and the format `%.2f`.
    pub fn number(value: &str) -> (r: PropertyValue)
        ensures
            r@ == (ValueView::Number {
                value: value@,
                min: NUMBER_MIN_TEXT@,
                max: NUMBER_MAX_TEXT@,
                step: "0"@,
                format: "%.2f"@,
            }),
    {
        PropertyValue::Number {
            value: value.to_owned(),
            min: NUMBER_MIN_TEXT.to_owned(),
            max: NUMBER_MAX_TEXT.to_owned(),
            step: "0".to_owned(),
            format: "%.2f".to_owned(),
        }
    }

    /// Creates a new switch value.
    pub fn switch(state: SwitchState) -> (r: PropertyValue)
        ensures
            r@ == (ValueView::Switch { state }),
    {
        PropertyValue::Switch { state }
    }

    /// Creates a new light value.
    pub fn light(state: LightState) -> (r: PropertyValue)
        ensures
            r@ == (ValueView::Light { state }),
    {
        PropertyValue::Light { state }
    }

    /// Creates a new BLOB value; its size is the length of the data.
    pub fn blob(data: Vec<u8>, format: &str) -> (r: PropertyValue)
        ensures
            r@ == (ValueView::Blob { data: data@, format: format@, size: data@.len() }),
    {
        let size = data.len();
        PropertyValue::Blob { data, format: format.to_owned(), size }
    }

    /// A copy of the value.
    pub(crate) fn duplicate(&self) -> (r: PropertyValue)
        ensures
            r@ == self@,
    {
        match self {
            PropertyValue::Text(t) => PropertyValue::Text(t.clone()),
            PropertyValue::Number { value, min, max, step, format } => PropertyValue::Number {
                value: value.clone(),
                min: min.clone(),
                max: max.clone(),
                step: step.clone(),
                format: format.clone(),
            },
            PropertyValue::Switch { state } => PropertyValue::Switch { state: *state },
            PropertyValue::Light { state } => PropertyValue::Light { state: *state },
            PropertyValue::Blob { data, format, size } => {
                let d = data.clone();
                assert(d@ =~= data@);
                PropertyValue::Blob { data: d, format: format.clone(), size: *size }
            },
        }
    }
}

} // verus!
