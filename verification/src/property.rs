//! Item values of INDIGO properties.
use vstd::prelude::*;

verus! {

/// The value of a text item.
#[derive(PartialEq, Debug, Clone)]
pub struct Text {
    value: String,
}

impl Text {
    /// A text item holding `text`.
    pub fn new(text: &str) -> (r: Text)
        ensures
            r.spec_value() == text@,
    {
        Text { value: text.to_owned() }
    }

    pub closed spec fn spec_value(&self) -> Seq<char> {
        self.value@
    }

    /// The text of the item.
    pub fn value(&self) -> (r: &str)
        ensures
            r@ == self.spec_value(),
    {
        self.value.as_str()
    }
}

/// The value of a switch item.
#[derive(PartialEq, Debug, Clone)]
pub struct Switch {
    value: bool,
}

impl Switch {
    /// A switch item that is on or off.
    pub fn new(on: bool) -> (r: Switch)
        ensures
            r.spec_on() == on,
    {
        Switch { value: on }
    }

    pub closed spec fn spec_on(&self) -> bool {
        self.value
    }

    /// Whether the switch is on.
    pub fn on(&self) -> (r: bool)
        ensures
            r == self.spec_on(),
    {
        self.value
    }
}

} // verus!
