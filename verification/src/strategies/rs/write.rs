//! Writing INDIGO messages as XML.
//!
//! A message is written as a sequence of XML events (`message_out`): the start tag
//! of the vector with its attributes, the tags and text of its elements in order,
//! and the end tag. `ProtocolSerializer::serialize` gives the UTF-8 bytes of the
//! text that an XML writer without indentation writes for those events.
use vstd::prelude::*;
use crate::error::IndigoError;
use crate::strategies::rs::protocol::{
    items_view, opt_text, BLOBEnable, DefBLOBVector, DefLightVector, DefNumberVector, DefSwitchVector, DefTextVector, DelProperty, EnableBLOB, GetProperties, Message, NewBLOBVector, NewNumberVector, NewSwitchVector, NewTextVector, SetBLOBVector, SetLightVector, SetNumberVector, SetSwitchVector, SetTextVector, DefBLOB, DefBLOBView, DefLight, DefLightView, DefNumber,
    DefNumberView, DefSwitch, DefSwitchView, DefText, DefTextView, MessageView,
    NewVectorAttributes, NewVectorAttributesView, OneBLOB, OneBLOBView, OneLight, OneLightView,
    OneNumber, OneSwitch, OneSwitchView, OneText, OneTextView, PropertyPerm, ProtocolMessage,
    ProtocolSerializer, SetVectorAttributes, SetVectorAttributesView, SwitchRule,
    VectorAttributes, VectorAttributesView,
};
use crate::strategies::rs::xml::{attrs_out_view, write_xml_event, xml_out_text, XmlOut, XmlOutView};
use crate::text::{decimal_string, decimal_text};

verus! {

// ---------------------------------------------------------------------------
// What is written
// ---------------------------------------------------------------------------

/// An attribute list of the attribute `key` with value `v` when `v` is not empty.
pub open spec fn nonempty_attr(key: Seq<char>, v: Seq<char>) -> Seq<(Seq<char>, Seq<char>)> {
    if v.len() > 0 {
        seq![(key, v)]
    } else {
        Seq::empty()
    }
}

/// An attribute list of the attribute `key` with the value of `v`, if any.
pub open spec fn opt_attr(key: Seq<char>, v: Option<Seq<char>>) -> Seq<(Seq<char>, Seq<char>)> {
    match v {
        Some(x) => seq![(key, x)],
        None => Seq::empty(),
    }
}

/// The attributes of a definition vector, in the order they are written.
pub open spec fn vector_attrs_out(a: VectorAttributesView) -> Seq<(Seq<char>, Seq<char>)> {
    seq![("device"@, a.device)] + seq![("name"@, a.name)] + nonempty_attr("label"@, a.label)
        + nonempty_attr("group"@, a.group) + seq![("state"@, a.state.spec_as_str()@)]
        + opt_attr("timeout"@, a.timeout) + opt_attr("timestamp"@, a.timestamp) + opt_attr(
        "message"@,
        a.message,
    )
}

/// The attributes of a set vector, in the order they are written.
pub open spec fn set_vector_attrs_out(a: SetVectorAttributesView) -> Seq<(Seq<char>, Seq<char>)> {
    seq![("device"@, a.device)] + seq![("name"@, a.name)] + opt_attr(
        "state"@,
        match a.state {
            Some(s) => Some(s.spec_as_str()@),
            None => None,
        },
    ) + opt_attr("timeout"@, a.timeout) + opt_attr("timestamp"@, a.timestamp) + opt_attr(
        "message"@,
        a.message,
    )
}

/// The attributes of a new vector, in the order they are written.
pub open spec fn new_vector_attrs_out(a: NewVectorAttributesView) -> Seq<(Seq<char>, Seq<char>)> {
    seq![("device"@, a.device)] + seq![("name"@, a.name)] + opt_attr("timestamp"@, a.timestamp)
}

/// An element written as a start tag, its text and its end tag.
pub open spec fn text_element(tag: Seq<char>, attrs: Seq<(Seq<char>, Seq<char>)>, text: Seq<char>) -> Seq<
    XmlOutView,
> {
    seq![XmlOutView::Start(tag, attrs), XmlOutView::Text(text), XmlOutView::End(tag)]
}

pub open spec fn def_text_out(x: DefTextView) -> Seq<XmlOutView> {
    text_element("defText"@, seq![("name"@, x.0)] + nonempty_attr("label"@, x.1), x.2)
}

pub open spec fn def_number_out(x: DefNumberView) -> Seq<XmlOutView> {
    text_element(
        "defNumber"@,
        seq![("name"@, x.0)] + nonempty_attr("label"@, x.1) + seq![("format"@, x.2)] + seq![("min"@, x.3)]
            + seq![("max"@, x.4)] + seq![("step"@, x.5)],
        x.6,
    )
}

pub open spec fn def_switch_out(x: DefSwitchView) -> Seq<XmlOutView> {
    text_element("defSwitch"@, seq![("name"@, x.0)] + nonempty_attr("label"@, x.1), x.2.spec_as_str()@)
}

pub open spec fn def_light_out(x: DefLightView) -> Seq<XmlOutView> {
    text_element("defLight"@, seq![("name"@, x.0)] + nonempty_attr("label"@, x.1), x.2.spec_as_str()@)
}

pub open spec fn def_blob_out(x: DefBLOBView) -> Seq<XmlOutView> {
    seq![XmlOutView::Empty("defBLOB"@, seq![("name"@, x.0)] + nonempty_attr("label"@, x.1))]
}

pub open spec fn one_text_out(x: OneTextView) -> Seq<XmlOutView> {
    text_element("oneText"@, seq![("name"@, x.0)], x.1)
}

pub open spec fn one_number_out(x: OneTextView) -> Seq<XmlOutView> {
    text_element("oneNumber"@, seq![("name"@, x.0)], x.1)
}

pub open spec fn one_switch_out(x: OneSwitchView) -> Seq<XmlOutView> {
    text_element("oneSwitch"@, seq![("name"@, x.0)], x.1.spec_as_str()@)
}

pub open spec fn one_light_out(x: OneLightView) -> Seq<XmlOutView> {
    text_element("oneLight"@, seq![("name"@, x.0)], x.1.spec_as_str()@)
}

pub open spec fn one_blob_out(x: OneBLOBView) -> Seq<XmlOutView> {
    text_element(
        "oneBLOB"@,
        seq![("name"@, x.0)] + seq![("size"@, decimal_text(x.1 as nat))] + seq![("format"@, x.2)],
        x.3,
    )
}

/// A vector written as its start tag, its elements and its end tag.
pub open spec fn vector_out(
    tag: Seq<char>,
    attrs: Seq<(Seq<char>, Seq<char>)>,
    elements: Seq<XmlOutView>,
) -> Seq<XmlOutView> {
    seq![XmlOutView::Start(tag, attrs)] + elements + seq![XmlOutView::End(tag)]
}

/// The XML events that a message is written as.
pub open spec fn message_out(m: MessageView) -> Seq<XmlOutView> {
    match m {
        MessageView::DefTextVector(a, perm, items) => vector_out(
            "defTextVector"@,
            vector_attrs_out(a) + seq![("perm"@, perm.spec_as_str()@)],
            items.flat_map(|x: DefTextView| def_text_out(x)),
        ),
        MessageView::DefNumberVector(a, perm, items) => vector_out(
            "defNumberVector"@,
            vector_attrs_out(a) + seq![("perm"@, perm.spec_as_str()@)],
            items.flat_map(|x: DefNumberView| def_number_out(x)),
        ),
        MessageView::DefSwitchVector(a, perm, rule, items) => vector_out(
            "defSwitchVector"@,
            vector_attrs_out(a) + seq![("perm"@, perm.spec_as_str()@)] + seq![("rule"@, rule.spec_as_str()@)],
            items.flat_map(|x: DefSwitchView| def_switch_out(x)),
        ),
        MessageView::DefLightVector(a, items) => vector_out(
            "defLightVector"@,
            vector_attrs_out(a),
            items.flat_map(|x: DefLightView| def_light_out(x)),
        ),
        MessageView::DefBLOBVector(a, perm, items) => vector_out(
            "defBLOBVector"@,
            vector_attrs_out(a) + seq![("perm"@, perm.spec_as_str()@)],
            items.flat_map(|x: DefBLOBView| def_blob_out(x)),
        ),
        MessageView::SetTextVector(a, items) => vector_out(
            "setTextVector"@,
            set_vector_attrs_out(a),
            items.flat_map(|x: OneTextView| one_text_out(x)),
        ),
        MessageView::SetNumberVector(a, items) => vector_out(
            "setNumberVector"@,
            set_vector_attrs_out(a),
            items.flat_map(|x: OneTextView| one_number_out(x)),
        ),
        MessageView::SetSwitchVector(a, items) => vector_out(
            "setSwitchVector"@,
            set_vector_attrs_out(a),
            items.flat_map(|x: OneSwitchView| one_switch_out(x)),
        ),
        MessageView::SetLightVector(a, items) => vector_out(
            "setLightVector"@,
            set_vector_attrs_out(a),
            items.flat_map(|x: OneLightView| one_light_out(x)),
        ),
        MessageView::SetBLOBVector(a, items) => vector_out(
            "setBLOBVector"@,
            set_vector_attrs_out(a),
            items.flat_map(|x: OneBLOBView| one_blob_out(x)),
        ),
        MessageView::NewTextVector(a, items) => vector_out(
            "newTextVector"@,
            new_vector_attrs_out(a),
            items.flat_map(|x: OneTextView| one_text_out(x)),
        ),
        MessageView::NewNumberVector(a, items) => vector_out(
            "newNumberVector"@,
            new_vector_attrs_out(a),
            items.flat_map(|x: OneTextView| one_number_out(x)),
        ),
        MessageView::NewSwitchVector(a, items) => vector_out(
            "newSwitchVector"@,
            new_vector_attrs_out(a),
            items.flat_map(|x: OneSwitchView| one_switch_out(x)),
        ),
        MessageView::NewBLOBVector(a, items) => vector_out(
            "newBLOBVector"@,
            new_vector_attrs_out(a),
            items.flat_map(|x: OneBLOBView| one_blob_out(x)),
        ),
        MessageView::GetProperties(version, device, name) => seq![
            XmlOutView::Empty(
                "getProperties"@,
                opt_attr("version"@, version) + opt_attr("device"@, device) + opt_attr(
                    "name"@,
                    name,
                ),
            ),
        ],
        MessageView::EnableBLOB(device, name, value) => text_element(
            "enableBLOB"@,
            seq![("device"@, device)] + opt_attr("name"@, name),
            value.spec_as_str()@,
        ),
        MessageView::Message(device, timestamp, message) => seq![
            XmlOutView::Empty(
                "message"@,
                opt_attr("device"@, device) + opt_attr("timestamp"@, timestamp) + opt_attr(
                    "message"@,
                    message,
                ),
            ),
        ],
        MessageView::DelProperty(device, name, timestamp, message) => seq![
            XmlOutView::Empty(
                "delProperty"@,
                seq![("device"@, device)] + opt_attr("name"@, name) + opt_attr(
                    "timestamp"@,
                    timestamp,
                ) + opt_attr("message"@, message),
            ),
        ],
    }
}

/// The text written for a sequence of XML events, one after the other.
pub open spec fn out_text(s: Seq<XmlOutView>) -> Seq<char>
    decreases s.len(),
{
    if s.len() == 0 {
        Seq::empty()
    } else {
        out_text(s.drop_last()) + xml_out_text(s.last())
    }
}

/// The XML text of a message.
pub open spec fn message_xml(m: MessageView) -> Seq<char> {
    out_text(message_out(m))
}

// ---------------------------------------------------------------------------
// Writing
// ---------------------------------------------------------------------------

/// The UTF-8 encoding of two texts one after the other is the encoding of the
/// first followed by that of the second.
pub proof fn lemma_encode_utf8_concat(a: Seq<char>, b: Seq<char>)
    ensures
        vstd::utf8::encode_utf8(a + b) == vstd::utf8::encode_utf8(a) + vstd::utf8::encode_utf8(b),
    decreases a.len(),
{
    if a.len() == 0 {
        assert(a + b =~= b);
    } else {
        assert((a + b).drop_first() =~= a.drop_first() + b);
        lemma_encode_utf8_concat(a.drop_first(), b);
        assert(vstd::utf8::encode_utf8(a + b) =~= vstd::utf8::encode_utf8(a) + vstd::utf8::encode_utf8(b));
    }
}

fn push_attr(attrs: &mut Vec<(&'static str, String)>, key: &'static str, v: &str)
    ensures
        attrs_out_view(*final(attrs)) == attrs_out_view(*old(attrs)).push((key@, v@)),
{
    attrs.push((key, v.to_owned()));
    assert(attrs_out_view(*attrs) =~= attrs_out_view(*old(attrs)).push((key@, v@)));
}

fn push_nonempty_attr(attrs: &mut Vec<(&'static str, String)>, key: &'static str, v: &String)
    ensures
        attrs_out_view(*final(attrs)) == attrs_out_view(*old(attrs)) + nonempty_attr(key@, v@),
{
    if !v.as_str().is_empty() {
        push_attr(attrs, key, v.as_str());
        assert(attrs_out_view(*old(attrs)).push((key@, v@)) =~= attrs_out_view(*old(attrs))
            + nonempty_attr(key@, v@));
    } else {
        assert(attrs_out_view(*old(attrs)) =~= attrs_out_view(*old(attrs)) + nonempty_attr(key@, v@));
    }
}

fn push_opt_attr(attrs: &mut Vec<(&'static str, String)>, key: &'static str, v: &Option<String>)
    ensures
        attrs_out_view(*final(attrs)) == attrs_out_view(*old(attrs)) + opt_attr(key@, opt_text(*v)),
{
    match v {
        Some(x) => {
            push_attr(attrs, key, x.as_str());
            assert(attrs_out_view(*old(attrs)).push((key@, x@)) =~= attrs_out_view(*old(attrs))
                + opt_attr(key@, opt_text(*v)));
        },
        None => {
            assert(attrs_out_view(*old(attrs)) =~= attrs_out_view(*old(attrs)) + opt_attr(
                key@,
                opt_text(*v),
            ));
        },
    }
}

fn push_event(out: &mut Vec<XmlOut>, e: XmlOut)
    ensures
        items_view(*final(out)) == items_view(*old(out)).push(e@),
{
    out.push(e);
    assert(items_view(*out) =~= items_view(*old(out)).push(e@));
}

fn push_text_element(out: &mut Vec<XmlOut>, tag: &'static str, attrs: Vec<(&'static str, String)>, text: &str)
    ensures
        items_view(*final(out)) == items_view(*old(out)) + text_element(tag@, attrs_out_view(attrs), text@),
{
    let ghost a = attrs_out_view(attrs);
    push_event(out, XmlOut::Start(tag, attrs));
    push_event(out, XmlOut::Text(text.to_owned()));
    push_event(out, XmlOut::End(tag));
    assert(items_view(*out) =~= items_view(*old(out)) + text_element(tag@, a, text@));
}

/// An element that is written as XML events.
pub trait OutItem: View + Sized {
    /// The events that an element is written as.
    spec fn spec_out(x: Self::V) -> Seq<XmlOutView>;

    /// Appends the events of this element.
    fn write_item(&self, out: &mut Vec<XmlOut>)
        ensures
            items_view(*final(out)) == items_view(*old(out)) + Self::spec_out(self@),
    ;
}

/// Appends the events of each element in order.
fn write_items<T: OutItem>(out: &mut Vec<XmlOut>, items: &Vec<T>)
    ensures
        items_view(*final(out)) == items_view(*old(out)) + items_view(*items).flat_map(
            |x: T::V| T::spec_out(x),
        ),
{
    let ghost f = |x: T::V| T::spec_out(x);
    let ghost all = items_view(*items);
    let ghost start = items_view(*out);
    let mut i: usize = 0;
    assert(all.take(0).flat_map(f) =~= Seq::<XmlOutView>::empty()) by {
        assert(all.take(0) =~= Seq::<T::V>::empty());
    }
    assert(start =~= start + all.take(0).flat_map(f));
    while i < items.len()
        invariant
            i <= items@.len(),
            all == items_view(*items),
            all.len() == items@.len(),
            f == (|x: T::V| T::spec_out(x)),
            items_view(*out) == start + all.take(i as int).flat_map(f),
        decreases items.len() - i,
    {
        let ghost before = items_view(*out);
        items[i].write_item(out);
        proof {
            all.lemma_flat_map_take_append(f, i as int);
            assert(all[i as int] == items@[i as int]@);
        }
        assert(items_view(*out) =~= start + all.take(i + 1).flat_map(f));
        i = i + 1;
    }
    assert(all.take(i as int) =~= all);
}

impl OutItem for DefText {
    open spec fn spec_out(x: DefTextView) -> Seq<XmlOutView> {
        def_text_out(x)
    }

    fn write_item(&self, out: &mut Vec<XmlOut>) {
        let mut attrs: Vec<(&'static str, String)> = Vec::new();
        push_attr(&mut attrs, "name", self.name.as_str());
        push_nonempty_attr(&mut attrs, "label", &self.label);
        assert(attrs_out_view(attrs) =~= seq![("name"@, self.name@)] + nonempty_attr("label"@, self.label@));
        push_text_element(out, "defText", attrs, self.value.as_str());
    }
}

impl OutItem for DefNumber {
    open spec fn spec_out(x: DefNumberView) -> Seq<XmlOutView> {
        def_number_out(x)
    }

    fn write_item(&self, out: &mut Vec<XmlOut>) {
        let mut attrs: Vec<(&'static str, String)> = Vec::new();
        push_attr(&mut attrs, "name", self.name.as_str());
        push_nonempty_attr(&mut attrs, "label", &self.label);
        push_attr(&mut attrs, "format", self.format.as_str());
        push_attr(&mut attrs, "min", self.min.as_str());
        push_attr(&mut attrs, "max", self.max.as_str());
        push_attr(&mut attrs, "step", self.step.as_str());
        assert(attrs_out_view(attrs) =~= seq![("name"@, self.name@)] + nonempty_attr("label"@, self.label@)
            + seq![("format"@, self.format@)] + seq![("min"@, self.min@)] + seq![("max"@, self.max@)] + seq![("step"@, self.step@)]);
        push_text_element(out, "defNumber", attrs, self.value.as_str());
    }
}

impl OutItem for DefSwitch {
    open spec fn spec_out(x: DefSwitchView) -> Seq<XmlOutView> {
        def_switch_out(x)
    }

    fn write_item(&self, out: &mut Vec<XmlOut>) {
        let mut attrs: Vec<(&'static str, String)> = Vec::new();
        push_attr(&mut attrs, "name", self.name.as_str());
        push_nonempty_attr(&mut attrs, "label", &self.label);
        assert(attrs_out_view(attrs) =~= seq![("name"@, self.name@)] + nonempty_attr("label"@, self.label@));
        push_text_element(out, "defSwitch", attrs, self.value.as_str());
    }
}

impl OutItem for DefLight {
    open spec fn spec_out(x: DefLightView) -> Seq<XmlOutView> {
        def_light_out(x)
    }

    fn write_item(&self, out: &mut Vec<XmlOut>) {
        let mut attrs: Vec<(&'static str, String)> = Vec::new();
        push_attr(&mut attrs, "name", self.name.as_str());
        push_nonempty_attr(&mut attrs, "label", &self.label);
        assert(attrs_out_view(attrs) =~= seq![("name"@, self.name@)] + nonempty_attr("label"@, self.label@));
        push_text_element(out, "defLight", attrs, self.value.as_str());
    }
}

impl OutItem for DefBLOB {
    open spec fn spec_out(x: DefBLOBView) -> Seq<XmlOutView> {
        def_blob_out(x)
    }

    fn write_item(&self, out: &mut Vec<XmlOut>) {
        let mut attrs: Vec<(&'static str, String)> = Vec::new();
        push_attr(&mut attrs, "name", self.name.as_str());
        push_nonempty_attr(&mut attrs, "label", &self.label);
        assert(attrs_out_view(attrs) =~= seq![("name"@, self.name@)] + nonempty_attr("label"@, self.label@));
        push_event(out, XmlOut::Empty("defBLOB", attrs));
        assert(items_view(*out) =~= items_view(*old(out)) + def_blob_out(self@));
    }
}

impl OutItem for OneText {
    open spec fn spec_out(x: OneTextView) -> Seq<XmlOutView> {
        one_text_out(x)
    }

    fn write_item(&self, out: &mut Vec<XmlOut>) {
        let mut attrs: Vec<(&'static str, String)> = Vec::new();
        push_attr(&mut attrs, "name", self.name.as_str());
        assert(attrs_out_view(attrs) =~= seq![("name"@, self.name@)]);
        push_text_element(out, "oneText", attrs, self.value.as_str());
    }
}

impl OutItem for OneNumber {
    open spec fn spec_out(x: OneTextView) -> Seq<XmlOutView> {
        one_number_out(x)
    }

    fn write_item(&self, out: &mut Vec<XmlOut>) {
        let mut attrs: Vec<(&'static str, String)> = Vec::new();
        push_attr(&mut attrs, "name", self.name.as_str());
        assert(attrs_out_view(attrs) =~= seq![("name"@, self.name@)]);
        push_text_element(out, "oneNumber", attrs, self.value.as_str());
    }
}

impl OutItem for OneSwitch {
    open spec fn spec_out(x: OneSwitchView) -> Seq<XmlOutView> {
        one_switch_out(x)
    }

    fn write_item(&self, out: &mut Vec<XmlOut>) {
        let mut attrs: Vec<(&'static str, String)> = Vec::new();
        push_attr(&mut attrs, "name", self.name.as_str());
        assert(attrs_out_view(attrs) =~= seq![("name"@, self.name@)]);
        push_text_element(out, "oneSwitch", attrs, self.value.as_str());
    }
}

impl OutItem for OneLight {
    open spec fn spec_out(x: OneLightView) -> Seq<XmlOutView> {
        one_light_out(x)
    }

    fn write_item(&self, out: &mut Vec<XmlOut>) {
        let mut attrs: Vec<(&'static str, String)> = Vec::new();
        push_attr(&mut attrs, "name", self.name.as_str());
        assert(attrs_out_view(attrs) =~= seq![("name"@, self.name@)]);
        push_text_element(out, "oneLight", attrs, self.value.as_str());
    }
}

impl OutItem for OneBLOB {
    open spec fn spec_out(x: OneBLOBView) -> Seq<XmlOutView> {
        one_blob_out(x)
    }

    fn write_item(&self, out: &mut Vec<XmlOut>) {
        let mut attrs: Vec<(&'static str, String)> = Vec::new();
        push_attr(&mut attrs, "name", self.name.as_str());
        let size = decimal_string(self.size as u64);
        push_attr(&mut attrs, "size", size.as_str());
        push_attr(&mut attrs, "format", self.format.as_str());
        assert(attrs_out_view(attrs) =~= seq![("name"@, self.name@)] + seq![("size"@, decimal_text(self.size as nat))] + seq![("format"@, self.format@)]);
        push_text_element(out, "oneBLOB", attrs, self.value.as_str());
    }
}


/// Appends the events of a vector: its start tag with `attrs`, its elements and
/// its end tag.
fn write_vector<T: OutItem>(
    out: &mut Vec<XmlOut>,
    tag: &'static str,
    attrs: Vec<(&'static str, String)>,
    items: &Vec<T>,
)
    ensures
        items_view(*final(out)) == items_view(*old(out)) + vector_out(
            tag@,
            attrs_out_view(attrs),
            items_view(*items).flat_map(|x: T::V| T::spec_out(x)),
        ),
{
    let ghost a = attrs_out_view(attrs);
    push_event(out, XmlOut::Start(tag, attrs));
    let ghost mid = items_view(*out);
    write_items(out, items);
    push_event(out, XmlOut::End(tag));
    assert(items_view(*out) =~= items_view(*old(out)) + vector_out(
        tag@,
        a,
        items_view(*items).flat_map(|x: T::V| T::spec_out(x)),
    ));
}

impl ProtocolSerializer {
    fn write_vector_attrs(elem: &mut Vec<(&'static str, String)>, attrs: &VectorAttributes)
        ensures
            attrs_out_view(*final(elem)) == attrs_out_view(*old(elem)) + vector_attrs_out(attrs@),
    {
        push_attr(elem, "device", attrs.device.as_str());
        push_attr(elem, "name", attrs.name.as_str());
        push_nonempty_attr(elem, "label", &attrs.label);
        push_nonempty_attr(elem, "group", &attrs.group);
        push_attr(elem, "state", attrs.state.as_str());
        push_opt_attr(elem, "timeout", &attrs.timeout);
        push_opt_attr(elem, "timestamp", &attrs.timestamp);
        push_opt_attr(elem, "message", &attrs.message);
        assert(attrs_out_view(*elem) =~= attrs_out_view(*old(elem)) + vector_attrs_out(attrs@));
    }

    fn write_set_vector_attrs(elem: &mut Vec<(&'static str, String)>, attrs: &SetVectorAttributes)
        ensures
            attrs_out_view(*final(elem)) == attrs_out_view(*old(elem)) + set_vector_attrs_out(attrs@),
    {
        push_attr(elem, "device", attrs.device.as_str());
        push_attr(elem, "name", attrs.name.as_str());
        match attrs.state {
            Some(st) => push_attr(elem, "state", st.as_str()),
            None => {},
        }
        push_opt_attr(elem, "timeout", &attrs.timeout);
        push_opt_attr(elem, "timestamp", &attrs.timestamp);
        push_opt_attr(elem, "message", &attrs.message);
        assert(attrs_out_view(*elem) =~= attrs_out_view(*old(elem)) + set_vector_attrs_out(attrs@));
    }

    fn write_new_vector_attrs(elem: &mut Vec<(&'static str, String)>, attrs: &NewVectorAttributes)
        ensures
            attrs_out_view(*final(elem)) == attrs_out_view(*old(elem)) + new_vector_attrs_out(attrs@),
    {
        push_attr(elem, "device", attrs.device.as_str());
        push_attr(elem, "name", attrs.name.as_str());
        push_opt_attr(elem, "timestamp", &attrs.timestamp);
        assert(attrs_out_view(*elem) =~= attrs_out_view(*old(elem)) + new_vector_attrs_out(attrs@));
    }

    fn write_def_text_vector(out: &mut Vec<XmlOut>, vector: &DefTextVector)
        ensures
            items_view(*final(out)) == items_view(*old(out)) + message_out(ProtocolMessage::DefTextVector(*vector)@),
    {
        let mut elem: Vec<(&'static str, String)> = Vec::new();
        Self::write_vector_attrs(&mut elem, &vector.attrs);
        push_attr(&mut elem, "perm", vector.perm.as_str());
        assert(attrs_out_view(elem) =~= vector_attrs_out(vector.attrs@) + seq![("perm"@, vector.perm.spec_as_str()@)]);
        write_vector(out, "defTextVector", elem, &vector.elements);
        assert((|x: DefTextView| DefText::spec_out(x)) =~= (|x: DefTextView| def_text_out(x)));
    }

    fn write_def_number_vector(out: &mut Vec<XmlOut>, vector: &DefNumberVector)
        ensures
            items_view(*final(out)) == items_view(*old(out)) + message_out(ProtocolMessage::DefNumberVector(*vector)@),
    {
        let mut elem: Vec<(&'static str, String)> = Vec::new();
        Self::write_vector_attrs(&mut elem, &vector.attrs);
        push_attr(&mut elem, "perm", vector.perm.as_str());
        assert(attrs_out_view(elem) =~= vector_attrs_out(vector.attrs@) + seq![("perm"@, vector.perm.spec_as_str()@)]);
        write_vector(out, "defNumberVector", elem, &vector.elements);
        assert((|x: DefNumberView| DefNumber::spec_out(x)) =~= (|x: DefNumberView| def_number_out(x)));
    }

    fn write_def_switch_vector(out: &mut Vec<XmlOut>, vector: &DefSwitchVector)
        ensures
            items_view(*final(out)) == items_view(*old(out)) + message_out(ProtocolMessage::DefSwitchVector(*vector)@),
    {
        let mut elem: Vec<(&'static str, String)> = Vec::new();
        Self::write_vector_attrs(&mut elem, &vector.attrs);
        push_attr(&mut elem, "perm", vector.perm.as_str());
        push_attr(&mut elem, "rule", vector.rule.as_str());
        assert(attrs_out_view(elem) =~= vector_attrs_out(vector.attrs@) + seq![("perm"@, vector.perm.spec_as_str()@)]
            + seq![("rule"@, vector.rule.spec_as_str()@)]);
        write_vector(out, "defSwitchVector", elem, &vector.elements);
        assert((|x: DefSwitchView| DefSwitch::spec_out(x)) =~= (|x: DefSwitchView| def_switch_out(x)));
    }

    fn write_def_light_vector(out: &mut Vec<XmlOut>, vector: &DefLightVector)
        ensures
            items_view(*final(out)) == items_view(*old(out)) + message_out(ProtocolMessage::DefLightVector(*vector)@),
    {
        let mut elem: Vec<(&'static str, String)> = Vec::new();
        Self::write_vector_attrs(&mut elem, &vector.attrs);
        write_vector(out, "defLightVector", elem, &vector.elements);
        assert((|x: DefLightView| DefLight::spec_out(x)) =~= (|x: DefLightView| def_light_out(x)));
    }

    fn write_def_blob_vector(out: &mut Vec<XmlOut>, vector: &DefBLOBVector)
        ensures
            items_view(*final(out)) == items_view(*old(out)) + message_out(ProtocolMessage::DefBLOBVector(*vector)@),
    {
        let mut elem: Vec<(&'static str, String)> = Vec::new();
        Self::write_vector_attrs(&mut elem, &vector.attrs);
        push_attr(&mut elem, "perm", vector.perm.as_str());
        assert(attrs_out_view(elem) =~= vector_attrs_out(vector.attrs@) + seq![("perm"@, vector.perm.spec_as_str()@)]);
        write_vector(out, "defBLOBVector", elem, &vector.elements);
        assert((|x: DefBLOBView| DefBLOB::spec_out(x)) =~= (|x: DefBLOBView| def_blob_out(x)));
    }

    fn write_set_text_vector(out: &mut Vec<XmlOut>, vector: &SetTextVector)
        ensures
            items_view(*final(out)) == items_view(*old(out)) + message_out(ProtocolMessage::SetTextVector(*vector)@),
    {
        let mut elem: Vec<(&'static str, String)> = Vec::new();
        Self::write_set_vector_attrs(&mut elem, &vector.attrs);
        write_vector(out, "setTextVector", elem, &vector.elements);
        assert((|x: OneTextView| OneText::spec_out(x)) =~= (|x: OneTextView| one_text_out(x)));
    }

    fn write_set_number_vector(out: &mut Vec<XmlOut>, vector: &SetNumberVector)
        ensures
            items_view(*final(out)) == items_view(*old(out)) + message_out(ProtocolMessage::SetNumberVector(*vector)@),
    {
        let mut elem: Vec<(&'static str, String)> = Vec::new();
        Self::write_set_vector_attrs(&mut elem, &vector.attrs);
        write_vector(out, "setNumberVector", elem, &vector.elements);
        assert((|x: OneTextView| OneNumber::spec_out(x)) =~= (|x: OneTextView| one_number_out(x)));
    }

    fn write_set_switch_vector(out: &mut Vec<XmlOut>, vector: &SetSwitchVector)
        ensures
            items_view(*final(out)) == items_view(*old(out)) + message_out(ProtocolMessage::SetSwitchVector(*vector)@),
    {
        let mut elem: Vec<(&'static str, String)> = Vec::new();
        Self::write_set_vector_attrs(&mut elem, &vector.attrs);
        write_vector(out, "setSwitchVector", elem, &vector.elements);
        assert((|x: OneSwitchView| OneSwitch::spec_out(x)) =~= (|x: OneSwitchView| one_switch_out(x)));
    }

    fn write_set_light_vector(out: &mut Vec<XmlOut>, vector: &SetLightVector)
        ensures
            items_view(*final(out)) == items_view(*old(out)) + message_out(ProtocolMessage::SetLightVector(*vector)@),
    {
        let mut elem: Vec<(&'static str, String)> = Vec::new();
        Self::write_set_vector_attrs(&mut elem, &vector.attrs);
        write_vector(out, "setLightVector", elem, &vector.elements);
        assert((|x: OneLightView| OneLight::spec_out(x)) =~= (|x: OneLightView| one_light_out(x)));
    }

    fn write_set_blob_vector(out: &mut Vec<XmlOut>, vector: &SetBLOBVector)
        ensures
            items_view(*final(out)) == items_view(*old(out)) + message_out(ProtocolMessage::SetBLOBVector(*vector)@),
    {
        let mut elem: Vec<(&'static str, String)> = Vec::new();
        Self::write_set_vector_attrs(&mut elem, &vector.attrs);
        write_vector(out, "setBLOBVector", elem, &vector.elements);
        assert((|x: OneBLOBView| OneBLOB::spec_out(x)) =~= (|x: OneBLOBView| one_blob_out(x)));
    }

    fn write_new_text_vector(out: &mut Vec<XmlOut>, vector: &NewTextVector)
        ensures
            items_view(*final(out)) == items_view(*old(out)) + message_out(ProtocolMessage::NewTextVector(*vector)@),
    {
        let mut elem: Vec<(&'static str, String)> = Vec::new();
        Self::write_new_vector_attrs(&mut elem, &vector.attrs);
        write_vector(out, "newTextVector", elem, &vector.elements);
        assert((|x: OneTextView| OneText::spec_out(x)) =~= (|x: OneTextView| one_text_out(x)));
    }

    fn write_new_number_vector(out: &mut Vec<XmlOut>, vector: &NewNumberVector)
        ensures
            items_view(*final(out)) == items_view(*old(out)) + message_out(ProtocolMessage::NewNumberVector(*vector)@),
    {
        let mut elem: Vec<(&'static str, String)> = Vec::new();
        Self::write_new_vector_attrs(&mut elem, &vector.attrs);
        write_vector(out, "newNumberVector", elem, &vector.elements);
        assert((|x: OneTextView| OneNumber::spec_out(x)) =~= (|x: OneTextView| one_number_out(x)));
    }

    fn write_new_switch_vector(out: &mut Vec<XmlOut>, vector: &NewSwitchVector)
        ensures
            items_view(*final(out)) == items_view(*old(out)) + message_out(ProtocolMessage::NewSwitchVector(*vector)@),
    {
        let mut elem: Vec<(&'static str, String)> = Vec::new();
        Self::write_new_vector_attrs(&mut elem, &vector.attrs);
        write_vector(out, "newSwitchVector", elem, &vector.elements);
        assert((|x: OneSwitchView| OneSwitch::spec_out(x)) =~= (|x: OneSwitchView| one_switch_out(x)));
    }

    fn write_new_blob_vector(out: &mut Vec<XmlOut>, vector: &NewBLOBVector)
        ensures
            items_view(*final(out)) == items_view(*old(out)) + message_out(ProtocolMessage::NewBLOBVector(*vector)@),
    {
        let mut elem: Vec<(&'static str, String)> = Vec::new();
        Self::write_new_vector_attrs(&mut elem, &vector.attrs);
        write_vector(out, "newBLOBVector", elem, &vector.elements);
        assert((|x: OneBLOBView| OneBLOB::spec_out(x)) =~= (|x: OneBLOBView| one_blob_out(x)));
    }

    fn write_get_properties(out: &mut Vec<XmlOut>, msg: &GetProperties)
        ensures
            items_view(*final(out)) == items_view(*old(out)) + message_out(ProtocolMessage::GetProperties(*msg)@),
    {
        let mut elem: Vec<(&'static str, String)> = Vec::new();
        push_opt_attr(&mut elem, "version", &msg.version);
        push_opt_attr(&mut elem, "device", &msg.device);
        push_opt_attr(&mut elem, "name", &msg.name);
        push_event(out, XmlOut::Empty("getProperties", elem));
        assert(items_view(*out) =~= items_view(*old(out)) + message_out(ProtocolMessage::GetProperties(*msg)@));
    }

    fn write_enable_blob(out: &mut Vec<XmlOut>, msg: &EnableBLOB)
        ensures
            items_view(*final(out)) == items_view(*old(out)) + message_out(ProtocolMessage::EnableBLOB(*msg)@),
    {
        let mut elem: Vec<(&'static str, String)> = Vec::new();
        push_attr(&mut elem, "device", msg.device.as_str());
        push_opt_attr(&mut elem, "name", &msg.name);
        assert(attrs_out_view(elem) =~= seq![("device"@, msg.device@)] + opt_attr("name"@, opt_text(msg.name)));
        push_text_element(out, "enableBLOB", elem, msg.value.as_str());
    }

    fn write_message(out: &mut Vec<XmlOut>, msg: &Message)
        ensures
            items_view(*final(out)) == items_view(*old(out)) + message_out(ProtocolMessage::Message(*msg)@),
    {
        let mut elem: Vec<(&'static str, String)> = Vec::new();
        push_opt_attr(&mut elem, "device", &msg.device);
        push_opt_attr(&mut elem, "timestamp", &msg.timestamp);
        push_opt_attr(&mut elem, "message", &msg.message);
        push_event(out, XmlOut::Empty("message", elem));
        assert(items_view(*out) =~= items_view(*old(out)) + message_out(ProtocolMessage::Message(*msg)@));
    }

    fn write_del_property(out: &mut Vec<XmlOut>, msg: &DelProperty)
        ensures
            items_view(*final(out)) == items_view(*old(out)) + message_out(ProtocolMessage::DelProperty(*msg)@),
    {
        let mut elem: Vec<(&'static str, String)> = Vec::new();
        push_attr(&mut elem, "device", msg.device.as_str());
        push_opt_attr(&mut elem, "name", &msg.name);
        push_opt_attr(&mut elem, "timestamp", &msg.timestamp);
        push_opt_attr(&mut elem, "message", &msg.message);
        assert(attrs_out_view(elem) =~= seq![("device"@, msg.device@)] + opt_attr("name"@, opt_text(msg.name))
            + opt_attr("timestamp"@, opt_text(msg.timestamp)) + opt_attr("message"@, opt_text(msg.message)));
        push_event(out, XmlOut::Empty("delProperty", elem));
        assert(items_view(*out) =~= items_view(*old(out)) + message_out(ProtocolMessage::DelProperty(*msg)@));
    }

    /// Appends the events of a message.
    fn write_protocol_message(out: &mut Vec<XmlOut>, message: &ProtocolMessage)
        ensures
            items_view(*final(out)) == items_view(*old(out)) + message_out(message@),
    {
        match message {
            ProtocolMessage::DefTextVector(v) => Self::write_def_text_vector(out, v),
            ProtocolMessage::DefNumberVector(v) => Self::write_def_number_vector(out, v),
            ProtocolMessage::DefSwitchVector(v) => Self::write_def_switch_vector(out, v),
            ProtocolMessage::DefLightVector(v) => Self::write_def_light_vector(out, v),
            ProtocolMessage::DefBLOBVector(v) => Self::write_def_blob_vector(out, v),
            ProtocolMessage::SetTextVector(v) => Self::write_set_text_vector(out, v),
            ProtocolMessage::SetNumberVector(v) => Self::write_set_number_vector(out, v),
            ProtocolMessage::SetSwitchVector(v) => Self::write_set_switch_vector(out, v),
            ProtocolMessage::SetLightVector(v) => Self::write_set_light_vector(out, v),
            ProtocolMessage::SetBLOBVector(v) => Self::write_set_blob_vector(out, v),
            ProtocolMessage::NewTextVector(v) => Self::write_new_text_vector(out, v),
            ProtocolMessage::NewNumberVector(v) => Self::write_new_number_vector(out, v),
            ProtocolMessage::NewSwitchVector(v) => Self::write_new_switch_vector(out, v),
            ProtocolMessage::NewBLOBVector(v) => Self::write_new_blob_vector(out, v),
            ProtocolMessage::GetProperties(v) => Self::write_get_properties(out, v),
            ProtocolMessage::EnableBLOB(v) => Self::write_enable_blob(out, v),
            ProtocolMessage::Message(v) => Self::write_message(out, v),
            ProtocolMessage::DelProperty(v) => Self::write_del_property(out, v),
        }
    }

    /// Serializes a protocol message to XML bytes.
    ///
    /// Always succeeds: the bytes are the UTF-8 encoding of the message's XML text,
    /// `message_xml`.
    pub fn serialize(message: &ProtocolMessage) -> (r: Result<Vec<u8>, IndigoError>)
        ensures
            r matches Ok(bytes) && bytes@ == vstd::utf8::encode_utf8(message_xml(message@)),
    {
        let mut events: Vec<XmlOut> = Vec::new();
        Self::write_protocol_message(&mut events, message);
        assert(items_view(events) =~= message_out(message@));
        Ok(write_events(&events))
    }
}

/// The UTF-8 bytes of the text written for `events`, one after the other.
fn write_events(events: &Vec<XmlOut>) -> (r: Vec<u8>)
    ensures
        r@ == vstd::utf8::encode_utf8(out_text(items_view(*events))),
{
    let ghost all = items_view(*events);
    let mut bytes: Vec<u8> = Vec::new();
    let mut i: usize = 0;
    assert(all.take(0) =~= Seq::<XmlOutView>::empty());
    while i < events.len()
        invariant
            i <= events@.len(),
            all == items_view(*events),
            bytes@ == vstd::utf8::encode_utf8(out_text(all.take(i as int))),
        decreases events.len() - i,
    {
        let mut b = write_xml_event(&events[i]);
        proof {
            assert(all.take(i + 1).drop_last() =~= all.take(i as int));
            assert(all.take(i + 1).last() == events@[i as int]@);
            lemma_encode_utf8_concat(out_text(all.take(i as int)), xml_out_text(events@[i as int]@));
        }
        bytes.append(&mut b);
        i = i + 1;
    }
    assert(all.take(i as int) =~= all);
    bytes
}

} // verus!
