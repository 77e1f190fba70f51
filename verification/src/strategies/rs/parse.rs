//! Parsing INDIGO messages from XML events.
//!
//! The grammar of a message is stated over the events that the XML reader gives:
//! `spec_parse_events` is the message (or the text of the parse error) that a
//! stream of events spells, and `ProtocolParser::parse_message` gives exactly that
//! for the events of its input.
use vstd::prelude::*;
use vstd::string::StringSliceAdditionalSpecFns;
use quick_xml::Reader;
use crate::error::IndigoError;
use crate::strategies::rs::numtext::{check_float, parse_usize, spec_check_float, spec_parse_usize};
use crate::strategies::rs::protocol::{
    items_view, opt_text, parse_error_text, parse_property_perm, parse_property_state, BLOBEnable,
    DefBLOB, DefBLOBView, DefBLOBVector, DefLightView, DefNumberView, DefSwitchView, DefTextView, OneBLOBView, OneLightView, OneSwitchView, OneTextView, DefLight, DefLightVector, DefNumber, DefNumberVector, DefSwitch,
    DefSwitchVector, DefText, DefTextVector, DelProperty, EnableBLOB, GetProperties, Message,
    MessageView, NewBLOBVector, NewNumberVector, NewSwitchVector, NewTextVector,
    NewVectorAttributes, NewVectorAttributesView, OneBLOB, OneLight, OneNumber, OneSwitch,
    OneText, PropertyPerm, PropertyState, ProtocolMessage, ProtocolParser, SetBLOBVector,
    SetLightVector, SetNumberVector, SetSwitchVector, SetTextVector, SetVectorAttributes,
    SetVectorAttributesView, SwitchRule, SwitchState, VectorAttributes, VectorAttributesView,
};
use crate::strategies::rs::xml::{
    attr_item_view, decode_utf8, next_event, open_reader, reader_events, trim, trim_text, utf8_error_text,
    xml_events, TagView, XmlEvent, XmlEventView, XmlTag,
};
use crate::text::str_equals;
use crate::types::property::{lemma_perm_names, lemma_state_names};
use crate::strategies::rs::protocol::{message_name, lemma_switch_rule_names, lemma_switch_state_names};

verus! {

// ---------------------------------------------------------------------------
// Event sources
// ---------------------------------------------------------------------------

/// A source of XML events: the events it has still to give, one at a time, and
/// the end of input once they are given.
pub trait EventSource {
    spec fn pending(&self) -> Seq<XmlEventView>;

    fn next_xml_event(&mut self) -> (r: XmlEvent)
        ensures
            old(self).pending().len() > 0 ==> {
                &&& r@ == old(self).pending()[0]
                &&& final(self).pending() == old(self).pending().drop_first()
            },
            old(self).pending().len() == 0 ==> {
                &&& r@ == XmlEventView::Eof
                &&& final(self).pending() == old(self).pending()
            },
    ;
}

impl<'a> EventSource for Reader<&'a [u8]> {
    open spec fn pending(&self) -> Seq<XmlEventView> {
        reader_events(*self)
    }

    fn next_xml_event(&mut self) -> (r: XmlEvent) {
        next_event(self)
    }
}

/// A list of events given in order.
pub struct EventList {
    rev: Vec<XmlEvent>,
}

impl EventSource for EventList {
    closed spec fn pending(&self) -> Seq<XmlEventView> {
        self.rev@.map_values(|e: XmlEvent| e@).reverse()
    }

    fn next_xml_event(&mut self) -> (r: XmlEvent) {
        let ghost before = self.rev@;
        match self.rev.pop() {
            Some(e) => {
                assert(self.rev@.map_values(|e: XmlEvent| e@).reverse() =~= before.map_values(
                    |e: XmlEvent| e@,
                ).reverse().drop_first());
                e
            },
            None => XmlEvent::Eof,
        }
    }
}

impl EventList {
    /// The list that gives `events` in order.
    pub fn new(events: Vec<XmlEvent>) -> (r: EventList)
        ensures
            r.pending() == events@.map_values(|e: XmlEvent| e@),
    {
        let mut events = events;
        let ghost all = events@.map_values(|e: XmlEvent| e@);
        let mut rev: Vec<XmlEvent> = Vec::new();
        while events.len() > 0
            invariant
                all == events@.map_values(|e: XmlEvent| e@) + rev@.map_values(
                    |e: XmlEvent| e@,
                ).reverse(),
            decreases events.len(),
        {
            let ghost ev0 = events@;
            let ghost rv0 = rev@;
            let e = events.pop().unwrap();
            rev.push(e);
            assert(events@.map_values(|e: XmlEvent| e@) + rev@.map_values(|e: XmlEvent| e@).reverse()
                =~= ev0.map_values(|e: XmlEvent| e@) + rv0.map_values(|e: XmlEvent| e@).reverse());
        }
        assert(all =~= rev@.map_values(|e: XmlEvent| e@).reverse());
        EventList { rev }
    }
}

// ---------------------------------------------------------------------------
// Outcomes
// ---------------------------------------------------------------------------

/// `r` is the value or the parse error that `s` describes.
pub open spec fn outcome<T: View>(r: Result<T, IndigoError>, s: Result<T::V, Seq<char>>) -> bool {
    match s {
        Ok(v) => r is Ok && r->Ok_0@ == v,
        Err(m) => r is Err && parse_error_text(r->Err_0) == Some(m),
    }
}

/// `r` is the optional text or the parse error that `s` describes.
pub open spec fn opt_outcome(r: Result<Option<String>, IndigoError>, s: Result<Option<Seq<char>>, Seq<char>>) -> bool {
    match s {
        Ok(v) => r is Ok && opt_text(r->Ok_0) == v,
        Err(m) => r is Err && parse_error_text(r->Err_0) == Some(m),
    }
}

/// `r` is the value or the parse error that `s` describes, and on success the
/// events `left` are those that `s` leaves.
pub open spec fn stream_outcome<T: View>(
    r: Result<T, IndigoError>,
    s: Result<(T::V, Seq<XmlEventView>), Seq<char>>,
    left: Seq<XmlEventView>,
) -> bool {
    match s {
        Ok((v, rest)) => r is Ok && r->Ok_0@ == v && left == rest,
        Err(m) => r is Err && parse_error_text(r->Err_0) == Some(m),
    }
}

fn parse_error(prefix: &str, detail: &str) -> (r: IndigoError)
    ensures
        parse_error_text(r) == Some(prefix@ + detail@),
{
    let mut m = prefix.to_owned();
    m.append(detail);
    IndigoError::ParseError(m)
}

/// Whether two byte strings are equal.
pub fn bytes_equal(a: &[u8], b: &[u8]) -> (r: bool)
    ensures
        r == (a@ == b@),
{
    if a.len() != b.len() {
        return false;
    }
    let mut i: usize = 0;
    while i < a.len()
        invariant
            a@.len() == b@.len(),
            i <= a@.len(),
            forall|k: int| 0 <= k < i ==> a@[k] == b@[k],
        decreases a.len() - i,
    {
        if a[i] != b[i] {
            return false;
        }
        i = i + 1;
    }
    assert(a@ =~= b@);
    true
}

// ---------------------------------------------------------------------------
// Attributes
// ---------------------------------------------------------------------------

/// The raw value of the first attribute with `key`, scanning the attributes in
/// order and stopping at the first attribute error.
pub open spec fn find_attr(attrs: Seq<Result<(Seq<u8>, Seq<u8>), Seq<char>>>, key: Seq<u8>) -> Result<
    Option<Seq<u8>>,
    Seq<char>,
>
    decreases attrs.len(),
{
    if attrs.len() == 0 {
        Ok(None)
    } else {
        match attrs[0] {
            Err(t) => Err("Attribute error: "@ + t),
            Ok(kv) => if kv.0 == key {
                Ok(Some(kv.1))
            } else {
                find_attr(attrs.drop_first(), key)
            },
        }
    }
}

/// The text of a raw attribute value.
pub open spec fn attr_text(v: Seq<u8>) -> Result<Seq<char>, Seq<char>> {
    if vstd::utf8::valid_utf8(v) {
        Ok(vstd::utf8::decode_utf8(v))
    } else {
        Err("Invalid UTF-8: "@ + utf8_error_text(v))
    }
}

/// The first attribute of a tag with the key `key` holds, as UTF-8, the text `v`.
pub open spec fn attr_is(t: TagView, key: &str, v: Seq<char>) -> bool {
    find_attr(t.attrs, key.spec_bytes()) matches Ok(Some(raw)) && vstd::utf8::valid_utf8(raw)
        && vstd::utf8::decode_utf8(raw) == v
}

/// A tag has no attribute with the key `key`, or the first one holds, as UTF-8,
/// the text `v`; where it has none, `v` is empty.
pub open spec fn attr_or_empty_is(t: TagView, key: &str, v: Seq<char>) -> bool {
    attr_is(t, key, v) || (find_attr(t.attrs, key.spec_bytes()) == Ok::<Option<Seq<u8>>, Seq<char>>(None)
        && v.len() == 0)
}

/// The text of the optional attribute `key` of a tag.
pub open spec fn spec_get_opt_attr(t: TagView, key: &str) -> Result<Option<Seq<char>>, Seq<char>> {
    match find_attr(t.attrs, key.spec_bytes()) {
        Err(e) => Err(e),
        Ok(None) => Ok(None),
        Ok(Some(v)) => match attr_text(v) {
            Ok(s) => Ok(Some(s)),
            Err(e) => Err(e),
        },
    }
}

/// The text of the required attribute `key` of a tag.
pub open spec fn spec_get_attr(t: TagView, key: &str) -> Result<Seq<char>, Seq<char>> {
    match spec_get_opt_attr(t, key) {
        Err(e) => Err(e),
        Ok(None) => Err("Missing required attribute: "@ + key@),
        Ok(Some(s)) => Ok(s),
    }
}

pub open spec fn or_empty(o: Option<Seq<char>>) -> Seq<char> {
    match o {
        Some(s) => s,
        None => Seq::empty(),
    }
}

fn get_opt_attr(tag: &XmlTag, key: &str) -> (r: Result<Option<String>, IndigoError>)
    ensures
        opt_outcome(r, spec_get_opt_attr(tag@, key)),
{
    let kb = key.as_bytes();
    let n = tag.1.len();
    let mut i: usize = 0;
    assert(tag@.attrs.subrange(0, n as int) =~= tag@.attrs);
    while i < n
        invariant
            n == tag.1@.len(),
            n == tag@.attrs.len(),
            i <= n,
            kb@ == key.spec_bytes(),
            find_attr(tag@.attrs, kb@) == find_attr(tag@.attrs.subrange(i as int, n as int), kb@),
        decreases n - i,
    {
        let ghost rest = tag@.attrs.subrange(i as int, n as int);
        assert(rest.drop_first() =~= tag@.attrs.subrange(i + 1, n as int));
        assert(rest[0] == attr_item_view(tag.1@[i as int]));
        match &tag.1[i] {
            Err(t) => {
                return Err(parse_error("Attribute error: ", t.as_str()));
            },
            Ok(a) => {
                if bytes_equal(a.0.as_slice(), kb) {
                    return match decode_utf8(a.1.as_slice()) {
                        Ok(s) => Ok(Some(s)),
                        Err(t) => Err(parse_error("Invalid UTF-8: ", t.as_str())),
                    };
                }
            },
        }
        i = i + 1;
    }
    assert(tag@.attrs.subrange(n as int, n as int).len() == 0);
    Ok(None)
}

fn get_attr(tag: &XmlTag, key: &str) -> (r: Result<String, IndigoError>)
    ensures
        outcome(r, spec_get_attr(tag@, key)),
{
    match get_opt_attr(tag, key) {
        Ok(Some(s)) => Ok(s),
        Ok(None) => Err(parse_error("Missing required attribute: ", key)),
        Err(e) => Err(e),
    }
}

fn get_opt_attr_or_empty(tag: &XmlTag, key: &str) -> (r: Result<String, IndigoError>)
    ensures
        outcome(
            r,
            match spec_get_opt_attr(tag@, key) {
                Ok(o) => Ok(or_empty(o)),
                Err(e) => Err(e),
            },
        ),
{
    match get_opt_attr(tag, key) {
        Ok(Some(s)) => Ok(s),
        Ok(None) => Ok(String::new()),
        Err(e) => Err(e),
    }
}

/// The text of a float attribute, checked as `f64::from_str` reads it; `what` names
/// the number in the error.
pub open spec fn spec_float_attr(t: TagView, key: &str, what: &str) -> Result<Seq<char>, Seq<char>> {
    match spec_get_attr(t, key) {
        Err(e) => Err(e),
        Ok(s) => match spec_check_float(s) {
            None => Ok(s),
            Some(e) => Err(what@ + e),
        },
    }
}

fn get_float_attr(tag: &XmlTag, key: &str, what: &str) -> (r: Result<String, IndigoError>)
    ensures
        outcome(r, spec_float_attr(tag@, key, what)),
{
    match get_attr(tag, key) {
        Err(e) => Err(e),
        Ok(s) => match check_float(s.as_str()) {
            None => Ok(s),
            Some(e) => Err(parse_error(what, e)),
        },
    }
}

/// The optional timeout: its text when it is a float, none otherwise.
pub open spec fn spec_timeout(t: TagView) -> Result<Option<Seq<char>>, Seq<char>> {
    match spec_get_opt_attr(t, "timeout") {
        Err(e) => Err(e),
        Ok(None) => Ok(None),
        Ok(Some(s)) => if spec_check_float(s) is None {
            Ok(Some(s))
        } else {
            Ok(None)
        },
    }
}

fn get_timeout(tag: &XmlTag) -> (r: Result<Option<String>, IndigoError>)
    ensures
        opt_outcome(r, spec_timeout(tag@)),
{
    match get_opt_attr(tag, "timeout") {
        Err(e) => Err(e),
        Ok(None) => Ok(None),
        Ok(Some(s)) => match check_float(s.as_str()) {
            None => Ok(Some(s)),
            Some(_) => Ok(None),
        },
    }
}

// ---------------------------------------------------------------------------
// Vector attributes
// ---------------------------------------------------------------------------

pub open spec fn spec_vector_attrs(t: TagView) -> Result<VectorAttributesView, Seq<char>> {
    match spec_get_attr(t, "device") {
        Err(e) => Err(e),
        Ok(device) => match spec_get_attr(t, "name") {
            Err(e) => Err(e),
            Ok(name) => match spec_get_opt_attr(t, "label") {
                Err(e) => Err(e),
                Ok(label) => match spec_get_opt_attr(t, "group") {
                    Err(e) => Err(e),
                    Ok(group) => match spec_get_attr(t, "state") {
                        Err(e) => Err(e),
                        Ok(st) => match PropertyState::spec_parse(st) {
                            None => Err("Invalid property state: "@ + st),
                            Some(state) => match spec_timeout(t) {
                                Err(e) => Err(e),
                                Ok(timeout) => match spec_get_opt_attr(t, "timestamp") {
                                    Err(e) => Err(e),
                                    Ok(timestamp) => match spec_get_opt_attr(t, "message") {
                                        Err(e) => Err(e),
                                        Ok(message) => Ok(
                                            VectorAttributesView {
                                                device,
                                                name,
                                                label: or_empty(label),
                                                group: or_empty(group),
                                                state,
                                                timeout,
                                                timestamp,
                                                message,
                                            },
                                        ),
                                    },
                                },
                            },
                        },
                    },
                },
            },
        },
    }
}

fn parse_vector_attrs(tag: &XmlTag) -> (r: Result<VectorAttributes, IndigoError>)
    ensures
        outcome(r, spec_vector_attrs(tag@)),
{
    let device = match get_attr(tag, "device") {
        Ok(v) => v,
        Err(e) => return Err(e),
    };
    let name = match get_attr(tag, "name") {
        Ok(v) => v,
        Err(e) => return Err(e),
    };
    let label = match get_opt_attr_or_empty(tag, "label") {
        Ok(v) => v,
        Err(e) => return Err(e),
    };
    let group = match get_opt_attr_or_empty(tag, "group") {
        Ok(v) => v,
        Err(e) => return Err(e),
    };
    let st = match get_attr(tag, "state") {
        Ok(v) => v,
        Err(e) => return Err(e),
    };
    let state = match parse_property_state(st.as_str()) {
        Ok(v) => v,
        Err(e) => return Err(e),
    };
    let timeout = match get_timeout(tag) {
        Ok(v) => v,
        Err(e) => return Err(e),
    };
    let timestamp = match get_opt_attr(tag, "timestamp") {
        Ok(v) => v,
        Err(e) => return Err(e),
    };
    let message = match get_opt_attr(tag, "message") {
        Ok(v) => v,
        Err(e) => return Err(e),
    };
    Ok(VectorAttributes { device, name, label, group, state, timeout, timestamp, message })
}

pub open spec fn spec_set_vector_attrs(t: TagView) -> Result<SetVectorAttributesView, Seq<char>> {
    match spec_get_attr(t, "device") {
        Err(e) => Err(e),
        Ok(device) => match spec_get_attr(t, "name") {
            Err(e) => Err(e),
            Ok(name) => match spec_get_opt_attr(t, "state") {
                Err(e) => Err(e),
                Ok(st) => match st {
                    Some(s) if PropertyState::spec_parse(s) is None => Err(
                        "Invalid property state: "@ + s,
                    ),
                    _ => match spec_timeout(t) {
                        Err(e) => Err(e),
                        Ok(timeout) => match spec_get_opt_attr(t, "timestamp") {
                            Err(e) => Err(e),
                            Ok(timestamp) => match spec_get_opt_attr(t, "message") {
                                Err(e) => Err(e),
                                Ok(message) => Ok(
                                    SetVectorAttributesView {
                                        device,
                                        name,
                                        state: match st {
                                            Some(s) => PropertyState::spec_parse(s),
                                            None => None,
                                        },
                                        timeout,
                                        timestamp,
                                        message,
                                    },
                                ),
                            },
                        },
                    },
                },
            },
        },
    }
}

fn parse_set_vector_attrs(tag: &XmlTag) -> (r: Result<SetVectorAttributes, IndigoError>)
    ensures
        outcome(r, spec_set_vector_attrs(tag@)),
{
    let device = match get_attr(tag, "device") {
        Ok(v) => v,
        Err(e) => return Err(e),
    };
    let name = match get_attr(tag, "name") {
        Ok(v) => v,
        Err(e) => return Err(e),
    };
    let st = match get_opt_attr(tag, "state") {
        Ok(v) => v,
        Err(e) => return Err(e),
    };
    let state = match st {
        Some(s) => match parse_property_state(s.as_str()) {
            Ok(v) => Some(v),
            Err(e) => return Err(e),
        },
        None => None,
    };
    let timeout = match get_timeout(tag) {
        Ok(v) => v,
        Err(e) => return Err(e),
    };
    let timestamp = match get_opt_attr(tag, "timestamp") {
        Ok(v) => v,
        Err(e) => return Err(e),
    };
    let message = match get_opt_attr(tag, "message") {
        Ok(v) => v,
        Err(e) => return Err(e),
    };
    Ok(SetVectorAttributes { device, name, state, timeout, timestamp, message })
}

pub open spec fn spec_new_vector_attrs(t: TagView) -> Result<NewVectorAttributesView, Seq<char>> {
    match spec_get_attr(t, "device") {
        Err(e) => Err(e),
        Ok(device) => match spec_get_attr(t, "name") {
            Err(e) => Err(e),
            Ok(name) => match spec_get_opt_attr(t, "timestamp") {
                Err(e) => Err(e),
                Ok(timestamp) => Ok(NewVectorAttributesView { device, name, timestamp }),
            },
        },
    }
}

fn parse_new_vector_attrs(tag: &XmlTag) -> (r: Result<NewVectorAttributes, IndigoError>)
    ensures
        outcome(r, spec_new_vector_attrs(tag@)),
{
    let device = match get_attr(tag, "device") {
        Ok(v) => v,
        Err(e) => return Err(e),
    };
    let name = match get_attr(tag, "name") {
        Ok(v) => v,
        Err(e) => return Err(e),
    };
    let timestamp = match get_opt_attr(tag, "timestamp") {
        Ok(v) => v,
        Err(e) => return Err(e),
    };
    Ok(NewVectorAttributes { device, name, timestamp })
}

// ---------------------------------------------------------------------------
// Text content
// ---------------------------------------------------------------------------

/// The text of an element: the text events up to the next end tag or the end of
/// input, joined onto `acc`; the events left after them.
pub open spec fn spec_text_content(ev: Seq<XmlEventView>, acc: Seq<char>) -> Result<
    (Seq<char>, Seq<XmlEventView>),
    Seq<char>,
>
    decreases ev.len(),
{
    if ev.len() == 0 {
        Ok((acc, ev))
    } else {
        match ev[0] {
            XmlEventView::Text(Ok(t)) => spec_text_content(ev.drop_first(), acc + t),
            XmlEventView::Text(Err(m)) => Err("Unescape error: "@ + m),
            XmlEventView::End(_) => Ok((acc, ev.drop_first())),
            XmlEventView::Eof => Ok((acc, ev.drop_first())),
            XmlEventView::Error(m) => Err("XML error: "@ + m),
            _ => spec_text_content(ev.drop_first(), acc),
        }
    }
}

proof fn lemma_text_content_rest(ev: Seq<XmlEventView>, acc: Seq<char>)
    ensures
        spec_text_content(ev, acc) matches Ok((_, rest)) ==> rest.len() <= ev.len(),
    decreases ev.len(),
{
    if ev.len() > 0 {
        match ev[0] {
            XmlEventView::Text(Ok(t)) => lemma_text_content_rest(ev.drop_first(), acc + t),
            XmlEventView::Text(Err(_)) => {},
            XmlEventView::End(_) => {},
            XmlEventView::Eof => {},
            XmlEventView::Error(_) => {},
            _ => lemma_text_content_rest(ev.drop_first(), acc),
        }
    }
}

fn read_text_content<S: EventSource>(src: &mut S) -> (r: Result<String, IndigoError>)
    ensures
        stream_outcome(r, spec_text_content(old(src).pending(), Seq::empty()), final(src).pending()),
{
    let mut content = String::new();
    loop
        invariant
            spec_text_content(src.pending(), content@) == spec_text_content(
                old(src).pending(),
                Seq::empty(),
            ),
        decreases src.pending().len(),
    {
        let ghost before = src.pending();
        let e = src.next_xml_event();
        match e {
            XmlEvent::Text(Ok(t)) => {
                content.append(t.as_str());
            },
            XmlEvent::Text(Err(m)) => {
                return Err(parse_error("Unescape error: ", m.as_str()));
            },
            XmlEvent::End(_) => {
                return Ok(content);
            },
            XmlEvent::Eof => {
                return Ok(content);
            },
            XmlEvent::Error(m) => {
                return Err(parse_error("XML error: ", m.as_str()));
            },
            _ => {},
        }
    }
}

/// The trimmed text of an element.
pub open spec fn spec_trimmed_content(ev: Seq<XmlEventView>) -> Result<(Seq<char>, Seq<XmlEventView>), Seq<char>> {
    match spec_text_content(ev, Seq::empty()) {
        Ok((t, rest)) => Ok((trim_text(t), rest)),
        Err(e) => Err(e),
    }
}

// ---------------------------------------------------------------------------
// Elements
// ---------------------------------------------------------------------------

/// An element of a property vector.
pub trait ProtocolItem: View + Sized {
    /// The tag name of the element.
    spec fn spec_tag() -> Seq<u8>;

    /// Whether the element is written as an empty tag (or else as a start tag with
    /// content).
    spec fn spec_empty_tag() -> bool;

    /// The element that the tag `t` gives, its content read from `ev`, and the
    /// events left.
    spec fn spec_item(t: TagView, ev: Seq<XmlEventView>) -> Result<(Self::V, Seq<XmlEventView>), Seq<char>>;

    proof fn lemma_item_rest(t: TagView, ev: Seq<XmlEventView>)
        ensures
            Self::spec_item(t, ev) matches Ok((_, rest)) ==> rest.len() <= ev.len(),
    ;

    fn tag_name() -> (r: &'static str)
        ensures
            r.spec_bytes() == Self::spec_tag(),
    ;

    fn empty_tag() -> (r: bool)
        ensures
            r == Self::spec_empty_tag(),
    ;

    fn parse_item<S: EventSource>(src: &mut S, t: &XmlTag) -> (r: Result<Self, IndigoError>)
        ensures
            stream_outcome(r, Self::spec_item(t@, old(src).pending()), final(src).pending()),
    ;
}

/// The elements of type `T` up to the end tag `end`, joined onto `acc`, and the
/// events left after that end tag.
pub open spec fn spec_items<T: ProtocolItem>(
    ev: Seq<XmlEventView>,
    end: Seq<u8>,
    acc: Seq<T::V>,
) -> Result<(Seq<T::V>, Seq<XmlEventView>), Seq<char>>
    decreases ev.len(),
{
    if ev.len() == 0 {
        Err("Unexpected EOF"@)
    } else {
        let rest = ev.drop_first();
        match ev[0] {
            XmlEventView::Start(t) => if !T::spec_empty_tag() && t.name == T::spec_tag() {
                match T::spec_item(t, rest) {
                    Err(m) => Err(m),
                    Ok((v, after)) => {
                        proof {
                            T::lemma_item_rest(t, rest);
                        }
                        spec_items::<T>(after, end, acc.push(v))
                    },
                }
            } else {
                spec_items::<T>(rest, end, acc)
            },
            XmlEventView::Empty(t) => if T::spec_empty_tag() && t.name == T::spec_tag() {
                match T::spec_item(t, rest) {
                    Err(m) => Err(m),
                    Ok((v, after)) => {
                        proof {
                            T::lemma_item_rest(t, rest);
                        }
                        spec_items::<T>(after, end, acc.push(v))
                    },
                }
            } else {
                spec_items::<T>(rest, end, acc)
            },
            XmlEventView::End(n) => if n == end {
                Ok((acc, rest))
            } else {
                spec_items::<T>(rest, end, acc)
            },
            XmlEventView::Eof => Err("Unexpected EOF"@),
            XmlEventView::Error(m) => Err("XML error: "@ + m),
            _ => spec_items::<T>(rest, end, acc),
        }
    }
}

fn parse_items<T: ProtocolItem, S: EventSource>(src: &mut S, end: &str) -> (r: Result<
    Vec<T>,
    IndigoError,
>)
    ensures
        match spec_items::<T>(old(src).pending(), end.spec_bytes(), Seq::empty()) {
            Ok((items, rest)) => r is Ok && items_view(r->Ok_0) == items && final(src).pending()
                == rest,
            Err(m) => r is Err && parse_error_text(r->Err_0) == Some(m),
        },
{
    let end_bytes = end.as_bytes();
    let mut items: Vec<T> = Vec::new();
    assert(items_view(items) =~= Seq::<T::V>::empty());
    loop
        invariant
            end_bytes@ == end.spec_bytes(),
            spec_items::<T>(src.pending(), end_bytes@, items_view(items)) == spec_items::<T>(
                old(src).pending(),
                end.spec_bytes(),
                Seq::empty(),
            ),
        decreases src.pending().len(),
    {
        let ghost before = src.pending();
        let ghost acc = items_view(items);
        let e = src.next_xml_event();
        match e {
            XmlEvent::Start(t) => {
                assert(before.len() > 0 && before[0] == XmlEventView::Start(t@));
                if !T::empty_tag() && bytes_equal(t.0.as_slice(), T::tag_name().as_bytes()) {
                    match T::parse_item(src, &t) {
                        Ok(x) => {
                            items.push(x);
                            assert(items_view(items) =~= acc.push(x@));
                            proof {
                                T::lemma_item_rest(t@, before.drop_first());
                            }
                        },
                        Err(e) => {
                            return Err(e);
                        },
                    }
                }
            },
            XmlEvent::Empty(t) => {
                assert(before.len() > 0 && before[0] == XmlEventView::Empty(t@));
                if T::empty_tag() && bytes_equal(t.0.as_slice(), T::tag_name().as_bytes()) {
                    match T::parse_item(src, &t) {
                        Ok(x) => {
                            items.push(x);
                            assert(items_view(items) =~= acc.push(x@));
                            proof {
                                T::lemma_item_rest(t@, before.drop_first());
                            }
                        },
                        Err(e) => {
                            return Err(e);
                        },
                    }
                }
            },
            XmlEvent::End(n) => {
                if bytes_equal(n.as_slice(), end_bytes) {
                    return Ok(items);
                }
            },
            XmlEvent::Eof => {
                return Err(IndigoError::ParseError("Unexpected EOF".to_owned()));
            },
            XmlEvent::Error(m) => {
                return Err(parse_error("XML error: ", m.as_str()));
            },
            _ => {},
        }
    }
}

// ---------------------------------------------------------------------------
// The elements of each vector
// ---------------------------------------------------------------------------

/// The name and the label (empty when absent) of an element.
pub open spec fn spec_name_label(t: TagView) -> Result<(Seq<char>, Seq<char>), Seq<char>> {
    match spec_get_attr(t, "name") {
        Err(m) => Err(m),
        Ok(n) => match spec_get_opt_attr(t, "label") {
            Err(m) => Err(m),
            Ok(l) => Ok((n, or_empty(l))),
        },
    }
}

/// The name of an element is the text of its tag's `name` attribute, and its label
/// that of its `label` attribute (empty where absent).
pub proof fn lemma_name_label_from_tag(t: TagView)
    ensures
        spec_name_label(t) matches Ok((n, l)) ==> attr_is(t, "name", n) && attr_or_empty_is(t, "label", l),
{
}

fn get_name_label(t: &XmlTag) -> (r: Result<(String, String), IndigoError>)
    ensures
        match spec_name_label(t@) {
            Ok((n, l)) => r is Ok && r->Ok_0.0@ == n && r->Ok_0.1@ == l,
            Err(m) => r is Err && parse_error_text(r->Err_0) == Some(m),
        },
{
    let name = match get_attr(t, "name") {
        Ok(v) => v,
        Err(e) => return Err(e),
    };
    let label = match get_opt_attr_or_empty(t, "label") {
        Ok(v) => v,
        Err(e) => return Err(e),
    };
    Ok((name, label))
}

/// The trimmed text of an element, read as a number.
pub open spec fn spec_number_content(ev: Seq<XmlEventView>) -> Result<(Seq<char>, Seq<XmlEventView>), Seq<char>> {
    match spec_trimmed_content(ev) {
        Err(m) => Err(m),
        Ok((v, rest)) => match spec_check_float(v) {
            None => Ok((v, rest)),
            Some(e) => Err("Invalid value: "@ + e),
        },
    }
}

fn read_trimmed_content<S: EventSource>(src: &mut S) -> (r: Result<String, IndigoError>)
    ensures
        stream_outcome(r, spec_trimmed_content(old(src).pending()), final(src).pending()),
{
    match read_text_content(src) {
        Ok(v) => Ok(trim(v.as_str()).to_owned()),
        Err(e) => Err(e),
    }
}

fn read_number_content<S: EventSource>(src: &mut S) -> (r: Result<String, IndigoError>)
    ensures
        stream_outcome(r, spec_number_content(old(src).pending()), final(src).pending()),
{
    match read_trimmed_content(src) {
        Ok(v) => match check_float(v.as_str()) {
            None => Ok(v),
            Some(e) => Err(parse_error("Invalid value: ", e)),
        },
        Err(e) => Err(e),
    }
}

proof fn lemma_trimmed_rest(ev: Seq<XmlEventView>)
    ensures
        spec_trimmed_content(ev) matches Ok((_, rest)) ==> rest.len() <= ev.len(),
        spec_number_content(ev) matches Ok((_, rest)) ==> rest.len() <= ev.len(),
{
    lemma_text_content_rest(ev, Seq::empty());
}

impl ProtocolItem for DefText {
    open spec fn spec_tag() -> Seq<u8> {
        "defText".spec_bytes()
    }

    open spec fn spec_empty_tag() -> bool {
        false
    }

    open spec fn spec_item(t: TagView, ev: Seq<XmlEventView>) -> Result<(DefTextView, Seq<XmlEventView>), Seq<char>> {
        match spec_name_label(t) {
            Err(m) => Err(m),
            Ok((n, l)) => match spec_text_content(ev, Seq::empty()) {
                Err(m) => Err(m),
                Ok((v, rest)) => Ok(((n, l, v), rest)),
            },
        }
    }

    proof fn lemma_item_rest(t: TagView, ev: Seq<XmlEventView>) {
        lemma_text_content_rest(ev, Seq::empty());
    }

    fn tag_name() -> (r: &'static str) {
        "defText"
    }

    fn empty_tag() -> (r: bool) {
        false
    }

    fn parse_item<S: EventSource>(src: &mut S, t: &XmlTag) -> (r: Result<DefText, IndigoError>) {
        let (name, label) = match get_name_label(t) {
            Ok(v) => v,
            Err(e) => return Err(e),
        };
        let value = match read_text_content(src) {
            Ok(v) => v,
            Err(e) => return Err(e),
        };
        Ok(DefText { name, label, value })
    }
}

impl ProtocolItem for DefNumber {
    open spec fn spec_tag() -> Seq<u8> {
        "defNumber".spec_bytes()
    }

    open spec fn spec_empty_tag() -> bool {
        false
    }

    open spec fn spec_item(t: TagView, ev: Seq<XmlEventView>) -> Result<(DefNumberView, Seq<XmlEventView>), Seq<char>> {
        match spec_name_label(t) {
            Err(m) => Err(m),
            Ok((n, l)) => match spec_get_attr(t, "format") {
                Err(m) => Err(m),
                Ok(f) => match spec_float_attr(t, "min", "Invalid min: ") {
                    Err(m) => Err(m),
                    Ok(min) => match spec_float_attr(t, "max", "Invalid max: ") {
                        Err(m) => Err(m),
                        Ok(max) => match spec_float_attr(t, "step", "Invalid step: ") {
                            Err(m) => Err(m),
                            Ok(step) => match spec_number_content(ev) {
                                Err(m) => Err(m),
                                Ok((v, rest)) => Ok(((n, l, f, min, max, step, v), rest)),
                            },
                        },
                    },
                },
            },
        }
    }

    proof fn lemma_item_rest(t: TagView, ev: Seq<XmlEventView>) {
        lemma_trimmed_rest(ev);
    }

    fn tag_name() -> (r: &'static str) {
        "defNumber"
    }

    fn empty_tag() -> (r: bool) {
        false
    }

    fn parse_item<S: EventSource>(src: &mut S, t: &XmlTag) -> (r: Result<DefNumber, IndigoError>) {
        let (name, label) = match get_name_label(t) {
            Ok(v) => v,
            Err(e) => return Err(e),
        };
        let format = match get_attr(t, "format") {
            Ok(v) => v,
            Err(e) => return Err(e),
        };
        let min = match get_float_attr(t, "min", "Invalid min: ") {
            Ok(v) => v,
            Err(e) => return Err(e),
        };
        let max = match get_float_attr(t, "max", "Invalid max: ") {
            Ok(v) => v,
            Err(e) => return Err(e),
        };
        let step = match get_float_attr(t, "step", "Invalid step: ") {
            Ok(v) => v,
            Err(e) => return Err(e),
        };
        let value = match read_number_content(src) {
            Ok(v) => v,
            Err(e) => return Err(e),
        };
        Ok(DefNumber { name, label, format, min, max, step, value })
    }
}

/// The bounds of a `defNumber` element come from the attributes of its tag under
/// their own names: the minimum is the text of the tag's `min` attribute and the
/// maximum the text of its `max` attribute (the first attribute with that key, read
/// as UTF-8); likewise the step is the text of `step` and the format that of
/// `format`.
pub proof fn lemma_def_number_bounds(t: TagView, ev: Seq<XmlEventView>)
    requires
        DefNumber::spec_item(t, ev) is Ok,
    ensures
        ({
            let x = DefNumber::spec_item(t, ev)->Ok_0.0;
            &&& attr_is(t, "name", x.0)
            &&& attr_is(t, "format", x.2)
            &&& attr_is(t, "min", x.3)
            &&& attr_is(t, "max", x.4)
            &&& attr_is(t, "step", x.5)
        }),
{
}

impl ProtocolItem for DefSwitch {
    open spec fn spec_tag() -> Seq<u8> {
        "defSwitch".spec_bytes()
    }

    open spec fn spec_empty_tag() -> bool {
        false
    }

    open spec fn spec_item(t: TagView, ev: Seq<XmlEventView>) -> Result<(DefSwitchView, Seq<XmlEventView>), Seq<char>> {
        match spec_name_label(t) {
            Err(m) => Err(m),
            Ok((n, l)) => match spec_trimmed_content(ev) {
                Err(m) => Err(m),
                Ok((v, rest)) => match SwitchState::spec_parse(v) {
                    None => Err("Invalid switch state: "@ + v),
                    Some(x) => Ok(((n, l, x), rest)),
                },
            },
        }
    }

    proof fn lemma_item_rest(t: TagView, ev: Seq<XmlEventView>) {
        lemma_trimmed_rest(ev);
    }

    fn tag_name() -> (r: &'static str) {
        "defSwitch"
    }

    fn empty_tag() -> (r: bool) {
        false
    }

    fn parse_item<S: EventSource>(src: &mut S, t: &XmlTag) -> (r: Result<DefSwitch, IndigoError>) {
        let (name, label) = match get_name_label(t) {
            Ok(v) => v,
            Err(e) => return Err(e),
        };
        let v = match read_trimmed_content(src) {
            Ok(v) => v,
            Err(e) => return Err(e),
        };
        let value = match SwitchState::from_str(v.as_str()) {
            Ok(x) => x,
            Err(e) => return Err(e),
        };
        Ok(DefSwitch { name, label, value })
    }
}

impl ProtocolItem for DefLight {
    open spec fn spec_tag() -> Seq<u8> {
        "defLight".spec_bytes()
    }

    open spec fn spec_empty_tag() -> bool {
        false
    }

    open spec fn spec_item(t: TagView, ev: Seq<XmlEventView>) -> Result<(DefLightView, Seq<XmlEventView>), Seq<char>> {
        match spec_name_label(t) {
            Err(m) => Err(m),
            Ok((n, l)) => match spec_trimmed_content(ev) {
                Err(m) => Err(m),
                Ok((v, rest)) => match PropertyState::spec_parse(v) {
                    None => Err("Invalid property state: "@ + v),
                    Some(x) => Ok(((n, l, x), rest)),
                },
            },
        }
    }

    proof fn lemma_item_rest(t: TagView, ev: Seq<XmlEventView>) {
        lemma_trimmed_rest(ev);
    }

    fn tag_name() -> (r: &'static str) {
        "defLight"
    }

    fn empty_tag() -> (r: bool) {
        false
    }

    fn parse_item<S: EventSource>(src: &mut S, t: &XmlTag) -> (r: Result<DefLight, IndigoError>) {
        let (name, label) = match get_name_label(t) {
            Ok(v) => v,
            Err(e) => return Err(e),
        };
        let v = match read_trimmed_content(src) {
            Ok(v) => v,
            Err(e) => return Err(e),
        };
        let value = match parse_property_state(v.as_str()) {
            Ok(x) => x,
            Err(e) => return Err(e),
        };
        Ok(DefLight { name, label, value })
    }
}

impl ProtocolItem for DefBLOB {
    open spec fn spec_tag() -> Seq<u8> {
        "defBLOB".spec_bytes()
    }

    open spec fn spec_empty_tag() -> bool {
        true
    }

    open spec fn spec_item(t: TagView, ev: Seq<XmlEventView>) -> Result<(DefBLOBView, Seq<XmlEventView>), Seq<char>> {
        match spec_name_label(t) {
            Err(m) => Err(m),
            Ok((n, l)) => Ok(((n, l), ev)),
        }
    }

    proof fn lemma_item_rest(t: TagView, ev: Seq<XmlEventView>) {
    }

    fn tag_name() -> (r: &'static str) {
        "defBLOB"
    }

    fn empty_tag() -> (r: bool) {
        true
    }

    fn parse_item<S: EventSource>(src: &mut S, t: &XmlTag) -> (r: Result<DefBLOB, IndigoError>) {
        let (name, label) = match get_name_label(t) {
            Ok(v) => v,
            Err(e) => return Err(e),
        };
        Ok(DefBLOB { name, label })
    }
}

impl ProtocolItem for OneText {
    open spec fn spec_tag() -> Seq<u8> {
        "oneText".spec_bytes()
    }

    open spec fn spec_empty_tag() -> bool {
        false
    }

    open spec fn spec_item(t: TagView, ev: Seq<XmlEventView>) -> Result<(OneTextView, Seq<XmlEventView>), Seq<char>> {
        match spec_get_attr(t, "name") {
            Err(m) => Err(m),
            Ok(n) => match spec_text_content(ev, Seq::empty()) {
                Err(m) => Err(m),
                Ok((v, rest)) => Ok(((n, v), rest)),
            },
        }
    }

    proof fn lemma_item_rest(t: TagView, ev: Seq<XmlEventView>) {
        lemma_text_content_rest(ev, Seq::empty());
    }

    fn tag_name() -> (r: &'static str) {
        "oneText"
    }

    fn empty_tag() -> (r: bool) {
        false
    }

    fn parse_item<S: EventSource>(src: &mut S, t: &XmlTag) -> (r: Result<OneText, IndigoError>) {
        let name = match get_attr(t, "name") {
            Ok(v) => v,
            Err(e) => return Err(e),
        };
        let value = match read_text_content(src) {
            Ok(v) => v,
            Err(e) => return Err(e),
        };
        Ok(OneText { name, value })
    }
}

impl ProtocolItem for OneNumber {
    open spec fn spec_tag() -> Seq<u8> {
        "oneNumber".spec_bytes()
    }

    open spec fn spec_empty_tag() -> bool {
        false
    }

    open spec fn spec_item(t: TagView, ev: Seq<XmlEventView>) -> Result<(OneTextView, Seq<XmlEventView>), Seq<char>> {
        match spec_get_attr(t, "name") {
            Err(m) => Err(m),
            Ok(n) => match spec_number_content(ev) {
                Err(m) => Err(m),
                Ok((v, rest)) => Ok(((n, v), rest)),
            },
        }
    }

    proof fn lemma_item_rest(t: TagView, ev: Seq<XmlEventView>) {
        lemma_trimmed_rest(ev);
    }

    fn tag_name() -> (r: &'static str) {
        "oneNumber"
    }

    fn empty_tag() -> (r: bool) {
        false
    }

    fn parse_item<S: EventSource>(src: &mut S, t: &XmlTag) -> (r: Result<OneNumber, IndigoError>) {
        let name = match get_attr(t, "name") {
            Ok(v) => v,
            Err(e) => return Err(e),
        };
        let value = match read_number_content(src) {
            Ok(v) => v,
            Err(e) => return Err(e),
        };
        Ok(OneNumber { name, value })
    }
}

impl ProtocolItem for OneSwitch {
    open spec fn spec_tag() -> Seq<u8> {
        "oneSwitch".spec_bytes()
    }

    open spec fn spec_empty_tag() -> bool {
        false
    }

    open spec fn spec_item(t: TagView, ev: Seq<XmlEventView>) -> Result<(OneSwitchView, Seq<XmlEventView>), Seq<char>> {
        match spec_get_attr(t, "name") {
            Err(m) => Err(m),
            Ok(n) => match spec_trimmed_content(ev) {
                Err(m) => Err(m),
                Ok((v, rest)) => match SwitchState::spec_parse(v) {
                    None => Err("Invalid switch state: "@ + v),
                    Some(x) => Ok(((n, x), rest)),
                },
            },
        }
    }

    proof fn lemma_item_rest(t: TagView, ev: Seq<XmlEventView>) {
        lemma_trimmed_rest(ev);
    }

    fn tag_name() -> (r: &'static str) {
        "oneSwitch"
    }

    fn empty_tag() -> (r: bool) {
        false
    }

    fn parse_item<S: EventSource>(src: &mut S, t: &XmlTag) -> (r: Result<OneSwitch, IndigoError>) {
        let name = match get_attr(t, "name") {
            Ok(v) => v,
            Err(e) => return Err(e),
        };
        let v = match read_trimmed_content(src) {
            Ok(v) => v,
            Err(e) => return Err(e),
        };
        let value = match SwitchState::from_str(v.as_str()) {
            Ok(x) => x,
            Err(e) => return Err(e),
        };
        Ok(OneSwitch { name, value })
    }
}

impl ProtocolItem for OneLight {
    open spec fn spec_tag() -> Seq<u8> {
        "oneLight".spec_bytes()
    }

    open spec fn spec_empty_tag() -> bool {
        false
    }

    open spec fn spec_item(t: TagView, ev: Seq<XmlEventView>) -> Result<(OneLightView, Seq<XmlEventView>), Seq<char>> {
        match spec_get_attr(t, "name") {
            Err(m) => Err(m),
            Ok(n) => match spec_trimmed_content(ev) {
                Err(m) => Err(m),
                Ok((v, rest)) => match PropertyState::spec_parse(v) {
                    None => Err("Invalid property state: "@ + v),
                    Some(x) => Ok(((n, x), rest)),
                },
            },
        }
    }

    proof fn lemma_item_rest(t: TagView, ev: Seq<XmlEventView>) {
        lemma_trimmed_rest(ev);
    }

    fn tag_name() -> (r: &'static str) {
        "oneLight"
    }

    fn empty_tag() -> (r: bool) {
        false
    }

    fn parse_item<S: EventSource>(src: &mut S, t: &XmlTag) -> (r: Result<OneLight, IndigoError>) {
        let name = match get_attr(t, "name") {
            Ok(v) => v,
            Err(e) => return Err(e),
        };
        let v = match read_trimmed_content(src) {
            Ok(v) => v,
            Err(e) => return Err(e),
        };
        let value = match parse_property_state(v.as_str()) {
            Ok(x) => x,
            Err(e) => return Err(e),
        };
        Ok(OneLight { name, value })
    }
}

impl ProtocolItem for OneBLOB {
    open spec fn spec_tag() -> Seq<u8> {
        "oneBLOB".spec_bytes()
    }

    open spec fn spec_empty_tag() -> bool {
        false
    }

    open spec fn spec_item(t: TagView, ev: Seq<XmlEventView>) -> Result<(OneBLOBView, Seq<XmlEventView>), Seq<char>> {
        match spec_get_attr(t, "name") {
            Err(m) => Err(m),
            Ok(n) => match spec_get_attr(t, "size") {
                Err(m) => Err(m),
                Ok(sz) => match spec_parse_usize(sz) {
                    Err(e) => Err("Invalid size: "@ + e),
                    Ok(size) => match spec_get_attr(t, "format") {
                        Err(m) => Err(m),
                        Ok(f) => match spec_text_content(ev, Seq::empty()) {
                            Err(m) => Err(m),
                            Ok((v, rest)) => Ok(((n, size, f, v), rest)),
                        },
                    },
                },
            },
        }
    }

    proof fn lemma_item_rest(t: TagView, ev: Seq<XmlEventView>) {
        lemma_text_content_rest(ev, Seq::empty());
    }

    fn tag_name() -> (r: &'static str) {
        "oneBLOB"
    }

    fn empty_tag() -> (r: bool) {
        false
    }

    fn parse_item<S: EventSource>(src: &mut S, t: &XmlTag) -> (r: Result<OneBLOB, IndigoError>) {
        let name = match get_attr(t, "name") {
            Ok(v) => v,
            Err(e) => return Err(e),
        };
        let sz = match get_attr(t, "size") {
            Ok(v) => v,
            Err(e) => return Err(e),
        };
        let size = match parse_usize(sz.as_str()) {
            Ok(v) => v,
            Err(e) => return Err(parse_error("Invalid size: ", e)),
        };
        let format = match get_attr(t, "format") {
            Ok(v) => v,
            Err(e) => return Err(e),
        };
        let value = match read_text_content(src) {
            Ok(v) => v,
            Err(e) => return Err(e),
        };
        Ok(OneBLOB { name, size, format, value })
    }
}


// ---------------------------------------------------------------------------
// Messages
// ---------------------------------------------------------------------------

/// The attributes of a definition vector come from the tag under their own names:
/// the device from `device`, the name from `name`, the label from `label` and the
/// group from `group` (empty where absent), and the state is the one whose protocol
/// name the `state` attribute holds.
pub proof fn lemma_vector_attrs_from_tag(t: TagView)
    requires
        spec_vector_attrs(t) is Ok,
    ensures
        ({
            let a = spec_vector_attrs(t)->Ok_0;
            &&& attr_is(t, "device", a.device)
            &&& attr_is(t, "name", a.name)
            &&& attr_or_empty_is(t, "label", a.label)
            &&& attr_or_empty_is(t, "group", a.group)
            &&& attr_is(t, "state", a.state.spec_as_str()@)
        }),
{
    let st = spec_get_attr(t, "state")->Ok_0;
    lemma_state_names(spec_vector_attrs(t)->Ok_0.state, st);
}

/// The attributes of a set vector come from the tag under their own names: the
/// device from `device`, the name from `name`, and the state, where there is one,
/// is the one whose protocol name the `state` attribute holds.
pub proof fn lemma_set_vector_attrs_from_tag(t: TagView)
    requires
        spec_set_vector_attrs(t) is Ok,
    ensures
        ({
            let a = spec_set_vector_attrs(t)->Ok_0;
            &&& attr_is(t, "device", a.device)
            &&& attr_is(t, "name", a.name)
            &&& a.state matches Some(st) ==> attr_is(t, "state", st.spec_as_str()@)
        }),
{
    let a = spec_set_vector_attrs(t)->Ok_0;
    if let Some(st) = a.state {
        let text = spec_get_opt_attr(t, "state")->Ok_0->Some_0;
        lemma_state_names(st, text);
    }
}

/// The device and the name of a new vector come from the tag's `device` and `name`
/// attributes.
pub proof fn lemma_new_vector_attrs_from_tag(t: TagView)
    requires
        spec_new_vector_attrs(t) is Ok,
    ensures
        attr_is(t, "device", spec_new_vector_attrs(t)->Ok_0.device),
        attr_is(t, "name", spec_new_vector_attrs(t)->Ok_0.name),
{
}

/// The events of an element's content that is one text, then the end tag `n`, then
/// the events `rest`.
pub open spec fn one_text_then_end(txt: Seq<char>, n: Seq<u8>, rest: Seq<XmlEventView>) -> Seq<XmlEventView> {
    seq![XmlEventView::Text(Ok(txt)), XmlEventView::End(n)] + rest
}

proof fn lemma_one_text_content(txt: Seq<char>, n: Seq<u8>, rest: Seq<XmlEventView>)
    ensures
        spec_text_content(one_text_then_end(txt, n, rest), Seq::empty()) == Ok::<
            (Seq<char>, Seq<XmlEventView>),
            Seq<char>,
        >((txt, rest)),
{
    let ev = one_text_then_end(txt, n, rest);
    let after = seq![XmlEventView::End(n)] + rest;
    assert(ev.drop_first() =~= after);
    assert(after.drop_first() =~= rest);
    assert(Seq::<char>::empty() + txt =~= txt);
    assert(spec_text_content(after, txt) == Ok::<(Seq<char>, Seq<XmlEventView>), Seq<char>>((txt, rest)));
}

/// The value of an element whose content is one text comes from that text: a text
/// element's value is the text itself, a number's value is the text trimmed of white
/// space, and a switch's or a light's state is the one whose protocol name the
/// trimmed text is. The events after the element's end tag are left to read.
pub proof fn lemma_element_values(t: TagView, txt: Seq<char>, n: Seq<u8>, rest: Seq<XmlEventView>)
    ensures
        ({
            let ev = one_text_then_end(txt, n, rest);
            &&& DefText::spec_item(t, ev) matches Ok((x, r)) ==> (x.2 == txt && r == rest)
            &&& DefNumber::spec_item(t, ev) matches Ok((x, r)) ==> (x.6 == trim_text(txt) && r == rest)
            &&& DefSwitch::spec_item(t, ev) matches Ok((x, r)) ==> (x.2.spec_as_str()@ == trim_text(txt) && r == rest)
            &&& DefLight::spec_item(t, ev) matches Ok((x, r)) ==> (x.2.spec_as_str()@ == trim_text(txt) && r == rest)
            &&& OneText::spec_item(t, ev) matches Ok((x, r)) ==> (x.1 == txt && r == rest)
            &&& OneNumber::spec_item(t, ev) matches Ok((x, r)) ==> (x.1 == trim_text(txt) && r == rest)
            &&& OneSwitch::spec_item(t, ev) matches Ok((x, r)) ==> (x.1.spec_as_str()@ == trim_text(txt) && r == rest)
            &&& OneLight::spec_item(t, ev) matches Ok((x, r)) ==> (x.1.spec_as_str()@ == trim_text(txt) && r == rest)
        }),
{
    lemma_one_text_content(txt, n, rest);
    let v = trim_text(txt);
    if let Some(st) = SwitchState::spec_parse(v) {
        lemma_switch_state_names(st, v);
    }
    if let Some(st) = PropertyState::spec_parse(v) {
        lemma_state_names(st, v);
    }
}

/// The permission of a definition vector is the one whose protocol name the `perm`
/// attribute holds, and the rule of a switch vector the one whose name the `rule`
/// attribute holds.
pub proof fn lemma_perm_rule_from_tag(t: TagView)
    ensures
        spec_perm(t) matches Ok(p) ==> attr_is(t, "perm", p.spec_as_str()@),
        spec_rule(t) matches Ok(r) ==> attr_is(t, "rule", r.spec_as_str()@),
{
    if let Ok(p) = spec_perm(t) {
        lemma_perm_names(p, spec_get_attr(t, "perm")->Ok_0);
    }
    if let Ok(r) = spec_rule(t) {
        lemma_switch_rule_names(r, spec_get_attr(t, "rule")->Ok_0);
    }
}

/// The permission of a definition vector.
pub open spec fn spec_perm(t: TagView) -> Result<PropertyPerm, Seq<char>> {
    match spec_get_attr(t, "perm") {
        Err(e) => Err(e),
        Ok(p) => match PropertyPerm::spec_parse(p) {
            None => Err("Invalid property permission: "@ + p),
            Some(x) => Ok(x),
        },
    }
}

/// The rule of a switch definition vector.
pub open spec fn spec_rule(t: TagView) -> Result<SwitchRule, Seq<char>> {
    match spec_get_attr(t, "rule") {
        Err(e) => Err(e),
        Ok(p) => match SwitchRule::spec_parse(p) {
            None => Err("Invalid switch rule: "@ + p),
            Some(x) => Ok(x),
        },
    }
}

fn get_perm(tag: &XmlTag) -> (r: Result<PropertyPerm, IndigoError>)
    ensures
        match spec_perm(tag@) {
            Ok(p) => r matches Ok(x) && x == p,
            Err(m) => r is Err && parse_error_text(r->Err_0) == Some(m),
        },
{
    match get_attr(tag, "perm") {
        Ok(p) => parse_property_perm(p.as_str()),
        Err(e) => Err(e),
    }
}

fn get_rule(tag: &XmlTag) -> (r: Result<SwitchRule, IndigoError>)
    ensures
        match spec_rule(tag@) {
            Ok(p) => r matches Ok(x) && x == p,
            Err(m) => r is Err && parse_error_text(r->Err_0) == Some(m),
        },
{
    match get_attr(tag, "rule") {
        Ok(p) => SwitchRule::from_str(p.as_str()),
        Err(e) => Err(e),
    }
}

/// The elements of type `T` that the events spell up to the end tag `end`.
pub open spec fn spec_elements<T: ProtocolItem>(ev: Seq<XmlEventView>, end: &str) -> Result<Seq<T::V>, Seq<char>> {
    match spec_items::<T>(ev, end.spec_bytes(), Seq::empty()) {
        Err(e) => Err(e),
        Ok((items, _)) => Ok(items),
    }
}

pub open spec fn spec_def_text_vector(t: TagView, ev: Seq<XmlEventView>) -> Result<MessageView, Seq<char>> {
    match spec_vector_attrs(t) {
        Err(e) => Err(e),
        Ok(a) => match spec_perm(t) {
            Err(e) => Err(e),
            Ok(perm) => match spec_elements::<DefText>(ev, "defTextVector") {
                Err(e) => Err(e),
                Ok(items) => Ok(MessageView::DefTextVector(a, perm, items)),
            },
        },
    }
}

pub open spec fn spec_def_number_vector(t: TagView, ev: Seq<XmlEventView>) -> Result<MessageView, Seq<char>> {
    match spec_vector_attrs(t) {
        Err(e) => Err(e),
        Ok(a) => match spec_perm(t) {
            Err(e) => Err(e),
            Ok(perm) => match spec_elements::<DefNumber>(ev, "defNumberVector") {
                Err(e) => Err(e),
                Ok(items) => Ok(MessageView::DefNumberVector(a, perm, items)),
            },
        },
    }
}

pub open spec fn spec_def_switch_vector(t: TagView, ev: Seq<XmlEventView>) -> Result<MessageView, Seq<char>> {
    match spec_vector_attrs(t) {
        Err(e) => Err(e),
        Ok(a) => match spec_perm(t) {
            Err(e) => Err(e),
            Ok(perm) => match spec_rule(t) {
                Err(e) => Err(e),
                Ok(rule) => match spec_elements::<DefSwitch>(ev, "defSwitchVector") {
                    Err(e) => Err(e),
                    Ok(items) => Ok(MessageView::DefSwitchVector(a, perm, rule, items)),
                },
            },
        },
    }
}

pub open spec fn spec_def_light_vector(t: TagView, ev: Seq<XmlEventView>) -> Result<MessageView, Seq<char>> {
    match spec_vector_attrs(t) {
        Err(e) => Err(e),
        Ok(a) => match spec_elements::<DefLight>(ev, "defLightVector") {
            Err(e) => Err(e),
            Ok(items) => Ok(MessageView::DefLightVector(a, items)),
        },
    }
}

pub open spec fn spec_def_blob_vector(t: TagView, ev: Seq<XmlEventView>) -> Result<MessageView, Seq<char>> {
    match spec_vector_attrs(t) {
        Err(e) => Err(e),
        Ok(a) => match spec_perm(t) {
            Err(e) => Err(e),
            Ok(perm) => match spec_elements::<DefBLOB>(ev, "defBLOBVector") {
                Err(e) => Err(e),
                Ok(items) => Ok(MessageView::DefBLOBVector(a, perm, items)),
            },
        },
    }
}

pub open spec fn spec_set_text_vector(t: TagView, ev: Seq<XmlEventView>) -> Result<MessageView, Seq<char>> {
    match spec_set_vector_attrs(t) {
        Err(e) => Err(e),
        Ok(a) => match spec_elements::<OneText>(ev, "setTextVector") {
            Err(e) => Err(e),
            Ok(items) => Ok(MessageView::SetTextVector(a, items)),
        },
    }
}

pub open spec fn spec_set_number_vector(t: TagView, ev: Seq<XmlEventView>) -> Result<MessageView, Seq<char>> {
    match spec_set_vector_attrs(t) {
        Err(e) => Err(e),
        Ok(a) => match spec_elements::<OneNumber>(ev, "setNumberVector") {
            Err(e) => Err(e),
            Ok(items) => Ok(MessageView::SetNumberVector(a, items)),
        },
    }
}

pub open spec fn spec_set_switch_vector(t: TagView, ev: Seq<XmlEventView>) -> Result<MessageView, Seq<char>> {
    match spec_set_vector_attrs(t) {
        Err(e) => Err(e),
        Ok(a) => match spec_elements::<OneSwitch>(ev, "setSwitchVector") {
            Err(e) => Err(e),
            Ok(items) => Ok(MessageView::SetSwitchVector(a, items)),
        },
    }
}

pub open spec fn spec_set_light_vector(t: TagView, ev: Seq<XmlEventView>) -> Result<MessageView, Seq<char>> {
    match spec_set_vector_attrs(t) {
        Err(e) => Err(e),
        Ok(a) => match spec_elements::<OneLight>(ev, "setLightVector") {
            Err(e) => Err(e),
            Ok(items) => Ok(MessageView::SetLightVector(a, items)),
        },
    }
}

pub open spec fn spec_set_blob_vector(t: TagView, ev: Seq<XmlEventView>) -> Result<MessageView, Seq<char>> {
    match spec_set_vector_attrs(t) {
        Err(e) => Err(e),
        Ok(a) => match spec_elements::<OneBLOB>(ev, "setBLOBVector") {
            Err(e) => Err(e),
            Ok(items) => Ok(MessageView::SetBLOBVector(a, items)),
        },
    }
}

pub open spec fn spec_new_text_vector(t: TagView, ev: Seq<XmlEventView>) -> Result<MessageView, Seq<char>> {
    match spec_new_vector_attrs(t) {
        Err(e) => Err(e),
        Ok(a) => match spec_elements::<OneText>(ev, "newTextVector") {
            Err(e) => Err(e),
            Ok(items) => Ok(MessageView::NewTextVector(a, items)),
        },
    }
}

pub open spec fn spec_new_number_vector(t: TagView, ev: Seq<XmlEventView>) -> Result<MessageView, Seq<char>> {
    match spec_new_vector_attrs(t) {
        Err(e) => Err(e),
        Ok(a) => match spec_elements::<OneNumber>(ev, "newNumberVector") {
            Err(e) => Err(e),
            Ok(items) => Ok(MessageView::NewNumberVector(a, items)),
        },
    }
}

pub open spec fn spec_new_switch_vector(t: TagView, ev: Seq<XmlEventView>) -> Result<MessageView, Seq<char>> {
    match spec_new_vector_attrs(t) {
        Err(e) => Err(e),
        Ok(a) => match spec_elements::<OneSwitch>(ev, "newSwitchVector") {
            Err(e) => Err(e),
            Ok(items) => Ok(MessageView::NewSwitchVector(a, items)),
        },
    }
}

pub open spec fn spec_new_blob_vector(t: TagView, ev: Seq<XmlEventView>) -> Result<MessageView, Seq<char>> {
    match spec_new_vector_attrs(t) {
        Err(e) => Err(e),
        Ok(a) => match spec_elements::<OneBLOB>(ev, "newBLOBVector") {
            Err(e) => Err(e),
            Ok(items) => Ok(MessageView::NewBLOBVector(a, items)),
        },
    }
}

pub open spec fn spec_get_properties(t: TagView) -> Result<MessageView, Seq<char>> {
    match spec_get_opt_attr(t, "version") {
        Err(e) => Err(e),
        Ok(version) => match spec_get_opt_attr(t, "device") {
            Err(e) => Err(e),
            Ok(device) => match spec_get_opt_attr(t, "name") {
                Err(e) => Err(e),
                Ok(name) => Ok(MessageView::GetProperties(version, device, name)),
            },
        },
    }
}

pub open spec fn spec_enable_blob(t: TagView, ev: Seq<XmlEventView>) -> Result<MessageView, Seq<char>> {
    match spec_get_attr(t, "device") {
        Err(e) => Err(e),
        Ok(device) => match spec_get_opt_attr(t, "name") {
            Err(e) => Err(e),
            Ok(name) => match spec_trimmed_content(ev) {
                Err(e) => Err(e),
                Ok((v, _)) => match BLOBEnable::spec_parse(v) {
                    None => Err("Invalid BLOB enable: "@ + v),
                    Some(value) => Ok(MessageView::EnableBLOB(device, name, value)),
                },
            },
        },
    }
}

pub open spec fn spec_message_element(t: TagView) -> Result<MessageView, Seq<char>> {
    match spec_get_opt_attr(t, "device") {
        Err(e) => Err(e),
        Ok(device) => match spec_get_opt_attr(t, "timestamp") {
            Err(e) => Err(e),
            Ok(timestamp) => match spec_get_opt_attr(t, "message") {
                Err(e) => Err(e),
                Ok(message) => Ok(MessageView::Message(device, timestamp, message)),
            },
        },
    }
}

pub open spec fn spec_del_property(t: TagView) -> Result<MessageView, Seq<char>> {
    match spec_get_attr(t, "device") {
        Err(e) => Err(e),
        Ok(device) => match spec_get_opt_attr(t, "name") {
            Err(e) => Err(e),
            Ok(name) => match spec_get_opt_attr(t, "timestamp") {
                Err(e) => Err(e),
                Ok(timestamp) => match spec_get_opt_attr(t, "message") {
                    Err(e) => Err(e),
                    Ok(message) => Ok(MessageView::DelProperty(device, name, timestamp, message)),
                },
            },
        },
    }
}

/// The message that an element named `n`, its tag `t` and the events `ev` after
/// that tag spell.
pub open spec fn spec_named_message(n: Seq<char>, t: TagView, ev: Seq<XmlEventView>) -> Result<MessageView, Seq<char>> {
    if n == "defTextVector"@ {
        spec_def_text_vector(t, ev)
    } else if n == "defNumberVector"@ {
        spec_def_number_vector(t, ev)
    } else if n == "defSwitchVector"@ {
        spec_def_switch_vector(t, ev)
    } else if n == "defLightVector"@ {
        spec_def_light_vector(t, ev)
    } else if n == "defBLOBVector"@ {
        spec_def_blob_vector(t, ev)
    } else if n == "setTextVector"@ {
        spec_set_text_vector(t, ev)
    } else if n == "setNumberVector"@ {
        spec_set_number_vector(t, ev)
    } else if n == "setSwitchVector"@ {
        spec_set_switch_vector(t, ev)
    } else if n == "setLightVector"@ {
        spec_set_light_vector(t, ev)
    } else if n == "setBLOBVector"@ {
        spec_set_blob_vector(t, ev)
    } else if n == "newTextVector"@ {
        spec_new_text_vector(t, ev)
    } else if n == "newNumberVector"@ {
        spec_new_number_vector(t, ev)
    } else if n == "newSwitchVector"@ {
        spec_new_switch_vector(t, ev)
    } else if n == "newBLOBVector"@ {
        spec_new_blob_vector(t, ev)
    } else if n == "getProperties"@ {
        spec_get_properties(t)
    } else if n == "enableBLOB"@ {
        spec_enable_blob(t, ev)
    } else if n == "message"@ {
        spec_message_element(t)
    } else if n == "delProperty"@ {
        spec_del_property(t)
    } else {
        Err("Unknown message type: "@ + n)
    }
}

/// The message of the element whose start (or empty) tag is `t`.
pub open spec fn spec_element(t: TagView, ev: Seq<XmlEventView>) -> Result<MessageView, Seq<char>> {
    match attr_text(t.name) {
        Err(e) => Err(e),
        Ok(n) => spec_named_message(n, t, ev),
    }
}

/// The kind of message that an element gives is the one that its tag names: the
/// tag's name, read as UTF-8, is the element name of that kind of message.
pub proof fn lemma_message_kind_from_tag(t: TagView, ev: Seq<XmlEventView>)
    ensures
        spec_element(t, ev) matches Ok(m) ==> (vstd::utf8::valid_utf8(t.name) && vstd::utf8::decode_utf8(t.name)
            == message_name(m)),
{
}

/// The message that a stream of XML events spells: its first element, read as the
/// message that its name names; or the text of the parse error.
pub open spec fn spec_parse_events(ev: Seq<XmlEventView>) -> Result<MessageView, Seq<char>>
    decreases ev.len(),
{
    if ev.len() == 0 {
        Err("Unexpected EOF"@)
    } else {
        match ev[0] {
            XmlEventView::Start(t) => spec_element(t, ev.drop_first()),
            XmlEventView::Empty(t) => spec_element(t, ev.drop_first()),
            XmlEventView::Eof => Err("Unexpected EOF"@),
            XmlEventView::Error(m) => Err("XML error: "@ + m),
            _ => spec_parse_events(ev.drop_first()),
        }
    }
}


impl ProtocolParser {
    fn parse_def_text_vector<S: EventSource>(src: &mut S, tag: &XmlTag) -> (r: Result<ProtocolMessage, IndigoError>)
        ensures
            outcome(r, spec_def_text_vector(tag@, old(src).pending())),
    {
        let attrs = match parse_vector_attrs(tag) {
            Ok(v) => v,
            Err(e) => return Err(e),
        };
        let perm = match get_perm(tag) {
            Ok(v) => v,
            Err(e) => return Err(e),
        };
        let elements = match parse_items::<DefText, S>(src, "defTextVector") {
            Ok(v) => v,
            Err(e) => return Err(e),
        };
        Ok(ProtocolMessage::DefTextVector(DefTextVector { attrs, perm, elements }))
    }
    fn parse_def_number_vector<S: EventSource>(src: &mut S, tag: &XmlTag) -> (r: Result<ProtocolMessage, IndigoError>)
        ensures
            outcome(r, spec_def_number_vector(tag@, old(src).pending())),
    {
        let attrs = match parse_vector_attrs(tag) {
            Ok(v) => v,
            Err(e) => return Err(e),
        };
        let perm = match get_perm(tag) {
            Ok(v) => v,
            Err(e) => return Err(e),
        };
        let elements = match parse_items::<DefNumber, S>(src, "defNumberVector") {
            Ok(v) => v,
            Err(e) => return Err(e),
        };
        Ok(ProtocolMessage::DefNumberVector(DefNumberVector { attrs, perm, elements }))
    }
    fn parse_def_switch_vector<S: EventSource>(src: &mut S, tag: &XmlTag) -> (r: Result<ProtocolMessage, IndigoError>)
        ensures
            outcome(r, spec_def_switch_vector(tag@, old(src).pending())),
    {
        let attrs = match parse_vector_attrs(tag) {
            Ok(v) => v,
            Err(e) => return Err(e),
        };
        let perm = match get_perm(tag) {
            Ok(v) => v,
            Err(e) => return Err(e),
        };
        let rule = match get_rule(tag) {
            Ok(v) => v,
            Err(e) => return Err(e),
        };
        let elements = match parse_items::<DefSwitch, S>(src, "defSwitchVector") {
            Ok(v) => v,
            Err(e) => return Err(e),
        };
        Ok(ProtocolMessage::DefSwitchVector(DefSwitchVector { attrs, perm, rule, elements }))
    }
    fn parse_def_light_vector<S: EventSource>(src: &mut S, tag: &XmlTag) -> (r: Result<ProtocolMessage, IndigoError>)
        ensures
            outcome(r, spec_def_light_vector(tag@, old(src).pending())),
    {
        let attrs = match parse_vector_attrs(tag) {
            Ok(v) => v,
            Err(e) => return Err(e),
        };
        let elements = match parse_items::<DefLight, S>(src, "defLightVector") {
            Ok(v) => v,
            Err(e) => return Err(e),
        };
        Ok(ProtocolMessage::DefLightVector(DefLightVector { attrs, elements }))
    }
    fn parse_def_blob_vector<S: EventSource>(src: &mut S, tag: &XmlTag) -> (r: Result<ProtocolMessage, IndigoError>)
        ensures
            outcome(r, spec_def_blob_vector(tag@, old(src).pending())),
    {
        let attrs = match parse_vector_attrs(tag) {
            Ok(v) => v,
            Err(e) => return Err(e),
        };
        let perm = match get_perm(tag) {
            Ok(v) => v,
            Err(e) => return Err(e),
        };
        let elements = match parse_items::<DefBLOB, S>(src, "defBLOBVector") {
            Ok(v) => v,
            Err(e) => return Err(e),
        };
        Ok(ProtocolMessage::DefBLOBVector(DefBLOBVector { attrs, perm, elements }))
    }
    fn parse_set_text_vector<S: EventSource>(src: &mut S, tag: &XmlTag) -> (r: Result<ProtocolMessage, IndigoError>)
        ensures
            outcome(r, spec_set_text_vector(tag@, old(src).pending())),
    {
        let attrs = match parse_set_vector_attrs(tag) {
            Ok(v) => v,
            Err(e) => return Err(e),
        };
        let elements = match parse_items::<OneText, S>(src, "setTextVector") {
            Ok(v) => v,
            Err(e) => return Err(e),
        };
        Ok(ProtocolMessage::SetTextVector(SetTextVector { attrs, elements }))
    }
    fn parse_set_number_vector<S: EventSource>(src: &mut S, tag: &XmlTag) -> (r: Result<ProtocolMessage, IndigoError>)
        ensures
            outcome(r, spec_set_number_vector(tag@, old(src).pending())),
    {
        let attrs = match parse_set_vector_attrs(tag) {
            Ok(v) => v,
            Err(e) => return Err(e),
        };
        let elements = match parse_items::<OneNumber, S>(src, "setNumberVector") {
            Ok(v) => v,
            Err(e) => return Err(e),
        };
        Ok(ProtocolMessage::SetNumberVector(SetNumberVector { attrs, elements }))
    }
    fn parse_set_switch_vector<S: EventSource>(src: &mut S, tag: &XmlTag) -> (r: Result<ProtocolMessage, IndigoError>)
        ensures
            outcome(r, spec_set_switch_vector(tag@, old(src).pending())),
    {
        let attrs = match parse_set_vector_attrs(tag) {
            Ok(v) => v,
            Err(e) => return Err(e),
        };
        let elements = match parse_items::<OneSwitch, S>(src, "setSwitchVector") {
            Ok(v) => v,
            Err(e) => return Err(e),
        };
        Ok(ProtocolMessage::SetSwitchVector(SetSwitchVector { attrs, elements }))
    }
    fn parse_set_light_vector<S: EventSource>(src: &mut S, tag: &XmlTag) -> (r: Result<ProtocolMessage, IndigoError>)
        ensures
            outcome(r, spec_set_light_vector(tag@, old(src).pending())),
    {
        let attrs = match parse_set_vector_attrs(tag) {
            Ok(v) => v,
            Err(e) => return Err(e),
        };
        let elements = match parse_items::<OneLight, S>(src, "setLightVector") {
            Ok(v) => v,
            Err(e) => return Err(e),
        };
        Ok(ProtocolMessage::SetLightVector(SetLightVector { attrs, elements }))
    }
    fn parse_set_blob_vector<S: EventSource>(src: &mut S, tag: &XmlTag) -> (r: Result<ProtocolMessage, IndigoError>)
        ensures
            outcome(r, spec_set_blob_vector(tag@, old(src).pending())),
    {
        let attrs = match parse_set_vector_attrs(tag) {
            Ok(v) => v,
            Err(e) => return Err(e),
        };
        let elements = match parse_items::<OneBLOB, S>(src, "setBLOBVector") {
            Ok(v) => v,
            Err(e) => return Err(e),
        };
        Ok(ProtocolMessage::SetBLOBVector(SetBLOBVector { attrs, elements }))
    }
    fn parse_new_text_vector<S: EventSource>(src: &mut S, tag: &XmlTag) -> (r: Result<ProtocolMessage, IndigoError>)
        ensures
            outcome(r, spec_new_text_vector(tag@, old(src).pending())),
    {
        let attrs = match parse_new_vector_attrs(tag) {
            Ok(v) => v,
            Err(e) => return Err(e),
        };
        let elements = match parse_items::<OneText, S>(src, "newTextVector") {
            Ok(v) => v,
            Err(e) => return Err(e),
        };
        Ok(ProtocolMessage::NewTextVector(NewTextVector { attrs, elements }))
    }
    fn parse_new_number_vector<S: EventSource>(src: &mut S, tag: &XmlTag) -> (r: Result<ProtocolMessage, IndigoError>)
        ensures
            outcome(r, spec_new_number_vector(tag@, old(src).pending())),
    {
        let attrs = match parse_new_vector_attrs(tag) {
            Ok(v) => v,
            Err(e) => return Err(e),
        };
        let elements = match parse_items::<OneNumber, S>(src, "newNumberVector") {
            Ok(v) => v,
            Err(e) => return Err(e),
        };
        Ok(ProtocolMessage::NewNumberVector(NewNumberVector { attrs, elements }))
    }
    fn parse_new_switch_vector<S: EventSource>(src: &mut S, tag: &XmlTag) -> (r: Result<ProtocolMessage, IndigoError>)
        ensures
            outcome(r, spec_new_switch_vector(tag@, old(src).pending())),
    {
        let attrs = match parse_new_vector_attrs(tag) {
            Ok(v) => v,
            Err(e) => return Err(e),
        };
        let elements = match parse_items::<OneSwitch, S>(src, "newSwitchVector") {
            Ok(v) => v,
            Err(e) => return Err(e),
        };
        Ok(ProtocolMessage::NewSwitchVector(NewSwitchVector { attrs, elements }))
    }
    fn parse_new_blob_vector<S: EventSource>(src: &mut S, tag: &XmlTag) -> (r: Result<ProtocolMessage, IndigoError>)
        ensures
            outcome(r, spec_new_blob_vector(tag@, old(src).pending())),
    {
        let attrs = match parse_new_vector_attrs(tag) {
            Ok(v) => v,
            Err(e) => return Err(e),
        };
        let elements = match parse_items::<OneBLOB, S>(src, "newBLOBVector") {
            Ok(v) => v,
            Err(e) => return Err(e),
        };
        Ok(ProtocolMessage::NewBLOBVector(NewBLOBVector { attrs, elements }))
    }
    fn parse_get_properties(tag: &XmlTag) -> (r: Result<ProtocolMessage, IndigoError>)
        ensures
            outcome(r, spec_get_properties(tag@)),
    {
        let version = match get_opt_attr(tag, "version") {
            Ok(v) => v,
            Err(e) => return Err(e),
        };
        let device = match get_opt_attr(tag, "device") {
            Ok(v) => v,
            Err(e) => return Err(e),
        };
        let name = match get_opt_attr(tag, "name") {
            Ok(v) => v,
            Err(e) => return Err(e),
        };
        Ok(ProtocolMessage::GetProperties(GetProperties { version, device, name }))
    }

    fn parse_enable_blob<S: EventSource>(src: &mut S, tag: &XmlTag) -> (r: Result<ProtocolMessage, IndigoError>)
        ensures
            outcome(r, spec_enable_blob(tag@, old(src).pending())),
    {
        let device = match get_attr(tag, "device") {
            Ok(v) => v,
            Err(e) => return Err(e),
        };
        let name = match get_opt_attr(tag, "name") {
            Ok(v) => v,
            Err(e) => return Err(e),
        };
        let v = match read_trimmed_content(src) {
            Ok(v) => v,
            Err(e) => return Err(e),
        };
        let value = match BLOBEnable::from_str(v.as_str()) {
            Ok(x) => x,
            Err(e) => return Err(e),
        };
        Ok(ProtocolMessage::EnableBLOB(EnableBLOB { device, name, value }))
    }

    fn parse_message_element(tag: &XmlTag) -> (r: Result<ProtocolMessage, IndigoError>)
        ensures
            outcome(r, spec_message_element(tag@)),
    {
        let device = match get_opt_attr(tag, "device") {
            Ok(v) => v,
            Err(e) => return Err(e),
        };
        let timestamp = match get_opt_attr(tag, "timestamp") {
            Ok(v) => v,
            Err(e) => return Err(e),
        };
        let message = match get_opt_attr(tag, "message") {
            Ok(v) => v,
            Err(e) => return Err(e),
        };
        Ok(ProtocolMessage::Message(Message { device, timestamp, message }))
    }

    fn parse_del_property(tag: &XmlTag) -> (r: Result<ProtocolMessage, IndigoError>)
        ensures
            outcome(r, spec_del_property(tag@)),
    {
        let device = match get_attr(tag, "device") {
            Ok(v) => v,
            Err(e) => return Err(e),
        };
        let name = match get_opt_attr(tag, "name") {
            Ok(v) => v,
            Err(e) => return Err(e),
        };
        let timestamp = match get_opt_attr(tag, "timestamp") {
            Ok(v) => v,
            Err(e) => return Err(e),
        };
        let message = match get_opt_attr(tag, "message") {
            Ok(v) => v,
            Err(e) => return Err(e),
        };
        Ok(ProtocolMessage::DelProperty(DelProperty { device, name, timestamp, message }))
    }

    /// The message of the element whose start (or empty) tag is `tag`, its content
    /// read from `src`.
    fn parse_element<S: EventSource>(src: &mut S, tag: &XmlTag) -> (r: Result<ProtocolMessage, IndigoError>)
        ensures
            outcome(r, spec_element(tag@, old(src).pending())),
    {
        let name = match decode_utf8(tag.0.as_slice()) {
            Ok(s) => s,
            Err(m) => return Err(parse_error("Invalid UTF-8: ", m.as_str())),
        };
        let n = name.as_str();
        if str_equals(n, "defTextVector") {
            Self::parse_def_text_vector(src, tag)
        } else if str_equals(n, "defNumberVector") {
            Self::parse_def_number_vector(src, tag)
        } else if str_equals(n, "defSwitchVector") {
            Self::parse_def_switch_vector(src, tag)
        } else if str_equals(n, "defLightVector") {
            Self::parse_def_light_vector(src, tag)
        } else if str_equals(n, "defBLOBVector") {
            Self::parse_def_blob_vector(src, tag)
        } else if str_equals(n, "setTextVector") {
            Self::parse_set_text_vector(src, tag)
        } else if str_equals(n, "setNumberVector") {
            Self::parse_set_number_vector(src, tag)
        } else if str_equals(n, "setSwitchVector") {
            Self::parse_set_switch_vector(src, tag)
        } else if str_equals(n, "setLightVector") {
            Self::parse_set_light_vector(src, tag)
        } else if str_equals(n, "setBLOBVector") {
            Self::parse_set_blob_vector(src, tag)
        } else if str_equals(n, "newTextVector") {
            Self::parse_new_text_vector(src, tag)
        } else if str_equals(n, "newNumberVector") {
            Self::parse_new_number_vector(src, tag)
        } else if str_equals(n, "newSwitchVector") {
            Self::parse_new_switch_vector(src, tag)
        } else if str_equals(n, "newBLOBVector") {
            Self::parse_new_blob_vector(src, tag)
        } else if str_equals(n, "getProperties") {
            Self::parse_get_properties(tag)
        } else if str_equals(n, "enableBLOB") {
            Self::parse_enable_blob(src, tag)
        } else if str_equals(n, "message") {
            Self::parse_message_element(tag)
        } else if str_equals(n, "delProperty") {
            Self::parse_del_property(tag)
        } else {
            Err(parse_error("Unknown message type: ", n))
        }
    }

    /// Reads the first element of the events of `src` as a message.
    fn parse_from<S: EventSource>(src: &mut S) -> (r: Result<ProtocolMessage, IndigoError>)
        ensures
            outcome(r, spec_parse_events(old(src).pending())),
    {
        loop
            invariant
                spec_parse_events(src.pending()) == spec_parse_events(old(src).pending()),
            decreases src.pending().len(),
        {
            let e = src.next_xml_event();
            match e {
                XmlEvent::Start(t) => {
                    return Self::parse_element(src, &t);
                },
                XmlEvent::Empty(t) => {
                    return Self::parse_element(src, &t);
                },
                XmlEvent::Eof => {
                    return Err(IndigoError::ParseError("Unexpected EOF".to_owned()));
                },
                XmlEvent::Error(m) => {
                    return Err(parse_error("XML error: ", m.as_str()));
                },
                _ => {},
            }
        }
    }

    /// Parses a single protocol message from XML bytes.
    ///
    /// The XML holds a single message element (not wrapped in `<INDI>`). The result
    /// is the message, or the parse error, that the events which quick_xml reads
    /// from `xml` spell.
    pub fn parse_message(xml: &[u8]) -> (r: Result<ProtocolMessage, IndigoError>)
        ensures
            outcome(r, spec_parse_events(xml_events(xml@))),
    {
        let mut reader = open_reader(xml);
        Self::parse_from(&mut reader)
    }

    /// Parses a single protocol message from the XML events that a reader gave.
    pub fn parse_events(events: Vec<XmlEvent>) -> (r: Result<ProtocolMessage, IndigoError>)
        ensures
            outcome(r, spec_parse_events(events@.map_values(|e: XmlEvent| e@))),
    {
        let mut list = EventList::new(events);
        Self::parse_from(&mut list)
    }
}

} // verus!
