//! Reading back what is written.
//!
//! `echo` is what an XML reader that trims text (as the protocol reads) reports for
//! the XML events that a message is written as: each tag with its name and its
//! attributes (the raw, escaped value of each), the character data of each text,
//! trimmed of XML white space and left out when nothing remains, and each end tag.
//! The law of this module is that the parser gives back the message that the
//! serializer wrote, when the message can be written faithfully: its attribute
//! values hold no character that XML escapes (the parser does not unescape
//! attribute values), its texts do not begin or end with white space, its numbers
//! are numbers, and its timeouts are numbers.
use vstd::prelude::*;
use vstd::utf8::{decode_utf8, encode_utf8, valid_utf8};
use crate::strategies::rs::parse::{
    attr_text, find_attr, or_empty, spec_named_message, spec_def_switch_vector, spec_elements, spec_element, spec_parse_events, spec_perm, spec_rule, spec_new_vector_attrs, spec_set_vector_attrs, spec_vector_attrs, spec_items, spec_number_content, spec_trimmed_content, spec_get_opt_attr, spec_name_label, spec_text_content, ProtocolItem,
};
use crate::strategies::rs::protocol::{
    NewVectorAttributesView, SetVectorAttributesView, VectorAttributesView,
    lemma_blob_enable_name_parses_back, lemma_switch_rule_name_parses_back,
    lemma_switch_state_name_parses_back, BLOBEnable, MessageView, PropertyPerm, PropertyState, SwitchRule,
    SwitchState, DefBLOB, DefBLOBView, DefLight, DefLightView, DefNumber, DefNumberView, DefSwitch,
    DefSwitchView, DefText, DefTextView, OneBLOB, OneBLOBView, OneLight, OneLightView, OneNumber,
    OneSwitch, OneSwitchView, OneText, OneTextView,
};
use crate::types::property::{lemma_perm_name_parses_back, lemma_state_name_parses_back};
use crate::strategies::rs::numtext::{is_digit_char, lemma_decimal_text, lemma_parse_decimal_text, spec_check_float};
use crate::text::decimal_text;
use crate::strategies::rs::write::{
    def_blob_out, def_light_out, def_number_out, def_switch_out, def_text_out, message_out,
    new_vector_attrs_out, nonempty_attr, one_blob_out, one_light_out, one_number_out,
    one_switch_out, one_text_out, opt_attr, set_vector_attrs_out, text_element,
    vector_attrs_out, vector_out, OutItem,
};
use crate::strategies::rs::xml::{is_white_space, trim_text, xml_escape_text, xml_events, TagView, XmlEventView, XmlOutView};
use crate::strategies::rs::parse::outcome;
use crate::strategies::rs::protocol::{message_name, ProtocolMessage};
use crate::error::IndigoError;

verus! {

broadcast use {vstd::utf8::encode_utf8_valid_utf8, vstd::utf8::encode_utf8_decode_utf8};

// ---------------------------------------------------------------------------
// What a reader reports
// ---------------------------------------------------------------------------

/// The characters that XML escapes in text and attribute values.
pub open spec fn is_markup(c: char) -> bool {
    c == '<' || c == '>' || c == '&' || c == '\'' || c == '"'
}

/// Text with no character that XML escapes.
pub open spec fn plain(s: Seq<char>) -> bool {
    forall|i: int| 0 <= i < s.len() ==> !is_markup(#[trigger] s[i])
}

/// XML white space: blank, tab, line feed and carriage return.
pub open spec fn is_xml_blank(c: char) -> bool {
    c == ' ' || c == '\t' || c == '\n' || c == '\r'
}

pub open spec fn trim_xml_start(s: Seq<char>) -> Seq<char>
    decreases s.len(),
{
    if s.len() > 0 && is_xml_blank(s[0]) {
        trim_xml_start(s.drop_first())
    } else {
        s
    }
}

pub open spec fn trim_xml_end(s: Seq<char>) -> Seq<char>
    decreases s.len(),
{
    if s.len() > 0 && is_xml_blank(s.last()) {
        trim_xml_end(s.drop_last())
    } else {
        s
    }
}

/// Text without leading and trailing XML white space.
pub open spec fn trim_xml(s: Seq<char>) -> Seq<char> {
    trim_xml_end(trim_xml_start(s))
}

/// The attributes of a tag as a reader reports them: each key with its escaped value.
pub open spec fn echo_attrs(a: Seq<(Seq<char>, Seq<char>)>) -> Seq<Result<(Seq<u8>, Seq<u8>), Seq<char>>> {
    a.map_values(
        |kv: (Seq<char>, Seq<char>)|
            Ok::<(Seq<u8>, Seq<u8>), Seq<char>>((encode_utf8(kv.0), encode_utf8(xml_escape_text(kv.1)))),
    )
}

pub open spec fn echo_tag(n: Seq<char>, a: Seq<(Seq<char>, Seq<char>)>) -> TagView {
    TagView { name: encode_utf8(n), attrs: echo_attrs(a) }
}

/// The events a reader that trims text reports for the text written for `e`.
pub open spec fn echo_event(e: XmlOutView) -> Seq<XmlEventView> {
    match e {
        XmlOutView::Start(n, a) => seq![XmlEventView::Start(echo_tag(n, a))],
        XmlOutView::Empty(n, a) => seq![XmlEventView::Empty(echo_tag(n, a))],
        XmlOutView::Text(t) => if trim_xml(t).len() == 0 {
            Seq::empty()
        } else {
            seq![XmlEventView::Text(Ok(trim_xml(t)))]
        },
        XmlOutView::End(n) => seq![XmlEventView::End(encode_utf8(n))],
    }
}

/// The events a reader that trims text reports for the text written for `s`.
pub open spec fn echo(s: Seq<XmlOutView>) -> Seq<XmlEventView> {
    s.flat_map(|e: XmlOutView| echo_event(e))
}

// ---------------------------------------------------------------------------
// Texts
// ---------------------------------------------------------------------------

/// Escaping leaves plain text as it is.
pub proof fn lemma_escape_plain(s: Seq<char>)
    requires
        plain(s),
    ensures
        xml_escape_text(s) == s,
    decreases s.len(),
{
    if s.len() > 0 {
        assert(!is_markup(s[0]));
        assert(plain(s.drop_first())) by {
            assert forall|i: int| 0 <= i < s.drop_first().len() implies !is_markup(#[trigger] s.drop_first()[i]) by {
                assert(s.drop_first()[i] == s[i + 1]);
            }
        }
        lemma_escape_plain(s.drop_first());
        assert(seq![s[0]] + s.drop_first() =~= s);
    }
}

/// UTF-8 encoding is one to one.
pub proof fn lemma_encode_injective(a: Seq<char>, b: Seq<char>)
    ensures
        encode_utf8(a) == encode_utf8(b) <==> a == b,
{
    if encode_utf8(a) == encode_utf8(b) {
        assert(decode_utf8(encode_utf8(a)) == a);
        assert(decode_utf8(encode_utf8(b)) == b);
    }
}

/// The text of the raw value written for a plain value is that value.
pub proof fn lemma_attr_text_plain(v: Seq<char>)
    requires
        plain(v),
    ensures
        attr_text(encode_utf8(xml_escape_text(v))) == Ok::<Seq<char>, Seq<char>>(v),
{
    lemma_escape_plain(v);
    assert(valid_utf8(encode_utf8(v)));
    assert(decode_utf8(encode_utf8(v)) == v);
}

/// Text without white space at its ends is its own trimming.
pub proof fn lemma_trim_xml_clean(s: Seq<char>)
    requires
        s.len() == 0 || (!is_xml_blank(s[0]) && !is_xml_blank(s.last())),
    ensures
        trim_xml(s) == s,
{
}

// ---------------------------------------------------------------------------
// Attributes
// ---------------------------------------------------------------------------

/// The value of the first attribute with `key`.
pub open spec fn lookup(a: Seq<(Seq<char>, Seq<char>)>, key: Seq<char>) -> Option<Seq<char>>
    decreases a.len(),
{
    if a.len() == 0 {
        None
    } else if a[0].0 == key {
        Some(a[0].1)
    } else {
        lookup(a.drop_first(), key)
    }
}

/// Looking up in two lists one after the other looks in the first, then in the
/// second.
pub broadcast proof fn lemma_lookup_concat(a: Seq<(Seq<char>, Seq<char>)>, b: Seq<(Seq<char>, Seq<char>)>, key: Seq<char>)
    ensures
        #[trigger] lookup(a + b, key) == match lookup(a, key) {
            Some(v) => Some(v),
            None => lookup(b, key),
        },
    decreases a.len(),
{
    if a.len() == 0 {
        assert(a + b =~= b);
    } else {
        assert((a + b).drop_first() =~= a.drop_first() + b);
        lemma_lookup_concat(a.drop_first(), b, key);
    }
}

/// Looking up in a list of one attribute.
pub broadcast proof fn lemma_lookup_single(k: Seq<char>, v: Seq<char>, key: Seq<char>)
    ensures
        #[trigger] lookup(seq![(k, v)], key) == if k == key {
            Some(v)
        } else {
            None::<Seq<char>>
        },
{
    assert(seq![(k, v)].drop_first() =~= Seq::<(Seq<char>, Seq<char>)>::empty());
    assert(lookup(Seq::<(Seq<char>, Seq<char>)>::empty(), key) == None::<Seq<char>>);
}

/// Looking up in an empty list.
pub broadcast proof fn lemma_lookup_empty(key: Seq<char>)
    ensures
        #[trigger] lookup(Seq::<(Seq<char>, Seq<char>)>::empty(), key) == None::<Seq<char>>,
{
}

/// A `defNumber` element is written as a `defNumber` start tag, its value as text
/// and the end tag; the start tag carries the element's name under the key `name`,
/// its format under `format`, its minimum under `min`, its maximum under `max` and
/// its step under `step`.
pub proof fn lemma_def_number_written_attrs(x: DefNumberView)
    ensures
        def_number_out(x).len() == 3,
        def_number_out(x)[0] matches XmlOutView::Start(n, attrs) && n == "defNumber"@ && lookup(attrs, "name"@)
            == Some(x.0) && lookup(attrs, "format"@) == Some(x.2) && lookup(attrs, "min"@) == Some(x.3)
            && lookup(attrs, "max"@) == Some(x.4) && lookup(attrs, "step"@) == Some(x.5),
        def_number_out(x)[1] == XmlOutView::Text(x.6),
        def_number_out(x)[2] == XmlOutView::End("defNumber"@),
{
    broadcast use lemma_lookup_concat, lemma_lookup_single, lemma_lookup_empty;

    reveal_strlit("name");
    reveal_strlit("label");
    reveal_strlit("format");
    reveal_strlit("min");
    reveal_strlit("max");
    reveal_strlit("step");
    assert("name"@[0] != "step"@[0]);
    assert("min"@[1] != "max"@[1]);
    assert("name"@.len() == 4 && "label"@.len() == 5 && "format"@.len() == 6);
    assert("min"@.len() == 3 && "max"@.len() == 3 && "step"@.len() == 4);
    let attrs = seq![("name"@, x.0)] + nonempty_attr("label"@, x.1) + seq![("format"@, x.2)] + seq![("min"@, x.3)]
        + seq![("max"@, x.4)] + seq![("step"@, x.5)];
    assert(lookup(nonempty_attr("label"@, x.1), "format"@) == None::<Seq<char>>);
    assert(lookup(nonempty_attr("label"@, x.1), "min"@) == None::<Seq<char>>);
    assert(lookup(nonempty_attr("label"@, x.1), "max"@) == None::<Seq<char>>);
    assert(lookup(nonempty_attr("label"@, x.1), "step"@) == None::<Seq<char>>);
    assert(lookup(attrs, "name"@) == Some(x.0));
    assert(lookup(attrs, "format"@) == Some(x.2));
    assert(lookup(attrs, "min"@) == Some(x.3));
    assert(lookup(attrs, "max"@) == Some(x.4));
    assert(lookup(attrs, "step"@) == Some(x.5));
}

/// The attributes of a definition vector are written under their own names: the
/// device under `device`, the name under `name` and the state's protocol name under
/// `state`; none of them is `perm` or `rule`.
pub proof fn lemma_vector_attrs_written(a: VectorAttributesView)
    ensures
        lookup(vector_attrs_out(a), "device"@) == Some(a.device),
        lookup(vector_attrs_out(a), "name"@) == Some(a.name),
        lookup(vector_attrs_out(a), "state"@) == Some(a.state.spec_as_str()@),
        lookup(vector_attrs_out(a), "perm"@) == None::<Seq<char>>,
        lookup(vector_attrs_out(a), "rule"@) == None::<Seq<char>>,
{
    broadcast use lemma_lookup_concat, lemma_lookup_single, lemma_lookup_empty;

    reveal_strlit("device");
    reveal_strlit("name");
    reveal_strlit("label");
    reveal_strlit("group");
    reveal_strlit("state");
    reveal_strlit("timeout");
    reveal_strlit("timestamp");
    reveal_strlit("message");
    reveal_strlit("perm");
    reveal_strlit("rule");
    assert("device"@.len() == 6 && "name"@.len() == 4 && "label"@.len() == 5 && "group"@.len() == 5);
    assert("state"@.len() == 5 && "timeout"@.len() == 7 && "timestamp"@.len() == 9 && "message"@.len() == 7);
    assert("perm"@.len() == 4 && "rule"@.len() == 4);
    assert("name"@[0] != "perm"@[0] && "name"@[0] != "rule"@[0]);
    assert("state"@[0] != "label"@[0] && "state"@[0] != "group"@[0]);
    assert(lookup(nonempty_attr("label"@, a.label), "state"@) == None::<Seq<char>>);
    assert(lookup(nonempty_attr("group"@, a.group), "state"@) == None::<Seq<char>>);
    assert(lookup(nonempty_attr("label"@, a.label), "perm"@) == None::<Seq<char>>);
    assert(lookup(nonempty_attr("group"@, a.group), "perm"@) == None::<Seq<char>>);
    assert(lookup(nonempty_attr("label"@, a.label), "rule"@) == None::<Seq<char>>);
    assert(lookup(nonempty_attr("group"@, a.group), "rule"@) == None::<Seq<char>>);
    assert(lookup(opt_attr("timeout"@, a.timeout), "perm"@) == None::<Seq<char>>);
    assert(lookup(opt_attr("timestamp"@, a.timestamp), "perm"@) == None::<Seq<char>>);
    assert(lookup(opt_attr("message"@, a.message), "perm"@) == None::<Seq<char>>);
    assert(lookup(opt_attr("timeout"@, a.timeout), "rule"@) == None::<Seq<char>>);
    assert(lookup(opt_attr("timestamp"@, a.timestamp), "rule"@) == None::<Seq<char>>);
    assert(lookup(opt_attr("message"@, a.message), "rule"@) == None::<Seq<char>>);
}

/// A switch definition vector is written as a `defSwitchVector` start tag that
/// carries the device, the name, the permission's protocol name under `perm` and the
/// rule's protocol name under `rule`.
pub proof fn lemma_def_switch_vector_written(
    a: VectorAttributesView,
    perm: PropertyPerm,
    rule: SwitchRule,
    items: Seq<DefSwitchView>,
)
    ensures
        message_out(MessageView::DefSwitchVector(a, perm, rule, items))[0] matches XmlOutView::Start(n, attrs)
            && n == "defSwitchVector"@ && lookup(attrs, "device"@) == Some(a.device) && lookup(attrs, "name"@)
            == Some(a.name) && lookup(attrs, "perm"@) == Some(perm.spec_as_str()@) && lookup(attrs, "rule"@)
            == Some(rule.spec_as_str()@),
{
    broadcast use lemma_lookup_concat, lemma_lookup_single, lemma_lookup_empty;

    lemma_vector_attrs_written(a);
    reveal_strlit("perm");
    reveal_strlit("rule");
    assert("perm"@[0] != "rule"@[0]);
}

/// A message is written as an element whose name is the element name of its kind:
/// a start tag (for a vector or an `enableBLOB`) or an empty tag.
pub proof fn lemma_message_written_name(m: MessageView)
    ensures
        message_out(m).len() > 0,
        message_out(m)[0] matches XmlOutView::Start(n, _) ==> n == message_name(m),
        message_out(m)[0] matches XmlOutView::Empty(n, _) ==> n == message_name(m),
        message_out(m)[0] is Start || message_out(m)[0] is Empty,
{
}

/// All values of an attribute list are plain.
pub open spec fn plain_values(a: Seq<(Seq<char>, Seq<char>)>) -> bool {
    forall|i: int| 0 <= i < a.len() ==> plain(#[trigger] a[i].1)
}

/// The reader finds, for a key, the raw value written for the first attribute with
/// that key.
pub proof fn lemma_find_attr_echo(a: Seq<(Seq<char>, Seq<char>)>, key: Seq<char>)
    ensures
        find_attr(echo_attrs(a), encode_utf8(key)) == Ok::<Option<Seq<u8>>, Seq<char>>(
            match lookup(a, key) {
                Some(v) => Some(encode_utf8(xml_escape_text(v))),
                None => None,
            },
        ),
    decreases a.len(),
{
    if a.len() > 0 {
        lemma_encode_injective(a[0].0, key);
        assert(echo_attrs(a).drop_first() =~= echo_attrs(a.drop_first()));
        lemma_find_attr_echo(a.drop_first(), key);
    }
}

/// The reader gives, for an attribute of a written tag, the value written for it.
pub proof fn lemma_get_opt_attr_echo(n: Seq<char>, a: Seq<(Seq<char>, Seq<char>)>, key: &str)
    requires
        lookup(a, key@) matches Some(v) ==> plain(v),
    ensures
        spec_get_opt_attr(echo_tag(n, a), key) == Ok::<Option<Seq<char>>, Seq<char>>(lookup(a, key@)),
{
    lemma_find_attr_echo(a, key@);
    if let Some(v) = lookup(a, key@) {
        lemma_attr_text_plain(v);
    }
}

// ---------------------------------------------------------------------------
// Events
// ---------------------------------------------------------------------------

/// What is reported for two written sequences one after the other is what is
/// reported for the first, then for the second.
pub broadcast proof fn lemma_echo_concat(s: Seq<XmlOutView>, t: Seq<XmlOutView>)
    ensures
        #[trigger] echo(s + t) == echo(s) + echo(t),
    decreases s.len(),
{
    if s.len() == 0 {
        assert(s + t =~= t);
        assert(echo(s) =~= Seq::<XmlEventView>::empty());
    } else {
        let f = |e: XmlOutView| echo_event(e);
        assert((s + t).map_values(f).drop_first() =~= (s.drop_first() + t).map_values(f));
        assert(s.map_values(f).drop_first() =~= s.drop_first().map_values(f));
        assert((s + t).drop_first() =~= s.drop_first() + t);
        lemma_echo_concat(s.drop_first(), t);
        assert(echo(s + t) =~= echo(s) + echo(t));
    }
}

/// What is reported for one written event.
pub broadcast proof fn lemma_echo_single(e: XmlOutView)
    ensures
        #[trigger] echo(seq![e]) == echo_event(e),
{
    let f = |e: XmlOutView| echo_event(e);
    let m = seq![e].map_values(f);
    assert(m.len() == 1);
    assert(m.first() == echo_event(e));
    assert(m.drop_first() =~= Seq::<Seq<XmlEventView>>::empty());
    assert(m.drop_first().flatten() =~= Seq::<XmlEventView>::empty());
    assert(m.flatten() == m.first().add(m.drop_first().flatten()));
    assert(echo(seq![e]) =~= echo_event(e));
}

/// Text that neither begins nor ends with XML white space.
pub open spec fn clean_text(s: Seq<char>) -> bool {
    s.len() == 0 || (!is_xml_blank(s[0]) && !is_xml_blank(s.last()))
}

/// Text that neither begins nor ends with white space.
pub open spec fn trimmed(s: Seq<char>) -> bool {
    s.len() == 0 || (!is_white_space(s[0]) && !is_white_space(s.last()))
}

/// The text content read from what is reported for a written clean text followed by
/// an end tag is that text.
pub proof fn lemma_text_content_echo(v: Seq<char>, end: Seq<u8>, tail: Seq<XmlEventView>)
    requires
        clean_text(v),
    ensures
        spec_text_content(echo_event(XmlOutView::Text(v)) + seq![XmlEventView::End(end)] + tail, Seq::empty())
            == Ok::<(Seq<char>, Seq<XmlEventView>), Seq<char>>((v, tail)),
{
    lemma_trim_xml_clean(v);
    reveal_with_fuel(spec_text_content, 2);
    let ev = echo_event(XmlOutView::Text(v)) + seq![XmlEventView::End(end)] + tail;
    if v.len() == 0 {
        assert(ev[0] == XmlEventView::End(end));
        assert(ev.drop_first() =~= tail);
        assert(Seq::<char>::empty() =~= v);
    } else {
        assert(ev[0] == XmlEventView::Text(Ok(v)));
        let r = ev.drop_first();
        assert(r =~= seq![XmlEventView::End(end)] + tail);
        assert(r[0] == XmlEventView::End(end));
        assert(r.drop_first() =~= tail);
        assert(Seq::<char>::empty() + v =~= v);
    }
}

/// Trimmed text is clean, and white space trimming leaves it as it is.
pub proof fn lemma_trimmed(s: Seq<char>)
    requires
        trimmed(s),
    ensures
        clean_text(s),
        trim_text(s) == s,
{
}

// ---------------------------------------------------------------------------
// Elements
// ---------------------------------------------------------------------------

/// What is reported for an element written as a start tag, its text and its end tag.
pub proof fn lemma_echo_text_element(tag: Seq<char>, attrs: Seq<(Seq<char>, Seq<char>)>, text: Seq<char>)
    ensures
        echo(text_element(tag, attrs, text)) == seq![XmlEventView::Start(echo_tag(tag, attrs))]
            + echo_event(XmlOutView::Text(text)) + seq![XmlEventView::End(encode_utf8(tag))],
{
    broadcast use lemma_echo_concat, lemma_echo_single;

    let a = XmlOutView::Start(tag, attrs);
    let b = XmlOutView::Text(text);
    let c = XmlOutView::End(tag);
    assert(text_element(tag, attrs, text) =~= seq![a] + seq![b] + seq![c]);
}

/// The element `x` is read back, from what is reported for the events it is written
/// as, followed by any events `tail`: its first event is its tag, and reading the
/// element from that tag and the events after it gives `x` and leaves `tail`.
pub open spec fn reads_back<T: ProtocolItem + OutItem>(x: <T as View>::V, tail: Seq<XmlEventView>) -> bool {
    let ev = echo(T::spec_out(x));
    &&& ev.len() > 0
    &&& match ev[0] {
        XmlEventView::Start(t) => {
            &&& !T::spec_empty_tag()
            &&& t.name == T::spec_tag()
            &&& T::spec_item(t, ev.drop_first() + tail) == Ok::<(<T as View>::V, Seq<XmlEventView>), Seq<char>>((x, tail))
        },
        XmlEventView::Empty(t) => {
            &&& T::spec_empty_tag()
            &&& t.name == T::spec_tag()
            &&& T::spec_item(t, ev.drop_first() + tail) == Ok::<(<T as View>::V, Seq<XmlEventView>), Seq<char>>((x, tail))
        },
        _ => false,
    }
}

/// An element that the parser reads back as the serializer writes it.
pub trait ReadBack: ProtocolItem + OutItem {
    /// Whether the element can be written faithfully.
    spec fn writable(x: <Self as View>::V) -> bool;

    proof fn lemma_read_back(x: <Self as View>::V, tail: Seq<XmlEventView>)
        requires
            Self::writable(x),
        ensures
            reads_back::<Self>(x, tail),
    ;
}

impl ReadBack for DefText {
    open spec fn writable(x: DefTextView) -> bool {
        plain(x.0) && plain(x.1) && clean_text(x.2)
    }

    proof fn lemma_read_back(x: DefTextView, tail: Seq<XmlEventView>) {
        broadcast use lemma_lookup_concat, lemma_lookup_single, lemma_lookup_empty;

        reveal_strlit("name");
        reveal_strlit("label");
        let tag = "defText"@;
        let attrs = seq![("name"@, x.0)] + nonempty_attr("label"@, x.1);
        lemma_echo_text_element(tag, attrs, x.2);
        let ev = echo(DefText::spec_out(x));
        let t = echo_tag(tag, attrs);
        lemma_get_opt_attr_echo(tag, attrs, "name");
        lemma_get_opt_attr_echo(tag, attrs, "label");
        lemma_text_content_echo(x.2, encode_utf8(tag), tail);
        assert(ev.drop_first() + tail =~= echo_event(XmlOutView::Text(x.2)) + seq![XmlEventView::End(encode_utf8(tag))] + tail);
        assert(ev[0] == XmlEventView::Start(t));
        assert(t.name == DefText::spec_tag());
        assert(lookup(attrs, "name"@) == Some(x.0));
        assert(or_empty(lookup(attrs, "label"@)) == x.1);
        assert(lookup(attrs, "name"@) == Some(x.0));
        assert(or_empty(lookup(attrs, "label"@)) == x.1);
        assert(spec_name_label(t) == Ok::<(Seq<char>, Seq<char>), Seq<char>>((x.0, x.1)));
        assert(DefText::spec_item(t, ev.drop_first() + tail) == Ok::<(DefTextView, Seq<XmlEventView>), Seq<char>>((x, tail)));
    }
}

// ---------------------------------------------------------------------------
// Names
// ---------------------------------------------------------------------------

/// A short text is plain when each of its characters is.
proof fn lemma_plain_short(s: Seq<char>)
    requires
        s.len() <= 9,
        s.len() > 0 ==> !is_markup(s[0]),
        s.len() > 1 ==> !is_markup(s[1]),
        s.len() > 2 ==> !is_markup(s[2]),
        s.len() > 3 ==> !is_markup(s[3]),
        s.len() > 4 ==> !is_markup(s[4]),
        s.len() > 5 ==> !is_markup(s[5]),
        s.len() > 6 ==> !is_markup(s[6]),
        s.len() > 7 ==> !is_markup(s[7]),
        s.len() > 8 ==> !is_markup(s[8]),
    ensures
        plain(s),
{
    assert forall|i: int| 0 <= i < s.len() implies !is_markup(#[trigger] s[i]) by {
        if i == 0 {} else if i == 1 {} else if i == 2 {} else if i == 3 {} else if i == 4 {} else if i == 5 {} else if i == 6 {} else if i == 7 {} else {}
    }
}

/// The protocol names of the enumerations are plain, trimmed words.
pub open spec fn plain_word(s: Seq<char>) -> bool {
    plain(s) && trimmed(s) && clean_text(s) && s.len() > 0
}

pub proof fn lemma_state_word(x: PropertyState)
    ensures
        plain_word(x.spec_as_str()@),
        PropertyState::spec_parse(x.spec_as_str()@) == Some(x),
{
    reveal_strlit("Idle");
    reveal_strlit("Ok");
    reveal_strlit("Busy");
    reveal_strlit("Alert");
    lemma_state_name_parses_back(x);
    lemma_plain_short(x.spec_as_str()@);
}

pub proof fn lemma_perm_word(x: PropertyPerm)
    ensures
        plain_word(x.spec_as_str()@),
        PropertyPerm::spec_parse(x.spec_as_str()@) == Some(x),
{
    reveal_strlit("ro");
    reveal_strlit("wo");
    reveal_strlit("rw");
    lemma_perm_name_parses_back(x);
    lemma_plain_short(x.spec_as_str()@);
}

pub proof fn lemma_switch_state_word(x: SwitchState)
    ensures
        plain_word(x.spec_as_str()@),
        SwitchState::spec_parse(x.spec_as_str()@) == Some(x),
{
    reveal_strlit("Off");
    reveal_strlit("On");
    lemma_switch_state_name_parses_back(x);
    lemma_plain_short(x.spec_as_str()@);
}

pub proof fn lemma_switch_rule_word(x: SwitchRule)
    ensures
        plain_word(x.spec_as_str()@),
        SwitchRule::spec_parse(x.spec_as_str()@) == Some(x),
{
    reveal_strlit("OneOfMany");
    reveal_strlit("AtMostOne");
    reveal_strlit("AnyOfMany");
    lemma_switch_rule_name_parses_back(x);
    lemma_plain_short(x.spec_as_str()@);
}

pub proof fn lemma_blob_enable_word(x: BLOBEnable)
    ensures
        plain_word(x.spec_as_str()@),
        BLOBEnable::spec_parse(x.spec_as_str()@) == Some(x),
{
    reveal_strlit("Never");
    reveal_strlit("Also");
    reveal_strlit("Only");
    lemma_blob_enable_name_parses_back(x);
    lemma_plain_short(x.spec_as_str()@);
}

/// The text content of what is reported for a written number text followed by an
/// end tag is that number.
pub proof fn lemma_number_content_echo(v: Seq<char>, end: Seq<u8>, tail: Seq<XmlEventView>)
    requires
        trimmed(v),
        spec_check_float(v) is None,
    ensures
        spec_number_content(echo_event(XmlOutView::Text(v)) + seq![XmlEventView::End(end)] + tail)
            == Ok::<(Seq<char>, Seq<XmlEventView>), Seq<char>>((v, tail)),
{
    lemma_trimmed(v);
    lemma_text_content_echo(v, end, tail);
}

/// The trimmed text content of what is reported for a written word followed by an
/// end tag is that word.
pub proof fn lemma_word_content_echo(v: Seq<char>, end: Seq<u8>, tail: Seq<XmlEventView>)
    requires
        plain_word(v),
    ensures
        spec_trimmed_content(echo_event(XmlOutView::Text(v)) + seq![XmlEventView::End(end)] + tail)
            == Ok::<(Seq<char>, Seq<XmlEventView>), Seq<char>>((v, tail)),
{
    lemma_trimmed(v);
    lemma_text_content_echo(v, end, tail);
}

/// Decimal numerals are plain.
pub proof fn lemma_decimal_plain(n: nat)
    ensures
        plain(decimal_text(n)),
{
    lemma_decimal_text(n);
    let s = decimal_text(n);
    assert forall|i: int| 0 <= i < s.len() implies !is_markup(#[trigger] s[i]) by {
        assert(is_digit_char(s[i]));
    }
}

impl ReadBack for DefNumber {
    open spec fn writable(x: DefNumberView) -> bool {
        &&& plain(x.0) && plain(x.1) && plain(x.2)
        &&& plain(x.3) && spec_check_float(x.3) is None
        &&& plain(x.4) && spec_check_float(x.4) is None
        &&& plain(x.5) && spec_check_float(x.5) is None
        &&& trimmed(x.6) && spec_check_float(x.6) is None
    }

    #[verifier::rlimit(40)]
    proof fn lemma_read_back(x: DefNumberView, tail: Seq<XmlEventView>) {
        broadcast use lemma_lookup_concat, lemma_lookup_single, lemma_lookup_empty;

        reveal_strlit("name");
        reveal_strlit("label");
        reveal_strlit("format");
        reveal_strlit("min");
        reveal_strlit("max");
        reveal_strlit("step");
        assert("name"@[0] != "step"@[0]);
        assert("min"@[1] != "max"@[1]);
        let tag = "defNumber"@;
        let attrs = seq![("name"@, x.0)] + nonempty_attr("label"@, x.1) + seq![("format"@, x.2)] + seq![("min"@, x.3)]
            + seq![("max"@, x.4)] + seq![("step"@, x.5)];
        lemma_echo_text_element(tag, attrs, x.6);
        let ev = echo(DefNumber::spec_out(x));
        let t = echo_tag(tag, attrs);
        lemma_get_opt_attr_echo(tag, attrs, "name");
        lemma_get_opt_attr_echo(tag, attrs, "label");
        lemma_get_opt_attr_echo(tag, attrs, "format");
        lemma_get_opt_attr_echo(tag, attrs, "min");
        lemma_get_opt_attr_echo(tag, attrs, "max");
        lemma_get_opt_attr_echo(tag, attrs, "step");
        assert(lookup(attrs, "format"@) == Some(x.2));
        assert(lookup(attrs, "min"@) == Some(x.3));
        assert(lookup(attrs, "max"@) == Some(x.4));
        assert(lookup(attrs, "step"@) == Some(x.5));
        lemma_number_content_echo(x.6, encode_utf8(tag), tail);
        assert(ev.drop_first() + tail =~= echo_event(XmlOutView::Text(x.6)) + seq![XmlEventView::End(encode_utf8(tag))] + tail);
        assert(ev[0] == XmlEventView::Start(t));
        assert(lookup(attrs, "name"@) == Some(x.0));
        assert(or_empty(lookup(attrs, "label"@)) == x.1);
        assert(spec_name_label(t) == Ok::<(Seq<char>, Seq<char>), Seq<char>>((x.0, x.1)));
        assert(DefNumber::spec_item(t, ev.drop_first() + tail) == Ok::<(DefNumberView, Seq<XmlEventView>), Seq<char>>((x, tail)));
    }
}

impl ReadBack for DefSwitch {
    open spec fn writable(x: DefSwitchView) -> bool {
        plain(x.0) && plain(x.1)
    }

    proof fn lemma_read_back(x: DefSwitchView, tail: Seq<XmlEventView>) {
        broadcast use lemma_lookup_concat, lemma_lookup_single, lemma_lookup_empty;

        reveal_strlit("name");
        reveal_strlit("label");
        let tag = "defSwitch"@;
        let attrs = seq![("name"@, x.0)] + nonempty_attr("label"@, x.1);
        let v = x.2.spec_as_str()@;
        lemma_switch_state_word(x.2);
        lemma_echo_text_element(tag, attrs, v);
        let ev = echo(DefSwitch::spec_out(x));
        let t = echo_tag(tag, attrs);
        lemma_get_opt_attr_echo(tag, attrs, "name");
        lemma_get_opt_attr_echo(tag, attrs, "label");
        lemma_word_content_echo(v, encode_utf8(tag), tail);
        assert(ev.drop_first() + tail =~= echo_event(XmlOutView::Text(v)) + seq![XmlEventView::End(encode_utf8(tag))] + tail);
        assert(ev[0] == XmlEventView::Start(t));
        assert(lookup(attrs, "name"@) == Some(x.0));
        assert(or_empty(lookup(attrs, "label"@)) == x.1);
        assert(spec_name_label(t) == Ok::<(Seq<char>, Seq<char>), Seq<char>>((x.0, x.1)));
        assert(DefSwitch::spec_item(t, ev.drop_first() + tail) == Ok::<(DefSwitchView, Seq<XmlEventView>), Seq<char>>((x, tail)));
    }
}

impl ReadBack for DefLight {
    open spec fn writable(x: DefLightView) -> bool {
        plain(x.0) && plain(x.1)
    }

    proof fn lemma_read_back(x: DefLightView, tail: Seq<XmlEventView>) {
        broadcast use lemma_lookup_concat, lemma_lookup_single, lemma_lookup_empty;

        reveal_strlit("name");
        reveal_strlit("label");
        let tag = "defLight"@;
        let attrs = seq![("name"@, x.0)] + nonempty_attr("label"@, x.1);
        let v = x.2.spec_as_str()@;
        lemma_state_word(x.2);
        lemma_echo_text_element(tag, attrs, v);
        let ev = echo(DefLight::spec_out(x));
        let t = echo_tag(tag, attrs);
        lemma_get_opt_attr_echo(tag, attrs, "name");
        lemma_get_opt_attr_echo(tag, attrs, "label");
        lemma_word_content_echo(v, encode_utf8(tag), tail);
        assert(ev.drop_first() + tail =~= echo_event(XmlOutView::Text(v)) + seq![XmlEventView::End(encode_utf8(tag))] + tail);
        assert(ev[0] == XmlEventView::Start(t));
        assert(lookup(attrs, "name"@) == Some(x.0));
        assert(or_empty(lookup(attrs, "label"@)) == x.1);
        assert(spec_name_label(t) == Ok::<(Seq<char>, Seq<char>), Seq<char>>((x.0, x.1)));
        assert(DefLight::spec_item(t, ev.drop_first() + tail) == Ok::<(DefLightView, Seq<XmlEventView>), Seq<char>>((x, tail)));
    }
}

impl ReadBack for DefBLOB {
    open spec fn writable(x: DefBLOBView) -> bool {
        plain(x.0) && plain(x.1)
    }

    proof fn lemma_read_back(x: DefBLOBView, tail: Seq<XmlEventView>) {
        broadcast use lemma_lookup_concat, lemma_lookup_single, lemma_lookup_empty, lemma_echo_single;

        reveal_strlit("name");
        reveal_strlit("label");
        let tag = "defBLOB"@;
        let attrs = seq![("name"@, x.0)] + nonempty_attr("label"@, x.1);
        let ev = echo(DefBLOB::spec_out(x));
        let t = echo_tag(tag, attrs);
        assert(ev == seq![XmlEventView::Empty(t)]);
        lemma_get_opt_attr_echo(tag, attrs, "name");
        lemma_get_opt_attr_echo(tag, attrs, "label");
        assert(ev.drop_first() + tail =~= tail);
        assert(lookup(attrs, "name"@) == Some(x.0));
        assert(or_empty(lookup(attrs, "label"@)) == x.1);
        assert(spec_name_label(t) == Ok::<(Seq<char>, Seq<char>), Seq<char>>((x.0, x.1)));
    }
}

impl ReadBack for OneText {
    open spec fn writable(x: OneTextView) -> bool {
        plain(x.0) && clean_text(x.1)
    }

    proof fn lemma_read_back(x: OneTextView, tail: Seq<XmlEventView>) {
        broadcast use lemma_lookup_concat, lemma_lookup_single, lemma_lookup_empty;

        let tag = "oneText"@;
        let attrs = seq![("name"@, x.0)];
        lemma_echo_text_element(tag, attrs, x.1);
        let ev = echo(OneText::spec_out(x));
        let t = echo_tag(tag, attrs);
        lemma_get_opt_attr_echo(tag, attrs, "name");
        lemma_text_content_echo(x.1, encode_utf8(tag), tail);
        assert(ev.drop_first() + tail =~= echo_event(XmlOutView::Text(x.1)) + seq![XmlEventView::End(encode_utf8(tag))] + tail);
        assert(ev[0] == XmlEventView::Start(t));
    }
}

impl ReadBack for OneNumber {
    open spec fn writable(x: OneTextView) -> bool {
        plain(x.0) && trimmed(x.1) && spec_check_float(x.1) is None
    }

    proof fn lemma_read_back(x: OneTextView, tail: Seq<XmlEventView>) {
        broadcast use lemma_lookup_concat, lemma_lookup_single, lemma_lookup_empty;

        let tag = "oneNumber"@;
        let attrs = seq![("name"@, x.0)];
        lemma_echo_text_element(tag, attrs, x.1);
        let ev = echo(OneNumber::spec_out(x));
        let t = echo_tag(tag, attrs);
        lemma_get_opt_attr_echo(tag, attrs, "name");
        lemma_number_content_echo(x.1, encode_utf8(tag), tail);
        assert(ev.drop_first() + tail =~= echo_event(XmlOutView::Text(x.1)) + seq![XmlEventView::End(encode_utf8(tag))] + tail);
        assert(ev[0] == XmlEventView::Start(t));
    }
}

impl ReadBack for OneSwitch {
    open spec fn writable(x: OneSwitchView) -> bool {
        plain(x.0)
    }

    proof fn lemma_read_back(x: OneSwitchView, tail: Seq<XmlEventView>) {
        broadcast use lemma_lookup_concat, lemma_lookup_single, lemma_lookup_empty;

        let tag = "oneSwitch"@;
        let attrs = seq![("name"@, x.0)];
        let v = x.1.spec_as_str()@;
        lemma_switch_state_word(x.1);
        lemma_echo_text_element(tag, attrs, v);
        let ev = echo(OneSwitch::spec_out(x));
        let t = echo_tag(tag, attrs);
        lemma_get_opt_attr_echo(tag, attrs, "name");
        lemma_word_content_echo(v, encode_utf8(tag), tail);
        assert(ev.drop_first() + tail =~= echo_event(XmlOutView::Text(v)) + seq![XmlEventView::End(encode_utf8(tag))] + tail);
        assert(ev[0] == XmlEventView::Start(t));
    }
}

impl ReadBack for OneLight {
    open spec fn writable(x: OneLightView) -> bool {
        plain(x.0)
    }

    proof fn lemma_read_back(x: OneLightView, tail: Seq<XmlEventView>) {
        broadcast use lemma_lookup_concat, lemma_lookup_single, lemma_lookup_empty;

        let tag = "oneLight"@;
        let attrs = seq![("name"@, x.0)];
        let v = x.1.spec_as_str()@;
        lemma_state_word(x.1);
        lemma_echo_text_element(tag, attrs, v);
        let ev = echo(OneLight::spec_out(x));
        let t = echo_tag(tag, attrs);
        lemma_get_opt_attr_echo(tag, attrs, "name");
        lemma_word_content_echo(v, encode_utf8(tag), tail);
        assert(ev.drop_first() + tail =~= echo_event(XmlOutView::Text(v)) + seq![XmlEventView::End(encode_utf8(tag))] + tail);
        assert(ev[0] == XmlEventView::Start(t));
    }
}

impl ReadBack for OneBLOB {
    open spec fn writable(x: OneBLOBView) -> bool {
        plain(x.0) && plain(x.2) && clean_text(x.3)
    }

    proof fn lemma_read_back(x: OneBLOBView, tail: Seq<XmlEventView>) {
        broadcast use lemma_lookup_concat, lemma_lookup_single, lemma_lookup_empty;

        reveal_strlit("name");
        reveal_strlit("size");
        reveal_strlit("format");
        assert("name"@[0] != "size"@[0]);
        let tag = "oneBLOB"@;
        let size = decimal_text(x.1 as nat);
        let attrs = seq![("name"@, x.0)] + seq![("size"@, size)] + seq![("format"@, x.2)];
        lemma_decimal_plain(x.1 as nat);
        lemma_parse_decimal_text(x.1);
        lemma_echo_text_element(tag, attrs, x.3);
        let ev = echo(OneBLOB::spec_out(x));
        let t = echo_tag(tag, attrs);
        lemma_get_opt_attr_echo(tag, attrs, "name");
        lemma_get_opt_attr_echo(tag, attrs, "size");
        lemma_get_opt_attr_echo(tag, attrs, "format");
        lemma_text_content_echo(x.3, encode_utf8(tag), tail);
        assert(ev.drop_first() + tail =~= echo_event(XmlOutView::Text(x.3)) + seq![XmlEventView::End(encode_utf8(tag))] + tail);
        assert(ev[0] == XmlEventView::Start(t));
        assert(OneBLOB::spec_item(t, ev.drop_first() + tail) == Ok::<(OneBLOBView, Seq<XmlEventView>), Seq<char>>((x, tail)));
    }
}

// ---------------------------------------------------------------------------
// Vectors
// ---------------------------------------------------------------------------

/// Each element of the sequence can be written faithfully.
pub open spec fn all_writable<T: ReadBack>(items: Seq<<T as View>::V>) -> bool {
    forall|i: int| 0 <= i < items.len() ==> T::writable(#[trigger] items[i])
}

/// The events of the elements of a sequence are those of its first element, then
/// those of the others.
proof fn lemma_flat_map_first<A, B>(s: Seq<A>, f: spec_fn(A) -> Seq<B>)
    requires
        s.len() > 0,
    ensures
        s.flat_map(f) == f(s[0]) + s.drop_first().flat_map(f),
{
    let m = s.map_values(f);
    assert(m.drop_first() =~= s.drop_first().map_values(f));
    assert(m.flatten() == m.first().add(m.drop_first().flatten()));
}

/// The elements are read back, one after the other, up to the end tag of their
/// vector.
pub proof fn lemma_items_read_back<T: ReadBack>(
    items: Seq<<T as View>::V>,
    end: Seq<u8>,
    acc: Seq<<T as View>::V>,
    tail: Seq<XmlEventView>,
)
    requires
        all_writable::<T>(items),
    ensures
        spec_items::<T>(
            echo(items.flat_map(|x: <T as View>::V| T::spec_out(x))) + seq![XmlEventView::End(end)] + tail,
            end,
            acc,
        ) == Ok::<(Seq<<T as View>::V>, Seq<XmlEventView>), Seq<char>>((acc + items, tail)),
    decreases items.len(),
{
    broadcast use lemma_echo_concat;

    let f = |x: <T as View>::V| T::spec_out(x);
    if items.len() == 0 {
        assert(items.flat_map(f) =~= Seq::<XmlOutView>::empty()) by {
            assert(items.map_values(f) =~= Seq::<Seq<XmlOutView>>::empty());
        }
        assert(echo(Seq::<XmlOutView>::empty()) =~= Seq::<XmlEventView>::empty()) by {
            assert(Seq::<XmlOutView>::empty().map_values(|e: XmlOutView| echo_event(e)) =~= Seq::<Seq<XmlEventView>>::empty());
        }
        let ev = echo(items.flat_map(f)) + seq![XmlEventView::End(end)] + tail;
        assert(ev[0] == XmlEventView::End(end));
        assert(ev.drop_first() =~= tail);
        assert(acc + items =~= acc);
    } else {
        let x = items[0];
        let rest = items.drop_first();
        lemma_flat_map_first(items, f);
        let e = echo(rest.flat_map(f)) + seq![XmlEventView::End(end)] + tail;
        T::lemma_read_back(x, e);
        let ex = echo(T::spec_out(x));
        let ev = echo(items.flat_map(f)) + seq![XmlEventView::End(end)] + tail;
        assert(ev =~= ex + e);
        assert(ev[0] == ex[0]);
        assert(ev.drop_first() =~= ex.drop_first() + e);
        assert forall|i: int| 0 <= i < rest.len() implies T::writable(#[trigger] rest[i]) by {
            assert(rest[i] == items[i + 1]);
        }
        lemma_items_read_back::<T>(rest, end, acc.push(x), tail);
        assert(acc.push(x) + rest =~= acc + items);
    }
}

/// What is reported for a written vector: its start tag, the events of its elements,
/// and its end tag.
pub proof fn lemma_echo_vector(tag: Seq<char>, attrs: Seq<(Seq<char>, Seq<char>)>, elements: Seq<XmlOutView>)
    ensures
        echo(vector_out(tag, attrs, elements)) == seq![XmlEventView::Start(echo_tag(tag, attrs))] + echo(elements)
            + seq![XmlEventView::End(encode_utf8(tag))],
{
    broadcast use lemma_echo_concat, lemma_echo_single;

}

// ---------------------------------------------------------------------------
// Vector attributes
// ---------------------------------------------------------------------------

/// An optional text that is plain when present.
pub open spec fn opt_plain(o: Option<Seq<char>>) -> bool {
    match o {
        Some(v) => plain(v),
        None => true,
    }
}

/// An optional timeout that is a plain number when present.
pub open spec fn writable_timeout(o: Option<Seq<char>>) -> bool {
    match o {
        Some(v) => plain(v) && spec_check_float(v) is None,
        None => true,
    }
}

pub open spec fn writable_vector_attrs(a: VectorAttributesView) -> bool {
    &&& plain(a.device) && plain(a.name) && plain(a.label) && plain(a.group)
    &&& writable_timeout(a.timeout) && opt_plain(a.timestamp) && opt_plain(a.message)
}

pub open spec fn writable_set_vector_attrs(a: SetVectorAttributesView) -> bool {
    &&& plain(a.device) && plain(a.name)
    &&& writable_timeout(a.timeout) && opt_plain(a.timestamp) && opt_plain(a.message)
}

pub open spec fn writable_new_vector_attrs(a: NewVectorAttributesView) -> bool {
    plain(a.device) && plain(a.name) && opt_plain(a.timestamp)
}

/// The names of the attributes of vectors are told apart by their first character
/// or their length.
proof fn lemma_attribute_keys()
    ensures
        "device"@.len() == 6 && "name"@.len() == 4 && "label"@.len() == 5 && "group"@.len() == 5,
        "state"@.len() == 5 && "timeout"@.len() == 7 && "timestamp"@.len() == 9,
        "message"@.len() == 7 && "perm"@.len() == 4 && "rule"@.len() == 4,
        "name"@[0] == 'n' && "perm"@[0] == 'p' && "rule"@[0] == 'r',
        "label"@[0] == 'l' && "group"@[0] == 'g' && "state"@[0] == 's',
        "timeout"@[0] == 't' && "message"@[0] == 'm',
{
    reveal_strlit("device");
    reveal_strlit("name");
    reveal_strlit("label");
    reveal_strlit("group");
    reveal_strlit("state");
    reveal_strlit("timeout");
    reveal_strlit("timestamp");
    reveal_strlit("message");
    reveal_strlit("perm");
    reveal_strlit("rule");
}

/// The attributes of a definition vector, followed by its permission (and rule),
/// are read back.
#[verifier::rlimit(40)]
pub proof fn lemma_vector_attrs_read_back(tag: Seq<char>, a: VectorAttributesView, extra: Seq<(Seq<char>, Seq<char>)>)
    requires
        writable_vector_attrs(a),
        extra.len() <= 2,
        extra.len() > 0 ==> extra[0].0 == "perm"@,
        extra.len() > 1 ==> extra[1].0 == "rule"@,
    ensures
        spec_vector_attrs(echo_tag(tag, vector_attrs_out(a) + extra)) == Ok::<VectorAttributesView, Seq<char>>(a),
{
    broadcast use lemma_lookup_concat, lemma_lookup_single, lemma_lookup_empty;

    lemma_attribute_keys();
    lemma_state_word(a.state);
    let attrs = vector_attrs_out(a) + extra;
    if extra.len() == 2 {
        assert(extra =~= seq![("perm"@, extra[0].1)] + seq![("rule"@, extra[1].1)]);
    } else if extra.len() == 1 {
        assert(extra =~= seq![("perm"@, extra[0].1)]);
    } else {
        assert(extra =~= Seq::<(Seq<char>, Seq<char>)>::empty());
    }
    assert(lookup(extra, "label"@) is None && lookup(extra, "group"@) is None);
    assert(lookup(extra, "timeout"@) is None && lookup(extra, "timestamp"@) is None);
    assert(lookup(extra, "message"@) is None);
    assert(lookup(attrs, "device"@) == Some(a.device));
    assert(lookup(attrs, "name"@) == Some(a.name));
    assert(or_empty(lookup(attrs, "label"@)) == a.label);
    assert(or_empty(lookup(attrs, "group"@)) == a.group);
    assert(lookup(attrs, "state"@) == Some(a.state.spec_as_str()@));
    assert(lookup(attrs, "timeout"@) == a.timeout);
    assert(lookup(attrs, "timestamp"@) == a.timestamp);
    assert(lookup(attrs, "message"@) == a.message);
    lemma_get_opt_attr_echo(tag, attrs, "device");
    lemma_get_opt_attr_echo(tag, attrs, "name");
    lemma_get_opt_attr_echo(tag, attrs, "label");
    lemma_get_opt_attr_echo(tag, attrs, "group");
    lemma_get_opt_attr_echo(tag, attrs, "state");
    lemma_get_opt_attr_echo(tag, attrs, "timeout");
    lemma_get_opt_attr_echo(tag, attrs, "timestamp");
    lemma_get_opt_attr_echo(tag, attrs, "message");
}

/// The attributes of a set vector are read back.
#[verifier::rlimit(40)]
pub proof fn lemma_set_vector_attrs_read_back(tag: Seq<char>, a: SetVectorAttributesView)
    requires
        writable_set_vector_attrs(a),
    ensures
        spec_set_vector_attrs(echo_tag(tag, set_vector_attrs_out(a))) == Ok::<SetVectorAttributesView, Seq<char>>(a),
{
    broadcast use lemma_lookup_concat, lemma_lookup_single, lemma_lookup_empty;

    lemma_attribute_keys();
    let attrs = set_vector_attrs_out(a);
    let st = match a.state {
        Some(x) => Some(x.spec_as_str()@),
        None => None,
    };
    if let Some(x) = a.state {
        lemma_state_word(x);
    }
    assert(lookup(attrs, "device"@) == Some(a.device));
    assert(lookup(attrs, "name"@) == Some(a.name));
    assert(lookup(attrs, "state"@) == st);
    assert(lookup(attrs, "timeout"@) == a.timeout);
    assert(lookup(attrs, "timestamp"@) == a.timestamp);
    assert(lookup(attrs, "message"@) == a.message);
    lemma_get_opt_attr_echo(tag, attrs, "device");
    lemma_get_opt_attr_echo(tag, attrs, "name");
    lemma_get_opt_attr_echo(tag, attrs, "state");
    lemma_get_opt_attr_echo(tag, attrs, "timeout");
    lemma_get_opt_attr_echo(tag, attrs, "timestamp");
    lemma_get_opt_attr_echo(tag, attrs, "message");
}

/// The attributes of a new vector are read back.
pub proof fn lemma_new_vector_attrs_read_back(tag: Seq<char>, a: NewVectorAttributesView)
    requires
        writable_new_vector_attrs(a),
    ensures
        spec_new_vector_attrs(echo_tag(tag, new_vector_attrs_out(a))) == Ok::<NewVectorAttributesView, Seq<char>>(a),
{
    broadcast use lemma_lookup_concat, lemma_lookup_single, lemma_lookup_empty;

    lemma_attribute_keys();
    let attrs = new_vector_attrs_out(a);
    assert(lookup(attrs, "device"@) == Some(a.device));
    assert(lookup(attrs, "name"@) == Some(a.name));
    assert(lookup(attrs, "timestamp"@) == a.timestamp);
    lemma_get_opt_attr_echo(tag, attrs, "device");
    lemma_get_opt_attr_echo(tag, attrs, "name");
    lemma_get_opt_attr_echo(tag, attrs, "timestamp");
}

// ---------------------------------------------------------------------------
// Messages
// ---------------------------------------------------------------------------

/// The names of the message elements are told apart by their length, first or
/// fourth character.
proof fn lemma_message_names()
    ensures
        "defTextVector"@.len() == 13 && "defTextVector"@[0] == 'd' && "defTextVector"@[3] == 'T',
        "defNumberVector"@.len() == 15 && "defNumberVector"@[0] == 'd' && "defNumberVector"@[3] == 'N',
        "defSwitchVector"@.len() == 15 && "defSwitchVector"@[0] == 'd' && "defSwitchVector"@[3] == 'S',
        "defLightVector"@.len() == 14 && "defLightVector"@[0] == 'd' && "defLightVector"@[3] == 'L',
        "defBLOBVector"@.len() == 13 && "defBLOBVector"@[0] == 'd' && "defBLOBVector"@[3] == 'B',
        "setTextVector"@.len() == 13 && "setTextVector"@[0] == 's' && "setTextVector"@[3] == 'T',
        "setNumberVector"@.len() == 15 && "setNumberVector"@[0] == 's' && "setNumberVector"@[3] == 'N',
        "setSwitchVector"@.len() == 15 && "setSwitchVector"@[0] == 's' && "setSwitchVector"@[3] == 'S',
        "setLightVector"@.len() == 14 && "setLightVector"@[0] == 's' && "setLightVector"@[3] == 'L',
        "setBLOBVector"@.len() == 13 && "setBLOBVector"@[0] == 's' && "setBLOBVector"@[3] == 'B',
        "newTextVector"@.len() == 13 && "newTextVector"@[0] == 'n' && "newTextVector"@[3] == 'T',
        "newNumberVector"@.len() == 15 && "newNumberVector"@[0] == 'n' && "newNumberVector"@[3] == 'N',
        "newSwitchVector"@.len() == 15 && "newSwitchVector"@[0] == 'n' && "newSwitchVector"@[3] == 'S',
        "newBLOBVector"@.len() == 13 && "newBLOBVector"@[0] == 'n' && "newBLOBVector"@[3] == 'B',
        "getProperties"@.len() == 13 && "getProperties"@[0] == 'g' && "getProperties"@[3] == 'P',
        "enableBLOB"@.len() == 10 && "enableBLOB"@[0] == 'e' && "enableBLOB"@[3] == 'b',
        "message"@.len() == 7 && "message"@[0] == 'm' && "message"@[3] == 's',
        "delProperty"@.len() == 11 && "delProperty"@[0] == 'd' && "delProperty"@[3] == 'P',
{
    reveal_strlit("defTextVector");
    reveal_strlit("defNumberVector");
    reveal_strlit("defSwitchVector");
    reveal_strlit("defLightVector");
    reveal_strlit("defBLOBVector");
    reveal_strlit("setTextVector");
    reveal_strlit("setNumberVector");
    reveal_strlit("setSwitchVector");
    reveal_strlit("setLightVector");
    reveal_strlit("setBLOBVector");
    reveal_strlit("newTextVector");
    reveal_strlit("newNumberVector");
    reveal_strlit("newSwitchVector");
    reveal_strlit("newBLOBVector");
    reveal_strlit("getProperties");
    reveal_strlit("enableBLOB");
    reveal_strlit("message");
    reveal_strlit("delProperty");
}

/// What is reported for a written vector starts with its start tag, and its
/// elements are read back from the events after it.
proof fn lemma_vector_events<T: ReadBack>(
    tag: Seq<char>,
    attrs: Seq<(Seq<char>, Seq<char>)>,
    items: Seq<<T as View>::V>,
    tail: Seq<XmlEventView>,
)
    requires
        all_writable::<T>(items),
    ensures
        ({
            let ev = echo(vector_out(tag, attrs, items.flat_map(|x: <T as View>::V| T::spec_out(x)))) + tail;
            &&& ev.len() > 0
            &&& ev[0] == XmlEventView::Start(echo_tag(tag, attrs))
            &&& spec_items::<T>(ev.drop_first(), encode_utf8(tag), Seq::empty())
                == Ok::<(Seq<<T as View>::V>, Seq<XmlEventView>), Seq<char>>((items, tail))
        }),
{
    let f = |x: <T as View>::V| T::spec_out(x);
    lemma_echo_vector(tag, attrs, items.flat_map(f));
    let ev = echo(vector_out(tag, attrs, items.flat_map(f))) + tail;
    assert(ev.drop_first() =~= echo(items.flat_map(f)) + seq![XmlEventView::End(encode_utf8(tag))] + tail);
    lemma_items_read_back::<T>(items, encode_utf8(tag), Seq::empty(), tail);
    assert(Seq::<<T as View>::V>::empty() + items =~= items);
}

/// Every message element name reads back as itself.
proof fn lemma_tag_name(tag: Seq<char>)
    ensures
        attr_text(encode_utf8(tag)) == Ok::<Seq<char>, Seq<char>>(tag),
{
}

/// The perm attribute of a definition vector is read back.
proof fn lemma_perm_read_back(tag: Seq<char>, a: VectorAttributesView, p: PropertyPerm)
    requires
        writable_vector_attrs(a),
    ensures
        spec_vector_attrs(echo_tag(tag, vector_attrs_out(a) + seq![("perm"@, p.spec_as_str()@)]))
            == Ok::<VectorAttributesView, Seq<char>>(a),
        spec_perm(echo_tag(tag, vector_attrs_out(a) + seq![("perm"@, p.spec_as_str()@)]))
            == Ok::<PropertyPerm, Seq<char>>(p),
{
    broadcast use lemma_lookup_concat, lemma_lookup_single, lemma_lookup_empty;

    lemma_attribute_keys();
    lemma_perm_word(p);
    let extra = seq![("perm"@, p.spec_as_str()@)];
    let attrs = vector_attrs_out(a) + extra;
    lemma_vector_attrs_read_back(tag, a, extra);
    assert(lookup(attrs, "perm"@) == Some(p.spec_as_str()@));
    lemma_get_opt_attr_echo(tag, attrs, "perm");
}

/// The perm and rule attributes of a switch definition vector are read back.
proof fn lemma_perm_rule_read_back(tag: Seq<char>, a: VectorAttributesView, p: PropertyPerm, r: SwitchRule)
    requires
        writable_vector_attrs(a),
    ensures
        spec_vector_attrs(echo_tag(tag, vector_attrs_out(a) + seq![("perm"@, p.spec_as_str()@)] + seq![("rule"@, r.spec_as_str()@)]))
            == Ok::<VectorAttributesView, Seq<char>>(a),
        spec_perm(echo_tag(tag, vector_attrs_out(a) + seq![("perm"@, p.spec_as_str()@)] + seq![("rule"@, r.spec_as_str()@)]))
            == Ok::<PropertyPerm, Seq<char>>(p),
        spec_rule(echo_tag(tag, vector_attrs_out(a) + seq![("perm"@, p.spec_as_str()@)] + seq![("rule"@, r.spec_as_str()@)]))
            == Ok::<SwitchRule, Seq<char>>(r),
{
    broadcast use lemma_lookup_concat, lemma_lookup_single, lemma_lookup_empty;

    lemma_attribute_keys();
    lemma_perm_word(p);
    lemma_switch_rule_word(r);
    let extra = seq![("perm"@, p.spec_as_str()@)] + seq![("rule"@, r.spec_as_str()@)];
    let attrs = vector_attrs_out(a) + extra;
    assert(vector_attrs_out(a) + seq![("perm"@, p.spec_as_str()@)] + seq![("rule"@, r.spec_as_str()@)] =~= attrs);
    lemma_vector_attrs_read_back(tag, a, extra);
    assert(lookup(attrs, "perm"@) == Some(p.spec_as_str()@));
    assert(lookup(attrs, "rule"@) == Some(r.spec_as_str()@));
    lemma_get_opt_attr_echo(tag, attrs, "perm");
    lemma_get_opt_attr_echo(tag, attrs, "rule");
}

proof fn lemma_def_text_vector_read_back(a: VectorAttributesView, perm: PropertyPerm, items: Seq<DefTextView>, tail: Seq<XmlEventView>)
    requires
        writable_vector_attrs(a),
        all_writable::<DefText>(items),
    ensures
        spec_parse_events(echo(message_out(MessageView::DefTextVector(a, perm, items))) + tail)
            == Ok::<MessageView, Seq<char>>(MessageView::DefTextVector(a, perm, items)),
{
    lemma_message_names();
    let tag = "defTextVector"@;
    let attrs = vector_attrs_out(a) + seq![("perm"@, perm.spec_as_str()@)];
    assert((|x: DefTextView| DefText::spec_out(x)) =~= (|x: DefTextView| def_text_out(x)));
    lemma_vector_events::<DefText>(tag, attrs, items, tail);
    lemma_tag_name(tag);
    lemma_perm_read_back(tag, a, perm);
    let ev = echo(message_out(MessageView::DefTextVector(a, perm, items))) + tail;
    assert(spec_element(echo_tag(tag, attrs), ev.drop_first()) == Ok::<MessageView, Seq<char>>(MessageView::DefTextVector(a, perm, items)));
}

proof fn lemma_def_number_vector_read_back(a: VectorAttributesView, perm: PropertyPerm, items: Seq<DefNumberView>, tail: Seq<XmlEventView>)
    requires
        writable_vector_attrs(a),
        all_writable::<DefNumber>(items),
    ensures
        spec_parse_events(echo(message_out(MessageView::DefNumberVector(a, perm, items))) + tail)
            == Ok::<MessageView, Seq<char>>(MessageView::DefNumberVector(a, perm, items)),
{
    lemma_message_names();
    let tag = "defNumberVector"@;
    let attrs = vector_attrs_out(a) + seq![("perm"@, perm.spec_as_str()@)];
    assert((|x: DefNumberView| DefNumber::spec_out(x)) =~= (|x: DefNumberView| def_number_out(x)));
    lemma_vector_events::<DefNumber>(tag, attrs, items, tail);
    lemma_tag_name(tag);
    lemma_perm_read_back(tag, a, perm);
    let ev = echo(message_out(MessageView::DefNumberVector(a, perm, items))) + tail;
    assert(spec_element(echo_tag(tag, attrs), ev.drop_first()) == Ok::<MessageView, Seq<char>>(MessageView::DefNumberVector(a, perm, items)));
}

/// The events of a written switch definition vector: its start tag, and elements
/// that are read back.
proof fn lemma_def_switch_vector_events(a: VectorAttributesView, perm: PropertyPerm, rule: SwitchRule, items: Seq<DefSwitchView>, tail: Seq<XmlEventView>)
    requires
        all_writable::<DefSwitch>(items),
    ensures
        ({
            let m = MessageView::DefSwitchVector(a, perm, rule, items);
            let attrs = vector_attrs_out(a) + seq![("perm"@, perm.spec_as_str()@)] + seq![("rule"@, rule.spec_as_str()@)];
            let ev = echo(message_out(m)) + tail;
            &&& ev.len() > 0
            &&& ev[0] == XmlEventView::Start(echo_tag("defSwitchVector"@, attrs))
            &&& spec_elements::<DefSwitch>(ev.drop_first(), "defSwitchVector") == Ok::<Seq<DefSwitchView>, Seq<char>>(items)
        }),
{
    let m = MessageView::DefSwitchVector(a, perm, rule, items);
    let tag = "defSwitchVector"@;
    let attrs = vector_attrs_out(a) + seq![("perm"@, perm.spec_as_str()@)] + seq![("rule"@, rule.spec_as_str()@)];
    assert((|x: DefSwitchView| DefSwitch::spec_out(x)) =~= (|x: DefSwitchView| def_switch_out(x)));
    assert(message_out(m) == vector_out(tag, attrs, items.flat_map(|x: DefSwitchView| DefSwitch::spec_out(x))));
    lemma_vector_events::<DefSwitch>(tag, attrs, items, tail);
}

/// The parts of a written switch definition vector are read back.
proof fn lemma_def_switch_vector_parts(a: VectorAttributesView, perm: PropertyPerm, rule: SwitchRule, items: Seq<DefSwitchView>, tail: Seq<XmlEventView>)
    requires
        writable_vector_attrs(a),
        all_writable::<DefSwitch>(items),
    ensures
        ({
            let m = MessageView::DefSwitchVector(a, perm, rule, items);
            let attrs = vector_attrs_out(a) + seq![("perm"@, perm.spec_as_str()@)] + seq![("rule"@, rule.spec_as_str()@)];
            let ev = echo(message_out(m)) + tail;
            let t = echo_tag("defSwitchVector"@, attrs);
            &&& ev.len() > 0
            &&& ev[0] == XmlEventView::Start(t)
            &&& spec_def_switch_vector(t, ev.drop_first()) == Ok::<MessageView, Seq<char>>(m)
        }),
{
    let m = MessageView::DefSwitchVector(a, perm, rule, items);
    let tag = "defSwitchVector"@;
    let attrs = vector_attrs_out(a) + seq![("perm"@, perm.spec_as_str()@)] + seq![("rule"@, rule.spec_as_str()@)];
    let t = echo_tag(tag, attrs);
    let ev = echo(message_out(m)) + tail;
    lemma_def_switch_vector_events(a, perm, rule, items, tail);
    lemma_perm_rule_read_back(tag, a, perm, rule);
    lemma_def_switch_vector_assemble(t, ev.drop_first(), a, perm, rule, items);
}

proof fn lemma_def_switch_vector_assemble(
    t: TagView,
    rest: Seq<XmlEventView>,
    a: VectorAttributesView,
    perm: PropertyPerm,
    rule: SwitchRule,
    items: Seq<DefSwitchView>,
)
    requires
        spec_vector_attrs(t) == Ok::<VectorAttributesView, Seq<char>>(a),
        spec_perm(t) == Ok::<PropertyPerm, Seq<char>>(perm),
        spec_rule(t) == Ok::<SwitchRule, Seq<char>>(rule),
        spec_elements::<DefSwitch>(rest, "defSwitchVector") == Ok::<Seq<DefSwitchView>, Seq<char>>(items),
    ensures
        spec_def_switch_vector(t, rest) == Ok::<MessageView, Seq<char>>(MessageView::DefSwitchVector(a, perm, rule, items)),
{
}

proof fn lemma_def_switch_vector_read_back(a: VectorAttributesView, perm: PropertyPerm, rule: SwitchRule, items: Seq<DefSwitchView>, tail: Seq<XmlEventView>)
    requires
        writable_vector_attrs(a),
        all_writable::<DefSwitch>(items),
    ensures
        spec_parse_events(echo(message_out(MessageView::DefSwitchVector(a, perm, rule, items))) + tail)
            == Ok::<MessageView, Seq<char>>(MessageView::DefSwitchVector(a, perm, rule, items)),
{
    lemma_def_switch_vector_parts(a, perm, rule, items, tail);
    lemma_message_names();
    lemma_tag_name("defSwitchVector"@);
}

proof fn lemma_def_light_vector_read_back(a: VectorAttributesView, items: Seq<DefLightView>, tail: Seq<XmlEventView>)
    requires
        writable_vector_attrs(a),
        all_writable::<DefLight>(items),
    ensures
        spec_parse_events(echo(message_out(MessageView::DefLightVector(a, items))) + tail)
            == Ok::<MessageView, Seq<char>>(MessageView::DefLightVector(a, items)),
{
    lemma_message_names();
    let tag = "defLightVector"@;
    let attrs = vector_attrs_out(a);
    assert((|x: DefLightView| DefLight::spec_out(x)) =~= (|x: DefLightView| def_light_out(x)));
    lemma_vector_events::<DefLight>(tag, attrs, items, tail);
    lemma_tag_name(tag);
    lemma_vector_attrs_read_back(tag, a, Seq::empty());
        assert(attrs =~= attrs + Seq::<(Seq<char>, Seq<char>)>::empty());
    let ev = echo(message_out(MessageView::DefLightVector(a, items))) + tail;
    assert(spec_element(echo_tag(tag, attrs), ev.drop_first()) == Ok::<MessageView, Seq<char>>(MessageView::DefLightVector(a, items)));
}

proof fn lemma_def_blob_vector_read_back(a: VectorAttributesView, perm: PropertyPerm, items: Seq<DefBLOBView>, tail: Seq<XmlEventView>)
    requires
        writable_vector_attrs(a),
        all_writable::<DefBLOB>(items),
    ensures
        spec_parse_events(echo(message_out(MessageView::DefBLOBVector(a, perm, items))) + tail)
            == Ok::<MessageView, Seq<char>>(MessageView::DefBLOBVector(a, perm, items)),
{
    lemma_message_names();
    let tag = "defBLOBVector"@;
    let attrs = vector_attrs_out(a) + seq![("perm"@, perm.spec_as_str()@)];
    assert((|x: DefBLOBView| DefBLOB::spec_out(x)) =~= (|x: DefBLOBView| def_blob_out(x)));
    lemma_vector_events::<DefBLOB>(tag, attrs, items, tail);
    lemma_tag_name(tag);
    lemma_perm_read_back(tag, a, perm);
    let ev = echo(message_out(MessageView::DefBLOBVector(a, perm, items))) + tail;
    assert(spec_element(echo_tag(tag, attrs), ev.drop_first()) == Ok::<MessageView, Seq<char>>(MessageView::DefBLOBVector(a, perm, items)));
}

proof fn lemma_set_text_vector_read_back(a: SetVectorAttributesView, items: Seq<OneTextView>, tail: Seq<XmlEventView>)
    requires
        writable_set_vector_attrs(a),
        all_writable::<OneText>(items),
    ensures
        spec_parse_events(echo(message_out(MessageView::SetTextVector(a, items))) + tail)
            == Ok::<MessageView, Seq<char>>(MessageView::SetTextVector(a, items)),
{
    lemma_message_names();
    let tag = "setTextVector"@;
    let attrs = set_vector_attrs_out(a);
    assert((|x: OneTextView| OneText::spec_out(x)) =~= (|x: OneTextView| one_text_out(x)));
    lemma_vector_events::<OneText>(tag, attrs, items, tail);
    lemma_tag_name(tag);
    lemma_set_vector_attrs_read_back(tag, a);
    let ev = echo(message_out(MessageView::SetTextVector(a, items))) + tail;
    assert(spec_element(echo_tag(tag, attrs), ev.drop_first()) == Ok::<MessageView, Seq<char>>(MessageView::SetTextVector(a, items)));
}

proof fn lemma_set_number_vector_read_back(a: SetVectorAttributesView, items: Seq<OneTextView>, tail: Seq<XmlEventView>)
    requires
        writable_set_vector_attrs(a),
        all_writable::<OneNumber>(items),
    ensures
        spec_parse_events(echo(message_out(MessageView::SetNumberVector(a, items))) + tail)
            == Ok::<MessageView, Seq<char>>(MessageView::SetNumberVector(a, items)),
{
    lemma_message_names();
    let tag = "setNumberVector"@;
    let attrs = set_vector_attrs_out(a);
    assert((|x: OneTextView| OneNumber::spec_out(x)) =~= (|x: OneTextView| one_number_out(x)));
    lemma_vector_events::<OneNumber>(tag, attrs, items, tail);
    lemma_tag_name(tag);
    lemma_set_vector_attrs_read_back(tag, a);
    let ev = echo(message_out(MessageView::SetNumberVector(a, items))) + tail;
    assert(spec_element(echo_tag(tag, attrs), ev.drop_first()) == Ok::<MessageView, Seq<char>>(MessageView::SetNumberVector(a, items)));
}

proof fn lemma_set_switch_vector_read_back(a: SetVectorAttributesView, items: Seq<OneSwitchView>, tail: Seq<XmlEventView>)
    requires
        writable_set_vector_attrs(a),
        all_writable::<OneSwitch>(items),
    ensures
        spec_parse_events(echo(message_out(MessageView::SetSwitchVector(a, items))) + tail)
            == Ok::<MessageView, Seq<char>>(MessageView::SetSwitchVector(a, items)),
{
    lemma_message_names();
    let tag = "setSwitchVector"@;
    let attrs = set_vector_attrs_out(a);
    assert((|x: OneSwitchView| OneSwitch::spec_out(x)) =~= (|x: OneSwitchView| one_switch_out(x)));
    lemma_vector_events::<OneSwitch>(tag, attrs, items, tail);
    lemma_tag_name(tag);
    lemma_set_vector_attrs_read_back(tag, a);
    let ev = echo(message_out(MessageView::SetSwitchVector(a, items))) + tail;
    assert(spec_element(echo_tag(tag, attrs), ev.drop_first()) == Ok::<MessageView, Seq<char>>(MessageView::SetSwitchVector(a, items)));
}

proof fn lemma_set_light_vector_read_back(a: SetVectorAttributesView, items: Seq<OneLightView>, tail: Seq<XmlEventView>)
    requires
        writable_set_vector_attrs(a),
        all_writable::<OneLight>(items),
    ensures
        spec_parse_events(echo(message_out(MessageView::SetLightVector(a, items))) + tail)
            == Ok::<MessageView, Seq<char>>(MessageView::SetLightVector(a, items)),
{
    lemma_message_names();
    let tag = "setLightVector"@;
    let attrs = set_vector_attrs_out(a);
    assert((|x: OneLightView| OneLight::spec_out(x)) =~= (|x: OneLightView| one_light_out(x)));
    lemma_vector_events::<OneLight>(tag, attrs, items, tail);
    lemma_tag_name(tag);
    lemma_set_vector_attrs_read_back(tag, a);
    let ev = echo(message_out(MessageView::SetLightVector(a, items))) + tail;
    assert(spec_element(echo_tag(tag, attrs), ev.drop_first()) == Ok::<MessageView, Seq<char>>(MessageView::SetLightVector(a, items)));
}

proof fn lemma_set_blob_vector_read_back(a: SetVectorAttributesView, items: Seq<OneBLOBView>, tail: Seq<XmlEventView>)
    requires
        writable_set_vector_attrs(a),
        all_writable::<OneBLOB>(items),
    ensures
        spec_parse_events(echo(message_out(MessageView::SetBLOBVector(a, items))) + tail)
            == Ok::<MessageView, Seq<char>>(MessageView::SetBLOBVector(a, items)),
{
    lemma_message_names();
    let tag = "setBLOBVector"@;
    let attrs = set_vector_attrs_out(a);
    assert((|x: OneBLOBView| OneBLOB::spec_out(x)) =~= (|x: OneBLOBView| one_blob_out(x)));
    lemma_vector_events::<OneBLOB>(tag, attrs, items, tail);
    lemma_tag_name(tag);
    lemma_set_vector_attrs_read_back(tag, a);
    let ev = echo(message_out(MessageView::SetBLOBVector(a, items))) + tail;
    assert(spec_element(echo_tag(tag, attrs), ev.drop_first()) == Ok::<MessageView, Seq<char>>(MessageView::SetBLOBVector(a, items)));
}

proof fn lemma_new_text_vector_read_back(a: NewVectorAttributesView, items: Seq<OneTextView>, tail: Seq<XmlEventView>)
    requires
        writable_new_vector_attrs(a),
        all_writable::<OneText>(items),
    ensures
        spec_parse_events(echo(message_out(MessageView::NewTextVector(a, items))) + tail)
            == Ok::<MessageView, Seq<char>>(MessageView::NewTextVector(a, items)),
{
    lemma_message_names();
    let tag = "newTextVector"@;
    let attrs = new_vector_attrs_out(a);
    assert((|x: OneTextView| OneText::spec_out(x)) =~= (|x: OneTextView| one_text_out(x)));
    lemma_vector_events::<OneText>(tag, attrs, items, tail);
    lemma_tag_name(tag);
    lemma_new_vector_attrs_read_back(tag, a);
    let ev = echo(message_out(MessageView::NewTextVector(a, items))) + tail;
    assert(spec_element(echo_tag(tag, attrs), ev.drop_first()) == Ok::<MessageView, Seq<char>>(MessageView::NewTextVector(a, items)));
}

proof fn lemma_new_number_vector_read_back(a: NewVectorAttributesView, items: Seq<OneTextView>, tail: Seq<XmlEventView>)
    requires
        writable_new_vector_attrs(a),
        all_writable::<OneNumber>(items),
    ensures
        spec_parse_events(echo(message_out(MessageView::NewNumberVector(a, items))) + tail)
            == Ok::<MessageView, Seq<char>>(MessageView::NewNumberVector(a, items)),
{
    lemma_message_names();
    let tag = "newNumberVector"@;
    let attrs = new_vector_attrs_out(a);
    assert((|x: OneTextView| OneNumber::spec_out(x)) =~= (|x: OneTextView| one_number_out(x)));
    lemma_vector_events::<OneNumber>(tag, attrs, items, tail);
    lemma_tag_name(tag);
    lemma_new_vector_attrs_read_back(tag, a);
    let ev = echo(message_out(MessageView::NewNumberVector(a, items))) + tail;
    assert(spec_element(echo_tag(tag, attrs), ev.drop_first()) == Ok::<MessageView, Seq<char>>(MessageView::NewNumberVector(a, items)));
}

proof fn lemma_new_switch_vector_read_back(a: NewVectorAttributesView, items: Seq<OneSwitchView>, tail: Seq<XmlEventView>)
    requires
        writable_new_vector_attrs(a),
        all_writable::<OneSwitch>(items),
    ensures
        spec_parse_events(echo(message_out(MessageView::NewSwitchVector(a, items))) + tail)
            == Ok::<MessageView, Seq<char>>(MessageView::NewSwitchVector(a, items)),
{
    lemma_message_names();
    let tag = "newSwitchVector"@;
    let attrs = new_vector_attrs_out(a);
    assert((|x: OneSwitchView| OneSwitch::spec_out(x)) =~= (|x: OneSwitchView| one_switch_out(x)));
    lemma_vector_events::<OneSwitch>(tag, attrs, items, tail);
    lemma_tag_name(tag);
    lemma_new_vector_attrs_read_back(tag, a);
    let ev = echo(message_out(MessageView::NewSwitchVector(a, items))) + tail;
    assert(spec_element(echo_tag(tag, attrs), ev.drop_first()) == Ok::<MessageView, Seq<char>>(MessageView::NewSwitchVector(a, items)));
}

proof fn lemma_new_blob_vector_read_back(a: NewVectorAttributesView, items: Seq<OneBLOBView>, tail: Seq<XmlEventView>)
    requires
        writable_new_vector_attrs(a),
        all_writable::<OneBLOB>(items),
    ensures
        spec_parse_events(echo(message_out(MessageView::NewBLOBVector(a, items))) + tail)
            == Ok::<MessageView, Seq<char>>(MessageView::NewBLOBVector(a, items)),
{
    lemma_message_names();
    let tag = "newBLOBVector"@;
    let attrs = new_vector_attrs_out(a);
    assert((|x: OneBLOBView| OneBLOB::spec_out(x)) =~= (|x: OneBLOBView| one_blob_out(x)));
    lemma_vector_events::<OneBLOB>(tag, attrs, items, tail);
    lemma_tag_name(tag);
    lemma_new_vector_attrs_read_back(tag, a);
    let ev = echo(message_out(MessageView::NewBLOBVector(a, items))) + tail;
    assert(spec_element(echo_tag(tag, attrs), ev.drop_first()) == Ok::<MessageView, Seq<char>>(MessageView::NewBLOBVector(a, items)));
}

/// The names of the attributes of control messages are told apart by their length.
proof fn lemma_control_keys()
    ensures
        "version"@.len() == 7 && "device"@.len() == 6 && "name"@.len() == 4,
        "timestamp"@.len() == 9 && "message"@.len() == 7,
        "version"@[0] == 'v' && "message"@[0] == 'm',
{
    reveal_strlit("version");
    reveal_strlit("device");
    reveal_strlit("name");
    reveal_strlit("timestamp");
    reveal_strlit("message");
}

/// What is reported for a written empty tag is that tag.
proof fn lemma_echo_empty_tag(tag: Seq<char>, attrs: Seq<(Seq<char>, Seq<char>)>, tail: Seq<XmlEventView>)
    ensures
        ({
            let ev = echo(seq![XmlOutView::Empty(tag, attrs)]) + tail;
            &&& ev.len() > 0
            &&& ev[0] == XmlEventView::Empty(echo_tag(tag, attrs))
            &&& ev.drop_first() == tail
        }),
{
    lemma_echo_single(XmlOutView::Empty(tag, attrs));
    let ev = echo(seq![XmlOutView::Empty(tag, attrs)]) + tail;
    assert(ev.drop_first() =~= tail);
}

proof fn lemma_get_properties_read_back(version: Option<Seq<char>>, device: Option<Seq<char>>, name: Option<Seq<char>>, tail: Seq<XmlEventView>)
    requires
        opt_plain(version),
        opt_plain(device),
        opt_plain(name),
    ensures
        spec_parse_events(echo(message_out(MessageView::GetProperties(version, device, name))) + tail)
            == Ok::<MessageView, Seq<char>>(MessageView::GetProperties(version, device, name)),
{
    broadcast use lemma_lookup_concat, lemma_lookup_single, lemma_lookup_empty;

    lemma_message_names();
    lemma_control_keys();
    let tag = "getProperties"@;
    let attrs = opt_attr("version"@, version) + opt_attr("device"@, device) + opt_attr("name"@, name);
    lemma_echo_empty_tag(tag, attrs, tail);
    lemma_tag_name(tag);
    assert(lookup(attrs, "version"@) == version);
    assert(lookup(attrs, "device"@) == device);
    assert(lookup(attrs, "name"@) == name);
    lemma_get_opt_attr_echo(tag, attrs, "version");
    lemma_get_opt_attr_echo(tag, attrs, "device");
    lemma_get_opt_attr_echo(tag, attrs, "name");
}

proof fn lemma_message_element_read_back(device: Option<Seq<char>>, timestamp: Option<Seq<char>>, message: Option<Seq<char>>, tail: Seq<XmlEventView>)
    requires
        opt_plain(device),
        opt_plain(timestamp),
        opt_plain(message),
    ensures
        spec_parse_events(echo(message_out(MessageView::Message(device, timestamp, message))) + tail)
            == Ok::<MessageView, Seq<char>>(MessageView::Message(device, timestamp, message)),
{
    broadcast use lemma_lookup_concat, lemma_lookup_single, lemma_lookup_empty;

    lemma_message_names();
    lemma_control_keys();
    let tag = "message"@;
    let attrs = opt_attr("device"@, device) + opt_attr("timestamp"@, timestamp) + opt_attr("message"@, message);
    lemma_echo_empty_tag(tag, attrs, tail);
    lemma_tag_name(tag);
    assert(lookup(attrs, "device"@) == device);
    assert(lookup(attrs, "timestamp"@) == timestamp);
    assert(lookup(attrs, "message"@) == message);
    lemma_get_opt_attr_echo(tag, attrs, "device");
    lemma_get_opt_attr_echo(tag, attrs, "timestamp");
    lemma_get_opt_attr_echo(tag, attrs, "message");
}

proof fn lemma_del_property_read_back(
    device: Seq<char>,
    name: Option<Seq<char>>,
    timestamp: Option<Seq<char>>,
    message: Option<Seq<char>>,
    tail: Seq<XmlEventView>,
)
    requires
        plain(device),
        opt_plain(name),
        opt_plain(timestamp),
        opt_plain(message),
    ensures
        spec_parse_events(echo(message_out(MessageView::DelProperty(device, name, timestamp, message))) + tail)
            == Ok::<MessageView, Seq<char>>(MessageView::DelProperty(device, name, timestamp, message)),
{
    broadcast use lemma_lookup_concat, lemma_lookup_single, lemma_lookup_empty;

    lemma_message_names();
    lemma_control_keys();
    let tag = "delProperty"@;
    let attrs = seq![("device"@, device)] + opt_attr("name"@, name) + opt_attr("timestamp"@, timestamp) + opt_attr(
        "message"@,
        message,
    );
    lemma_echo_empty_tag(tag, attrs, tail);
    lemma_tag_name(tag);
    assert(lookup(attrs, "device"@) == Some(device));
    assert(lookup(attrs, "name"@) == name);
    assert(lookup(attrs, "timestamp"@) == timestamp);
    assert(lookup(attrs, "message"@) == message);
    lemma_get_opt_attr_echo(tag, attrs, "device");
    lemma_get_opt_attr_echo(tag, attrs, "name");
    lemma_get_opt_attr_echo(tag, attrs, "timestamp");
    lemma_get_opt_attr_echo(tag, attrs, "message");
}

#[verifier::rlimit(40)]
proof fn lemma_enable_blob_read_back(device: Seq<char>, name: Option<Seq<char>>, value: BLOBEnable, tail: Seq<XmlEventView>)
    requires
        plain(device),
        opt_plain(name),
    ensures
        spec_parse_events(echo(message_out(MessageView::EnableBLOB(device, name, value))) + tail)
            == Ok::<MessageView, Seq<char>>(MessageView::EnableBLOB(device, name, value)),
{
    broadcast use lemma_lookup_concat, lemma_lookup_single, lemma_lookup_empty;

    lemma_message_names();
    lemma_control_keys();
    let tag = "enableBLOB"@;
    let attrs = seq![("device"@, device)] + opt_attr("name"@, name);
    let v = value.spec_as_str()@;
    lemma_blob_enable_word(value);
    lemma_echo_text_element(tag, attrs, v);
    let ev = echo(message_out(MessageView::EnableBLOB(device, name, value))) + tail;
    lemma_tag_name(tag);
    assert(lookup(attrs, "device"@) == Some(device));
    assert(lookup(attrs, "name"@) == name);
    lemma_get_opt_attr_echo(tag, attrs, "device");
    lemma_get_opt_attr_echo(tag, attrs, "name");
    lemma_word_content_echo(v, encode_utf8(tag), tail);
    assert(ev.drop_first() =~= echo_event(XmlOutView::Text(v)) + seq![XmlEventView::End(encode_utf8(tag))] + tail);
    assert(ev[0] == XmlEventView::Start(echo_tag(tag, attrs)));
}

/// Whether a message can be written faithfully: its attribute values hold no
/// character that XML escapes, its texts do not begin or end with white space, and
/// its numbers (and timeouts) are numbers.
pub open spec fn writable_message(m: MessageView) -> bool {
    match m {
        MessageView::DefTextVector(a, _, items) => writable_vector_attrs(a) && all_writable::<DefText>(items),
        MessageView::DefNumberVector(a, _, items) => writable_vector_attrs(a) && all_writable::<DefNumber>(items),
        MessageView::DefSwitchVector(a, _, _, items) => writable_vector_attrs(a) && all_writable::<DefSwitch>(items),
        MessageView::DefLightVector(a, items) => writable_vector_attrs(a) && all_writable::<DefLight>(items),
        MessageView::DefBLOBVector(a, _, items) => writable_vector_attrs(a) && all_writable::<DefBLOB>(items),
        MessageView::SetTextVector(a, items) => writable_set_vector_attrs(a) && all_writable::<OneText>(items),
        MessageView::SetNumberVector(a, items) => writable_set_vector_attrs(a) && all_writable::<OneNumber>(items),
        MessageView::SetSwitchVector(a, items) => writable_set_vector_attrs(a) && all_writable::<OneSwitch>(items),
        MessageView::SetLightVector(a, items) => writable_set_vector_attrs(a) && all_writable::<OneLight>(items),
        MessageView::SetBLOBVector(a, items) => writable_set_vector_attrs(a) && all_writable::<OneBLOB>(items),
        MessageView::NewTextVector(a, items) => writable_new_vector_attrs(a) && all_writable::<OneText>(items),
        MessageView::NewNumberVector(a, items) => writable_new_vector_attrs(a) && all_writable::<OneNumber>(items),
        MessageView::NewSwitchVector(a, items) => writable_new_vector_attrs(a) && all_writable::<OneSwitch>(items),
        MessageView::NewBLOBVector(a, items) => writable_new_vector_attrs(a) && all_writable::<OneBLOB>(items),
        MessageView::GetProperties(v, d, n) => opt_plain(v) && opt_plain(d) && opt_plain(n),
        MessageView::EnableBLOB(d, n, _) => plain(d) && opt_plain(n),
        MessageView::Message(d, t, m) => opt_plain(d) && opt_plain(t) && opt_plain(m),
        MessageView::DelProperty(d, n, t, m) => plain(d) && opt_plain(n) && opt_plain(t) && opt_plain(m),
    }
}

/// Parsing reads back what serializing writes: for a message that can be written
/// faithfully, the message that the parser reads from the events that a reader
/// reports for the serialized XML (whatever follows them) is the message.
pub proof fn lemma_parse_reads_back_serialized(m: MessageView, tail: Seq<XmlEventView>)
    requires
        writable_message(m),
    ensures
        spec_parse_events(echo(message_out(m)) + tail) == Ok::<MessageView, Seq<char>>(m),
{
    match m {
        MessageView::DefTextVector(a, p, items) => lemma_def_text_vector_read_back(a, p, items, tail),
        MessageView::DefNumberVector(a, p, items) => lemma_def_number_vector_read_back(a, p, items, tail),
        MessageView::DefSwitchVector(a, p, r, items) => lemma_def_switch_vector_read_back(a, p, r, items, tail),
        MessageView::DefLightVector(a, items) => lemma_def_light_vector_read_back(a, items, tail),
        MessageView::DefBLOBVector(a, p, items) => lemma_def_blob_vector_read_back(a, p, items, tail),
        MessageView::SetTextVector(a, items) => lemma_set_text_vector_read_back(a, items, tail),
        MessageView::SetNumberVector(a, items) => lemma_set_number_vector_read_back(a, items, tail),
        MessageView::SetSwitchVector(a, items) => lemma_set_switch_vector_read_back(a, items, tail),
        MessageView::SetLightVector(a, items) => lemma_set_light_vector_read_back(a, items, tail),
        MessageView::SetBLOBVector(a, items) => lemma_set_blob_vector_read_back(a, items, tail),
        MessageView::NewTextVector(a, items) => lemma_new_text_vector_read_back(a, items, tail),
        MessageView::NewNumberVector(a, items) => lemma_new_number_vector_read_back(a, items, tail),
        MessageView::NewSwitchVector(a, items) => lemma_new_switch_vector_read_back(a, items, tail),
        MessageView::NewBLOBVector(a, items) => lemma_new_blob_vector_read_back(a, items, tail),
        MessageView::GetProperties(v, d, n) => lemma_get_properties_read_back(v, d, n, tail),
        MessageView::EnableBLOB(d, n, v) => lemma_enable_blob_read_back(d, n, v, tail),
        MessageView::Message(d, t, x) => lemma_message_element_read_back(d, t, x, tail),
        MessageView::DelProperty(d, n, t, x) => lemma_del_property_read_back(d, n, t, x, tail),
    }
}

/// Parsing bytes reads back a message: where the XML events that quick-xml reads
/// from `bytes` begin with the events a reader reports for the serialized XML of a
/// message that can be written faithfully, `ProtocolParser::parse_message(bytes)`
/// succeeds with that message (whatever events follow). The serializer's bytes for
/// `m` are such bytes exactly when quick-xml reads well-formed XML as the events it
/// holds, which this library does not state of quick-xml; that reading is the
/// premise here.
pub proof fn lemma_parse_message_reads_back(m: MessageView, bytes: Seq<u8>, tail: Seq<XmlEventView>)
    requires
        writable_message(m),
        xml_events(bytes) == echo(message_out(m)) + tail,
    ensures
        spec_parse_events(xml_events(bytes)) == Ok::<MessageView, Seq<char>>(m),
        forall|r: Result<ProtocolMessage, IndigoError>| #[trigger] outcome(r, spec_parse_events(xml_events(bytes)))
            ==> (r is Ok && r->Ok_0@ == m),
{
    lemma_parse_reads_back_serialized(m, tail);
}

} // verus!
