//! The XML layer under the protocol: the events that `quick_xml` reads from the
//! bytes of a message, the bytes that it writes for an event, and the text
//! conversions that the protocol applies to them.
use vstd::prelude::*;
use quick_xml::events::{BytesEnd, BytesStart, BytesText, Event};
use quick_xml::events::Event::{
    Empty as EmptyTag, End as EndTag, Eof as EndOfInput, Start as StartTag, Text as CharData,
};
use crate::strategies::rs::xml::XmlEvent::{Empty, End, Eof, Error, Other, Start, Text};
use quick_xml::{Reader, Writer};

verus! {

#[verifier::external_type_specification]
#[verifier::external_body]
#[verifier::reject_recursive_types(R)]
pub struct ExReader<R>(Reader<R>);

/// An attribute of a tag: its key and its raw (still escaped) value.
pub type XmlAttr = (Vec<u8>, Vec<u8>);

/// A start or empty tag: its name (the first field) and its attributes in order (the
/// second), each an attribute or the text of the error met while reading it.
#[derive(Debug, PartialEq)]
pub struct XmlTag(pub Vec<u8>, pub Vec<Result<XmlAttr, String>>);

/// An event read from an XML document.
#[derive(Debug, PartialEq)]
pub enum XmlEvent {
    /// A start tag `<name ...>`.
    Start(XmlTag),
    /// An empty tag `<name .../>`.
    Empty(XmlTag),
    /// An end tag `</name>` and its name.
    End(Vec<u8>),
    /// Character data, unescaped, or the text of the error met while unescaping it.
    Text(Result<String, String>),
    /// A comment, CDATA section, declaration, processing instruction or doctype.
    Other,
    /// The end of the input.
    Eof,
    /// A syntax error, and its text.
    Error(String),
}

pub struct TagView {
    pub name: Seq<u8>,
    pub attrs: Seq<Result<(Seq<u8>, Seq<u8>), Seq<char>>>,
}

pub enum XmlEventView {
    Start(TagView),
    Empty(TagView),
    End(Seq<u8>),
    Text(Result<Seq<char>, Seq<char>>),
    Other,
    Eof,
    Error(Seq<char>),
}

pub open spec fn attr_item_view(a: Result<XmlAttr, String>) -> Result<(Seq<u8>, Seq<u8>), Seq<char>> {
    match a {
        Ok(x) => Ok((x.0@, x.1@)),
        Err(t) => Err(t@),
    }
}

impl View for XmlTag {
    type V = TagView;

    open spec fn view(&self) -> TagView {
        TagView { name: self.0@, attrs: self.1@.map_values(|a| attr_item_view(a)) }
    }
}

impl View for XmlEvent {
    type V = XmlEventView;

    open spec fn view(&self) -> XmlEventView {
        match self {
            XmlEvent::Start(t) => XmlEventView::Start(t@),
            XmlEvent::Empty(t) => XmlEventView::Empty(t@),
            XmlEvent::End(n) => XmlEventView::End(n@),
            XmlEvent::Text(Ok(s)) => XmlEventView::Text(Ok(s@)),
            XmlEvent::Text(Err(s)) => XmlEventView::Text(Err(s@)),
            XmlEvent::Other => XmlEventView::Other,
            XmlEvent::Eof => XmlEventView::Eof,
            XmlEvent::Error(s) => XmlEventView::Error(s@),
        }
    }
}

/// The end of input or an error: the events after which a reader reads nothing more.
pub open spec fn is_final_event(e: XmlEventView) -> bool {
    e is Eof || e is Error
}

/// A stream of events that ends with its first final event.
pub open spec fn ends_with_its_first_final_event(s: Seq<XmlEventView>) -> bool {
    &&& s.len() > 0
    &&& is_final_event(s.last())
    &&& forall|i: int| 0 <= i < s.len() - 1 ==> !is_final_event(#[trigger] s[i])
}

/// The events that `quick_xml` reads from `input`, with text trimmed, up to and
/// including the end of input or the first syntax error.
pub uninterp spec fn xml_events(input: Seq<u8>) -> Seq<XmlEventView>;

/// The events that a reader has still to give.
pub uninterp spec fn reader_events(reader: Reader<&[u8]>) -> Seq<XmlEventView>;

/// Opens a reader on `xml` that trims text, as the protocol reads it.
///
/// Calls `quick_xml::Reader::from_reader` and `Reader::trim_text(true)`. The
/// contract says that the reader has the events of `xml` to give, and that these
/// end with the end of input or with the first error: quick_xml's reader reads a
/// finite slice to its end, and after the end of input or an error it only answers
/// end of input.
#[verifier::external_body]
pub(crate) fn open_reader<'a>(xml: &'a [u8]) -> (r: Reader<&'a [u8]>)
    ensures
        reader_events(r) == xml_events(xml@),
        ends_with_its_first_final_event(reader_events(r)),
{
    let mut reader = Reader::from_reader(xml);
    reader.trim_text(true);
    reader
}

/// Reads the next event.
///
/// Calls `quick_xml::Reader::read_event` (the form of `read_event_into` that a
/// reader over a byte slice offers without a buffer) and converts the event: tag names,
/// attribute keys and raw values are copied, attribute errors and syntax errors are
/// turned into their text, and text is unescaped with `BytesText::unescape`. The
/// contract says that the event is the first of those the reader has still to give,
/// and that a reader with nothing more to give answers the end of input.
#[verifier::external_body]
pub(crate) fn next_event(reader: &mut Reader<&[u8]>) -> (r: XmlEvent)
    ensures
        reader_events(*old(reader)).len() > 0 ==> {
            &&& r@ == reader_events(*old(reader))[0]
            &&& reader_events(*final(reader)) == reader_events(*old(reader)).drop_first()
        },
        reader_events(*old(reader)).len() == 0 ==> {
            &&& r@ == XmlEventView::Eof
            &&& reader_events(*final(reader)) == reader_events(*old(reader))
        },
{
    let tag = |e: BytesStart| XmlTag(
        e.name().0.to_vec(),
        e.attributes().map(|a| a.map(|a| (a.key.0.to_vec(), a.value.to_vec())).map_err(|x| x.to_string())).collect(),
    );
    match reader.read_event() {
        Ok(StartTag(e)) => Start(tag(e)),
        Ok(EmptyTag(e)) => Empty(tag(e)),
        Ok(EndTag(e)) => End(e.to_vec()),
        Ok(CharData(e)) => Text(e.unescape().map(String::from).map_err(|x| x.to_string())),
        Ok(EndOfInput) => Eof,
        Err(x) => Error(x.to_string()),
        _ => Other,
    }
}

/// The text with which `std::str::from_utf8` describes why `bytes` are not UTF-8.
pub uninterp spec fn utf8_error_text(bytes: Seq<u8>) -> Seq<char>;

/// Decodes UTF-8.
///
/// Calls `std::str::from_utf8`, which std documents as accepting exactly the valid
/// UTF-8 sequences; the error is turned into its text.
#[verifier::external_body]
pub(crate) fn decode_utf8(bytes: &[u8]) -> (r: Result<String, String>)
    ensures
        r is Ok <==> vstd::utf8::valid_utf8(bytes@),
        r matches Ok(s) ==> s@ == vstd::utf8::decode_utf8(bytes@),
        r matches Err(t) ==> t@ == utf8_error_text(bytes@),
{
    std::str::from_utf8(bytes).map(|s| s.to_string()).map_err(|e| e.to_string())
}

/// Whether `c` has the Unicode `White_Space` property.
pub open spec fn is_white_space(c: char) -> bool {
    let u = c as u32;
    (0x09 <= u <= 0x0d) || u == 0x20 || u == 0x85 || u == 0xa0 || u == 0x1680 || (0x2000 <= u
        <= 0x200a) || u == 0x2028 || u == 0x2029 || u == 0x202f || u == 0x205f || u == 0x3000
}

/// The text without leading white space.
pub open spec fn trim_start_text(s: Seq<char>) -> Seq<char>
    decreases s.len(),
{
    if s.len() > 0 && is_white_space(s[0]) {
        trim_start_text(s.drop_first())
    } else {
        s
    }
}

/// The text without trailing white space.
pub open spec fn trim_end_text(s: Seq<char>) -> Seq<char>
    decreases s.len(),
{
    if s.len() > 0 && is_white_space(s.last()) {
        trim_end_text(s.drop_last())
    } else {
        s
    }
}

/// The text without leading and trailing white space.
pub open spec fn trim_text(s: Seq<char>) -> Seq<char> {
    trim_end_text(trim_start_text(s))
}

/// Removes leading and trailing white space.
///
/// Calls `str::trim`, which std documents as removing the characters with the
/// Unicode `White_Space` property from both ends.
#[verifier::external_body]
pub(crate) fn trim(s: &str) -> (r: &str)
    ensures
        r@ == trim_text(s@),
{
    s.trim()
}

/// A tag or text to write.
#[derive(Debug, Clone)]
pub enum XmlOut {
    /// A start tag with its name and attributes.
    Start(&'static str, Vec<(&'static str, String)>),
    /// An empty tag with its name and attributes.
    Empty(&'static str, Vec<(&'static str, String)>),
    /// Character data, to be escaped.
    Text(String),
    /// An end tag with its name.
    End(&'static str),
}

pub enum XmlOutView {
    Start(Seq<char>, Seq<(Seq<char>, Seq<char>)>),
    Empty(Seq<char>, Seq<(Seq<char>, Seq<char>)>),
    Text(Seq<char>),
    End(Seq<char>),
}

pub open spec fn attrs_out_view(a: Vec<(&'static str, String)>) -> Seq<(Seq<char>, Seq<char>)> {
    a@.map_values(|p: (&'static str, String)| (p.0@, p.1@))
}

impl View for XmlOut {
    type V = XmlOutView;

    open spec fn view(&self) -> XmlOutView {
        match self {
            XmlOut::Start(n, a) => XmlOutView::Start(n@, attrs_out_view(*a)),
            XmlOut::Empty(n, a) => XmlOutView::Empty(n@, attrs_out_view(*a)),
            XmlOut::Text(t) => XmlOutView::Text(t@),
            XmlOut::End(n) => XmlOutView::End(n@),
        }
    }
}

/// The text with the XML special characters `<`, `>`, `&`, `'` and `"` replaced by
/// `&lt;`, `&gt;`, `&amp;`, `&apos;` and `&quot;`.
pub open spec fn xml_escape_text(s: Seq<char>) -> Seq<char>
    decreases s.len(),
{
    if s.len() == 0 {
        Seq::empty()
    } else {
        let c = s[0];
        let e = if c == '<' {
            "&lt;"@
        } else if c == '>' {
            "&gt;"@
        } else if c == '&' {
            "&amp;"@
        } else if c == '\'' {
            "&apos;"@
        } else if c == '"' {
            "&quot;"@
        } else {
            seq![c]
        };
        e + xml_escape_text(s.drop_first())
    }
}

/// The attributes as written in a tag: ` key="escaped value"` each.
pub open spec fn attrs_text(a: Seq<(Seq<char>, Seq<char>)>) -> Seq<char>
    decreases a.len(),
{
    if a.len() == 0 {
        Seq::empty()
    } else {
        " "@ + a[0].0 + "=\""@ + xml_escape_text(a[0].1) + "\""@ + attrs_text(a.drop_first())
    }
}

/// The text that an XML writer without indentation writes for an event.
pub open spec fn xml_out_text(e: XmlOutView) -> Seq<char> {
    match e {
        XmlOutView::Start(n, a) => "<"@ + n + attrs_text(a) + ">"@,
        XmlOutView::Empty(n, a) => "<"@ + n + attrs_text(a) + "/>"@,
        XmlOutView::Text(t) => xml_escape_text(t),
        XmlOutView::End(n) => "</"@ + n + ">"@,
    }
}

/// Writes one event as UTF-8 bytes.
///
/// Calls `quick_xml::Writer::write_event` on a writer without indentation over a
/// `Vec<u8>`, with the tag built by `BytesStart::new` and `push_attribute`, the
/// text by `BytesText::new` and the end tag by `BytesEnd::new`. quick_xml's source
/// shows what the contract states: such a writer writes `<`, the tag and `>` (or
/// `/>`), `</`, the name and `>`, or the text, and nothing else; each pushed
/// attribute is ` key="value"` with the value escaped by `quick_xml::escape::escape`,
/// which replaces `<`, `>`, `&`, `'` and `"`; `BytesText::new` escapes the text in the
/// same way. Writing into a `Vec<u8>` does not fail.
#[verifier::external_body]
pub(crate) fn write_xml_event(e: &XmlOut) -> (r: Vec<u8>)
    ensures
        r@ == vstd::utf8::encode_utf8(xml_out_text(e@)),
{
    let mut writer = Writer::new(Vec::new());
    let start = |n: &'static str, a: &Vec<(&'static str, String)>| BytesStart::new(n).with_attributes(a.iter().map(|p| (p.0, p.1.as_str())));
    let result = match e {
        XmlOut::Start(n, a) => writer.write_event(Event::Start(start(n, a))),
        XmlOut::Empty(n, a) => writer.write_event(Event::Empty(start(n, a))),
        XmlOut::Text(t) => writer.write_event(Event::Text(BytesText::new(t))),
        XmlOut::End(n) => writer.write_event(Event::End(BytesEnd::new(*n))),
    };
    let _ = result;
    writer.into_inner()
}

} // verus!
