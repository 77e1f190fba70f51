//! Protocol negotiation between the JSON and XML forms of the INDIGO protocol.
//!
//! JSON messages start with `{`, XML messages with `<`. A negotiator tries its
//! preferred protocol first (JSON by default) and, when JSON fails and fallback is
//! enabled, falls back to XML. A try fails when its request cannot be sent, when no
//! reply comes, or when the reply is not in the protocol tried. The negotiation
//! itself is a small state machine: the negotiator says which protocol to try and
//! with which request, the caller sends the request over its transport and reports
//! the outcome, then reads the server's reply and reports it, and the negotiator
//! says what follows.
use vstd::prelude::*;
use crate::error::IndigoError;
use crate::strategies::rs::protocol::{GetProperties, MessageView, ProtocolMessage};
use crate::strategies::rs::write::{message_out, message_xml, out_text};
use crate::strategies::rs::xml::{xml_out_text, XmlOutView};
use vstd::utf8::encode_utf8;

verus! {

/// Protocol type for INDIGO communication.
#[derive(Debug, Clone, Copy, PartialEq, Eq, Structural)]
pub enum ProtocolType {
    /// JSON protocol (version 512, equivalent to XML 2.0)
    Json,
    /// XML protocol (version 1.7 or 2.0)
    Xml,
}

/// Whether a byte is white space before a message: blank, tab, line feed or
/// carriage return.
pub open spec fn is_blank(b: u8) -> bool {
    b == 32 || b == 9 || b == 10 || b == 13
}

/// The protocol of a message: that of its first byte after white space, `{` for
/// JSON and `<` for XML; none when that byte is anything else or there is none.
pub open spec fn spec_detect(data: Seq<u8>) -> Option<ProtocolType>
    decreases data.len(),
{
    if data.len() == 0 {
        None
    } else if is_blank(data[0]) {
        spec_detect(data.drop_first())
    } else if data[0] == 123 {
        Some(ProtocolType::Json)
    } else if data[0] == 60 {
        Some(ProtocolType::Xml)
    } else {
        None
    }
}

impl ProtocolType {
    pub open spec fn spec_version_string(self) -> &'static str {
        match self {
            ProtocolType::Json => "512",
            ProtocolType::Xml => "1.7",
        }
    }

    pub open spec fn spec_text(self) -> &'static str {
        match self {
            ProtocolType::Json => "JSON",
            ProtocolType::Xml => "XML",
        }
    }

    /// Returns the protocol version string for this protocol type.
    pub fn version_string(&self) -> (r: &'static str)
        ensures
            r == self.spec_version_string(),
    {
        match self {
            ProtocolType::Json => "512",
            ProtocolType::Xml => "1.7",
        }
    }

    /// The name of the protocol: `JSON` or `XML`.
    pub fn text(&self) -> (r: &'static str)
        ensures
            r == self.spec_text(),
    {
        match self {
            ProtocolType::Json => "JSON",
            ProtocolType::Xml => "XML",
        }
    }

    /// Detects the protocol type from the first non-whitespace byte of data:
    /// `Json` for `{`, `Xml` for `<`, and none otherwise.
    pub fn detect_from_data(data: &[u8]) -> (r: Option<ProtocolType>)
        ensures
            r == spec_detect(data@),
    {
        let mut i: usize = 0;
        assert(data@.subrange(0, data@.len() as int) =~= data@);
        while i < data.len()
            invariant
                i <= data@.len(),
                spec_detect(data@) == spec_detect(data@.subrange(i as int, data@.len() as int)),
            decreases data.len() - i,
        {
            let b = data[i];
            assert(data@.subrange(i as int, data@.len() as int).drop_first() =~= data@.subrange(
                i + 1,
                data@.len() as int,
            ));
            if b == 32 || b == 9 || b == 10 || b == 13 {
                i = i + 1;
            } else if b == 123 {
                return Some(ProtocolType::Json);
            } else if b == 60 {
                return Some(ProtocolType::Xml);
            } else {
                return None;
            }
        }
        None
    }
}

impl Default for ProtocolType {
    /// Default protocol is JSON (preferred).
    fn default() -> (r: ProtocolType)
        ensures
            r == ProtocolType::Json,
    {
        ProtocolType::Json
    }
}

/// The configuration of a negotiator.
pub struct NegotiatorView {
    pub preferred: ProtocolType,
    pub fallback_enabled: bool,
}

/// Protocol negotiator for establishing the protocol with a server: it tries the
/// preferred protocol first and, when that is JSON, may fall back to XML.
#[derive(Debug, Clone)]
pub struct ProtocolNegotiator {
    /// Preferred protocol to try first.
    preferred: ProtocolType,
    /// Whether to enable fallback to the alternate protocol.
    fallback_enabled: bool,
}

impl View for ProtocolNegotiator {
    type V = NegotiatorView;

    closed spec fn view(&self) -> NegotiatorView {
        NegotiatorView { preferred: self.preferred, fallback_enabled: self.fallback_enabled }
    }
}

/// The `getProperties` request that tries a protocol: it carries the protocol's
/// version and names no device and no property.
pub open spec fn request_view(p: ProtocolType) -> MessageView {
    MessageView::GetProperties(Some(p.spec_version_string()@), None, None)
}

/// What a negotiation does next.
#[derive(Debug)]
pub enum NegotiationStep {
    /// Switch the transport to the protocol and send the request over it.
    Try(ProtocolType, ProtocolMessage),
    /// Read the server's reply to the request of the protocol tried.
    AwaitReply(ProtocolType),
    /// The negotiation is over, with the negotiated protocol or the error.
    Done(Result<ProtocolType, IndigoError>),
}

/// The message with which a failed JSON try ends a negotiation that may not fall back.
pub open spec fn no_fallback_message(m: Seq<char>, e: IndigoError) -> bool {
    let prefix = "JSON protocol not supported and fallback disabled: "@;
    &&& m.len() >= prefix.len()
    &&& m.take(prefix.len() as int) == prefix
    &&& (e is IoError ==> e.spec_text().is_prefix_of(m.skip(prefix.len() as int)))
    &&& (!(e is IoError) ==> m.skip(prefix.len() as int) == e.spec_text())
}

/// The step after a try of `tried` failed with `e`: a failed JSON try falls back to
/// XML when the negotiator prefers JSON and may fall back, and ends with a protocol
/// error when it may not; any other failure ends the negotiation with that failure.
pub open spec fn spec_failed_try(n: NegotiatorView, tried: ProtocolType, e: IndigoError, r: NegotiationStep) -> bool {
    if tried == ProtocolType::Json && n.preferred == ProtocolType::Json {
        if n.fallback_enabled {
            r matches NegotiationStep::Try(p, m) && p == ProtocolType::Xml && m@ == request_view(ProtocolType::Xml)
        } else {
            r matches NegotiationStep::Done(Err(IndigoError::ProtocolError(m))) && no_fallback_message(m@, e)
        }
    } else {
        r == NegotiationStep::Done(Err(e))
    }
}

/// The step that follows sending the request of a try: the reply is awaited once the
/// request is sent; a failed send is a failed try.
pub open spec fn spec_after_try(n: NegotiatorView, tried: ProtocolType, sent: Result<(), IndigoError>, r: NegotiationStep) -> bool {
    match sent {
        Ok(()) => r matches NegotiationStep::AwaitReply(p) && p == tried,
        Err(e) => spec_failed_try(n, tried, e, r),
    }
}

/// The detail of the error for a reply that is not in the protocol tried.
pub open spec fn wrong_reply_text(tried: ProtocolType) -> Seq<char> {
    "Server did not reply in "@ + tried.spec_text()@
}

/// Whether `e` is the error for a reply that is not in the protocol tried.
pub open spec fn is_wrong_reply_error(tried: ProtocolType, e: IndigoError) -> bool {
    e matches IndigoError::ProtocolError(m) && m@ == wrong_reply_text(tried)
}

/// The step that follows the server's reply to a try: a reply detected as the
/// protocol tried negotiates it; a reply in another protocol or in none, and a reply
/// that could not be read, are failed tries.
pub open spec fn spec_after_reply(
    n: NegotiatorView,
    tried: ProtocolType,
    reply: Result<Vec<u8>, IndigoError>,
    r: NegotiationStep,
) -> bool {
    match reply {
        Ok(data) => if spec_detect(data@) == Some(tried) {
            r matches NegotiationStep::Done(Ok(p)) && p == tried
        } else {
            exists|e: IndigoError| is_wrong_reply_error(tried, e) && #[trigger] spec_failed_try(n, tried, e, r)
        },
        Err(e) => spec_failed_try(n, tried, e, r),
    }
}

impl ProtocolNegotiator {
    /// Creates a new protocol negotiator.
    pub fn new(preferred: ProtocolType, fallback_enabled: bool) -> (r: ProtocolNegotiator)
        ensures
            r@ == (NegotiatorView { preferred, fallback_enabled }),
    {
        ProtocolNegotiator { preferred, fallback_enabled }
    }

    /// Creates a negotiator with JSON-first strategy and XML fallback.
    pub fn json_first() -> (r: ProtocolNegotiator)
        ensures
            r@ == (NegotiatorView { preferred: ProtocolType::Json, fallback_enabled: true }),
    {
        Self::new(ProtocolType::Json, true)
    }

    /// Creates a negotiator that only uses JSON protocol.
    pub fn json_only() -> (r: ProtocolNegotiator)
        ensures
            r@ == (NegotiatorView { preferred: ProtocolType::Json, fallback_enabled: false }),
    {
        Self::new(ProtocolType::Json, false)
    }

    /// Creates a negotiator that only uses XML protocol.
    pub fn xml_only() -> (r: ProtocolNegotiator)
        ensures
            r@ == (NegotiatorView { preferred: ProtocolType::Xml, fallback_enabled: false }),
    {
        Self::new(ProtocolType::Xml, false)
    }

    /// The protocol tried first.
    pub fn preferred(&self) -> (r: ProtocolType)
        ensures
            r == self@.preferred,
    {
        self.preferred
    }

    /// Whether a failed JSON try falls back to XML.
    pub fn fallback_enabled(&self) -> (r: bool)
        ensures
            r == self@.fallback_enabled,
    {
        self.fallback_enabled
    }

    /// The `getProperties` request that tries `protocol`.
    fn request(protocol: ProtocolType) -> (r: ProtocolMessage)
        ensures
            r@ == request_view(protocol),
    {
        ProtocolMessage::GetProperties(
            GetProperties { version: Some(protocol.version_string().to_owned()), device: None, name: None },
        )
    }

    /// The first step of a negotiation: try the preferred protocol.
    pub fn start(&self) -> (r: NegotiationStep)
        ensures
            r matches NegotiationStep::Try(p, m) && p == self@.preferred && m@ == request_view(p),
    {
        NegotiationStep::Try(self.preferred, Self::request(self.preferred))
    }

    /// The step after a try of `tried` failed with `e`.
    fn failed_try(&self, tried: ProtocolType, e: IndigoError) -> (r: NegotiationStep)
        ensures
            spec_failed_try(self@, tried, e, r),
    {
        if tried == ProtocolType::Json && self.preferred == ProtocolType::Json {
            if self.fallback_enabled {
                NegotiationStep::Try(ProtocolType::Xml, Self::request(ProtocolType::Xml))
            } else {
                let prefix = "JSON protocol not supported and fallback disabled: ";
                let mut m = prefix.to_owned();
                let t = e.text();
                m.append(t.as_str());
                proof {
                    reveal_strlit("JSON protocol not supported and fallback disabled: ");
                    assert(m@.take(prefix@.len() as int) =~= prefix@);
                    assert(m@.skip(prefix@.len() as int) =~= t@);
                }
                NegotiationStep::Done(Err(IndigoError::ProtocolError(m)))
            }
        } else {
            NegotiationStep::Done(Err(e))
        }
    }

    /// The step after sending the request of a try of `tried`, where `sent` is the
    /// outcome of the send: once the request is sent, the server's reply is
    /// awaited; a failed send is a failed try.
    pub fn after_try(&self, tried: ProtocolType, sent: Result<(), IndigoError>) -> (r: NegotiationStep)
        ensures
            spec_after_try(self@, tried, sent, r),
    {
        match sent {
            Ok(()) => NegotiationStep::AwaitReply(tried),
            Err(e) => self.failed_try(tried, e),
        }
    }

    /// The step after the server's reply to a try of `tried`: a reply detected as
    /// the protocol tried negotiates it; a reply in another protocol, or one that
    /// could not be read, is a failed try, which falls back from JSON to XML where
    /// the negotiator allows it.
    pub fn after_reply(&self, tried: ProtocolType, reply: Result<Vec<u8>, IndigoError>) -> (r: NegotiationStep)
        ensures
            spec_after_reply(self@, tried, reply, r),
    {
        match reply {
            Ok(data) => {
                let detected = ProtocolType::detect_from_data(data.as_slice());
                let matched = match detected {
                    Some(p) => p == tried,
                    None => false,
                };
                if matched {
                    NegotiationStep::Done(Ok(tried))
                } else {
                    let mut m = "Server did not reply in ".to_owned();
                    m.append(tried.text());
                    let e = IndigoError::ProtocolError(m);
                    let ghost ge = e;
                    let r = self.failed_try(tried, e);
                    proof {
                        assert(is_wrong_reply_error(tried, ge));
                        assert(spec_failed_try(self@, tried, ge, r));
                    }
                    r
                }
            },
            Err(e) => self.failed_try(tried, e),
        }
    }
}

impl Default for ProtocolNegotiator {
    /// Default negotiator uses JSON-first strategy with XML fallback.
    fn default() -> (r: ProtocolNegotiator)
        ensures
            r@ == (NegotiatorView { preferred: ProtocolType::Json, fallback_enabled: true }),
    {
        Self::json_first()
    }
}

// ---------------------------------------------------------------------------
// Laws
// ---------------------------------------------------------------------------

/// Detection skips the white space before a message: blanks in front of data do not
/// change the protocol detected.
pub proof fn lemma_detect_skips_blanks(blanks: Seq<u8>, data: Seq<u8>)
    requires
        forall|i: int| 0 <= i < blanks.len() ==> is_blank(#[trigger] blanks[i]),
    ensures
        spec_detect(blanks + data) == spec_detect(data),
    decreases blanks.len(),
{
    if blanks.len() > 0 {
        assert((blanks + data).drop_first() =~= blanks.drop_first() + data);
        assert(is_blank(blanks[0]));
        lemma_detect_skips_blanks(blanks.drop_first(), data);
    } else {
        assert(blanks + data =~= data);
    }
}

/// The text written for a sequence of events starts with the first character
/// written for its first event.
proof fn lemma_out_text_starts_with_first(s: Seq<XmlOutView>)
    requires
        s.len() > 0,
        xml_out_text(s[0]).len() > 0,
    ensures
        out_text(s).len() > 0,
        out_text(s)[0] == xml_out_text(s[0])[0],
    decreases s.len(),
{
    let a = out_text(s.drop_last());
    let b = xml_out_text(s.last());
    assert(out_text(s) == a + b);
    if s.len() > 1 {
        lemma_out_text_starts_with_first(s.drop_last());
        assert(s.drop_last()[0] == s[0]);
        assert((a + b)[0] == a[0]);
    } else {
        assert(a =~= Seq::<char>::empty());
        assert(s.last() == s[0]);
        assert((a + b)[0] == b[0]);
    }
}

/// Every serialized message is detected as XML: its bytes start with `<`.
pub proof fn lemma_serialized_message_is_xml(m: MessageView)
    ensures
        spec_detect(encode_utf8(message_xml(m))) == Some(ProtocolType::Xml),
{
    reveal_strlit("<");
    let s = message_out(m);
    assert(s.len() > 0 && (s[0] is Start || s[0] is Empty));
    assert(xml_out_text(s[0]).len() > 0 && xml_out_text(s[0])[0] == '<');
    lemma_out_text_starts_with_first(s);
    let t = message_xml(m);
    assert(('<' as u32) == 60u32);
    assert((60u32 & 0x7Fu32) as u8 == 60u8) by (bit_vector);
    assert(encode_utf8(t)[0] == 60u8);
}

/// A failed try falls back only from JSON, to XML, and only when the negotiator
/// prefers JSON and may fall back; after an XML try it is over, so a negotiation
/// tries at most two protocols.
pub proof fn lemma_failed_try_steps(n: NegotiatorView, tried: ProtocolType, e: IndigoError, r: NegotiationStep)
    requires
        spec_failed_try(n, tried, e, r),
    ensures
        r is Try ==> {
            &&& r->Try_0 == ProtocolType::Xml
            &&& tried == ProtocolType::Json
            &&& n.preferred == ProtocolType::Json
            &&& n.fallback_enabled
        },
        tried == ProtocolType::Xml ==> r is Done,
        !(r matches NegotiationStep::Done(Ok(_))),
        !(r is AwaitReply),
{
}

/// A negotiation succeeds with a protocol only when, after its request was sent, the
/// server's reply was detected as that protocol; a sent request always awaits the
/// reply, and a failed send or a wrong reply falls back as a failed try does.
pub proof fn lemma_negotiation_steps(
    n: NegotiatorView,
    tried: ProtocolType,
    sent: Result<(), IndigoError>,
    r1: NegotiationStep,
    reply: Result<Vec<u8>, IndigoError>,
    r2: NegotiationStep,
)
    requires
        spec_after_try(n, tried, sent, r1),
        spec_after_reply(n, tried, reply, r2),
    ensures
        sent is Ok ==> (r1 matches NegotiationStep::AwaitReply(p) && p == tried),
        sent is Err ==> !(r1 matches NegotiationStep::Done(Ok(_))),
        r2 matches NegotiationStep::Done(Ok(p)) ==> (p == tried && (reply matches Ok(d) && spec_detect(d@) == Some(tried))),
        r2 is Try ==> (r2->Try_0 == ProtocolType::Xml && tried == ProtocolType::Json && n.preferred == ProtocolType::Json
            && n.fallback_enabled),
        !(r2 is AwaitReply),
        tried == ProtocolType::Xml ==> r2 is Done,
{
    if let Err(e) = sent {
        lemma_failed_try_steps(n, tried, e, r1);
    }
    match reply {
        Ok(d) => {
            if spec_detect(d@) != Some(tried) {
                let e = choose|e: IndigoError| is_wrong_reply_error(tried, e) && #[trigger] spec_failed_try(n, tried, e, r2);
                lemma_failed_try_steps(n, tried, e, r2);
            }
        },
        Err(e) => {
            lemma_failed_try_steps(n, tried, e, r2);
        },
    }
}

} // verus!
