//! The XML tokenizer as seen by the element readers: a pull stream of events
//! over a byte slice, backed by quick-xml.
use quick_xml::events::Event;
use vstd::prelude::*;

verus! {

/// A start tag: the element's name and the raw text of its attribute list.
pub struct StartTag {
    pub name: Vec<u8>,
    pub attributes: Vec<u8>,
}

/// One event of the pull stream. Text holds the raw, still escaped bytes.
/// Comments, declarations, self-closing tags and the like are `Other`.
pub enum XmlEvent {
    Start(StartTag),
    End(Vec<u8>),
    Text(Vec<u8>),
    Eof,
    Other,
}

/// The events still to come from a stream; `None` stands for a markup error.
pub type Events = Seq<Option<XmlEvent>>;

/// An attribute as listed from a tag: `None` for a malformed one.
pub type AttributeItem = Option<(Seq<u8>, Seq<u8>)>;

pub open spec fn is_final_event(e: Option<XmlEvent>) -> bool {
    e is None || e matches Some(XmlEvent::Eof)
}

/// A stream of events that ends with end of input or a markup error.
pub open spec fn well_ended(s: Events) -> bool {
    s.len() > 0 && is_final_event(s.last())
}

/// The events that quick-xml produces for a whole input, up to and including
/// the first end of input or markup error.
pub uninterp spec fn xml_events(input: Seq<u8>) -> Events;

/// The events that a reader has still to hand out.
pub uninterp spec fn pending_events(r: XmlReader) -> Events;

/// Text content after unescaping and UTF-8 decoding; `None` where that fails.
pub uninterp spec fn unescaped_text(raw: Seq<u8>) -> Option<Seq<char>>;

/// An attribute value after unescaping and UTF-8 decoding; `None` where that fails.
pub uninterp spec fn unescaped_value(raw: Seq<u8>) -> Option<Seq<char>>;

/// The attributes that quick-xml lists from the raw attribute text of a tag.
pub uninterp spec fn attribute_items(raw: Seq<u8>) -> Seq<AttributeItem>;

#[verifier::external_type_specification]
#[verifier::external_body]
pub struct ExXmlError(quick_xml::Error);

/// A pull stream of XML events over a byte slice.
#[verifier::external_body]
pub struct XmlReader<'a> {
    inner: quick_xml::Reader<&'a [u8]>,
}

pub open spec fn attribute_view(a: Option<(Vec<u8>, Vec<u8>)>) -> AttributeItem {
    match a {
        Some((k, v)) => Some((k@, v@)),
        None => None,
    }
}

impl<'a> XmlReader<'a> {
    pub open spec fn pending(self) -> Events {
        pending_events(self)
    }

    /// Relies on quick_xml::Reader::from_reader: over a byte slice the events depend
    /// on the bytes alone; each event but the last consumes at least one byte, and
    /// once end of input or an error is reached the reader only reports end of input.
    #[verifier::external_body]
    fn from_slice(input: &'a [u8]) -> (r: XmlReader<'a>)
        ensures
            pending_events(r) == xml_events(input@),
            well_ended(pending_events(r)),
    {
        XmlReader { inner: quick_xml::Reader::from_reader(input) }
    }

    /// A stream over the events of `input`.
    pub fn new(input: &'a [u8]) -> (r: XmlReader<'a>)
        ensures
            pending_events(r) == xml_events(input@),
            well_ended(pending_events(r)),
    {
        XmlReader::from_slice(input)
    }

    /// Relies on quick_xml::Reader::read_event: it hands out the next pending event.
    #[verifier::external_body]
    pub(crate) fn next_event(&mut self) -> (r: Result<XmlEvent, quick_xml::Error>)
        requires
            pending_events(*old(self)).len() > 0,
        ensures
            pending_events(*final(self)) == pending_events(*old(self)).drop_first(),
            match r {
                Ok(e) => pending_events(*old(self))[0] == Some(e),
                Err(_) => pending_events(*old(self))[0] is None,
            },
    {
        let mut buf = Vec::new();
        match self.inner.read_event(&mut buf) {
            Ok(Event::Start(e)) => Ok(XmlEvent::Start(StartTag {
                name: e.name().to_vec(),
                attributes: e.attributes_raw().to_vec(),
            })),
            Ok(Event::End(e)) => Ok(XmlEvent::End(e.name().to_vec())),
            Ok(Event::Text(e)) => Ok(XmlEvent::Text(e.escaped().to_vec())),
            Ok(Event::Eof) => Ok(XmlEvent::Eof),
            Ok(_) => Ok(XmlEvent::Other),
            Err(e) => Err(e),
        }
    }

    /// Relies on quick_xml::events::BytesText::unescape_and_decode: without the
    /// `encoding` feature the reader decodes as UTF-8, so the result depends on the
    /// raw bytes alone.
    #[verifier::external_body]
    pub(crate) fn decode_text(&self, raw: &[u8]) -> (r: Result<String, quick_xml::Error>)
        ensures
            match r {
                Ok(t) => unescaped_text(raw@) == Some(t@),
                Err(_) => unescaped_text(raw@) is None,
            },
    {
        quick_xml::events::BytesText::from_escaped(raw).unescape_and_decode(&self.inner)
    }

    /// Relies on quick_xml::events::attributes::Attribute::unescape_and_decode_value:
    /// without the `encoding` feature the result depends on the raw value alone.
    #[verifier::external_body]
    pub(crate) fn decode_value(&self, raw: &[u8]) -> (r: Result<String, quick_xml::Error>)
        ensures
            match r {
                Ok(t) => unescaped_value(raw@) == Some(t@),
                Err(_) => unescaped_value(raw@) is None,
            },
    {
        let attribute = quick_xml::events::attributes::Attribute {
            key: &[],
            value: std::borrow::Cow::Borrowed(raw),
        };
        attribute.unescape_and_decode_value(&self.inner)
    }
}

/// Relies on quick_xml::events::attributes::Attributes: the attributes parsed from
/// the raw attribute text of a tag, each malformed one (it ends the list) as `None`.
#[verifier::external_body]
pub(crate) fn attribute_list(raw: &[u8]) -> (r: Vec<Option<(Vec<u8>, Vec<u8>)>>)
    ensures
        r@.len() == attribute_items(raw@).len(),
        forall|i: int|
            0 <= i < r@.len() ==> attribute_view(#[trigger] r@[i]) == attribute_items(raw@)[i],
{
    quick_xml::events::attributes::Attributes::new(raw, 0)
        .map(|a| a.ok().map(|a| (a.key.to_vec(), a.value.into_owned())))
        .collect()
}

} // verus!
