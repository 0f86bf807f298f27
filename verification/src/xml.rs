//! Reading an XML text event by event with quick-xml's reader.
//!
//! The reader keeps beside quick-xml's own state what its events depend on:
//! the text, whether text is trimmed, and how many events it has handed
//! out. Only the functions of this module make or move a reader, so that
//! record always describes the reader it sits in.
use vstd::prelude::*;

use crate::manifest::{XmlAttr, XmlElement, XmlElementView};

verus! {

#[verifier::external_type_specification]
#[verifier::external_body]
#[verifier::reject_recursive_types(R)]
pub struct ExXmlReader<R>(quick_xml::reader::Reader<R>);

/// What the XML reader hands out, as far as manifests care.
#[derive(Clone, Debug)]
pub enum XmlEvent {
    /// An empty-element tag `<name attr="value" ... />`.
    Empty(XmlElement),
    /// The end of the document.
    Eof,
    /// Any other event.
    Other,
    /// The reader failed.
    Error,
}

/// What an [`XmlEvent`] holds, as bytes.
pub enum XmlEventView {
    /// An empty-element tag.
    Empty(XmlElementView),
    /// The end of the document.
    Eof,
    /// Any other event.
    Other,
    /// The reader failed.
    Error,
}

impl View for XmlEvent {
    type V = XmlEventView;

    open spec fn view(&self) -> XmlEventView {
        match self {
            XmlEvent::Empty(e) => XmlEventView::Empty(e@),
            XmlEvent::Eof => XmlEventView::Eof,
            XmlEvent::Other => XmlEventView::Other,
            XmlEvent::Error => XmlEventView::Error,
        }
    }
}

/// The event that quick-xml's reader over `text`, set to trim whitespace
/// around text where `trimmed` holds, hands out as its `index`-th (counted
/// from 0): for an empty-element tag, its raw name and its attributes in
/// order (raw key and raw value each, `None` for one that does not parse).
pub uninterp spec fn spec_xml_event(text: Seq<char>, trimmed: bool, index: nat) -> XmlEventView;

/// A quick-xml reader over a text, with the record of what its next event
/// depends on.
pub(crate) struct XmlReader<'a> {
    reader: quick_xml::reader::Reader<&'a [u8]>,
    text: Ghost<Seq<char>>,
    trimmed: Ghost<bool>,
    count: Ghost<nat>,
}

impl<'a> XmlReader<'a> {
    /// The text being read.
    pub closed spec fn spec_text(&self) -> Seq<char> {
        self.text@
    }

    /// Whether whitespace around text is trimmed.
    pub closed spec fn spec_trimmed(&self) -> bool {
        self.trimmed@
    }

    /// How many events the reader has handed out.
    pub closed spec fn spec_count(&self) -> nat {
        self.count@
    }
}

/// `quick_xml::reader::Reader::from_str`: a reader at the start of the
/// given text, not trimming text.
#[verifier::external_body]
pub(crate) fn xml_reader<'a>(text: &'a str) -> (r: XmlReader<'a>)
    ensures
        r.spec_text() == text@,
        !r.spec_trimmed(),
        r.spec_count() == 0,
{
    XmlReader {
        reader: quick_xml::reader::Reader::from_str(text),
        text: Ghost(text@),
        trimmed: Ghost(false),
        count: Ghost(0),
    }
}

/// `quick_xml::reader::Reader::trim_text(true)`: have a reader that has
/// handed out no event yet trim whitespace around text.
#[verifier::external_body]
pub(crate) fn xml_trim_text(reader: &mut XmlReader)
    requires
        old(reader).spec_count() == 0,
    ensures
        final(reader).spec_text() == old(reader).spec_text(),
        final(reader).spec_trimmed(),
        final(reader).spec_count() == 0,
{
    reader.reader.trim_text(true);
    reader.trimmed = Ghost(true);
}

/// `quick_xml::reader::Reader::read_event`: the next event, as
/// [`spec_xml_event`] names it for the reader's text, its trimming and the
/// number of events handed out before; that number goes up by one.
#[verifier::external_body]
pub(crate) fn xml_read_event(reader: &mut XmlReader) -> (r: XmlEvent)
    ensures
        r@ == spec_xml_event(old(reader).spec_text(), old(reader).spec_trimmed(), old(reader).spec_count()),
        final(reader).spec_text() == old(reader).spec_text(),
        final(reader).spec_trimmed() == old(reader).spec_trimmed(),
        final(reader).spec_count() == old(reader).spec_count() + 1,
{
    reader.count = Ghost(reader.count@ + 1);
    match reader.reader.read_event() {
        Ok(quick_xml::events::Event::Empty(e)) => XmlEvent::Empty(XmlElement {
            name: e.name().as_ref().to_vec(),
            attrs: e.attributes().map(
                |a| a.ok().map(|a| XmlAttr { key: a.key.as_ref().to_vec(), value: a.value.to_vec() }),
            ).collect(),
        }),
        Ok(quick_xml::events::Event::Eof) => XmlEvent::Eof,
        Ok(_) => XmlEvent::Other,
        Err(_) => XmlEvent::Error,
    }
}

} // verus!
