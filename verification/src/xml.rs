use vstd::prelude::*;

verus! {

#[verifier::external_type_specification]
#[verifier::external_body]
pub struct ExXmlWriter(xmlwriter::XmlWriter);

/// What the streaming XML writer holds: the sequence of writing events it
/// has accepted so far. Each event is a tag with up to two strings: element
/// starts and ends, attributes, text nodes, and whitespace-mode switches.
pub uninterp spec fn xml_events(w: xmlwriter::XmlWriter) -> Seq<(u8, Seq<char>, Seq<char>)>;

/// The document text the writer renders for a given event sequence.
pub uninterp spec fn xml_render(events: Seq<(u8, Seq<char>, Seq<char>)>) -> Seq<char>;

/// Event tag: an element start.
pub const EV_START: u8 = 0;

/// Event tag: an attribute on the open element.
pub const EV_ATTR: u8 = 1;

/// Event tag: a text node.
pub const EV_TEXT: u8 = 2;

/// Event tag: an element end.
pub const EV_END: u8 = 3;

/// Event tag: whitespace preservation switched on.
pub const EV_PRESERVE_ON: u8 = 4;

/// Event tag: whitespace preservation switched off.
pub const EV_PRESERVE_OFF: u8 = 5;

pub open spec fn ev_start(name: Seq<char>) -> (u8, Seq<char>, Seq<char>) {
    (EV_START, name, Seq::empty())
}

pub open spec fn ev_attr(name: Seq<char>, value: Seq<char>) -> (u8, Seq<char>, Seq<char>) {
    (EV_ATTR, name, value)
}

pub open spec fn ev_text(text: Seq<char>) -> (u8, Seq<char>, Seq<char>) {
    (EV_TEXT, text, Seq::empty())
}

pub open spec fn ev_end() -> (u8, Seq<char>, Seq<char>) {
    (EV_END, Seq::empty(), Seq::empty())
}

pub open spec fn ev_preserve(on: bool) -> (u8, Seq<char>, Seq<char>) {
    (
        if on {
            EV_PRESERVE_ON
        } else {
            EV_PRESERVE_OFF
        },
        Seq::empty(),
        Seq::empty(),
    )
}

/// The writer's element depth after an event sequence: starts push, ends pop
/// when anything is open.
pub open spec fn xml_depth(events: Seq<(u8, Seq<char>, Seq<char>)>) -> int
    decreases events.len(),
{
    if events.len() == 0 {
        0
    } else {
        let d = xml_depth(events.drop_last());
        if events.last().0 == EV_START {
            d + 1
        } else if events.last().0 == EV_END {
            if d > 0 {
                d - 1
            } else {
                0
            }
        } else {
            d
        }
    }
}

/// Whether the writer still accepts attributes: the last structural event
/// was an element start, possibly followed only by attributes and
/// whitespace-mode switches.
pub open spec fn xml_attrs_open(events: Seq<(u8, Seq<char>, Seq<char>)>) -> bool
    decreases events.len(),
{
    if events.len() == 0 {
        false
    } else if events.last().0 == EV_START {
        true
    } else if events.last().0 == EV_ATTR || events.last().0 == EV_PRESERVE_ON || events.last().0
        == EV_PRESERVE_OFF {
        xml_attrs_open(events.drop_last())
    } else {
        false
    }
}

/// The element depth is never negative.
pub broadcast proof fn lemma_xml_depth_nonneg(s: Seq<(u8, Seq<char>, Seq<char>)>)
    ensures
        #[trigger] xml_depth(s) >= 0,
    decreases s.len(),
{
    if s.len() > 0 {
        lemma_xml_depth_nonneg(s.drop_last());
    }
}

/// Appending one event changes the element depth as its tag dictates.
pub broadcast proof fn lemma_xml_depth_push(s: Seq<(u8, Seq<char>, Seq<char>)>, e: (u8, Seq<char>, Seq<char>))
    ensures
        #[trigger] xml_depth(s.push(e)) == ({
            let d = xml_depth(s);
            if e.0 == EV_START {
                d + 1
            } else if e.0 == EV_END {
                if d > 0 {
                    d - 1
                } else {
                    0
                }
            } else {
                d
            }
        }),
{
    assert(s.push(e).drop_last() =~= s);
}

/// Appending one event leaves attributes writable exactly as its tag
/// dictates.
pub broadcast proof fn lemma_xml_attrs_push(s: Seq<(u8, Seq<char>, Seq<char>)>, e: (u8, Seq<char>, Seq<char>))
    ensures
        #[trigger] xml_attrs_open(s.push(e)) == (if e.0 == EV_START {
            true
        } else if e.0 == EV_ATTR || e.0 == EV_PRESERVE_ON || e.0 == EV_PRESERVE_OFF {
            xml_attrs_open(s)
        } else {
            false
        }),
{
    assert(s.push(e).drop_last() =~= s);
}

/// Relies on `xmlwriter::XmlWriter::new`: a fresh writer has written
/// nothing. The writer is configured with single quotes and two-space
/// indentation, the layout every document of this crate uses.
#[verifier::external_body]
pub fn new_xml_writer() -> (w: xmlwriter::XmlWriter)
    ensures
        xml_events(w) == Seq::<(u8, Seq<char>, Seq<char>)>::empty(),
{
    let opt = xmlwriter::Options {
        use_single_quote: true,
        attributes_indent: xmlwriter::Indent::Spaces(2),
        indent: xmlwriter::Indent::Spaces(2),
    };
    xmlwriter::XmlWriter::new(opt)
}

/// Relies on `xmlwriter::XmlWriter::start_element`: opens an element; never
/// panics.
#[verifier::external_body]
pub fn xml_start_element(w: &mut xmlwriter::XmlWriter, name: &str)
    ensures
        xml_events(*final(w)) == xml_events(*old(w)).push(ev_start(name@)),
{
    w.start_element(name)
}

/// Relies on `xmlwriter::XmlWriter::write_attribute`: writes an attribute on
/// the open element; panics unless called while an element start is still
/// accepting attributes.
#[verifier::external_body]
pub fn xml_write_attribute(w: &mut xmlwriter::XmlWriter, name: &str, value: &str)
    requires
        xml_attrs_open(xml_events(*old(w))),
    ensures
        xml_events(*final(w)) == xml_events(*old(w)).push(ev_attr(name@, value@)),
{
    w.write_attribute(name, value)
}

/// Relies on `xmlwriter::XmlWriter::write_text`: writes a text node; panics
/// when no element is open.
#[verifier::external_body]
pub fn xml_write_text(w: &mut xmlwriter::XmlWriter, text: &str)
    requires
        xml_depth(xml_events(*old(w))) > 0,
    ensures
        xml_events(*final(w)) == xml_events(*old(w)).push(ev_text(text@)),
{
    w.write_text(text)
}

/// Relies on `xmlwriter::XmlWriter::end_element`: closes the innermost open
/// element; never panics.
#[verifier::external_body]
pub fn xml_end_element(w: &mut xmlwriter::XmlWriter)
    ensures
        xml_events(*final(w)) == xml_events(*old(w)).push(ev_end()),
{
    w.end_element()
}

/// Relies on `xmlwriter::XmlWriter::set_preserve_whitespaces`: switches text
/// indentation off or on; never panics.
#[verifier::external_body]
pub fn xml_set_preserve_whitespaces(w: &mut xmlwriter::XmlWriter, preserve: bool)
    ensures
        xml_events(*final(w)) == xml_events(*old(w)).push(ev_preserve(preserve)),
{
    w.set_preserve_whitespaces(preserve)
}

/// Relies on `xmlwriter::XmlWriter::end_document`: closes every open
/// element and renders the document; the text is a function of the accepted
/// events alone; never panics.
#[verifier::external_body]
pub fn xml_end_document(w: xmlwriter::XmlWriter) -> (s: String)
    ensures
        s@ == xml_render(xml_events(w)),
{
    w.end_document()
}

} // verus!
