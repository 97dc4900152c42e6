//! Reading of a protocol definition from the events of an XML reader.
//!
//! The aggregator walks the events once, descending into the tags it knows. What it builds is
//! stated by spec functions that take the events and the position of the next one to read, and
//! return the result with the position after the last event they read.

use vstd::prelude::*;

use crate::scanner::{Error, ErrorView, result_view};
use crate::scanner::model::{
    attribute_value, get_attr, get_optional_attr, rust_type_named, valid_name, Argument,
    ArgumentView, Attribute, Document, DocumentView, Entry, EntryView, Enum, EnumView, Event,
    Interface, InterfaceView, MessageView, Request, RustType, Text,
};
use crate::text::{parse_int_message, parse_u32, parsed_u32, str_eq};
use xml::reader::XmlEvent as ReaderEvent;

verus! {

/// An event of an XML reader, with what the aggregator reads of it.
#[derive(Debug, Clone)]
pub enum XmlEvent {
    /// Start of an element: its local name, its name as the reader displays it (with namespace
    /// and prefix), and its attributes.
    StartElement { name: String, display_name: String, attributes: Vec<Attribute> },
    /// End of an element, with its local name.
    EndElement { name: String },
    /// Text between tags.
    Characters(String),
    /// End of the document.
    EndDocument,
    /// Any other event (start of the document, comments, white space, ...).
    Other,
    /// A failure of the reader, with its message.
    Error(String),
}

/// The events an XML reader produces for a text.
pub uninterp spec fn xml_events(text: Seq<u8>) -> Seq<XmlEvent>;

/// Reads `text` with `xml::reader::EventReader` (xml-rs) and returns its events up to and
/// including the end of the document or the first failure, each converted one for one. The
/// events are a function of the text alone.
#[verifier::external_body]
pub fn read_xml_events(text: &[u8]) -> (result: Vec<XmlEvent>)
    ensures
        result@ == xml_events(text@),
{
    xml::reader::EventReader::new(text).into_iter().map(|event| match event {
        Ok(ReaderEvent::StartElement { name, attributes, .. }) => XmlEvent::StartElement {
            display_name: format!("{}", name),
            name: name.local_name,
            attributes: attributes.into_iter().map(|a| Attribute { name: a.name.local_name, value: a.value }).collect(),
        },
        Ok(ReaderEvent::EndElement { name }) => XmlEvent::EndElement { name: name.local_name },
        Ok(ReaderEvent::Characters(text)) => XmlEvent::Characters(text),
        Ok(ReaderEvent::EndDocument) => XmlEvent::EndDocument,
        Ok(_) => XmlEvent::Other,
        Err(error) => XmlEvent::Error(format!("{}", error)),
    }).collect()
}

// ------------------------------------------------------------------------------------------------
// Errors.

pub open spec fn end_of_document_error() -> ErrorView {
    ErrorView::Element("Unexpected end of document"@)
}

/// Error for an unexpected element inside a text tag, named as the reader displays it.
pub open spec fn start_error(display_name: Seq<char>) -> ErrorView {
    ErrorView::Element("Unexpected start of element "@ + display_name)
}

/// Error for an unexpected element inside a structural tag, named by its local name.
pub open spec fn quoted_start_error(name: Seq<char>) -> ErrorView {
    ErrorView::Element("Unexpected start of element '"@ + name + "'"@)
}

pub open spec fn end_error(name: Seq<char>) -> ErrorView {
    ErrorView::Element("Unexpected end of element "@ + name)
}

/// Value of a mandatory attribute.
pub open spec fn required_attribute(name: Seq<char>, attributes: Seq<Attribute>) -> Result<
    Seq<char>,
    ErrorView,
> {
    match attribute_value(name, attributes) {
        Some(value) => Ok(value),
        None => Err(ErrorView::Element("Attribute '"@ + name + "' not found"@)),
    }
}

// ------------------------------------------------------------------------------------------------
// What the tags hold.

/// The argument an "arg" tag describes.
pub open spec fn argument_of(attributes: Seq<Attribute>) -> Result<ArgumentView, ErrorView> {
    match required_attribute("name"@, attributes) {
        Err(error) => Err(error),
        Ok(name) => match required_attribute("type"@, attributes) {
            Err(error) => Err(error),
            Ok(raw) => match rust_type_named(raw) {
                None => Err(ErrorView::Element("Unknown type '"@ + raw + "'"@)),
                Some(rust_type) => Ok(
                    ArgumentView {
                        name: valid_name(name),
                        rust_type: rust_type,
                        description: attribute_value("summary"@, attributes),
                    },
                ),
            },
        },
    }
}

/// The entry an "entry" tag describes.
pub open spec fn entry_of(attributes: Seq<Attribute>) -> Result<EntryView, ErrorView> {
    match required_attribute("name"@, attributes) {
        Err(error) => Err(error),
        Ok(name) => match required_attribute("value"@, attributes) {
            Err(error) => Err(error),
            Ok(value) => Ok(EntryView { name: name, value: value }),
        },
    }
}

/// A request or event as its start tag opens it: named, numbered, without arguments.
pub open spec fn message_start(attributes: Seq<Attribute>, number: nat) -> Result<
    MessageView,
    ErrorView,
> {
    match required_attribute("name"@, attributes) {
        Err(error) => Err(error),
        Ok(name) => Ok(
            MessageView {
                name: name,
                opcode: number as u16,
                description: None,
                arguments: Seq::empty(),
            },
        ),
    }
}

/// An enumeration as its start tag opens it.
pub open spec fn enum_start(attributes: Seq<Attribute>) -> Result<EnumView, ErrorView> {
    match required_attribute("name"@, attributes) {
        Err(error) => Err(error),
        Ok(name) => Ok(EnumView { name: name, description: None, entries: Seq::empty() }),
    }
}

/// An interface as its start tag opens it: its version is parsed as an unsigned number.
pub open spec fn interface_start(attributes: Seq<Attribute>) -> Result<InterfaceView, ErrorView> {
    match required_attribute("name"@, attributes) {
        Err(error) => Err(error),
        Ok(name) => match required_attribute("version"@, attributes) {
            Err(error) => Err(error),
            Ok(version) => match parsed_u32(version) {
                None => Err(ErrorView::ParseInt(parse_int_message(version))),
                Some(number) => Ok(
                    InterfaceView {
                        name: name,
                        version: number,
                        description: None,
                        requests: Seq::empty(),
                        events: Seq::empty(),
                        enums: Seq::empty(),
                    },
                ),
            },
        },
    }
}

/// A document before any event was read.
pub open spec fn empty_document() -> DocumentView {
    DocumentView { description: None, protocol: None, copyright: None, interfaces: Seq::empty() }
}

// ------------------------------------------------------------------------------------------------
// Reading tags.

/// Reads the rest of a text tag (such as "description" or "copyright") from `pos` up to its end
/// tag; the text is the last run of characters in it.
pub open spec fn text_tag(
    events: Seq<XmlEvent>,
    pos: nat,
    tag: Seq<char>,
    text: Option<Seq<char>>,
) -> (Result<Option<Seq<char>>, ErrorView>, nat)
    decreases events.len() - pos,
{
    if pos >= events.len() {
        (Err(end_of_document_error()), pos)
    } else {
        match events[pos as int] {
            XmlEvent::StartElement { display_name, .. } => (
                Err(start_error(display_name@)),
                pos + 1,
            ),
            XmlEvent::EndElement { name } => if name@ == tag {
                (Ok(text), pos + 1)
            } else {
                (Err(end_error(name@)), pos + 1)
            },
            XmlEvent::Characters(characters) => text_tag(events, pos + 1, tag, Some(characters@)),
            XmlEvent::EndDocument => (Err(end_of_document_error()), pos + 1),
            XmlEvent::Other => text_tag(events, pos + 1, tag, text),
            XmlEvent::Error(message) => (Err(ErrorView::Xml(message@)), pos + 1),
        }
    }
}

/// A text tag read successfully ends after where it started, within the events.
pub proof fn lemma_text_tag_advances(
    events: Seq<XmlEvent>,
    pos: nat,
    tag: Seq<char>,
    text: Option<Seq<char>>,
)
    ensures
        text_tag(events, pos, tag, text).0 is Ok ==> pos < text_tag(events, pos, tag, text).1
            <= events.len(),
    decreases events.len() - pos,
{
    if pos < events.len() {
        match events[pos as int] {
            XmlEvent::Characters(characters) => {
                lemma_text_tag_advances(events, pos + 1, tag, Some(characters@));
            },
            XmlEvent::Other => {
                lemma_text_tag_advances(events, pos + 1, tag, text);
            },
            _ => {},
        }
    }
}

/// Reads the rest of a request or event tag (named `tag`) from `pos` up to its end tag.
pub open spec fn message_tag(
    events: Seq<XmlEvent>,
    pos: nat,
    tag: Seq<char>,
    message: MessageView,
) -> (Result<MessageView, ErrorView>, nat)
    decreases events.len() - pos,
{
    if pos >= events.len() {
        (Err(end_of_document_error()), pos)
    } else {
        match events[pos as int] {
            XmlEvent::StartElement { name, attributes, .. } => if name@ == "arg"@ {
                match argument_of(attributes@) {
                    Err(error) => (Err(error), pos + 1),
                    Ok(argument) => message_tag(
                        events,
                        pos + 1,
                        tag,
                        MessageView { arguments: message.arguments.push(argument), ..message },
                    ),
                }
            } else if name@ == "description"@ {
                let (read, next) = text_tag(events, pos + 1, "description"@, None);
                match read {
                    Err(error) => (Err(error), next),
                    Ok(description) => {
                        proof {
                            lemma_text_tag_advances(events, pos + 1, "description"@, None);
                        }
                        message_tag(
                            events,
                            next,
                            tag,
                            MessageView { description: description, ..message },
                        )
                    },
                }
            } else {
                (Err(quoted_start_error(name@)), pos + 1)
            },
            XmlEvent::EndElement { name } => if name@ == tag {
                (Ok(message), pos + 1)
            } else if name@ == "arg"@ {
                message_tag(events, pos + 1, tag, message)
            } else {
                (Err(end_error(name@)), pos + 1)
            },
            XmlEvent::EndDocument => (Err(end_of_document_error()), pos + 1),
            XmlEvent::Error(message_text) => (Err(ErrorView::Xml(message_text@)), pos + 1),
            _ => message_tag(events, pos + 1, tag, message),
        }
    }
}

/// A request or event tag read successfully ends after where it started, within the events.
pub proof fn lemma_message_tag_advances(
    events: Seq<XmlEvent>,
    pos: nat,
    tag: Seq<char>,
    message: MessageView,
)
    ensures
        message_tag(events, pos, tag, message).0 is Ok ==> pos < message_tag(
            events,
            pos,
            tag,
            message,
        ).1 <= events.len(),
    decreases events.len() - pos,
{
    if pos < events.len() {
        match events[pos as int] {
            XmlEvent::StartElement { name, attributes, .. } => {
                if name@ == "arg"@ {
                    if let Ok(argument) = argument_of(attributes@) {
                        lemma_message_tag_advances(
                            events,
                            pos + 1,
                            tag,
                            MessageView { arguments: message.arguments.push(argument), ..message },
                        );
                    }
                } else if name@ == "description"@ {
                    lemma_text_tag_advances(events, pos + 1, "description"@, None);
                    let (read, next) = text_tag(events, pos + 1, "description"@, None);
                    if let Ok(description) = read {
                        lemma_message_tag_advances(
                            events,
                            next,
                            tag,
                            MessageView { description: description, ..message },
                        );
                    }
                }
            },
            XmlEvent::EndElement { name } => {
                if name@ != tag && name@ == "arg"@ {
                    lemma_message_tag_advances(events, pos + 1, tag, message);
                }
            },
            XmlEvent::EndDocument => {},
            XmlEvent::Error(_) => {},
            _ => {
                lemma_message_tag_advances(events, pos + 1, tag, message);
            },
        }
    }
}

/// Reads the rest of an "enum" tag from `pos` up to its end tag.
pub open spec fn enum_tag(events: Seq<XmlEvent>, pos: nat, e: EnumView) -> (
    Result<EnumView, ErrorView>,
    nat,
)
    decreases events.len() - pos,
{
    if pos >= events.len() {
        (Err(end_of_document_error()), pos)
    } else {
        match events[pos as int] {
            XmlEvent::StartElement { name, attributes, .. } => if name@ == "entry"@ {
                match entry_of(attributes@) {
                    Err(error) => (Err(error), pos + 1),
                    Ok(entry) => enum_tag(
                        events,
                        pos + 1,
                        EnumView { entries: e.entries.push(entry), ..e },
                    ),
                }
            } else if name@ == "description"@ {
                let (read, next) = text_tag(events, pos + 1, "description"@, None);
                match read {
                    Err(error) => (Err(error), next),
                    Ok(description) => {
                        proof {
                            lemma_text_tag_advances(events, pos + 1, "description"@, None);
                        }
                        enum_tag(events, next, EnumView { description: description, ..e })
                    },
                }
            } else {
                (Err(quoted_start_error(name@)), pos + 1)
            },
            XmlEvent::EndElement { name } => if name@ == "enum"@ {
                (Ok(e), pos + 1)
            } else if name@ == "entry"@ {
                enum_tag(events, pos + 1, e)
            } else {
                (Err(end_error(name@)), pos + 1)
            },
            XmlEvent::EndDocument => (Err(end_of_document_error()), pos + 1),
            XmlEvent::Error(message) => (Err(ErrorView::Xml(message@)), pos + 1),
            _ => enum_tag(events, pos + 1, e),
        }
    }
}

/// An "enum" tag read successfully ends after where it started, within the events.
pub proof fn lemma_enum_tag_advances(events: Seq<XmlEvent>, pos: nat, e: EnumView)
    ensures
        enum_tag(events, pos, e).0 is Ok ==> pos < enum_tag(events, pos, e).1 <= events.len(),
    decreases events.len() - pos,
{
    if pos < events.len() {
        match events[pos as int] {
            XmlEvent::StartElement { name, attributes, .. } => {
                if name@ == "entry"@ {
                    if let Ok(entry) = entry_of(attributes@) {
                        lemma_enum_tag_advances(
                            events,
                            pos + 1,
                            EnumView { entries: e.entries.push(entry), ..e },
                        );
                    }
                } else if name@ == "description"@ {
                    lemma_text_tag_advances(events, pos + 1, "description"@, None);
                    let (read, next) = text_tag(events, pos + 1, "description"@, None);
                    if let Ok(description) = read {
                        lemma_enum_tag_advances(
                            events,
                            next,
                            EnumView { description: description, ..e },
                        );
                    }
                }
            },
            XmlEvent::EndElement { name } => {
                if name@ != "enum"@ && name@ == "entry"@ {
                    lemma_enum_tag_advances(events, pos + 1, e);
                }
            },
            XmlEvent::EndDocument => {},
            XmlEvent::Error(_) => {},
            _ => {
                lemma_enum_tag_advances(events, pos + 1, e);
            },
        }
    }
}

/// Reads the rest of an "interface" tag from `pos` up to its end tag. Requests and events are
/// numbered in the order they come.
pub open spec fn interface_tag(events: Seq<XmlEvent>, pos: nat, interface: InterfaceView) -> (
    Result<InterfaceView, ErrorView>,
    nat,
)
    decreases events.len() - pos,
{
    if pos >= events.len() {
        (Err(end_of_document_error()), pos)
    } else {
        match events[pos as int] {
            XmlEvent::StartElement { name, attributes, .. } => if name@ == "request"@ {
                match message_start(attributes@, interface.requests.len()) {
                    Err(error) => (Err(error), pos + 1),
                    Ok(start) => {
                        let (read, next) = message_tag(events, pos + 1, "request"@, start);
                        match read {
                            Err(error) => (Err(error), next),
                            Ok(request) => {
                                proof {
                                    lemma_message_tag_advances(events, pos + 1, "request"@, start);
                                }
                                interface_tag(
                                    events,
                                    next,
                                    InterfaceView {
                                        requests: interface.requests.push(request),
                                        ..interface
                                    },
                                )
                            },
                        }
                    },
                }
            } else if name@ == "event"@ {
                match message_start(attributes@, interface.events.len()) {
                    Err(error) => (Err(error), pos + 1),
                    Ok(start) => {
                        let (read, next) = message_tag(events, pos + 1, "event"@, start);
                        match read {
                            Err(error) => (Err(error), next),
                            Ok(event) => {
                                proof {
                                    lemma_message_tag_advances(events, pos + 1, "event"@, start);
                                }
                                interface_tag(
                                    events,
                                    next,
                                    InterfaceView { events: interface.events.push(event), ..interface },
                                )
                            },
                        }
                    },
                }
            } else if name@ == "enum"@ {
                match enum_start(attributes@) {
                    Err(error) => (Err(error), pos + 1),
                    Ok(start) => {
                        let (read, next) = enum_tag(events, pos + 1, start);
                        match read {
                            Err(error) => (Err(error), next),
                            Ok(e) => {
                                proof {
                                    lemma_enum_tag_advances(events, pos + 1, start);
                                }
                                interface_tag(
                                    events,
                                    next,
                                    InterfaceView { enums: interface.enums.push(e), ..interface },
                                )
                            },
                        }
                    },
                }
            } else if name@ == "description"@ {
                let (read, next) = text_tag(events, pos + 1, "description"@, None);
                match read {
                    Err(error) => (Err(error), next),
                    Ok(description) => {
                        proof {
                            lemma_text_tag_advances(events, pos + 1, "description"@, None);
                        }
                        interface_tag(
                            events,
                            next,
                            InterfaceView { description: description, ..interface },
                        )
                    },
                }
            } else {
                (Err(quoted_start_error(name@)), pos + 1)
            },
            XmlEvent::EndElement { name } => if name@ == "interface"@ {
                (Ok(interface), pos + 1)
            } else {
                (Err(end_error(name@)), pos + 1)
            },
            XmlEvent::EndDocument => (Err(end_of_document_error()), pos + 1),
            XmlEvent::Error(message) => (Err(ErrorView::Xml(message@)), pos + 1),
            _ => interface_tag(events, pos + 1, interface),
        }
    }
}

/// An "interface" tag read successfully ends after where it started, within the events.
pub proof fn lemma_interface_tag_advances(events: Seq<XmlEvent>, pos: nat, interface: InterfaceView)
    ensures
        interface_tag(events, pos, interface).0 is Ok ==> pos < interface_tag(
            events,
            pos,
            interface,
        ).1 <= events.len(),
    decreases events.len() - pos,
{
    if pos < events.len() {
        match events[pos as int] {
            XmlEvent::StartElement { name, attributes, .. } => {
                if name@ == "request"@ {
                    if let Ok(start) = message_start(attributes@, interface.requests.len()) {
                        lemma_message_tag_advances(events, pos + 1, "request"@, start);
                        let (read, next) = message_tag(events, pos + 1, "request"@, start);
                        if let Ok(request) = read {
                            lemma_interface_tag_advances(
                                events,
                                next,
                                InterfaceView { requests: interface.requests.push(request), ..interface },
                            );
                        }
                    }
                } else if name@ == "event"@ {
                    if let Ok(start) = message_start(attributes@, interface.events.len()) {
                        lemma_message_tag_advances(events, pos + 1, "event"@, start);
                        let (read, next) = message_tag(events, pos + 1, "event"@, start);
                        if let Ok(event) = read {
                            lemma_interface_tag_advances(
                                events,
                                next,
                                InterfaceView { events: interface.events.push(event), ..interface },
                            );
                        }
                    }
                } else if name@ == "enum"@ {
                    if let Ok(start) = enum_start(attributes@) {
                        lemma_enum_tag_advances(events, pos + 1, start);
                        let (read, next) = enum_tag(events, pos + 1, start);
                        if let Ok(e) = read {
                            lemma_interface_tag_advances(
                                events,
                                next,
                                InterfaceView { enums: interface.enums.push(e), ..interface },
                            );
                        }
                    }
                } else if name@ == "description"@ {
                    lemma_text_tag_advances(events, pos + 1, "description"@, None);
                    let (read, next) = text_tag(events, pos + 1, "description"@, None);
                    if let Ok(description) = read {
                        lemma_interface_tag_advances(
                            events,
                            next,
                            InterfaceView { description: description, ..interface },
                        );
                    }
                }
            },
            XmlEvent::EndElement { .. } => {},
            XmlEvent::EndDocument => {},
            XmlEvent::Error(_) => {},
            _ => {
                lemma_interface_tag_advances(events, pos + 1, interface);
            },
        }
    }
}

/// Reads a protocol definition from `pos` up to the end of the document.
pub open spec fn document_tag(events: Seq<XmlEvent>, pos: nat, document: DocumentView) -> (
    Result<DocumentView, ErrorView>,
    nat,
)
    decreases events.len() - pos,
{
    if pos >= events.len() {
        (Ok(document), pos)
    } else {
        match events[pos as int] {
            XmlEvent::StartElement { name, attributes, .. } => if name@ == "interface"@ {
                match interface_start(attributes@) {
                    Err(error) => (Err(error), pos + 1),
                    Ok(start) => {
                        let (read, next) = interface_tag(events, pos + 1, start);
                        match read {
                            Err(error) => (Err(error), next),
                            Ok(interface) => {
                                proof {
                                    lemma_interface_tag_advances(events, pos + 1, start);
                                }
                                document_tag(
                                    events,
                                    next,
                                    DocumentView {
                                        interfaces: document.interfaces.push(interface),
                                        ..document
                                    },
                                )
                            },
                        }
                    },
                }
            } else if name@ == "description"@ {
                let (read, next) = text_tag(events, pos + 1, "description"@, None);
                match read {
                    Err(error) => (Err(error), next),
                    Ok(description) => {
                        proof {
                            lemma_text_tag_advances(events, pos + 1, "description"@, None);
                        }
                        document_tag(
                            events,
                            next,
                            DocumentView { description: description, ..document },
                        )
                    },
                }
            } else if name@ == "protocol"@ {
                match required_attribute("name"@, attributes@) {
                    Err(error) => (Err(error), pos + 1),
                    Ok(protocol) => document_tag(
                        events,
                        pos + 1,
                        DocumentView { protocol: Some(protocol), ..document },
                    ),
                }
            } else if name@ == "copyright"@ {
                let (read, next) = text_tag(events, pos + 1, "copyright"@, None);
                match read {
                    Err(error) => (Err(error), next),
                    Ok(copyright) => {
                        proof {
                            lemma_text_tag_advances(events, pos + 1, "copyright"@, None);
                        }
                        document_tag(
                            events,
                            next,
                            DocumentView { copyright: copyright, ..document },
                        )
                    },
                }
            } else {
                (Err(quoted_start_error(name@)), pos + 1)
            },
            XmlEvent::EndDocument => (Ok(document), pos + 1),
            XmlEvent::Error(message) => (Err(ErrorView::Xml(message@)), pos + 1),
            _ => document_tag(events, pos + 1, document),
        }
    }
}

/// The protocol definition that a sequence of XML events describes, or the error that stops
/// reading it.
pub open spec fn aggregated(events: Seq<XmlEvent>) -> Result<DocumentView, ErrorView> {
    document_tag(events, 0, empty_document()).0
}

// ------------------------------------------------------------------------------------------------
// Numbering of requests and events.

/// Whether each message is numbered by its position.
pub open spec fn numbered(messages: Seq<MessageView>) -> bool {
    forall|k: int| 0 <= k < messages.len() ==> #[trigger] messages[k].opcode == k as u16
}

/// Reading the rest of a request or event keeps its name and number.
pub proof fn lemma_message_tag_keeps_header(
    events: Seq<XmlEvent>,
    pos: nat,
    tag: Seq<char>,
    message: MessageView,
)
    ensures
        message_tag(events, pos, tag, message).0 is Ok ==> {
            let read = message_tag(events, pos, tag, message).0->Ok_0;
            read.name == message.name && read.opcode == message.opcode
        },
    decreases events.len() - pos,
{
    if pos < events.len() {
        match events[pos as int] {
            XmlEvent::StartElement { name, attributes, .. } => {
                if name@ == "arg"@ {
                    if let Ok(argument) = argument_of(attributes@) {
                        lemma_message_tag_keeps_header(
                            events,
                            pos + 1,
                            tag,
                            MessageView { arguments: message.arguments.push(argument), ..message },
                        );
                    }
                } else if name@ == "description"@ {
                    lemma_text_tag_advances(events, pos + 1, "description"@, None);
                    let (read, next) = text_tag(events, pos + 1, "description"@, None);
                    if let Ok(description) = read {
                        lemma_message_tag_keeps_header(
                            events,
                            next,
                            tag,
                            MessageView { description: description, ..message },
                        );
                    }
                }
            },
            XmlEvent::EndElement { name } => {
                if name@ != tag && name@ == "arg"@ {
                    lemma_message_tag_keeps_header(events, pos + 1, tag, message);
                }
            },
            XmlEvent::EndDocument => {},
            XmlEvent::Error(_) => {},
            _ => {
                lemma_message_tag_keeps_header(events, pos + 1, tag, message);
            },
        }
    }
}

/// Appending a message numbered by the length keeps a list numbered.
proof fn lemma_numbered_push(messages: Seq<MessageView>, message: MessageView)
    requires
        numbered(messages),
        message.opcode == messages.len() as u16,
    ensures
        numbered(messages.push(message)),
{
    assert forall|k: int| 0 <= k < messages.push(message).len() implies #[trigger] messages.push(
        message,
    )[k].opcode == k as u16 by {
        if k < messages.len() {
            assert(messages.push(message)[k] == messages[k]);
        }
    }
}

/// Reading the rest of an interface keeps its requests and events numbered by position.
pub proof fn lemma_interface_tag_numbers(
    events: Seq<XmlEvent>,
    pos: nat,
    interface: InterfaceView,
)
    requires
        numbered(interface.requests),
        numbered(interface.events),
    ensures
        interface_tag(events, pos, interface).0 is Ok ==> numbered(
            interface_tag(events, pos, interface).0->Ok_0.requests,
        ) && numbered(interface_tag(events, pos, interface).0->Ok_0.events),
    decreases events.len() - pos,
{
    if pos < events.len() {
        match events[pos as int] {
            XmlEvent::StartElement { name, attributes, .. } => {
                if name@ == "request"@ {
                    if let Ok(start) = message_start(attributes@, interface.requests.len()) {
                        lemma_message_tag_advances(events, pos + 1, "request"@, start);
                        lemma_message_tag_keeps_header(events, pos + 1, "request"@, start);
                        let (read, next) = message_tag(events, pos + 1, "request"@, start);
                        if let Ok(request) = read {
                            lemma_numbered_push(interface.requests, request);
                            lemma_interface_tag_numbers(
                                events,
                                next,
                                InterfaceView { requests: interface.requests.push(request), ..interface },
                            );
                        }
                    }
                } else if name@ == "event"@ {
                    if let Ok(start) = message_start(attributes@, interface.events.len()) {
                        lemma_message_tag_advances(events, pos + 1, "event"@, start);
                        lemma_message_tag_keeps_header(events, pos + 1, "event"@, start);
                        let (read, next) = message_tag(events, pos + 1, "event"@, start);
                        if let Ok(event) = read {
                            lemma_numbered_push(interface.events, event);
                            lemma_interface_tag_numbers(
                                events,
                                next,
                                InterfaceView { events: interface.events.push(event), ..interface },
                            );
                        }
                    }
                } else if name@ == "enum"@ {
                    if let Ok(start) = enum_start(attributes@) {
                        lemma_enum_tag_advances(events, pos + 1, start);
                        let (read, next) = enum_tag(events, pos + 1, start);
                        if let Ok(e) = read {
                            lemma_interface_tag_numbers(
                                events,
                                next,
                                InterfaceView { enums: interface.enums.push(e), ..interface },
                            );
                        }
                    }
                } else if name@ == "description"@ {
                    lemma_text_tag_advances(events, pos + 1, "description"@, None);
                    let (read, next) = text_tag(events, pos + 1, "description"@, None);
                    if let Ok(description) = read {
                        lemma_interface_tag_numbers(
                            events,
                            next,
                            InterfaceView { description: description, ..interface },
                        );
                    }
                }
            },
            XmlEvent::EndElement { .. } => {},
            XmlEvent::EndDocument => {},
            XmlEvent::Error(_) => {},
            _ => {
                lemma_interface_tag_numbers(events, pos + 1, interface);
            },
        }
    }
}

/// Whether the requests and the events of every interface are numbered by position.
pub open spec fn all_numbered(document: DocumentView) -> bool {
    forall|i: int|
        0 <= i < document.interfaces.len() ==> numbered(
            (#[trigger] document.interfaces[i]).requests,
        ) && numbered(document.interfaces[i].events)
}

/// Reading the rest of a document keeps the messages of its interfaces numbered by position.
proof fn lemma_document_tag_numbers(events: Seq<XmlEvent>, pos: nat, document: DocumentView)
    requires
        all_numbered(document),
    ensures
        document_tag(events, pos, document).0 is Ok ==> all_numbered(
            document_tag(events, pos, document).0->Ok_0,
        ),
    decreases events.len() - pos,
{
    if pos < events.len() {
        match events[pos as int] {
            XmlEvent::StartElement { name, attributes, .. } => {
                if name@ == "interface"@ {
                    if let Ok(start) = interface_start(attributes@) {
                        lemma_interface_tag_advances(events, pos + 1, start);
                        lemma_interface_tag_numbers(events, pos + 1, start);
                        let (read, next) = interface_tag(events, pos + 1, start);
                        if let Ok(interface) = read {
                            let grown = DocumentView {
                                interfaces: document.interfaces.push(interface),
                                ..document
                            };
                            assert forall|i: int| 0 <= i < grown.interfaces.len() implies numbered(
                                (#[trigger] grown.interfaces[i]).requests,
                            ) && numbered(grown.interfaces[i].events) by {
                                if i < document.interfaces.len() {
                                    assert(grown.interfaces[i] == document.interfaces[i]);
                                }
                            }
                            lemma_document_tag_numbers(events, next, grown);
                        }
                    }
                } else if name@ == "description"@ {
                    lemma_text_tag_advances(events, pos + 1, "description"@, None);
                    let (read, next) = text_tag(events, pos + 1, "description"@, None);
                    if let Ok(description) = read {
                        lemma_document_tag_numbers(
                            events,
                            next,
                            DocumentView { description: description, ..document },
                        );
                    }
                } else if name@ == "protocol"@ {
                    if let Ok(protocol) = required_attribute("name"@, attributes@) {
                        lemma_document_tag_numbers(
                            events,
                            pos + 1,
                            DocumentView { protocol: Some(protocol), ..document },
                        );
                    }
                } else if name@ == "copyright"@ {
                    lemma_text_tag_advances(events, pos + 1, "copyright"@, None);
                    let (read, next) = text_tag(events, pos + 1, "copyright"@, None);
                    if let Ok(copyright) = read {
                        lemma_document_tag_numbers(
                            events,
                            next,
                            DocumentView { copyright: copyright, ..document },
                        );
                    }
                }
            },
            XmlEvent::EndDocument => {},
            XmlEvent::Error(_) => {},
            _ => {
                lemma_document_tag_numbers(events, pos + 1, document);
            },
        }
    }
}

/// In a protocol definition read from XML events, the requests and the events of each interface
/// are numbered by their position within the interface: the opcode of the `k`-th one is `k`
/// (taken modulo 2^16).
pub proof fn lemma_aggregated_opcodes(events: Seq<XmlEvent>)
    ensures
        aggregated(events) is Ok ==> all_numbered(aggregated(events)->Ok_0),
{
    lemma_document_tag_numbers(events, 0, empty_document());
}

// ------------------------------------------------------------------------------------------------
// One interface for each interface element.

/// Whether an event starts an "interface" element.
pub open spec fn is_interface_start(event: XmlEvent) -> bool {
    event matches XmlEvent::StartElement { name, .. } && name@ == "interface"@
}

/// The number of events from `from` up to `to` (excluded) that start an "interface" element.
pub open spec fn interface_start_count(events: Seq<XmlEvent>, from: int, to: int) -> nat
    decreases to - from,
{
    if from >= to {
        0
    } else {
        (if is_interface_start(events[from]) {
            1nat
        } else {
            0nat
        }) + interface_start_count(events, from + 1, to)
    }
}

/// Counting over two adjacent ranges is counting over their union.
proof fn lemma_interface_start_count_split(events: Seq<XmlEvent>, a: int, b: int, c: int)
    requires
        a <= b <= c,
    ensures
        interface_start_count(events, a, c) == interface_start_count(events, a, b)
            + interface_start_count(events, b, c),
    decreases b - a,
{
    if a < b {
        lemma_interface_start_count_split(events, a + 1, b, c);
    }
}

/// The names of the other tags differ from "interface".
proof fn lemma_tag_names_are_not_interface()
    ensures
        "arg"@ != "interface"@,
        "entry"@ != "interface"@,
        "description"@ != "interface"@,
        "request"@ != "interface"@,
        "event"@ != "interface"@,
        "enum"@ != "interface"@,
        "protocol"@ != "interface"@,
        "copyright"@ != "interface"@,
{
    reveal_strlit("interface");
    reveal_strlit("arg");
    reveal_strlit("entry");
    reveal_strlit("description");
    reveal_strlit("request");
    reveal_strlit("event");
    reveal_strlit("enum");
    reveal_strlit("protocol");
    reveal_strlit("copyright");
    assert("copyright"@[0] != "interface"@[0]);
}

/// A text tag read successfully holds no "interface" element.
proof fn lemma_text_tag_holds_no_interface(
    events: Seq<XmlEvent>,
    pos: nat,
    tag: Seq<char>,
    text: Option<Seq<char>>,
)
    ensures
        text_tag(events, pos, tag, text).0 is Ok ==> interface_start_count(
            events,
            pos as int,
            text_tag(events, pos, tag, text).1 as int,
        ) == 0,
    decreases events.len() - pos,
{
    if pos < events.len() {
        assert(interface_start_count(events, (pos + 1) as int, (pos + 1) as int) == 0);
        match events[pos as int] {
            XmlEvent::Characters(characters) => {
                lemma_text_tag_holds_no_interface(events, pos + 1, tag, Some(characters@));
                lemma_text_tag_advances(events, pos + 1, tag, Some(characters@));
            },
            XmlEvent::Other => {
                lemma_text_tag_holds_no_interface(events, pos + 1, tag, text);
                lemma_text_tag_advances(events, pos + 1, tag, text);
            },
            _ => {},
        }
    }
}

/// A request or event tag read successfully holds no "interface" element.
proof fn lemma_message_tag_holds_no_interface(
    events: Seq<XmlEvent>,
    pos: nat,
    tag: Seq<char>,
    message: MessageView,
)
    ensures
        message_tag(events, pos, tag, message).0 is Ok ==> interface_start_count(
            events,
            pos as int,
            message_tag(events, pos, tag, message).1 as int,
        ) == 0,
    decreases events.len() - pos,
{
    lemma_tag_names_are_not_interface();
    if pos < events.len() {
        assert(interface_start_count(events, (pos + 1) as int, (pos + 1) as int) == 0);
        match events[pos as int] {
            XmlEvent::StartElement { name, attributes, .. } => {
                if name@ == "arg"@ {
                    if let Ok(argument) = argument_of(attributes@) {
                        let grown = MessageView {
                            arguments: message.arguments.push(argument),
                            ..message
                        };
                        lemma_message_tag_holds_no_interface(events, pos + 1, tag, grown);
                        lemma_message_tag_advances(events, pos + 1, tag, grown);
                    }
                } else if name@ == "description"@ {
                    lemma_text_tag_advances(events, pos + 1, "description"@, None);
                    lemma_text_tag_holds_no_interface(events, pos + 1, "description"@, None);
                    let (read, next) = text_tag(events, pos + 1, "description"@, None);
                    if let Ok(description) = read {
                        let grown = MessageView { description: description, ..message };
                        lemma_message_tag_holds_no_interface(events, next, tag, grown);
                        lemma_message_tag_advances(events, next, tag, grown);
                        if message_tag(events, next, tag, grown).0 is Ok {
                            lemma_interface_start_count_split(
                                events,
                                (pos + 1) as int,
                                next as int,
                                message_tag(events, next, tag, grown).1 as int,
                            );
                        }
                    }
                }
            },
            XmlEvent::EndElement { name } => {
                if name@ != tag && name@ == "arg"@ {
                    lemma_message_tag_holds_no_interface(events, pos + 1, tag, message);
                    lemma_message_tag_advances(events, pos + 1, tag, message);
                }
            },
            XmlEvent::EndDocument => {},
            XmlEvent::Error(_) => {},
            _ => {
                lemma_message_tag_holds_no_interface(events, pos + 1, tag, message);
                lemma_message_tag_advances(events, pos + 1, tag, message);
            },
        }
    }
}

/// An "enum" tag read successfully holds no "interface" element.
proof fn lemma_enum_tag_holds_no_interface(events: Seq<XmlEvent>, pos: nat, e: EnumView)
    ensures
        enum_tag(events, pos, e).0 is Ok ==> interface_start_count(
            events,
            pos as int,
            enum_tag(events, pos, e).1 as int,
        ) == 0,
    decreases events.len() - pos,
{
    lemma_tag_names_are_not_interface();
    if pos < events.len() {
        assert(interface_start_count(events, (pos + 1) as int, (pos + 1) as int) == 0);
        match events[pos as int] {
            XmlEvent::StartElement { name, attributes, .. } => {
                if name@ == "entry"@ {
                    if let Ok(entry) = entry_of(attributes@) {
                        let grown = EnumView { entries: e.entries.push(entry), ..e };
                        lemma_enum_tag_holds_no_interface(events, pos + 1, grown);
                        lemma_enum_tag_advances(events, pos + 1, grown);
                    }
                } else if name@ == "description"@ {
                    lemma_text_tag_advances(events, pos + 1, "description"@, None);
                    lemma_text_tag_holds_no_interface(events, pos + 1, "description"@, None);
                    let (read, next) = text_tag(events, pos + 1, "description"@, None);
                    if let Ok(description) = read {
                        let grown = EnumView { description: description, ..e };
                        lemma_enum_tag_holds_no_interface(events, next, grown);
                        lemma_enum_tag_advances(events, next, grown);
                        if enum_tag(events, next, grown).0 is Ok {
                            lemma_interface_start_count_split(
                                events,
                                (pos + 1) as int,
                                next as int,
                                enum_tag(events, next, grown).1 as int,
                            );
                        }
                    }
                }
            },
            XmlEvent::EndElement { name } => {
                if name@ != "enum"@ && name@ == "entry"@ {
                    lemma_enum_tag_holds_no_interface(events, pos + 1, e);
                    lemma_enum_tag_advances(events, pos + 1, e);
                }
            },
            XmlEvent::EndDocument => {},
            XmlEvent::Error(_) => {},
            _ => {
                lemma_enum_tag_holds_no_interface(events, pos + 1, e);
                lemma_enum_tag_advances(events, pos + 1, e);
            },
        }
    }
}

/// An "interface" tag read successfully holds no further "interface" element.
proof fn lemma_interface_tag_holds_no_interface(
    events: Seq<XmlEvent>,
    pos: nat,
    interface: InterfaceView,
)
    ensures
        interface_tag(events, pos, interface).0 is Ok ==> interface_start_count(
            events,
            pos as int,
            interface_tag(events, pos, interface).1 as int,
        ) == 0,
    decreases events.len() - pos,
{
    lemma_tag_names_are_not_interface();
    if pos < events.len() {
        assert(interface_start_count(events, (pos + 1) as int, (pos + 1) as int) == 0);
        match events[pos as int] {
            XmlEvent::StartElement { name, attributes, .. } => {
                if name@ == "request"@ {
                    if let Ok(start) = message_start(attributes@, interface.requests.len()) {
                        lemma_message_tag_advances(events, pos + 1, "request"@, start);
                        lemma_message_tag_holds_no_interface(events, pos + 1, "request"@, start);
                        let (read, next) = message_tag(events, pos + 1, "request"@, start);
                        if let Ok(request) = read {
                            let grown = InterfaceView {
                                requests: interface.requests.push(request),
                                ..interface
                            };
                            lemma_interface_tag_holds_no_interface(events, next, grown);
                            lemma_interface_tag_advances(events, next, grown);
                            if interface_tag(events, next, grown).0 is Ok {
                                lemma_interface_start_count_split(
                                    events,
                                    (pos + 1) as int,
                                    next as int,
                                    interface_tag(events, next, grown).1 as int,
                                );
                            }
                        }
                    }
                } else if name@ == "event"@ {
                    if let Ok(start) = message_start(attributes@, interface.events.len()) {
                        lemma_message_tag_advances(events, pos + 1, "event"@, start);
                        lemma_message_tag_holds_no_interface(events, pos + 1, "event"@, start);
                        let (read, next) = message_tag(events, pos + 1, "event"@, start);
                        if let Ok(event) = read {
                            let grown = InterfaceView {
                                events: interface.events.push(event),
                                ..interface
                            };
                            lemma_interface_tag_holds_no_interface(events, next, grown);
                            lemma_interface_tag_advances(events, next, grown);
                            if interface_tag(events, next, grown).0 is Ok {
                                lemma_interface_start_count_split(
                                    events,
                                    (pos + 1) as int,
                                    next as int,
                                    interface_tag(events, next, grown).1 as int,
                                );
                            }
                        }
                    }
                } else if name@ == "enum"@ {
                    if let Ok(start) = enum_start(attributes@) {
                        lemma_enum_tag_advances(events, pos + 1, start);
                        lemma_enum_tag_holds_no_interface(events, pos + 1, start);
                        let (read, next) = enum_tag(events, pos + 1, start);
                        if let Ok(e) = read {
                            let grown = InterfaceView { enums: interface.enums.push(e), ..interface };
                            lemma_interface_tag_holds_no_interface(events, next, grown);
                            lemma_interface_tag_advances(events, next, grown);
                            if interface_tag(events, next, grown).0 is Ok {
                                lemma_interface_start_count_split(
                                    events,
                                    (pos + 1) as int,
                                    next as int,
                                    interface_tag(events, next, grown).1 as int,
                                );
                            }
                        }
                    }
                } else if name@ == "description"@ {
                    lemma_text_tag_advances(events, pos + 1, "description"@, None);
                    lemma_text_tag_holds_no_interface(events, pos + 1, "description"@, None);
                    let (read, next) = text_tag(events, pos + 1, "description"@, None);
                    if let Ok(description) = read {
                        let grown = InterfaceView { description: description, ..interface };
                        lemma_interface_tag_holds_no_interface(events, next, grown);
                        lemma_interface_tag_advances(events, next, grown);
                        if interface_tag(events, next, grown).0 is Ok {
                            lemma_interface_start_count_split(
                                events,
                                (pos + 1) as int,
                                next as int,
                                interface_tag(events, next, grown).1 as int,
                            );
                        }
                    }
                }
            },
            XmlEvent::EndElement { .. } => {},
            XmlEvent::EndDocument => {},
            XmlEvent::Error(_) => {},
            _ => {
                lemma_interface_tag_holds_no_interface(events, pos + 1, interface);
                lemma_interface_tag_advances(events, pos + 1, interface);
            },
        }
    }
}

/// Reading a protocol definition from `pos` on keeps the interfaces read before and appends one
/// interface for each "interface" element it reads: the interfaces before come first, and there
/// are as many more as there are "interface" elements among the events read.
pub proof fn lemma_document_tag_appends_interfaces(
    events: Seq<XmlEvent>,
    pos: nat,
    document: DocumentView,
)
    ensures
        document_tag(events, pos, document).0 is Ok ==> {
            let read = document_tag(events, pos, document).0->Ok_0;
            let next = document_tag(events, pos, document).1;
            &&& pos <= next
            &&& read.interfaces.len() == document.interfaces.len() + interface_start_count(
                events,
                pos as int,
                next as int,
            )
            &&& read.interfaces.subrange(0, document.interfaces.len() as int) == document.interfaces
        },
    decreases events.len() - pos,
{
    lemma_tag_names_are_not_interface();
    if pos < events.len() {
        assert(interface_start_count(events, (pos + 1) as int, (pos + 1) as int) == 0);
        match events[pos as int] {
            XmlEvent::StartElement { name, attributes, .. } => {
                if name@ == "interface"@ {
                    if let Ok(start) = interface_start(attributes@) {
                        lemma_interface_tag_advances(events, pos + 1, start);
                        lemma_interface_tag_holds_no_interface(events, pos + 1, start);
                        let (read, next) = interface_tag(events, pos + 1, start);
                        if let Ok(interface) = read {
                            let grown = DocumentView {
                                interfaces: document.interfaces.push(interface),
                                ..document
                            };
                            lemma_document_tag_appends_interfaces(events, next, grown);
                            if document_tag(events, next, grown).0 is Ok {
                                let last = document_tag(events, next, grown).1;
                                let result = document_tag(events, next, grown).0->Ok_0;
                                lemma_interface_start_count_split(
                                    events,
                                    (pos + 1) as int,
                                    next as int,
                                    last as int,
                                );
                                assert(result.interfaces.subrange(
                                    0,
                                    document.interfaces.len() as int,
                                ) =~= result.interfaces.subrange(
                                    0,
                                    grown.interfaces.len() as int,
                                ).subrange(0, document.interfaces.len() as int));
                                assert(grown.interfaces.subrange(
                                    0,
                                    document.interfaces.len() as int,
                                ) =~= document.interfaces);
                            }
                        }
                    }
                } else if name@ == "description"@ {
                    lemma_text_tag_advances(events, pos + 1, "description"@, None);
                    lemma_text_tag_holds_no_interface(events, pos + 1, "description"@, None);
                    let (read, next) = text_tag(events, pos + 1, "description"@, None);
                    if let Ok(description) = read {
                        let grown = DocumentView { description: description, ..document };
                        lemma_document_tag_appends_interfaces(events, next, grown);
                        if document_tag(events, next, grown).0 is Ok {
                            lemma_interface_start_count_split(
                                events,
                                (pos + 1) as int,
                                next as int,
                                document_tag(events, next, grown).1 as int,
                            );
                        }
                    }
                } else if name@ == "protocol"@ {
                    if let Ok(protocol) = required_attribute("name"@, attributes@) {
                        lemma_document_tag_appends_interfaces(
                            events,
                            pos + 1,
                            DocumentView { protocol: Some(protocol), ..document },
                        );
                    }
                } else if name@ == "copyright"@ {
                    lemma_text_tag_advances(events, pos + 1, "copyright"@, None);
                    lemma_text_tag_holds_no_interface(events, pos + 1, "copyright"@, None);
                    let (read, next) = text_tag(events, pos + 1, "copyright"@, None);
                    if let Ok(copyright) = read {
                        let grown = DocumentView { copyright: copyright, ..document };
                        lemma_document_tag_appends_interfaces(events, next, grown);
                        if document_tag(events, next, grown).0 is Ok {
                            lemma_interface_start_count_split(
                                events,
                                (pos + 1) as int,
                                next as int,
                                document_tag(events, next, grown).1 as int,
                            );
                        }
                    }
                }
            },
            XmlEvent::EndDocument => {},
            XmlEvent::Error(_) => {},
            _ => {
                lemma_document_tag_appends_interfaces(events, pos + 1, document);
            },
        }
    } else {
        assert(document.interfaces.subrange(0, document.interfaces.len() as int) =~= document.interfaces);
    }
}

/// A protocol definition read from XML events has one interface for each "interface" element
/// among the events read, in document order.
pub proof fn lemma_aggregated_interfaces(events: Seq<XmlEvent>)
    ensures
        aggregated(events) is Ok ==> aggregated(events)->Ok_0.interfaces.len()
            == interface_start_count(events, 0, document_tag(events, 0, empty_document()).1 as int),
{
    lemma_document_tag_appends_interfaces(events, 0, empty_document());
}

// ------------------------------------------------------------------------------------------------

fn end_of_document() -> (result: Error)
    ensures
        result@ == end_of_document_error(),
{
    Error::Element(String::from_str("Unexpected end of document"))
}

fn start_of_element(display_name: &String) -> (result: Error)
    ensures
        result@ == start_error(display_name@),
{
    let mut message = String::from_str("Unexpected start of element ");
    message.append(display_name.as_str());
    Error::Element(message)
}

fn quoted_start_of_element(name: &String) -> (result: Error)
    ensures
        result@ == quoted_start_error(name@),
{
    let mut message = String::from_str("Unexpected start of element '");
    message.append(name.as_str());
    message.append("'");
    Error::Element(message)
}

fn end_of_element(name: &String) -> (result: Error)
    ensures
        result@ == end_error(name@),
{
    let mut message = String::from_str("Unexpected end of element ");
    message.append(name.as_str());
    Error::Element(message)
}

/// This structure parses protocol definition XML into `Document` structure.
pub struct Aggregator<'a> {
    events: &'a Vec<XmlEvent>,
    position: usize,
}

impl<'a> Aggregator<'a> {
    /// The events being read.
    pub closed spec fn spec_events(&self) -> Seq<XmlEvent> {
        self.events@
    }

    /// Position of the next event to read.
    pub closed spec fn spec_position(&self) -> nat {
        self.position as nat
    }

    /// The position is within the events.
    pub closed spec fn wf(&self) -> bool {
        self.position <= self.events.len()
    }

    /// Creates new `Aggregator` reading the given events from the first.
    pub fn new(events: &'a Vec<XmlEvent>) -> (result: Self)
        ensures
            result.wf(),
            result.spec_events() == events@,
            result.spec_position() == 0,
    {
        Aggregator { events: events, position: 0 }
    }

    /// Parses protocol definition into `Document` structure.
    pub fn aggregate(self) -> (result: Result<Document, Error>)
        requires
            self.wf(),
        ensures
            result_view(result) == document_tag(
                self.spec_events(),
                self.spec_position(),
                empty_document(),
            ).0,
    {
        let mut aggregator = self;
        aggregator.aggregate_document()
    }

    /// Aggregates main tag of protocol definition XML file.
    fn aggregate_document(&mut self) -> (result: Result<Document, Error>)
        requires
            old(self).wf(),
        ensures
            final(self).wf(),
            final(self).spec_events() == old(self).spec_events(),
            old(self).spec_position() <= final(self).spec_position(),
            (result_view(result), final(self).spec_position()) == document_tag(
                old(self).spec_events(),
                old(self).spec_position(),
                empty_document(),
            ),
    {
        let mut document = Document::new();
        assert(document@ =~= empty_document());
        let events = self.events;
        loop
            invariant
                self.wf(),
                events@ == self.spec_events(),
                old(self).spec_position() <= self.spec_position(),
                self.spec_events() == old(self).spec_events(),
                document_tag(self.spec_events(), self.spec_position(), document@) == document_tag(
                    old(self).spec_events(),
                    old(self).spec_position(),
                    empty_document(),
                ),
            decreases self.spec_events().len() - self.spec_position(),
        {
            if self.position >= events.len() {
                return Ok(document);
            }
            let event = &events[self.position];
            self.position = self.position + 1;
            match event {
                XmlEvent::StartElement { name, attributes, .. } => {
                    if str_eq(name.as_str(), "interface") {
                        let interface = match self.aggregate_interface(attributes) {
                            Ok(interface) => interface,
                            Err(error) => return Err(error),
                        };
                        let ghost before = document@;
                        document.interfaces.push(interface);
                        assert(document@.interfaces =~= before.interfaces.push(interface@));
                    } else if str_eq(name.as_str(), "description") {
                        document.description = match self.aggregate_description() {
                            Ok(description) => description,
                            Err(error) => return Err(error),
                        };
                    } else if str_eq(name.as_str(), "protocol") {
                        document.protocol = match self.aggregate_protocol(attributes) {
                            Ok(protocol) => protocol,
                            Err(error) => return Err(error),
                        };
                    } else if str_eq(name.as_str(), "copyright") {
                        document.copyright = match self.aggregate_copyright() {
                            Ok(copyright) => copyright,
                            Err(error) => return Err(error),
                        };
                    } else {
                        return Err(quoted_start_of_element(name));
                    }
                },
                XmlEvent::EndDocument => {
                    return Ok(document);
                },
                XmlEvent::Error(message) => {
                    return Err(Error::Xml(message.clone()));
                },
                _ => {},
            }
        }
    }

    /// Aggregates "copyright" tag of protocol definition XML file.
    fn aggregate_copyright(&mut self) -> (result: Result<Text, Error>)
        requires
            old(self).wf(),
        ensures
            final(self).wf(),
            final(self).spec_events() == old(self).spec_events(),
            old(self).spec_position() <= final(self).spec_position(),
            (result_view(result), final(self).spec_position()) == text_tag(
                old(self).spec_events(),
                old(self).spec_position(),
                "copyright"@,
                None,
            ),
    {
        self.aggregate_text("copyright")
    }

    /// Aggregates "description" tag of protocol definition XML file.
    fn aggregate_description(&mut self) -> (result: Result<Text, Error>)
        requires
            old(self).wf(),
        ensures
            final(self).wf(),
            final(self).spec_events() == old(self).spec_events(),
            old(self).spec_position() <= final(self).spec_position(),
            (result_view(result), final(self).spec_position()) == text_tag(
                old(self).spec_events(),
                old(self).spec_position(),
                "description"@,
                None,
            ),
    {
        self.aggregate_text("description")
    }

    /// Aggregates a tag holding text, up to its end tag named `tag`.
    fn aggregate_text(&mut self, tag: &str) -> (result: Result<Text, Error>)
        requires
            old(self).wf(),
        ensures
            final(self).wf(),
            final(self).spec_events() == old(self).spec_events(),
            old(self).spec_position() <= final(self).spec_position(),
            (result_view(result), final(self).spec_position()) == text_tag(
                old(self).spec_events(),
                old(self).spec_position(),
                tag@,
                None,
            ),
    {
        let mut text = Text::new(None);
        let events = self.events;
        loop
            invariant
                self.wf(),
                events@ == self.spec_events(),
                old(self).spec_position() <= self.spec_position(),
                self.spec_events() == old(self).spec_events(),
                text_tag(self.spec_events(), self.spec_position(), tag@, text@) == text_tag(
                    old(self).spec_events(),
                    old(self).spec_position(),
                    tag@,
                    None,
                ),
            decreases self.spec_events().len() - self.spec_position(),
        {
            if self.position >= events.len() {
                return Err(end_of_document());
            }
            let event = &events[self.position];
            self.position = self.position + 1;
            match event {
                XmlEvent::StartElement { display_name, .. } => {
                    return Err(start_of_element(display_name));
                },
                XmlEvent::EndElement { name } => {
                    if str_eq(name.as_str(), tag) {
                        return Ok(text);
                    } else {
                        return Err(end_of_element(name));
                    }
                },
                XmlEvent::Characters(characters) => {
                    text = Text::new(Some(characters.clone()));
                },
                XmlEvent::EndDocument => {
                    return Err(end_of_document());
                },
                XmlEvent::Other => {},
                XmlEvent::Error(message) => {
                    return Err(Error::Xml(message.clone()));
                },
            }
        }
    }

    /// Aggregates "interface" tag of protocol definition XML file.
    fn aggregate_interface(&mut self, attributes: &Vec<Attribute>) -> (result: Result<
        Interface,
        Error,
    >)
        requires
            old(self).wf(),
        ensures
            final(self).wf(),
            final(self).spec_events() == old(self).spec_events(),
            old(self).spec_position() <= final(self).spec_position(),
            (result_view(result), final(self).spec_position()) == match interface_start(
                attributes@,
            ) {
                Err(error) => (Err(error), old(self).spec_position()),
                Ok(start) => interface_tag(old(self).spec_events(), old(self).spec_position(), start),
            },
    {
        let name = match get_attr("name", attributes) {
            Ok(name) => name,
            Err(error) => return Err(error),
        };
        let version_text = match get_attr("version", attributes) {
            Ok(version) => version,
            Err(error) => return Err(error),
        };
        let version = match parse_u32(version_text.as_str()) {
            Ok(version) => version,
            Err(message) => return Err(Error::ParseInt(message)),
        };
        let mut interface = Interface::new(name, version);
        let ghost start = interface@;
        assert(interface@ =~= interface_start(attributes@)->Ok_0);
        let events = self.events;
        loop
            invariant
                self.wf(),
                events@ == self.spec_events(),
                old(self).spec_position() <= self.spec_position(),
                self.spec_events() == old(self).spec_events(),
                interface_start(attributes@) == Ok::<InterfaceView, ErrorView>(start),
                interface_tag(self.spec_events(), self.spec_position(), interface@)
                    == interface_tag(old(self).spec_events(), old(self).spec_position(), start),
            decreases self.spec_events().len() - self.spec_position(),
        {
            if self.position >= events.len() {
                return Err(end_of_document());
            }
            let event = &events[self.position];
            self.position = self.position + 1;
            match event {
                XmlEvent::StartElement { name, attributes, .. } => {
                    if str_eq(name.as_str(), "request") {
                        let number = interface.requests.len();
                        let request = match self.aggregate_request(number, attributes) {
                            Ok(request) => request,
                            Err(error) => return Err(error),
                        };
                        let ghost before = interface@;
                        interface.requests.push(request);
                        assert(interface@.requests =~= before.requests.push(request@));
                    } else if str_eq(name.as_str(), "event") {
                        let number = interface.events.len();
                        let event = match self.aggregate_event(number, attributes) {
                            Ok(event) => event,
                            Err(error) => return Err(error),
                        };
                        let ghost before = interface@;
                        interface.events.push(event);
                        assert(interface@.events =~= before.events.push(event@));
                    } else if str_eq(name.as_str(), "enum") {
                        let e = match self.aggregate_enum(attributes) {
                            Ok(e) => e,
                            Err(error) => return Err(error),
                        };
                        let ghost before = interface@;
                        interface.enums.push(e);
                        assert(interface@.enums =~= before.enums.push(e@));
                    } else if str_eq(name.as_str(), "description") {
                        interface.description = match self.aggregate_description() {
                            Ok(description) => description,
                            Err(error) => return Err(error),
                        };
                    } else {
                        return Err(quoted_start_of_element(name));
                    }
                },
                XmlEvent::EndElement { name } => {
                    if str_eq(name.as_str(), "interface") {
                        return Ok(interface);
                    } else {
                        return Err(end_of_element(name));
                    }
                },
                XmlEvent::EndDocument => {
                    return Err(end_of_document());
                },
                XmlEvent::Error(message) => {
                    return Err(Error::Xml(message.clone()));
                },
                _ => {},
            }
        }
    }

    /// Aggregates "request" tag of protocol definition XML file.
    fn aggregate_request(&mut self, num: usize, attributes: &Vec<Attribute>) -> (result: Result<
        Request,
        Error,
    >)
        requires
            old(self).wf(),
        ensures
            final(self).wf(),
            final(self).spec_events() == old(self).spec_events(),
            old(self).spec_position() <= final(self).spec_position(),
            (result_view(result), final(self).spec_position()) == match message_start(
                attributes@,
                num as nat,
            ) {
                Err(error) => (Err(error), old(self).spec_position()),
                Ok(start) => message_tag(
                    old(self).spec_events(),
                    old(self).spec_position(),
                    "request"@,
                    start,
                ),
            },
    {
        let name = match get_attr("name", attributes) {
            Ok(name) => name,
            Err(error) => return Err(error),
        };
        let mut request = Request::new(name, num as u16);
        let ghost start = request@;
        assert(request@ =~= message_start(attributes@, num as nat)->Ok_0);
        let events = self.events;
        loop
            invariant
                self.wf(),
                events@ == self.spec_events(),
                old(self).spec_position() <= self.spec_position(),
                self.spec_events() == old(self).spec_events(),
                message_start(attributes@, num as nat) == Ok::<MessageView, ErrorView>(start),
                message_tag(self.spec_events(), self.spec_position(), "request"@, request@)
                    == message_tag(old(self).spec_events(), old(self).spec_position(), "request"@, start),
            decreases self.spec_events().len() - self.spec_position(),
        {
            if self.position >= events.len() {
                return Err(end_of_document());
            }
            let event = &events[self.position];
            self.position = self.position + 1;
            match event {
                XmlEvent::StartElement { name, attributes, .. } => {
                    if str_eq(name.as_str(), "arg") {
                        let argument = match Self::aggregate_argument(attributes) {
                            Ok(argument) => argument,
                            Err(error) => return Err(error),
                        };
                        let ghost before = request@;
                        request.arguments.push(argument);
                        assert(request@.arguments =~= before.arguments.push(argument@));
                    } else if str_eq(name.as_str(), "description") {
                        request.description = match self.aggregate_description() {
                            Ok(description) => description,
                            Err(error) => return Err(error),
                        };
                    } else {
                        return Err(quoted_start_of_element(name));
                    }
                },
                XmlEvent::EndElement { name } => {
                    if str_eq(name.as_str(), "request") {
                        return Ok(request);
                    } else if !str_eq(name.as_str(), "arg") {
                        return Err(end_of_element(name));
                    }
                },
                XmlEvent::EndDocument => {
                    return Err(end_of_document());
                },
                XmlEvent::Error(message) => {
                    return Err(Error::Xml(message.clone()));
                },
                _ => {},
            }
        }
    }

    /// Aggregates "event" tag of protocol definition XML file.
    fn aggregate_event(&mut self, num: usize, attributes: &Vec<Attribute>) -> (result: Result<
        Event,
        Error,
    >)
        requires
            old(self).wf(),
        ensures
            final(self).wf(),
            final(self).spec_events() == old(self).spec_events(),
            old(self).spec_position() <= final(self).spec_position(),
            (result_view(result), final(self).spec_position()) == match message_start(
                attributes@,
                num as nat,
            ) {
                Err(error) => (Err(error), old(self).spec_position()),
                Ok(start) => message_tag(
                    old(self).spec_events(),
                    old(self).spec_position(),
                    "event"@,
                    start,
                ),
            },
    {
        let name = match get_attr("name", attributes) {
            Ok(name) => name,
            Err(error) => return Err(error),
        };
        let mut event = Event::new(name, num as u16);
        let ghost start = event@;
        assert(event@ =~= message_start(attributes@, num as nat)->Ok_0);
        let events = self.events;
        loop
            invariant
                self.wf(),
                events@ == self.spec_events(),
                old(self).spec_position() <= self.spec_position(),
                self.spec_events() == old(self).spec_events(),
                message_start(attributes@, num as nat) == Ok::<MessageView, ErrorView>(start),
                message_tag(self.spec_events(), self.spec_position(), "event"@, event@)
                    == message_tag(old(self).spec_events(), old(self).spec_position(), "event"@, start),
            decreases self.spec_events().len() - self.spec_position(),
        {
            if self.position >= events.len() {
                return Err(end_of_document());
            }
            let xml_event = &events[self.position];
            self.position = self.position + 1;
            match xml_event {
                XmlEvent::StartElement { name, attributes, .. } => {
                    if str_eq(name.as_str(), "arg") {
                        let argument = match Self::aggregate_argument(attributes) {
                            Ok(argument) => argument,
                            Err(error) => return Err(error),
                        };
                        let ghost before = event@;
                        event.arguments.push(argument);
                        assert(event@.arguments =~= before.arguments.push(argument@));
                    } else if str_eq(name.as_str(), "description") {
                        event.description = match self.aggregate_description() {
                            Ok(description) => description,
                            Err(error) => return Err(error),
                        };
                    } else {
                        return Err(quoted_start_of_element(name));
                    }
                },
                XmlEvent::EndElement { name } => {
                    if str_eq(name.as_str(), "event") {
                        return Ok(event);
                    } else if !str_eq(name.as_str(), "arg") {
                        return Err(end_of_element(name));
                    }
                },
                XmlEvent::EndDocument => {
                    return Err(end_of_document());
                },
                XmlEvent::Error(message) => {
                    return Err(Error::Xml(message.clone()));
                },
                _ => {},
            }
        }
    }

    /// Aggregates "enum" tag of protocol definition XML file.
    fn aggregate_enum(&mut self, attributes: &Vec<Attribute>) -> (result: Result<Enum, Error>)
        requires
            old(self).wf(),
        ensures
            final(self).wf(),
            final(self).spec_events() == old(self).spec_events(),
            old(self).spec_position() <= final(self).spec_position(),
            (result_view(result), final(self).spec_position()) == match enum_start(attributes@) {
                Err(error) => (Err(error), old(self).spec_position()),
                Ok(start) => enum_tag(old(self).spec_events(), old(self).spec_position(), start),
            },
    {
        let name = match get_attr("name", attributes) {
            Ok(name) => name,
            Err(error) => return Err(error),
        };
        let mut enumeration = Enum::new(name);
        let ghost start = enumeration@;
        assert(enumeration@ =~= enum_start(attributes@)->Ok_0);
        let events = self.events;
        loop
            invariant
                self.wf(),
                events@ == self.spec_events(),
                old(self).spec_position() <= self.spec_position(),
                self.spec_events() == old(self).spec_events(),
                enum_start(attributes@) == Ok::<EnumView, ErrorView>(start),
                enum_tag(self.spec_events(), self.spec_position(), enumeration@) == enum_tag(
                    old(self).spec_events(),
                    old(self).spec_position(),
                    start,
                ),
            decreases self.spec_events().len() - self.spec_position(),
        {
            if self.position >= events.len() {
                return Err(end_of_document());
            }
            let event = &events[self.position];
            self.position = self.position + 1;
            match event {
                XmlEvent::StartElement { name, attributes, .. } => {
                    if str_eq(name.as_str(), "entry") {
                        let entry = match Self::aggregate_entry(attributes) {
                            Ok(entry) => entry,
                            Err(error) => return Err(error),
                        };
                        let ghost before = enumeration@;
                        enumeration.entries.push(entry);
                        assert(enumeration@.entries =~= before.entries.push(entry@));
                    } else if str_eq(name.as_str(), "description") {
                        enumeration.description = match self.aggregate_description() {
                            Ok(description) => description,
                            Err(error) => return Err(error),
                        };
                    } else {
                        return Err(quoted_start_of_element(name));
                    }
                },
                XmlEvent::EndElement { name } => {
                    if str_eq(name.as_str(), "enum") {
                        return Ok(enumeration);
                    } else if !str_eq(name.as_str(), "entry") {
                        return Err(end_of_element(name));
                    }
                },
                XmlEvent::EndDocument => {
                    return Err(end_of_document());
                },
                XmlEvent::Error(message) => {
                    return Err(Error::Xml(message.clone()));
                },
                _ => {},
            }
        }
    }

    /// Aggregates "protocol" attributes of protocol definition XML file.
    fn aggregate_protocol(&self, attributes: &Vec<Attribute>) -> (result: Result<Text, Error>)
        ensures
            result_view(result) == match required_attribute("name"@, attributes@) {
                Err(error) => Err::<Option<Seq<char>>, ErrorView>(error),
                Ok(name) => Ok(Some(name)),
            },
    {
        match get_attr("name", attributes) {
            Ok(name) => Ok(Text::new(Some(name))),
            Err(error) => Err(error),
        }
    }

    /// Aggregates "arg" attributes of protocol definition XML file.
    fn aggregate_argument(attributes: &Vec<Attribute>) -> (result: Result<Argument, Error>)
        ensures
            result_view(result) == argument_of(attributes@),
    {
        let name = match get_attr("name", attributes) {
            Ok(name) => name,
            Err(error) => return Err(error),
        };
        let raw_type = match get_attr("type", attributes) {
            Ok(raw_type) => raw_type,
            Err(error) => return Err(error),
        };
        let rust_type = match RustType::from_raw(raw_type.as_str()) {
            Ok(rust_type) => rust_type,
            Err(error) => return Err(error),
        };
        Ok(Argument::new(name, rust_type, get_optional_attr("summary", attributes)))
    }

    /// Aggregates "entry" attributes of protocol definition XML file.
    fn aggregate_entry(attributes: &Vec<Attribute>) -> (result: Result<Entry, Error>)
        ensures
            result_view(result) == entry_of(attributes@),
    {
        let name = match get_attr("name", attributes) {
            Ok(name) => name,
            Err(error) => return Err(error),
        };
        let value = match get_attr("value", attributes) {
            Ok(value) => value,
            Err(error) => return Err(error),
        };
        Ok(Entry::new(name, value))
    }
}

} // verus!
