//! Parsing of Wayland protocol definitions and generation of server code from them.

use vstd::prelude::*;

use crate::scanner::aggregator::{aggregated, read_xml_events, xml_events, Aggregator};
use crate::scanner::generator::{generatable, server_text, ClientGenerator, ServerGenerator};
use crate::scanner::model::{Document, DocumentView};

pub mod model;
pub mod code_buffer;
pub mod generator;
pub mod aggregator;

verus! {

/// Errors of reading and interpreting a protocol definition.
#[derive(Debug, Clone)]
pub enum Error {
    IO(String),
    Xml(String),
    ParseInt(String),
    ParseStr(String),
    Element(String),
}

/// An error with the text of its message.
pub enum ErrorView {
    IO(Seq<char>),
    Xml(Seq<char>),
    ParseInt(Seq<char>),
    ParseStr(Seq<char>),
    Element(Seq<char>),
}

impl View for Error {
    type V = ErrorView;

    open spec fn view(&self) -> ErrorView {
        match self {
            Error::IO(m) => ErrorView::IO(m@),
            Error::Xml(m) => ErrorView::Xml(m@),
            Error::ParseInt(m) => ErrorView::ParseInt(m@),
            Error::ParseStr(m) => ErrorView::ParseStr(m@),
            Error::Element(m) => ErrorView::Element(m@),
        }
    }
}

/// A result with its value and its error taken by their views.
pub open spec fn result_view<T: View>(result: Result<T, Error>) -> Result<T::V, ErrorView> {
    match result {
        Ok(value) => Ok(value@),
        Err(error) => Err(error@),
    }
}

/// This structure allows to read in XML protocol definition file and parse it into server- or
/// client-size code.
pub struct Scanner {
    document: Document,
}

impl Scanner {
    /// The protocol definition read.
    pub closed spec fn spec_document(&self) -> DocumentView {
        self.document@
    }

    /// Creates new `Scanner` from the text of a protocol definition file.
    pub fn new(definition: &[u8]) -> (result: Result<Scanner, Error>)
        ensures
            match aggregated(xml_events(definition@)) {
                Ok(document) => result is Ok && result->Ok_0.spec_document() == document,
                Err(error) => result is Err && result->Err_0@ == error,
            },
    {
        let events = read_xml_events(definition);
        let aggregator = Aggregator::new(&events);
        match aggregator.aggregate() {
            Ok(document) => Ok(Scanner { document: document }),
            Err(error) => Err(error),
        }
    }

    /// Returns name of the protocol.
    pub fn get_protocol_name(&mut self) -> (result: Result<String, Error>)
        ensures
            final(self).spec_document() == old(self).spec_document(),
            match old(self).spec_document().protocol {
                Some(name) => result is Ok && result->Ok_0@ == name,
                None => result is Err && result->Err_0@ == ErrorView::Element(
                    "Protocol name not found"@,
                ),
            },
    {
        match &self.document.protocol.text {
            Some(protocol) => Ok(protocol.clone()),
            None => Err(Error::Element(String::from_str("Protocol name not found"))),
        }
    }

    /// Whether server code can be generated for the protocol: no request has an array argument
    /// and every event has a size that fits in memory.
    pub fn can_generate_server_interface(&self) -> (result: bool)
        ensures
            result == forall|i: int|
                0 <= i < self.spec_document().interfaces.len() ==> generatable(
                    #[trigger] self.spec_document().interfaces[i],
                ),
    {
        let mut i: usize = 0;
        while i < self.document.interfaces.len()
            invariant
                i <= self.document.interfaces.len(),
                forall|k: int|
                    0 <= k < i ==> generatable(#[trigger] self.spec_document().interfaces[k]),
            decreases self.document.interfaces.len() - i,
        {
            let interface = &self.document.interfaces[i];
            assert(self.spec_document().interfaces[i as int] == interface@);
            if !ServerGenerator::interface_is_generatable(interface) {
                return false;
            }
            i = i + 1;
        }
        true
    }

    /// Generates server-size code.
    pub fn generate_server_interface(&mut self, indent: u32) -> (result: String)
        requires
            indent + 7 <= u32::MAX,
            forall|i: int|
                0 <= i < old(self).spec_document().interfaces.len() ==> generatable(
                    #[trigger] old(self).spec_document().interfaces[i],
                ),
        ensures
            final(self).spec_document() == old(self).spec_document(),
            result@ == server_text(Seq::empty(), indent as nat, old(self).spec_document()),
    {
        let mut generator = ServerGenerator::new(indent);
        generator.generate(&self.document)
    }

    /// Generates client-size code.
    pub fn generate_client_interface(&mut self, indent: u32) -> (result: String)
        ensures
            final(self).spec_document() == old(self).spec_document(),
            result@ == Seq::<char>::empty(),
    {
        let mut generator = ClientGenerator::new(indent);
        generator.generate(&self.document)
    }
}

} // verus!
