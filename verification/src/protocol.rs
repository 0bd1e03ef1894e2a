//! The protocol descriptor of a bound interface, and the interface string it is read from:
//! free text, `/`, the base address, `/`, the memory layout.

use vstd::prelude::*;
use vstd::string::StrSliceExecFns;
use crate::address::{address_of, parse_address};
use crate::error::{Error, ErrorView, MemoryLayoutError, MemoryLayoutErrorView};
use crate::memory_layout::{layout_outcome, parsed_layout, MemoryLayout};
use crate::text::{chars_of, last_position};

verus! {

/// The protocol variant that the engine speaks to a device.
#[derive(Debug, Clone, PartialEq, Eq)]
pub enum DfuProtocol {
    /// Plain DFU 1.1.
    Dfu,
    /// ST's extension, which addresses memory.
    Dfuse {
        /// Address at which a download starts.
        address: u32,
        /// Pages of the memory behind that address.
        memory_layout: MemoryLayout,
    },
}

/// A protocol descriptor as a mathematical value.
pub enum ProtocolView {
    /// Plain DFU 1.1.
    Dfu,
    /// DfuSe, with its start address and page sizes.
    Dfuse { address: u32, pages: Seq<u32> },
}

impl View for DfuProtocol {
    type V = ProtocolView;

    open spec fn view(&self) -> ProtocolView {
        match self {
            DfuProtocol::Dfu => ProtocolView::Dfu,
            DfuProtocol::Dfuse { address, memory_layout } => ProtocolView::Dfuse {
                address: *address,
                pages: memory_layout@,
            },
        }
    }
}

/// The outcome of a protocol parse as a mathematical value.
pub open spec fn protocol_outcome(protocol: Result<DfuProtocol, Error>) -> Result<
    ProtocolView,
    ErrorView,
> {
    match protocol {
        Ok(p) => Ok(p@),
        Err(e) => Err(e@),
    }
}

/// The protocol that the text in front of the last `/` and the outcome of the layout behind
/// it give. A refused layout is reported first; then the head must hold a `/`, and what
/// follows its last `/` must be an address.
pub open spec fn dfuse_of(
    head: Seq<char>,
    layout: Result<Seq<u32>, MemoryLayoutErrorView>,
) -> Result<ProtocolView, ErrorView> {
    match layout {
        Err(e) => Err(ErrorView::MemoryLayout(e)),
        Ok(pages) => match head.index_of_last('/') {
            None => Err(ErrorView::InvalidInterfaceString),
            Some(i) => match address_of(head.skip(i + 1)) {
                None => Err(ErrorView::InvalidAddress),
                Some(address) => Ok(ProtocolView::Dfuse { address, pages }),
            },
        },
    }
}

/// The protocol that an interface string describes.
pub open spec fn interface_string_protocol(text: Seq<char>) -> Result<ProtocolView, ErrorView> {
    match text.index_of_last('/') {
        None => Err(ErrorView::InvalidInterfaceString),
        Some(j) => dfuse_of(text.take(j), parsed_layout(text.skip(j + 1))),
    }
}

impl DfuProtocol {
    /// Builds the DfuSe descriptor from the characters in front of the last `/` of an
    /// interface string and from the outcome of parsing the layout behind it.
    pub fn dfuse(head: &[char], layout: Result<MemoryLayout, MemoryLayoutError>) -> (res: Result<
        DfuProtocol,
        Error,
    >)
        ensures
            protocol_outcome(res) == dfuse_of(head@, layout_outcome(layout)),
    {
        let memory_layout = match layout {
            Ok(l) => l,
            Err(e) => {
                return Err(Error::MemoryLayout(e));
            },
        };
        proof {
            assert(head@.take(head@.len() as int) =~= head@);
        }
        let slash = match last_position(head, head.len(), '/') {
            Some(i) => i,
            None => {
                return Err(Error::InvalidInterfaceString);
            },
        };
        match parse_address(head, slash + 1, head.len()) {
            Some(address) => Ok(DfuProtocol::Dfuse { address, memory_layout }),
            None => Err(Error::InvalidAddress),
        }
    }

    /// Reads the protocol descriptor from an interface string such as
    /// `@Internal Flash  /0x08000000/04*016Kg,01*064Kg,07*128Kg`.
    pub fn from_interface_string(text: &str) -> (res: Result<DfuProtocol, Error>)
        ensures
            protocol_outcome(res) == interface_string_protocol(text@),
    {
        let chars = chars_of(text);
        proof {
            assert(chars@.take(chars@.len() as int) =~= chars@);
        }
        let slash = match last_position(chars.as_slice(), chars.len(), '/') {
            Some(j) => j,
            None => {
                return Err(Error::InvalidInterfaceString);
            },
        };
        let tail = text.substring_char(slash + 1, chars.len());
        let layout = MemoryLayout::parse(tail);
        let head = vstd::slice::slice_subrange(chars.as_slice(), 0, slash);
        DfuProtocol::dfuse(head, layout)
    }
}

/// A character that occurs at `at` and nowhere behind it is the last of its kind.
pub proof fn lemma_last_occurrence(text: Seq<char>, needle: char, at: int)
    requires
        0 <= at < text.len(),
        text[at] == needle,
        forall|j: int| at < j < text.len() ==> text[j] != needle,
    ensures
        text.index_of_last(needle) == Some(at),
{
    text.index_of_last_ensures(needle);
}

/// An interface string is read from its right end: the text behind the last `/` is the layout,
/// parsed exactly as it would be on its own, and the text between the last two `/` is the
/// address. Whatever stands in front is free text. A refused layout is reported as such, and
/// after it an address that is none.
pub proof fn lemma_interface_string_parts(prefix: Seq<char>, address: Seq<char>, layout: Seq<char>)
    requires
        !address.contains('/'),
        !layout.contains('/'),
    ensures
        interface_string_protocol(prefix + seq!['/'] + address + seq!['/'] + layout) == (
        match parsed_layout(layout) {
            Err(e) => Err(ErrorView::MemoryLayout(e)),
            Ok(pages) => match address_of(address) {
                None => Err(ErrorView::InvalidAddress),
                Some(a) => Ok(ProtocolView::Dfuse { address: a, pages }),
            },
        }),
{
    let text = prefix + seq!['/'] + address + seq!['/'] + layout;
    let j: int = (prefix.len() + 1 + address.len()) as int;
    lemma_last_occurrence(text, '/', j);
    assert(text.skip(j + 1) =~= layout);
    let head = text.take(j);
    let i: int = prefix.len() as int;
    lemma_last_occurrence(head, '/', i);
    assert(head.skip(i + 1) =~= address);
}

/// A text without any `/` is no interface string, and neither is one with a single `/` in
/// front of a layout that parses.
pub proof fn lemma_interface_string_needs_separators(text: Seq<char>)
    ensures
        !text.contains('/') ==> interface_string_protocol(text) == Err::<ProtocolView, ErrorView>(
            ErrorView::InvalidInterfaceString,
        ),
        forall|head: Seq<char>, layout: Seq<char>|
            text == head + seq!['/'] + layout && !head.contains('/') && !layout.contains('/')
                && parsed_layout(layout) is Ok ==> interface_string_protocol(text) == Err::<
                ProtocolView,
                ErrorView,
            >(ErrorView::InvalidInterfaceString),
{
    text.index_of_last_ensures('/');
    assert forall|head: Seq<char>, layout: Seq<char>|
        text == head + seq!['/'] + layout && !head.contains('/') && !layout.contains('/')
            && parsed_layout(layout) is Ok implies interface_string_protocol(text) == Err::<
            ProtocolView,
            ErrorView,
        >(ErrorView::InvalidInterfaceString) by {
        let j: int = head.len() as int;
        lemma_last_occurrence(text, '/', j);
        assert(text.skip(j + 1) =~= layout);
        assert(text.take(j) =~= head);
        head.index_of_last_ensures('/');
    }
}

} // verus!
