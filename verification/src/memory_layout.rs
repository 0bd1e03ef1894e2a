//! The DfuSe memory layout: the sizes of the erasable pages of a memory region, in address
//! order. The grammar of its text belongs to `dfu_core`, which does the parsing; this module
//! screens the text first, so that the parser is only run where it is total.

use vstd::prelude::*;
use vstd::utf8::is_ascii_chars;
use dfu_core::memory_layout::Error as ParseError;
use crate::error::{MemoryLayoutError, MemoryLayoutErrorView};
use crate::text::chars_of;

verus! {

/// Page sizes of a memory region, lowest address first.
#[derive(Debug, Clone, PartialEq, Eq)]
pub struct MemoryLayout {
    /// Size in bytes of each page.
    pub pages: Vec<u32>,
}

impl View for MemoryLayout {
    type V = Seq<u32>;

    open spec fn view(&self) -> Seq<u32> {
        self.pages@
    }
}

/// Offset of page `index` from the start of the region: the sizes of the pages in front of
/// it. With `index` the number of pages, the size of the region.
pub open spec fn page_offset(pages: Seq<u32>, index: int) -> nat
    decreases index,
{
    if 0 < index <= pages.len() {
        page_offset(pages, index - 1) + pages[index - 1] as nat
    } else {
        0
    }
}

/// Pages lie in address order and do not overlap: a page ends where the next one starts, and
/// so before every later one.
pub proof fn lemma_pages_in_order(pages: Seq<u32>, earlier: int, later: int)
    requires
        0 <= earlier < later <= pages.len(),
    ensures
        page_offset(pages, earlier) + pages[earlier] <= page_offset(pages, later),
    decreases later - earlier,
{
    if later > earlier + 1 {
        lemma_pages_in_order(pages, earlier, later - 1);
    }
}

/// The outcome of a layout parse as a mathematical value.
pub open spec fn layout_outcome(layout: Result<MemoryLayout, MemoryLayoutError>) -> Result<
    Seq<u32>,
    MemoryLayoutErrorView,
> {
    match layout {
        Ok(l) => Ok(l@),
        Err(e) => Err(e@),
    }
}

/// Value of a decimal digit.
pub open spec fn decimal_digit(c: char) -> Option<nat> {
    if '0' <= c <= '9' {
        Some((c as u32 - '0' as u32) as nat)
    } else {
        None
    }
}

/// The number written by the longest run of decimal digits that ends just before position
/// `end`; zero where no digit stands there.
pub open spec fn number_before(text: Seq<char>, end: int) -> nat
    decreases end,
{
    if 0 < end <= text.len() && decimal_digit(text[end - 1]) is Some {
        10 * number_before(text, end - 1) + decimal_digit(text[end - 1])->0
    } else {
        0
    }
}

/// Number of bytes that a unit letter stands for: `K` and `M` scale, anything else does not.
pub open spec fn unit_factor(c: char) -> nat {
    if c == 'K' {
        1024
    } else if c == 'M' {
        1024 * 1024
    } else {
        1
    }
}

/// Whether every number that stands directly in front of a `K` or an `M` still fits 32 bits
/// once scaled by that unit.
pub open spec fn sizes_fit(text: Seq<char>) -> bool {
    forall|i: int|
        0 <= i < text.len() && (text[i] == 'K' || text[i] == 'M') ==> number_before(text, i)
            * unit_factor(#[trigger] text[i]) <= u32::MAX
}

/// Whether an error is one of the parser's own kinds, and not one of the screen in front of
/// it.
pub open spec fn of_parser(e: MemoryLayoutErrorView) -> bool {
    e != MemoryLayoutErrorView::NotAscii && e != MemoryLayoutErrorView::PageSizeTooLarge
}

/// What `dfu_core` makes of a layout text on which its parser is total.
pub uninterp spec fn layout_pages(text: Seq<char>) -> Result<Seq<u32>, MemoryLayoutErrorView>;

/// What a layout text means: texts that hold a character outside ASCII or a size that leaves
/// 32 bits are refused here, every other text is judged by `dfu_core`.
pub open spec fn parsed_layout(text: Seq<char>) -> Result<Seq<u32>, MemoryLayoutErrorView> {
    if !is_ascii_chars(text) {
        Err(MemoryLayoutErrorView::NotAscii)
    } else if !sizes_fit(text) {
        Err(MemoryLayoutErrorView::PageSizeTooLarge)
    } else {
        layout_pages(text)
    }
}

/// Calls `<dfu_core::memory_layout::MemoryLayout as TryFrom<&str>>::try_from` and hands out
/// its pages, or its error with the part of the text that it carries. The result is a
/// function of the text alone and is named, not restated. The parser slices the text at byte
/// offsets and multiplies each size by its unit in 32 bits; the precondition keeps it to ASCII
/// texts whose sizes fit, on which it neither panics nor overflows. It allocates one entry per
/// page. An error that comes out of it is one of the parser's four kinds.
#[verifier::external_body]
fn parse_pages(text: &str) -> (res: Result<Vec<u32>, MemoryLayoutError>)
    requires
        is_ascii_chars(text@),
        sizes_fit(text@),
    ensures
        match res {
            Ok(pages) => layout_pages(text@) == Ok::<Seq<u32>, MemoryLayoutErrorView>(pages@),
            Err(e) => layout_pages(text@) == Err::<Seq<u32>, MemoryLayoutErrorView>(e@)
                && of_parser(e@),
        },
{
    match dfu_core::memory_layout::MemoryLayout::try_from(text) {
        Ok(layout) => Ok(layout.to_vec()),
        Err(ParseError::InvalidPageFormat(s)) => Err(MemoryLayoutError::InvalidPageFormat(s)),
        Err(ParseError::ParseErrorPageCount(s)) => Err(MemoryLayoutError::ParseErrorPageCount(s)),
        Err(ParseError::ParseErrorPageSize(s)) => Err(MemoryLayoutError::ParseErrorPageSize(s)),
        Err(ParseError::InvalidPrefix(s)) => Err(MemoryLayoutError::InvalidPrefix(s)),
    }
}

/// Bound from which a number is too large for any unit.
const RUN_CAP: u64 = 0x1_0000_0000;

/// Decides `sizes_fit` by one pass over the text.
pub fn check_sizes(text: &[char]) -> (res: bool)
    ensures
        res == sizes_fit(text@),
{
    let mut run: u64 = 0;
    let mut i: usize = 0;
    while i < text.len()
        invariant
            i <= text@.len(),
            run <= RUN_CAP,
            run == number_before(text@, i as int) || (run == RUN_CAP && number_before(
                text@,
                i as int,
            ) >= RUN_CAP),
            forall|j: int|
                0 <= j < i && (text@[j] == 'K' || text@[j] == 'M') ==> number_before(text@, j)
                    * unit_factor(#[trigger] text@[j]) <= u32::MAX,
        decreases text@.len() - i,
    {
        let c = text[i];
        let ghost number = number_before(text@, i as int);
        if c == 'K' {
            assert(number * unit_factor(c) == number * 1024);
            if run > 0x3f_ffff {
                return false;
            }
        } else if c == 'M' {
            assert(number * unit_factor(c) == number * 1048576);
            if run > 0xfff {
                return false;
            }
        }
        if '0' <= c && c <= '9' {
            let grown: u64 = run * 10 + (c as u32 - '0' as u32) as u64;
            run = if grown > RUN_CAP {
                RUN_CAP
            } else {
                grown
            };
        } else {
            run = 0;
        }
        i = i + 1;
    }
    true
}

impl MemoryLayout {
    /// Parses the layout part of an interface string, such as `04*032Kg,01*128Kg`. A text
    /// that the screen refuses is reported with the screen's error and no other text is.
    pub fn parse(text: &str) -> (res: Result<MemoryLayout, MemoryLayoutError>)
        ensures
            layout_outcome(res) == parsed_layout(text@),
            layout_outcome(res) == Err::<Seq<u32>, MemoryLayoutErrorView>(
                MemoryLayoutErrorView::NotAscii,
            ) <==> !is_ascii_chars(text@),
            layout_outcome(res) == Err::<Seq<u32>, MemoryLayoutErrorView>(
                MemoryLayoutErrorView::PageSizeTooLarge,
            ) <==> is_ascii_chars(text@) && !sizes_fit(text@),
    {
        if !text.is_ascii() {
            return Err(MemoryLayoutError::NotAscii);
        }
        let chars = chars_of(text);
        if !check_sizes(chars.as_slice()) {
            return Err(MemoryLayoutError::PageSizeTooLarge);
        }
        match parse_pages(text) {
            Ok(pages) => Ok(MemoryLayout { pages }),
            Err(e) => Err(e),
        }
    }
}

} // verus!
