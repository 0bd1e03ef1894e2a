//! The DFU functional descriptor and the search for it among descriptor bytes. The search
//! stops at the first range that holds a well-formed record; a range that holds none, or a
//! malformed one, is passed over.

use vstd::prelude::*;
use crate::error::FunctionalDescriptorError;

verus! {

/// Transfer capabilities that a DFU interface advertises.
#[derive(Debug, Clone, Copy, PartialEq, Eq)]
pub struct FunctionalDescriptor {
    /// Bit 0 of the attributes: the device accepts downloads.
    pub can_download: bool,
    /// Bit 1 of the attributes: the device offers uploads.
    pub can_upload: bool,
    /// Bit 2 of the attributes: the device stays on the bus after manifestation.
    pub manifestation_tolerant: bool,
    /// Bit 3 of the attributes: the device detaches by itself on a detach request.
    pub will_detach: bool,
    /// Milliseconds the device waits for a reset after a detach request.
    pub detach_timeout: u16,
    /// Largest number of bytes per control transfer.
    pub transfer_size: u16,
    /// DFU version, major part first.
    pub dfu_version: (u8, u8),
}

/// What the decoder makes of a range of descriptor bytes: nothing, a functional descriptor,
/// or the error of a malformed one.
pub type Decoded = Option<Result<FunctionalDescriptor, FunctionalDescriptorError>>;

/// Tag of a DFU functional descriptor.
pub const DFU_FUNCTIONAL: u8 = 0x21;

/// Length of a DFU functional descriptor.
pub const FUNCTIONAL_LENGTH: usize = 9;

/// The sixteen-bit number whose low byte is `low` and whose high byte is `high`.
pub open spec fn le16(low: u8, high: u8) -> u16 {
    (low as int + 256 * (high as int)) as u16
}

/// Whether `attributes` has the bit of `mask` set.
pub open spec fn attribute(attributes: u8, mask: u8) -> bool {
    attributes & mask != 0
}

/// What the decoder makes of a range of descriptor bytes: `None` when it is no functional
/// descriptor at all (shorter than two bytes, or another tag), an error when it carries the tag
/// but not all nine bytes, and the decoded record otherwise.
pub open spec fn decoded(bytes: Seq<u8>) -> Decoded {
    if bytes.len() < 2 || bytes[1] != DFU_FUNCTIONAL {
        None
    } else if bytes.len() < FUNCTIONAL_LENGTH {
        Some(Err(FunctionalDescriptorError::DataTooShort(bytes.len() as usize)))
    } else {
        Some(Ok(FunctionalDescriptor {
            can_download: attribute(bytes[2], 0x01),
            can_upload: attribute(bytes[2], 0x02),
            manifestation_tolerant: attribute(bytes[2], 0x04),
            will_detach: attribute(bytes[2], 0x08),
            detach_timeout: le16(bytes[3], bytes[4]),
            transfer_size: le16(bytes[5], bytes[6]),
            dfu_version: (bytes[8], bytes[7]),
        }))
    }
}

/// Calls `dfu_core::functional_descriptor::FunctionalDescriptor::from_bytes` and copies the
/// outcome, field by field, into this crate's types. The contract restates that function: it
/// looks at the slice's length and at its second byte, ignores the first, and reads the
/// attributes, two little-endian words and the version from bytes 2 to 8.
#[verifier::external_body]
fn decode(bytes: &[u8]) -> (res: Decoded)
    ensures
        res == decoded(bytes@),
{
    match dfu_core::functional_descriptor::FunctionalDescriptor::from_bytes(bytes) {
        None => None,
        Some(Err(dfu_core::functional_descriptor::Error::DataTooShort(n))) => {
            Some(Err(FunctionalDescriptorError::DataTooShort(n)))
        },
        Some(Ok(d)) => Some(Ok(FunctionalDescriptor {
            can_download: d.can_download,
            can_upload: d.can_upload,
            manifestation_tolerant: d.manifestation_tolerant,
            will_detach: d.will_detach,
            detach_timeout: d.detach_timeout,
            transfer_size: d.transfer_size,
            dfu_version: d.dfu_version,
        })),
    }
}

/// The record that a range of descriptor bytes holds: the decoded one where the range carries
/// the tag and all nine bytes, and none otherwise. A range that is malformed holds none.
pub open spec fn record(bytes: Seq<u8>) -> Option<FunctionalDescriptor> {
    match decoded(bytes) {
        Some(Ok(descriptor)) => Some(descriptor),
        _ => None,
    }
}

/// The record of the first byte range, in order, that holds one.
pub open spec fn first_decoded(ranges: Seq<Seq<u8>>) -> Option<FunctionalDescriptor>
    decreases ranges.len(),
{
    if ranges.len() == 0 {
        None
    } else {
        match first_decoded(ranges.drop_last()) {
            Some(descriptor) => Some(descriptor),
            None => record(ranges.last()),
        }
    }
}

/// Decodes the record that `bytes` holds.
pub fn decode_record(bytes: &[u8]) -> (res: Option<FunctionalDescriptor>)
    ensures
        res == record(bytes@),
{
    match decode(bytes) {
        Some(Ok(descriptor)) => Some(descriptor),
        _ => None,
    }
}

/// A search through `front + back` ends in `front` where `front` holds a record, and is a
/// search through `back` where it holds none.
pub proof fn lemma_first_decoded_concat(front: Seq<Seq<u8>>, back: Seq<Seq<u8>>)
    ensures
        first_decoded(front + back) == match first_decoded(front) {
            Some(descriptor) => Some(descriptor),
            None => first_decoded(back),
        },
    decreases back.len(),
{
    if back.len() > 0 {
        lemma_first_decoded_concat(front, back.drop_last());
        assert((front + back).drop_last() =~= front + back.drop_last());
    }
}

/// The search order is fixed: the range at position `at` decides as soon as no range in
/// front of it holds a record, whatever stands behind it and whatever malformed ranges stand
/// in front; and where the search finds nothing, no range holds a record.
pub proof fn lemma_first_decoded_earliest(ranges: Seq<Seq<u8>>, at: int)
    requires
        0 <= at < ranges.len(),
    ensures
        (forall|k: int| 0 <= k < at ==> record(#[trigger] ranges[k]) is None) && record(
            ranges[at],
        ) is Some ==> first_decoded(ranges) == record(ranges[at]),
        first_decoded(ranges) is None ==> record(ranges[at]) is None,
    decreases ranges.len(),
{
    let front = ranges.drop_last();
    if at < ranges.len() - 1 {
        lemma_first_decoded_earliest(front, at);
    } else if forall|k: int| 0 <= k < at ==> record(#[trigger] ranges[k]) is None {
        lemma_first_decoded_none(front);
    }
}

/// A search among ranges of which none holds a record finds nothing.
pub proof fn lemma_first_decoded_none(ranges: Seq<Seq<u8>>)
    requires
        forall|k: int| 0 <= k < ranges.len() ==> record(#[trigger] ranges[k]) is None,
    ensures
        first_decoded(ranges) is None,
    decreases ranges.len(),
{
    if ranges.len() > 0 {
        lemma_first_decoded_none(ranges.drop_last());
    }
}

/// A malformed range never ends the search: with a range that carries the tag but is cut
/// short put in front, the search gives what it gives without it.
pub proof fn lemma_malformed_is_passed_over(malformed: Seq<u8>, ranges: Seq<Seq<u8>>)
    requires
        decoded(malformed) matches Some(Err(_)),
    ensures
        first_decoded(seq![malformed] + ranges) == first_decoded(ranges),
{
    let front = seq![malformed];
    assert(first_decoded(front.drop_last()) is None);
    lemma_first_decoded_concat(front, ranges);
}

} // verus!
