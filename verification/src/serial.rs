//! Finding the serial number in a device-property response.

use vstd::prelude::*;
use vstd::utf8::{decode_utf8, encode_utf8, encode_utf8_decode_utf8, encode_utf8_valid_utf8, valid_utf8};
use crate::descriptor::{header_of, DeviceDescriptor, HEADER_LEN};
use crate::error::QueryError;
use crate::text::{
    copy_text, lemma_encoding_zero_free, lemma_text_of_block, nul_free, terminated_text, zero_free,
};

verus! {

/// How many bytes of `buffer` the system wrote: as many as it says it
/// returned, and never more than the buffer holds.
pub open spec fn written_len(buffer: Seq<u8>, bytes_returned: u32) -> int {
    if bytes_returned <= buffer.len() {
        bytes_returned as int
    } else {
        buffer.len() as int
    }
}

/// Where the populated region of a response ends: with the bytes written,
/// or earlier where the header declares a smaller total size.
pub open spec fn populated_len(buffer: Seq<u8>, bytes_returned: u32) -> int
    recommends
        written_len(buffer, bytes_returned) >= HEADER_LEN,
{
    if header_of(buffer).size <= written_len(buffer, bytes_returned) {
        header_of(buffer).size as int
    } else {
        written_len(buffer, bytes_returned)
    }
}

/// Whether the header points at a serial number: the offset is not zero and
/// lies inside the populated region.
pub open spec fn locates_serial(buffer: Seq<u8>, bytes_returned: u32) -> bool
    recommends
        written_len(buffer, bytes_returned) >= HEADER_LEN,
{
    0 < header_of(buffer).serial_number_offset < populated_len(buffer, bytes_returned)
}

/// The bytes of the serial number: from the offset that the header gives up
/// to the first zero byte, or to the end of the populated region where no
/// zero byte comes before it.
pub open spec fn serial_bytes(buffer: Seq<u8>, bytes_returned: u32) -> Seq<u8>
    recommends
        written_len(buffer, bytes_returned) >= HEADER_LEN,
        locates_serial(buffer, bytes_returned),
{
    terminated_text(
        buffer.subrange(
            header_of(buffer).serial_number_offset as int,
            populated_len(buffer, bytes_returned),
        ),
    )
}

/// What a response decodes to.
pub open spec fn decoded_serial(buffer: Seq<u8>, bytes_returned: u32) -> Result<
    Seq<char>,
    QueryError,
> {
    if written_len(buffer, bytes_returned) < HEADER_LEN {
        Err(QueryError::TruncatedResponse)
    } else if !locates_serial(buffer, bytes_returned) {
        Err(QueryError::NoSerialNumber)
    } else if !valid_utf8(serial_bytes(buffer, bytes_returned)) {
        Err(QueryError::InvalidEncoding)
    } else {
        Ok(decode_utf8(serial_bytes(buffer, bytes_returned)))
    }
}

/// Whether a response holds `text` as its serial number: the header points
/// into the populated region, `text` stands there in full, and after it
/// comes a zero byte or the end of the region.
pub open spec fn holds_serial(buffer: Seq<u8>, bytes_returned: u32, text: Seq<u8>) -> bool {
    let start = header_of(buffer).serial_number_offset as int;
    let end = start + text.len();
    &&& written_len(buffer, bytes_returned) >= HEADER_LEN
    &&& locates_serial(buffer, bytes_returned)
    &&& end <= populated_len(buffer, bytes_returned)
    &&& buffer.subrange(start, end) == text
    &&& (end == populated_len(buffer, bytes_returned) || buffer[end] == 0)
}

/// An outcome with its text as a sequence of characters.
pub open spec fn outcome_view(outcome: Result<String, QueryError>) -> Result<
    Seq<char>,
    QueryError,
> {
    match outcome {
        Ok(text) => Ok(text@),
        Err(error) => Err(error),
    }
}

/// Decodes the response that a property query left in `buffer`, of which
/// the system says it wrote `bytes_returned` bytes. The serial number comes
/// back as an owned string, exactly as the device spelled it: nothing is
/// trimmed. No byte outside the populated region is read.
pub fn decode_serial(buffer: &[u8], bytes_returned: u32) -> (serial: Result<String, QueryError>)
    ensures
        outcome_view(serial) == decoded_serial(buffer@, bytes_returned),
{
    let written: usize = if (bytes_returned as usize) <= buffer.len() {
        bytes_returned as usize
    } else {
        buffer.len()
    };
    match DeviceDescriptor::parse(buffer) {
        None => Err(QueryError::TruncatedResponse),
        Some(header) => {
            if written < HEADER_LEN {
                return Err(QueryError::TruncatedResponse);
            }
            let populated: usize = if (header.size as usize) <= written {
                header.size as usize
            } else {
                written
            };
            let start: usize = header.serial_number_offset as usize;
            if start == 0 || start >= populated {
                return Err(QueryError::NoSerialNumber);
            }
            match String::from_utf8(copy_text(buffer, start, populated)) {
                Ok(text) => Ok(text),
                Err(_) => Err(QueryError::InvalidEncoding),
            }
        },
    }
}

/// The serial number of a response that holds one is the text held.
pub proof fn lemma_serial_bytes_held(buffer: Seq<u8>, bytes_returned: u32, text: Seq<u8>)
    requires
        holds_serial(buffer, bytes_returned, text),
        zero_free(text),
    ensures
        serial_bytes(buffer, bytes_returned) == text,
{
    let start = header_of(buffer).serial_number_offset as int;
    let region = buffer.subrange(start, populated_len(buffer, bytes_returned));
    assert(region.take(text.len() as int) =~= buffer.subrange(start, start + text.len()));
    lemma_text_of_block(region, text);
}

/// A device's serial number comes back as it is. A response that holds the
/// UTF-8 bytes of `serial`, a text without NUL characters, decodes to
/// `serial`: every character of it and nothing besides, so not to the
/// empty text unless `serial` is empty.
pub proof fn law_held_serial_is_returned(buffer: Seq<u8>, bytes_returned: u32, serial: Seq<char>)
    requires
        nul_free(serial),
        holds_serial(buffer, bytes_returned, encode_utf8(serial)),
    ensures
        decoded_serial(buffer, bytes_returned) == Ok::<Seq<char>, QueryError>(serial),
{
    lemma_encoding_zero_free(serial);
    lemma_serial_bytes_held(buffer, bytes_returned, encode_utf8(serial));
    encode_utf8_valid_utf8(serial);
    encode_utf8_decode_utf8(serial);
}

/// A response shorter than the header is truncated, whatever it holds.
pub proof fn law_short_response_is_truncated(buffer: Seq<u8>, bytes_returned: u32)
    requires
        bytes_returned < HEADER_LEN || buffer.len() < HEADER_LEN,
    ensures
        decoded_serial(buffer, bytes_returned) == Err::<Seq<char>, QueryError>(
            QueryError::TruncatedResponse,
        ),
{
}

/// A header whose serial-number offset is zero gives no serial number,
/// whatever else the response holds.
pub proof fn law_zero_offset_is_no_serial(buffer: Seq<u8>, bytes_returned: u32)
    requires
        written_len(buffer, bytes_returned) >= HEADER_LEN,
        header_of(buffer).serial_number_offset == 0,
    ensures
        decoded_serial(buffer, bytes_returned) == Err::<Seq<char>, QueryError>(
            QueryError::NoSerialNumber,
        ),
{
}

/// A serial-number offset at or past the end of the buffer, of the bytes
/// returned or of the size that the header declares gives no serial number:
/// nothing is read there.
pub proof fn law_offset_outside_is_no_serial(buffer: Seq<u8>, bytes_returned: u32)
    requires
        written_len(buffer, bytes_returned) >= HEADER_LEN,
        header_of(buffer).serial_number_offset >= buffer.len() || header_of(
            buffer,
        ).serial_number_offset >= bytes_returned || header_of(buffer).serial_number_offset
            >= header_of(buffer).size,
    ensures
        decoded_serial(buffer, bytes_returned) == Err::<Seq<char>, QueryError>(
            QueryError::NoSerialNumber,
        ),
{
}

/// A response that holds, as its serial number, bytes that are not UTF-8
/// is rejected for its encoding.
pub proof fn law_ill_formed_serial_is_invalid(buffer: Seq<u8>, bytes_returned: u32, text: Seq<u8>)
    requires
        holds_serial(buffer, bytes_returned, text),
        zero_free(text),
        !valid_utf8(text),
    ensures
        decoded_serial(buffer, bytes_returned) == Err::<Seq<char>, QueryError>(
            QueryError::InvalidEncoding,
        ),
{
    lemma_serial_bytes_held(buffer, bytes_returned, text);
}

} // verus!
