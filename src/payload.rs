use vstd::prelude::*;
use vstd::string::StringSliceAdditionalSpecFns;

verus! {

/// hex's `FromHexError` (an enum of three variants with public fields), with
/// its variants visible, so that contracts can say which error comes.
#[verifier::external_type_specification]
pub struct ExFromHexError(hex::FromHexError);

/// Whether a byte is a hexadecimal digit, in either case.
pub open spec fn is_hex_digit(b: u8) -> bool {
    (48 <= b <= 57) || (97 <= b <= 102) || (65 <= b <= 70)
}

/// The value of a hexadecimal digit.
pub open spec fn hex_value(b: u8) -> int {
    if 48 <= b <= 57 {
        b - 48
    } else if 97 <= b <= 102 {
        b - 87
    } else {
        b - 55
    }
}

pub open spec fn all_hex(text: Seq<u8>) -> bool {
    forall|i: int| 0 <= i < text.len() ==> is_hex_digit(#[trigger] text[i])
}

/// The bytes that an even run of hexadecimal digits spells, two digits to a byte,
/// the high half first.
pub open spec fn hex_decoded(text: Seq<u8>) -> Seq<u8> {
    Seq::new(
        text.len() / 2,
        |i: int| (hex_value(text[2 * i]) * 16 + hex_value(text[2 * i + 1])) as u8,
    )
}

/// Whether `e` reports the first byte of `text` that is not a hexadecimal digit.
pub open spec fn reports_first_invalid(text: Seq<u8>, e: hex::FromHexError) -> bool {
    e matches hex::FromHexError::InvalidHexCharacter { c, index } && index < text.len()
        && !is_hex_digit(text[index as int]) && c == (text[index as int] as char) && all_hex(
        text.take(index as int),
    )
}

/// What decoding `text` as hexadecimal gives: an odd length is refused first,
/// then the first byte that is no digit, else the decoded bytes.
pub open spec fn decodes_to(text: Seq<u8>, r: Result<Vec<u8>, hex::FromHexError>) -> bool {
    if text.len() % 2 != 0 {
        r == Err::<Vec<u8>, hex::FromHexError>(hex::FromHexError::OddLength)
    } else if all_hex(text) {
        r matches Ok(v) && v@ == hex_decoded(text)
    } else {
        r matches Err(e) && reports_first_invalid(text, e)
    }
}

/// Relies on hex::decode (hex 0.4): an odd length is `OddLength`; otherwise the
/// pairs are decoded in order and the first byte that is no digit is reported with
/// its index; otherwise each pair gives one byte.
#[verifier::external_body]
fn decode_hex(text: &[u8]) -> (r: Result<Vec<u8>, hex::FromHexError>)
    ensures
        decodes_to(text@, r),
{
    hex::decode(text)
}

/// The payload of a UDP probe: bytes given as hexadecimal text.
#[derive(Clone, Debug)]
pub struct UdpPayloadArgument(pub Vec<u8>);

impl UdpPayloadArgument {
    /// Reads a payload from hexadecimal text, without a "0x" prefix. Empty text is
    /// refused as `InvalidStringLength`, as is any text that is no even run of
    /// digits; a payload that is read is never empty.
    pub fn parse(text: &str) -> (r: Result<UdpPayloadArgument, hex::FromHexError>)
        ensures
            text.spec_bytes().len() == 0 ==> r == Err::<UdpPayloadArgument, hex::FromHexError>(
                hex::FromHexError::InvalidStringLength,
            ),
            text.spec_bytes().len() != 0 ==> match r {
                Ok(p) => decodes_to(text.spec_bytes(), Ok(p.0)),
                Err(e) => decodes_to(text.spec_bytes(), Err(e)),
            },
            r matches Ok(p) ==> p.0@.len() > 0,
    {
        let bytes = text.as_bytes();
        if bytes.len() == 0 {
            return Err(hex::FromHexError::InvalidStringLength);
        }
        match decode_hex(bytes) {
            Ok(v) => Ok(UdpPayloadArgument(v)),
            Err(e) => Err(e),
        }
    }
}

impl std::str::FromStr for UdpPayloadArgument {
    type Err = hex::FromHexError;

    fn from_str(s: &str) -> Result<UdpPayloadArgument, hex::FromHexError> {
        UdpPayloadArgument::parse(s)
    }
}

} // verus!
