//! CBOR items as bytes, and the encoder that writes them.

use minicbor::data::Int;
use minicbor::Encoder;
use vstd::prelude::*;
use vstd::utf8::encode_utf8;

verus! {

/// Major type of an unsigned integer.
pub const UNSIGNED: u8 = 0;

/// Major type of a text string.
pub const TEXT: u8 = 3;

/// Major type of a map.
pub const MAP: u8 = 5;

/// The `width` low-order bytes of `value`, most significant first.
pub open spec fn be_bytes(value: nat, width: nat) -> Seq<u8>
    decreases width,
{
    if width == 0 {
        Seq::empty()
    } else {
        be_bytes(value / 256, (width - 1) as nat).push((value % 256) as u8)
    }
}

/// The head of a CBOR item: the major type in the top three bits of the
/// first byte, the argument in the shortest of the five forms.
pub open spec fn head(major: u8, argument: u64) -> Seq<u8> {
    if argument <= 0x17 {
        seq![(major * 32 + argument) as u8]
    } else if argument <= 0xff {
        seq![(major * 32 + 24) as u8, argument as u8]
    } else if argument <= 0xffff {
        seq![(major * 32 + 25) as u8] + be_bytes(argument as nat, 2)
    } else if argument <= 0xffff_ffff {
        seq![(major * 32 + 26) as u8] + be_bytes(argument as nat, 4)
    } else {
        seq![(major * 32 + 27) as u8] + be_bytes(argument as nat, 8)
    }
}

/// A definite-length text string: its head, then its UTF-8 bytes.
pub open spec fn text(chars: Seq<char>) -> Seq<u8> {
    head(TEXT, encode_utf8(chars).len() as u64) + encode_utf8(chars)
}

#[verifier::external_type_specification]
#[verifier::external_body]
#[verifier::reject_recursive_types(W)]
pub struct ExEncoder<W>(Encoder<W>);

/// The bytes that stand in an encoder's buffer.
pub uninterp spec fn written(encoder: Encoder<Vec<u8>>) -> Seq<u8>;

/// `minicbor::Encoder::new` over a byte vector: the encoder starts out
/// holding exactly the bytes of the vector it is given.
#[verifier::external_body]
pub(crate) fn encoder_new(buffer: Vec<u8>) -> (encoder: Encoder<Vec<u8>>)
    ensures
        written(encoder) == buffer@,
{
    Encoder::new(buffer)
}

/// `minicbor::Encoder::map`: appends the head of a map of `len` entries.
/// Writing into a vector cannot fail.
#[verifier::external_body]
pub(crate) fn put_map(encoder: &mut Encoder<Vec<u8>>, len: u64)
    ensures
        written(*final(encoder)) == written(*old(encoder)) + head(MAP, len),
{
    let _ = encoder.map(len);
}

/// `minicbor::Encoder::str`: appends a text string, its length counted in
/// bytes.
#[verifier::external_body]
pub(crate) fn put_text(encoder: &mut Encoder<Vec<u8>>, value: &str)
    ensures
        written(*final(encoder)) == written(*old(encoder)) + text(value@),
{
    let _ = encoder.str(value);
}

/// `minicbor::Encoder::int` on a value that is not negative: appends it as
/// an unsigned integer.
#[verifier::external_body]
pub(crate) fn put_uint(encoder: &mut Encoder<Vec<u8>>, value: u64)
    ensures
        written(*final(encoder)) == written(*old(encoder)) + head(UNSIGNED, value),
{
    let _ = encoder.int(Int::from(value));
}

/// `minicbor::Encoder::into_writer`: hands the buffer back.
#[verifier::external_body]
pub(crate) fn encoder_finish(encoder: Encoder<Vec<u8>>) -> (buffer: Vec<u8>)
    ensures
        buffer@ == written(encoder),
{
    encoder.into_writer()
}

} // verus!
