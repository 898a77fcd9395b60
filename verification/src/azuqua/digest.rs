use crypto::digest::Digest;
use crypto::sha2::Sha256;
use vstd::prelude::*;
use vstd::string::StringSliceAdditionalSpecFns;

verus! {

#[verifier::external_type_specification]
#[verifier::external_body]
pub struct ExSha256(Sha256);

/// The bytes fed into a SHA-256 hasher since it was made.
pub uninterp spec fn sha256_fed(h: Sha256) -> Seq<u8>;

/// The hasher has produced its result and takes no more input.
pub uninterp spec fn sha256_finished(h: Sha256) -> bool;

/// The SHA-256 digest of a byte sequence.
pub uninterp spec fn sha256_digest(data: Seq<u8>) -> Seq<u8>;

/// The largest number of bytes a hasher takes: it counts the bits fed in a `u64`.
pub const MAX_HASHED_BYTES: u64 = 2305843009213693951;

/// The lower-case hexadecimal digit of a value below 16.
pub open spec fn hex_digit(n: int) -> char {
    if n < 10 {
        ((n + 48) as u8) as char
    } else {
        ((n + 87) as u8) as char
    }
}

/// Lower-case hexadecimal text of a byte sequence, two digits per byte, high
/// digit first.
pub open spec fn lower_hex(bytes: Seq<u8>) -> Seq<char>
    decreases bytes.len(),
{
    if bytes.len() == 0 {
        Seq::empty()
    } else {
        seq![hex_digit(bytes[0] as int / 16), hex_digit(bytes[0] as int % 16)] + lower_hex(bytes.drop_first())
    }
}

/// `Sha256::new`: a hasher that has been fed nothing.
#[verifier::external_body]
pub fn sha256_new() -> (h: Sha256)
    ensures
        sha256_fed(h) == Seq::<u8>::empty(),
        !sha256_finished(h),
{
    Sha256::new()
}

/// `Digest::input` on a `Sha256`: feeds the bytes. The hasher panics where it
/// has produced its result already, or where the number of bits fed would
/// overflow a `u64`; `requires` leaves those cases out.
#[verifier::external_body]
pub fn sha256_input(h: &mut Sha256, data: &[u8])
    requires
        !sha256_finished(*old(h)),
        sha256_fed(*old(h)).len() + data@.len() <= MAX_HASHED_BYTES,
    ensures
        sha256_fed(*final(h)) == sha256_fed(*old(h)) + data@,
        !sha256_finished(*final(h)),
{
    h.input(data)
}

/// `Digest::input_str` on a `Sha256`: feeds the UTF-8 bytes of the text, as
/// its source shows (`self.input(input.as_bytes())`).
#[verifier::external_body]
pub fn sha256_input_str(h: &mut Sha256, text: &str)
    requires
        !sha256_finished(*old(h)),
        sha256_fed(*old(h)).len() + text.spec_bytes().len() <= MAX_HASHED_BYTES,
    ensures
        sha256_fed(*final(h)) == sha256_fed(*old(h)) + text.spec_bytes(),
        !sha256_finished(*final(h)),
{
    h.input_str(text)
}

/// `Digest::result_str` on a `Sha256`: the digest of everything fed, as the
/// lower-case hexadecimal text of its 32 bytes (the source hex-encodes the
/// `output_bits() / 8 = 32` result bytes with `0123456789abcdef`). The hasher
/// is finished afterwards.
#[verifier::external_body]
pub fn sha256_result_str(h: &mut Sha256) -> (hex: String)
    ensures
        hex@ == lower_hex(sha256_digest(sha256_fed(*old(h)))),
        hex@.len() == 64,
        sha256_fed(*final(h)) == sha256_fed(*old(h)),
        sha256_finished(*final(h)),
{
    h.result_str()
}

} // verus!
