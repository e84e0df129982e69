//! Save-state file naming: the MD5 digest of the ROM's file name, in hex,
//! followed by ".data".
use vstd::prelude::*;
use vstd::string::StringExecFns;

verus! {

/// The 32 lowercase hex digits of the MD5 digest of a byte string.
pub uninterp spec fn md5_hex(data: Seq<u8>) -> Seq<char>;

/// Relies on `md5::compute` and the `LowerHex` formatting of its `Digest`:
/// sixteen digest bytes, two lowercase hex digits each, a function of the
/// input bytes alone.
#[verifier::external_body]
fn md5_hex_digest(data: &[u8]) -> (r: String)
    ensures
        r@ == md5_hex(data@),
        r@.len() == 32,
{
    format!("{:x}", md5::compute(data))
}

/// The save file name for a digest already rendered in hex.
pub fn save_name_from_digest(hex: String) -> (r: String)
    ensures
        r@ == hex@ + ".data"@,
        r@.len() == hex@.len() + 5,
{
    proof {
        reveal_strlit(".data");
    }
    hex.concat(".data")
}

/// The save file name for a ROM whose file name (without directories) has
/// the given bytes.
pub fn save_file_name(rom_basename: &[u8]) -> (r: String)
    ensures
        r@ == md5_hex(rom_basename@) + ".data"@,
        r@.len() == 37,
{
    save_name_from_digest(md5_hex_digest(rom_basename))
}

} // verus!
