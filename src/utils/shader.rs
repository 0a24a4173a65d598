//! The encoding of names handed to the graphics driver.
use vstd::prelude::*;
use vstd::string::StringSliceAdditionalSpecFns;

verus! {

/// `name`'s bytes followed by a terminating zero byte, when `name` holds no
/// zero byte of its own.
pub open spec fn nul_terminated(name: Seq<u8>) -> Option<Seq<u8>> {
    if name.contains(0u8) {
        None
    } else {
        Some(name.push(0u8))
    }
}

/// The bytes of a uniform's name as the driver looks it up: the name's UTF-8
/// bytes and a terminating zero byte. A name that holds a zero byte itself
/// cannot be passed, and gives `None`.
pub fn uniform_name_with_nul(name: &str) -> (r: Option<Vec<u8>>)
    ensures
        r matches Some(bytes) ==> nul_terminated(name.spec_bytes()) == Some(bytes@),
        r is None <==> nul_terminated(name.spec_bytes()) is None,
{
    let bytes = name.as_bytes();
    let mut out: Vec<u8> = Vec::new();
    let mut i: usize = 0;
    while i < bytes.len()
        invariant
            i <= bytes@.len(),
            bytes@ == name.spec_bytes(),
            out@ == bytes@.subrange(0, i as int),
            !out@.contains(0u8),
        decreases bytes@.len() - i,
    {
        let byte = bytes[i];
        if byte == 0 {
            assert(bytes@.contains(0u8)) by {
                assert(bytes@[i as int] == 0u8);
            }
            return None;
        }
        out.push(byte);
        i = i + 1;
        assert(out@ == bytes@.subrange(0, i as int));
    }
    assert(out@ == bytes@);
    out.push(0);
    Some(out)
}

} // verus!
