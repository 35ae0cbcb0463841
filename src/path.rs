//! Byte-level paths with the Unix joining rule.
use vstd::prelude::*;

verus! {

/// The directory separator.
pub const SEPARATOR: u8 = 0x2f;

/// Joins `part` onto `base`: an absolute `part` replaces `base`, an empty
/// `base` gives `part`, and otherwise one separator stands between the two.
pub open spec fn join_spec(base: Seq<u8>, part: Seq<u8>) -> Seq<u8> {
    if part.len() > 0 && part[0] == SEPARATOR {
        part
    } else if base.len() == 0 {
        part
    } else if base.last() == SEPARATOR {
        base + part
    } else {
        base + seq![SEPARATOR] + part
    }
}

/// Appends every byte of `src` to `dst`.
pub fn append_bytes(dst: &mut Vec<u8>, src: &Vec<u8>)
    ensures
        final(dst)@ == old(dst)@ + src@,
{
    let mut i: usize = 0;
    while i < src.len()
        invariant
            0 <= i <= src@.len(),
            dst@ == old(dst)@ + src@.subrange(0, i as int),
        decreases src@.len() - i,
    {
        dst.push(src[i]);
        i = i + 1;
        assert(src@.subrange(0, i as int) == src@.subrange(0, i - 1) + seq![src@[i - 1]]);
    }
    assert(src@.subrange(0, src@.len() as int) == src@);
}

/// The path `base` extended by one component `part`.
pub fn join(base: &Vec<u8>, part: &Vec<u8>) -> (r: Vec<u8>)
    ensures
        r@ == join_spec(base@, part@),
{
    if part.len() > 0 && part[0] == SEPARATOR {
        part.clone()
    } else if base.len() == 0 {
        part.clone()
    } else {
        let mut r = base.clone();
        if base[base.len() - 1] != SEPARATOR {
            r.push(SEPARATOR);
        }
        append_bytes(&mut r, part);
        r
    }
}

} // verus!
