//! Joining of file-system paths, held as their bytes, with the Unix rules of
//! `PathBuf::push`.
use vstd::prelude::*;

verus! {

/// The byte of the path separator `/`.
pub open spec fn separator() -> u8 {
    47u8
}

/// A path is absolute when it starts at the root.
pub open spec fn is_absolute(p: Seq<u8>) -> bool {
    p.len() > 0 && p[0] == separator()
}

/// `base` joined with `segment`: an absolute segment replaces the base;
/// otherwise one separator is put between them, unless the base is empty
/// or already ends with one.
pub open spec fn path_join(base: Seq<u8>, segment: Seq<u8>) -> Seq<u8> {
    if is_absolute(segment) {
        segment
    } else if base.len() == 0 || base.last() == separator() {
        base + segment
    } else {
        base.push(separator()) + segment
    }
}

/// Joins `segment` onto `base`, as `Path::join` does on Unix.
pub fn join_path(base: &[u8], segment: &[u8]) -> (res: Vec<u8>)
    ensures
        res@ == path_join(base@, segment@),
{
    if segment.len() > 0 && segment[0] == 47u8 {
        return vstd::slice::slice_to_vec(segment);
    }
    let mut res = vstd::slice::slice_to_vec(base);
    if base.len() > 0 && base[base.len() - 1] != 47u8 {
        res.push(47u8);
    }
    let mut i: usize = 0;
    let ghost start = res@;
    while i < segment.len()
        invariant
            i <= segment@.len(),
            res@ == start + segment@.subrange(0, i as int),
        decreases segment@.len() - i,
    {
        res.push(segment[i]);
        i = i + 1;
        proof {
            assert(segment@.subrange(0, i as int) =~= segment@.subrange(0, i - 1).push(segment@[i - 1]));
        }
    }
    proof {
        assert(segment@.subrange(0, i as int) =~= segment@);
    }
    res
}

} // verus!
