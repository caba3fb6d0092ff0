use vstd::prelude::*;
use vstd::string::StringSliceAdditionalSpecFns;
use vstd::utf8::encode_utf8;

verus! {

/// `pat` occurs in `hay` starting at position `i`.
pub open spec fn occurs_at(hay: Seq<u8>, pat: Seq<u8>, i: int) -> bool {
    0 <= i && i + pat.len() <= hay.len() && hay.subrange(i, i + pat.len()) == pat
}

/// `pat` occurs somewhere in `hay`.
pub open spec fn occurs_in(hay: Seq<u8>, pat: Seq<u8>) -> bool {
    exists|i: int| occurs_at(hay, pat, i)
}

/// Whether `pat` occurs in `hay` starting at position `i`.
fn matches_at(hay: &[u8], pat: &[u8], i: usize) -> (r: bool)
    requires
        i + pat@.len() <= hay@.len(),
    ensures
        r == occurs_at(hay@, pat@, i as int),
{
    let n = hay.len();
    let mut j: usize = 0;
    while j < pat.len()
        invariant
            n == hay@.len(),
            i + pat@.len() <= hay@.len(),
            j <= pat@.len(),
            forall|k: int| 0 <= k < j ==> hay@[i + k] == pat@[k],
        decreases pat@.len() - j,
    {
        if hay[i + j] != pat[j] {
            assert(hay@.subrange(i as int, i + pat@.len())[j as int] != pat@[j as int]);
            return false;
        }
        j = j + 1;
    }
    assert(hay@.subrange(i as int, i + pat@.len()) =~= pat@);
    true
}

/// Whether the text `pat` occurs in the text `content`, compared as UTF-8
/// bytes. The empty text occurs in every text.
pub fn contains_text(content: &str, pat: &str) -> (r: bool)
    ensures
        r == occurs_in(content.spec_bytes(), pat.spec_bytes()),
{
    let hay = content.as_bytes();
    let p = pat.as_bytes();
    if p.len() > hay.len() {
        return false;
    }
    let last = hay.len() - p.len();
    let mut i: usize = 0;
    while i < last
        invariant
            i <= last,
            last == hay@.len() - p@.len(),
            hay@ == content.spec_bytes(),
            p@ == pat.spec_bytes(),
            forall|k: int| 0 <= k < i ==> !occurs_at(hay@, p@, k),
        decreases last - i,
    {
        if matches_at(hay, p, i) {
            return true;
        }
        i = i + 1;
    }
    if matches_at(hay, p, last) {
        return true;
    }
    assert forall|k: int| !occurs_at(hay@, p@, k) by {
        if 0 <= k && k + p@.len() <= hay@.len() {
            assert(k <= last);
        }
    }
    false
}

/// Whether `pat` occurs in what was read from a file, where `read` is `None`
/// when the read failed; a failed read counts as empty text.
pub fn read_contains(read: &Option<String>, pat: &str) -> (r: bool)
    ensures
        r == match read {
            Some(s) => occurs_in(encode_utf8(s@), pat.spec_bytes()),
            None => occurs_in(Seq::empty(), pat.spec_bytes()),
        },
{
    match read {
        Some(s) => contains_text(s.as_str(), pat),
        None => {
            let pb = pat.as_bytes();
            if pb.len() == 0 {
                assert(Seq::<u8>::empty().subrange(0, 0) =~= pat.spec_bytes());
                assert(occurs_at(Seq::empty(), pat.spec_bytes(), 0));
                true
            } else {
                false
            }
        },
    }
}

} // verus!
