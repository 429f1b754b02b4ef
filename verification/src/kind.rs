//! Classification of directory entries: a file's kind is a pure, total
//! function of its path's extension. Paths are byte strings; the extension
//! is the part of the final path component after its last dot, absent when
//! the component has no dot or only a leading one.

use vstd::prelude::*;
use vstd::slice::{slice_subrange, slice_to_vec};

verus! {

/// The kind of a discovered file, derived purely from its extension.
#[derive(Debug, Copy, Clone, PartialEq, Eq, Structural)]
pub enum FileType {
    Png,
    Jpeg,
    Other,
}

/// Index of the last occurrence of `c` in `s`, if any.
pub open spec fn rfind(s: Seq<u8>, c: u8) -> Option<int>
    decreases s.len(),
{
    if s.len() == 0 {
        None
    } else if s[s.len() - 1] == c {
        Some(s.len() - 1)
    } else {
        rfind(s.take(s.len() - 1), c)
    }
}

/// `rfind` returns the position of the last occurrence: the byte there is
/// `c` and no later byte is.
pub proof fn lemma_rfind(s: Seq<u8>, c: u8)
    ensures
        match rfind(s, c) {
            Some(i) => 0 <= i < s.len() && s[i] == c && (forall|k: int|
                i < k < s.len() ==> s[k] != c),
            None => forall|k: int| 0 <= k < s.len() ==> s[k] != c,
        },
    decreases s.len(),
{
    if s.len() == 0 {
    } else if s[s.len() - 1] == c {
    } else {
        lemma_rfind(s.take(s.len() - 1), c);
        assert(forall|k: int|
            0 <= k < s.len() - 1 ==> s.take(s.len() - 1)[k] == s[k]);
    }
}

/// The final path component: everything after the last `/`, or the whole
/// path when there is none.
pub open spec fn spec_file_name(p: Seq<u8>) -> Seq<u8> {
    match rfind(p, 47u8) {
        Some(i) => p.subrange(i + 1, p.len() as int),
        None => p,
    }
}

/// The extension of a path: the part of the final component after its last
/// dot. A component without a dot, or whose only dot leads it, has none.
pub open spec fn spec_extension(p: Seq<u8>) -> Option<Seq<u8>> {
    let n = spec_file_name(p);
    match rfind(n, 46u8) {
        Some(i) => if i == 0 {
            None
        } else {
            Some(n.subrange(i + 1, n.len() as int))
        },
        None => None,
    }
}

/// Classification by extension: `png` is a PNG, `jpeg` and `jpg` are JPEGs,
/// everything else (a missing extension included) is `Other`. The
/// comparison is case-sensitive.
pub open spec fn spec_classify(p: Seq<u8>) -> FileType {
    match spec_extension(p) {
        Some(e) => if e == seq![112u8, 110u8, 103u8] {
            FileType::Png
        } else if e == seq![106u8, 112u8, 101u8, 103u8] || e == seq![106u8, 112u8, 103u8] {
            FileType::Jpeg
        } else {
            FileType::Other
        },
        None => FileType::Other,
    }
}

/// Position of the last occurrence of `c` in `s`, as executable code.
fn rfind_byte(s: &Vec<u8>, c: u8) -> (r: Option<usize>)
    ensures
        match r {
            Some(i) => rfind(s@, c) == Some(i as int),
            None => rfind(s@, c) is None,
        },
{
    let mut i: usize = s.len();
    while i > 0
        invariant
            i <= s.len(),
            forall|k: int| i <= k < s@.len() ==> s@[k] != c,
        decreases i,
    {
        i = i - 1;
        if s[i] == c {
            proof {
                lemma_rfind(s@, c);
            }
            return Some(i);
        }
    }
    proof {
        lemma_rfind(s@, c);
    }
    None
}

/// The final path component of `path`, as executable code.
pub fn file_name_of(path: &Vec<u8>) -> (r: Vec<u8>)
    ensures
        r@ == spec_file_name(path@),
{
    match rfind_byte(path, 47u8) {
        Some(i) => {
            proof {
                lemma_rfind(path@, 47u8);
                assert(i < path.len());
            }
            slice_to_vec(slice_subrange(path.as_slice(), i + 1, path.len()))
        },
        None => slice_to_vec(slice_subrange(path.as_slice(), 0, path.len())),
    }
}

/// The extension of `path`, as executable code.
pub fn extension_of(path: &Vec<u8>) -> (r: Option<Vec<u8>>)
    ensures
        match r {
            Some(e) => spec_extension(path@) == Some(e@),
            None => spec_extension(path@) is None,
        },
{
    let name = file_name_of(path);
    match rfind_byte(&name, 46u8) {
        Some(i) => if i == 0 {
            None
        } else {
            proof {
                lemma_rfind(name@, 46u8);
                assert(i < name.len());
            }
            Some(slice_to_vec(slice_subrange(name.as_slice(), i + 1, name.len())))
        },
        None => None,
    }
}

/// Classify a path into its `FileType` by its extension.
pub fn classify(path: &Vec<u8>) -> (k: FileType)
    ensures
        k == spec_classify(path@),
{
    match extension_of(path) {
        Some(e) => {
            if e.len() == 3 && e[0] == 112u8 && e[1] == 110u8 && e[2] == 103u8 {
                proof {
                    assert(e@ =~= seq![112u8, 110u8, 103u8]);
                }
                FileType::Png
            } else if e.len() == 4 && e[0] == 106u8 && e[1] == 112u8 && e[2] == 101u8 && e[3]
                == 103u8 {
                proof {
                    assert(e@ =~= seq![106u8, 112u8, 101u8, 103u8]);
                }
                FileType::Jpeg
            } else if e.len() == 3 && e[0] == 106u8 && e[1] == 112u8 && e[2] == 103u8 {
                proof {
                    assert(e@ =~= seq![106u8, 112u8, 103u8]);
                }
                FileType::Jpeg
            } else {
                proof {
                    assert(e@ != seq![112u8, 110u8, 103u8]);
                    assert(e@ != seq![106u8, 112u8, 101u8, 103u8]);
                    assert(e@ != seq![106u8, 112u8, 103u8]);
                }
                FileType::Other
            }
        },
        None => FileType::Other,
    }
}

} // verus!
