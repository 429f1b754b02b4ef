//! Startup checks: validating that a given path names a directory, and
//! resolving the external JPEG optimizer from the output of a search on
//! the executable path. The search itself is the caller's: what stands
//! here decides what its output means.

use vstd::prelude::*;

verus! {

/// Whether the external JPEG optimizer was found, and where.
#[derive(Debug)]
pub enum CheckResult {
    /// The resolved path of the tool.
    Found(String),
    /// No tool on the executable search path: the run must stop before
    /// any item is processed.
    NotFound,
}

/// A whitespace character: the Unicode white-space set, as the standard
/// library's trimming understands it.
pub open spec fn is_space(c: char) -> bool {
    let u = c as u32;
    (9 <= u && u <= 13) || u == 32 || u == 0x85 || u == 0xA0 || u == 0x1680 || (0x2000 <= u && u
        <= 0x200A) || u == 0x2028 || u == 0x2029 || u == 0x202F || u == 0x205F || u == 0x3000
}

/// The number of whitespace characters that lead `s`.
pub open spec fn leading_spaces(s: Seq<char>) -> int
    decreases s.len(),
{
    if s.len() == 0 || !is_space(s[0]) {
        0
    } else {
        1 + leading_spaces(s.drop_first())
    }
}

/// Where the trailing whitespace of `s` begins.
pub open spec fn trimmed_end(s: Seq<char>) -> int
    decreases s.len(),
{
    if s.len() == 0 || !is_space(s.last()) {
        s.len() as int
    } else {
        trimmed_end(s.drop_last())
    }
}

/// `s` without its leading and trailing whitespace.
pub open spec fn spec_trim(s: Seq<char>) -> Seq<char> {
    if leading_spaces(s) <= trimmed_end(s) {
        s.subrange(leading_spaces(s), trimmed_end(s))
    } else {
        Seq::empty()
    }
}

/// A position that only whitespace precedes and that no whitespace
/// character stands at is where the leading whitespace ends.
proof fn lemma_leading_unique(s: Seq<char>, i: int)
    requires
        0 <= i <= s.len(),
        forall|k: int| 0 <= k < i ==> is_space(s[k]),
        i < s.len() ==> !is_space(s[i]),
    ensures
        leading_spaces(s) == i,
    decreases s.len(),
{
    if i == 0 {
    } else {
        assert(is_space(s[0]));
        lemma_leading_unique(s.drop_first(), i - 1);
    }
}

/// A position that only whitespace follows and that no whitespace
/// character stands just before is where the trailing whitespace begins.
proof fn lemma_end_unique(s: Seq<char>, j: int)
    requires
        0 <= j <= s.len(),
        forall|k: int| j <= k < s.len() ==> is_space(s[k]),
        j > 0 ==> !is_space(s[j - 1]),
    ensures
        trimmed_end(s) == j,
    decreases s.len(),
{
    if j == s.len() {
    } else {
        assert(is_space(s.last()));
        lemma_end_unique(s.drop_last(), j);
    }
}

/// Whether a character is whitespace, as executable code.
fn is_space_char(c: char) -> (r: bool)
    ensures
        r == is_space(c),
{
    let u = c as u32;
    (9 <= u && u <= 13) || u == 32 || u == 0x85 || u == 0xA0 || u == 0x1680 || (0x2000 <= u && u
        <= 0x200A) || u == 0x2028 || u == 0x2029 || u == 0x202F || u == 0x205F || u == 0x3000
}

/// Strip leading and trailing whitespace from a string.
pub fn trim_str(s: &str) -> (r: String)
    ensures
        r@ == spec_trim(s@),
{
    let n = s.unicode_len();
    let mut i: usize = 0;
    while i < n && is_space_char(s.get_char(i))
        invariant
            i <= n,
            n == s@.len(),
            forall|k: int| 0 <= k < i ==> is_space(s@[k]),
        decreases n - i,
    {
        i = i + 1;
    }
    proof {
        lemma_leading_unique(s@, i as int);
    }
    let mut j: usize = n;
    while j > i && is_space_char(s.get_char(j - 1))
        invariant
            i <= j <= n,
            n == s@.len(),
            leading_spaces(s@) == i,
            forall|k: int| j <= k < n ==> is_space(s@[k]),
        decreases j,
    {
        j = j - 1;
    }
    if j == i {
        proof {
            lemma_leading_bound(s@);
            assert(i as int == s@.len());
            lemma_end_unique(s@, 0);
            assert(spec_trim(s@) =~= Seq::<char>::empty());
        }
        String::new()
    } else {
        proof {
            lemma_end_unique(s@, j as int);
        }
        let t = s.substring_char(i, j);
        t.to_owned()
    }
}

/// The leading whitespace of a string is whitespace, ends at a
/// non-whitespace character when one follows, and fits in the string.
proof fn lemma_leading_bound(s: Seq<char>)
    ensures
        0 <= leading_spaces(s) <= s.len(),
        forall|k: int| 0 <= k < leading_spaces(s) ==> is_space(s[k]),
        leading_spaces(s) < s.len() ==> !is_space(s[leading_spaces(s)]),
    decreases s.len(),
{
    if s.len() == 0 || !is_space(s[0]) {
    } else {
        lemma_leading_bound(s.drop_first());
        assert forall|k: int| 0 <= k < leading_spaces(s) implies is_space(s[k]) by {
            if k > 0 {
                assert(s.drop_first()[k - 1] == s[k]);
                assert(is_space(s.drop_first()[k - 1]));
            }
        }
    }
}

/// Decide what a search for the external JPEG optimizer found: no output
/// means no tool; otherwise the tool's path is the output without the
/// whitespace around it.
pub fn check_jpegoptim(probe: Option<String>) -> (r: CheckResult)
    ensures
        probe is None ==> r is NotFound,
        probe matches Some(s) ==> (r matches CheckResult::Found(p) && p@ == spec_trim(s@)),
{
    match probe {
        None => CheckResult::NotFound,
        Some(s) => CheckResult::Found(trim_str(s.as_str())),
    }
}

/// Relies on std::path::Path::is_dir: whether the path names a directory
/// on disk, false on any error, as a metadata query followed by a file
/// type test. The answer depends on the filesystem, so nothing more is
/// promised of it than that the empty path, on which a metadata query
/// always fails, is never a directory.
#[verifier::external_body]
fn path_is_dir(path: &str) -> (r: bool)
    ensures
        path@.len() == 0 ==> !r,
{
    std::path::Path::new(path).is_dir()
}

/// Validate that a path names an existing directory: the path itself when
/// it does, and a diagnostic otherwise; the empty path is always turned
/// away.
pub fn is_dir(path: &str) -> (r: Result<String, String>)
    ensures
        r matches Ok(p) ==> p@ == path@,
        r matches Err(m) ==> m@
            == "The path provided is not a directory. Please provide a directory path."@,
        path@.len() == 0 ==> r is Err,
{
    if path_is_dir(path) {
        Ok(path.to_owned())
    } else {
        Err("The path provided is not a directory. Please provide a directory path.".to_owned())
    }
}

} // verus!
