//! The run's configuration: an immutable record constructed once at
//! startup and shared by every item. It fixes the input directory, the
//! output directory, the placement mode, and the resolved path of the
//! external JPEG tool.

use vstd::prelude::*;

verus! {

/// Process-wide, read-only configuration for one batch run.
#[derive(Debug)]
pub struct Config {
    /// The directory whose entries form the batch.
    pub in_dir: Vec<u8>,
    /// The directory the placed results go to. In rename-in-place mode it
    /// equals the input directory.
    pub out_dir: Vec<u8>,
    /// Whether sources are renamed in place instead of copied anew.
    pub rename: bool,
    /// The resolved path of the external JPEG optimizer.
    pub jpegoptim: String,
}

/// Copy a byte string.
pub fn clone_bytes(v: &Vec<u8>) -> (r: Vec<u8>)
    ensures
        r@ == v@,
{
    let mut r: Vec<u8> = Vec::new();
    let mut i: usize = 0;
    while i < v.len()
        invariant
            i <= v.len(),
            r@ == v@.take(i as int),
        decreases v.len() - i,
    {
        r.push(v[i]);
        i = i + 1;
        proof {
            assert(r@ =~= v@.take(i as int));
        }
    }
    proof {
        assert(v@.take(v@.len() as int) =~= v@);
    }
    r
}

/// Resolve the run's configuration from the caller's choices: exactly one
/// of an output directory or the rename-in-place mode must be selected,
/// and in rename-in-place mode the output directory is the input
/// directory itself.
pub fn resolve_config(
    input: Vec<u8>,
    output: Option<Vec<u8>>,
    rename_in_place: bool,
    jpegoptim: String,
) -> (c: Config)
    requires
        rename_in_place || output is Some,
    ensures
        c.in_dir@ == input@,
        c.rename == rename_in_place,
        rename_in_place ==> c.out_dir@ == input@,
        !rename_in_place ==> (output matches Some(o) && c.out_dir@ == o@),
        c.jpegoptim@ == jpegoptim@,
{
    let out_dir = if rename_in_place {
        clone_bytes(&input)
    } else {
        match output {
            Some(o) => o,
            None => Vec::new(),
        }
    };
    Config { in_dir: input, out_dir, rename: rename_in_place, jpegoptim }
}

} // verus!
