//! The placement strategy: derive the content-addressed destination of an
//! optimized payload and decide, once per run, whether the payload is
//! written to a new file or the source file renamed onto it. Placement
//! itself is a filesystem action; what stands here is the plan the caller
//! carries out, and the dedup law that makes collisions meaningful.

use vstd::prelude::*;
use crate::config::Config;
use crate::digest::{address_of, spec_address_of};
use crate::kind::{extension_of, spec_extension};

verus! {

/// How a planned destination is to be realised.
#[derive(Debug, Copy, Clone, PartialEq, Eq, Structural)]
pub enum PlacementAction {
    /// Create the destination, requiring that it not already exist, and
    /// write the payload to it; the source file stays untouched.
    WriteNew,
    /// Atomically rename the source file onto the destination, failing if
    /// the destination already exists.
    RenameSource,
}

/// Where one item's result goes, and how.
#[derive(Debug, PartialEq, Eq)]
pub struct PlacementPlan {
    pub destination: Vec<u8>,
    pub action: PlacementAction,
}

/// The content-addressed file name of a payload: its address, a dot, and
/// the source file's extension (empty when the source has none).
pub open spec fn spec_output_filename(payload: Seq<u8>, source_path: Seq<u8>) -> Seq<u8> {
    spec_address_of(payload) + seq![46u8] + match spec_extension(source_path) {
        Some(e) => e,
        None => Seq::empty(),
    }
}

/// A directory path joined to a file name with a separator.
pub open spec fn spec_join_path(dir: Seq<u8>, name: Seq<u8>) -> Seq<u8> {
    dir + seq![47u8] + name
}

/// The destination an item maps to under a configuration: its output file
/// name under the run's output directory.
pub open spec fn spec_destination(payload: Seq<u8>, source_path: Seq<u8>, out_dir: Seq<u8>) -> Seq<u8> {
    spec_join_path(out_dir, spec_output_filename(payload, source_path))
}

/// Build the content-addressed file name of a payload.
pub fn output_filename(payload: &Vec<u8>, source_path: &Vec<u8>) -> (r: Vec<u8>)
    ensures
        r@ == spec_output_filename(payload@, source_path@),
{
    let mut r = address_of(payload);
    r.push(46u8);
    match extension_of(source_path) {
        Some(e) => {
            let mut i: usize = 0;
            while i < e.len()
                invariant
                    i <= e.len(),
                    spec_extension(source_path@) == Some(e@),
                    r@ == spec_address_of(payload@) + seq![46u8] + e@.take(i as int),
                decreases e.len() - i,
            {
                r.push(e[i]);
                i = i + 1;
                proof {
                    assert(e@.take(i as int) =~= e@.take(i - 1).push(e@[i - 1]));
                    assert(r@ =~= spec_address_of(payload@) + seq![46u8] + e@.take(i as int));
                }
            }
            proof {
                assert(e@.take(e@.len() as int) =~= e@);
            }
            r
        },
        None => {
            proof {
                assert(r@ =~= spec_output_filename(payload@, source_path@));
            }
            r
        },
    }
}

/// Join a directory path and a file name with a separator.
pub fn join_path(dir: &Vec<u8>, name: &Vec<u8>) -> (r: Vec<u8>)
    ensures
        r@ == spec_join_path(dir@, name@),
{
    let mut r: Vec<u8> = Vec::new();
    let mut i: usize = 0;
    while i < dir.len()
        invariant
            i <= dir.len(),
            r@ == dir@.take(i as int),
        decreases dir.len() - i,
    {
        r.push(dir[i]);
        i = i + 1;
        proof {
            assert(r@ =~= dir@.take(i as int));
        }
    }
    proof {
        assert(dir@.take(dir@.len() as int) =~= dir@);
    }
    r.push(47u8);
    let mut j: usize = 0;
    while j < name.len()
        invariant
            j <= name.len(),
            r@ == dir@ + seq![47u8] + name@.take(j as int),
        decreases name.len() - j,
    {
        r.push(name[j]);
        j = j + 1;
        proof {
            assert(r@ =~= dir@ + seq![47u8] + name@.take(j as int));
        }
    }
    proof {
        assert(name@.take(name@.len() as int) =~= name@);
        assert(r@ =~= spec_join_path(dir@, name@));
    }
    r
}

/// Plan the placement of one item's optimized payload: the destination is
/// the content-addressed name under the run's output directory, realised
/// by a rename of the source in rename-in-place mode and by a fresh write
/// otherwise.
pub fn plan_item(payload: &Vec<u8>, source_path: &Vec<u8>, cfg: &Config) -> (p: PlacementPlan)
    ensures
        p.destination@ == spec_destination(payload@, source_path@, cfg.out_dir@),
        p.action == (if cfg.rename {
            PlacementAction::RenameSource
        } else {
            PlacementAction::WriteNew
        }),
{
    let name = output_filename(payload, source_path);
    let destination = join_path(&cfg.out_dir, &name);
    let action = if cfg.rename {
        PlacementAction::RenameSource
    } else {
        PlacementAction::WriteNew
    };
    PlacementPlan { destination, action }
}

/// The dedup law: two payloads that are byte-identical and whose sources
/// share an extension map to the same content-addressed destination, so
/// the second placement to complete must find the first one there.
pub proof fn lemma_dedup_same_destination(
    payload1: Seq<u8>,
    source1: Seq<u8>,
    payload2: Seq<u8>,
    source2: Seq<u8>,
    out_dir: Seq<u8>,
)
    requires
        payload1 == payload2,
        spec_extension(source1) == spec_extension(source2),
    ensures
        spec_destination(payload1, source1, out_dir) == spec_destination(
            payload2,
            source2,
            out_dir,
        ),
{
}

} // verus!
