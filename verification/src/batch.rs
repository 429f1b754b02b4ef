//! The batch orchestrator's decisions: the work list is a fixed snapshot of
//! classified items, every item is processed independently, and the
//! outcomes are aggregated into one report. The caller performs the
//! filesystem work and the fan-out; what stands here fixes what each
//! recorded item must come out as, and that no item's fate depends on any
//! other item's.

use vstd::prelude::*;
use crate::kind::{classify, spec_classify, FileType};
use crate::outcome::{outcome_of, spec_outcome_of, ItemRecord, Outcome};

verus! {

/// One unit of work: a discovered source file and its classified kind.
#[derive(Debug)]
pub struct Item {
    pub path: Vec<u8>,
    pub file_type: FileType,
}

/// Make the item for one directory entry: its kind is the classification
/// of its path.
pub fn make_item(path: Vec<u8>) -> (it: Item)
    ensures
        it.path@ == path@,
        it.file_type == spec_classify(path@),
{
    let file_type = classify(&path);
    Item { path, file_type }
}

/// Build the full work list before any processing starts: one item per
/// discovered entry, in the order the entries were listed.
pub fn build_items(paths: Vec<Vec<u8>>) -> (items: Vec<Item>)
    ensures
        items@.len() == paths@.len(),
        forall|i: int|
            0 <= i < items@.len() ==> (#[trigger] items@[i]).path@ == paths@[i]@
                && items@[i].file_type == spec_classify(paths@[i]@),
{
    let mut items: Vec<Item> = Vec::new();
    let mut i: usize = 0;
    while i < paths.len()
        invariant
            i <= paths.len(),
            items@.len() == i,
            forall|k: int|
                0 <= k < i ==> (#[trigger] items@[k]).path@ == paths@[k]@
                    && items@[k].file_type == spec_classify(paths@[k]@),
        decreases paths.len() - i,
    {
        let path = crate::config::clone_bytes(&paths[i]);
        items.push(make_item(path));
        i = i + 1;
    }
    items
}

/// The aggregated artifact of one run: the outcomes of all items, in
/// completion order.
#[derive(Debug)]
pub struct BatchReport {
    pub outcomes: Vec<Outcome>,
}

impl BatchReport {
    /// An empty report.
    pub fn new() -> (r: BatchReport)
        ensures
            r.outcomes@ =~= Seq::<Outcome>::empty(),
    {
        BatchReport { outcomes: Vec::new() }
    }

    /// Record one item's outcome.
    pub fn record(&mut self, o: Outcome)
        ensures
            final(self).outcomes@ == old(self).outcomes@.push(o),
    {
        self.outcomes.push(o);
    }
}

/// The outcomes a sequence of item records maps to, item by item.
pub open spec fn spec_batch_outcomes(records: Seq<ItemRecord>) -> Seq<Outcome> {
    records.map_values(|r: ItemRecord| spec_outcome_of(r))
}

/// Aggregate the records of a finished batch into its report: one outcome
/// per record, each determined by that record alone.
pub fn collect_outcomes(records: Vec<ItemRecord>) -> (rep: BatchReport)
    ensures
        rep.outcomes@ == spec_batch_outcomes(records@),
{
    let mut rep = BatchReport::new();
    let n = records.len();
    let mut records = records;
    let ghost all: Seq<ItemRecord> = records@;
    let mut i: usize = 0;
    while i < n
        invariant
            i <= n,
            n == all.len(),
            records@ == all.skip(i as int),
            rep.outcomes@ =~= spec_batch_outcomes(all.take(i as int)),
        decreases n - i,
    {
        let rec = records.remove(0);
        proof {
            assert(rec == all[i as int]);
            assert(records@ =~= all.skip(i + 1));
        }
        let o = outcome_of(rec);
        rep.record(o);
        i = i + 1;
        proof {
            assert(all.take(i as int).drop_last() =~= all.take(i - 1));
            assert(spec_batch_outcomes(all.take(i as int)) =~= spec_batch_outcomes(
                all.take(i - 1),
            ).push(spec_outcome_of(all[i - 1])));
        }
    }
    proof {
        assert(all.take(n as int) =~= all);
    }
    rep
}

/// The isolation law: an item's outcome in a batch depends on that item's
/// own record alone. However every other item of the batch fares — forced
/// codec failures included — the outcome at its position is unchanged.
pub proof fn lemma_isolation(a: Seq<ItemRecord>, b: Seq<ItemRecord>, i: int)
    requires
        a.len() == b.len(),
        0 <= i < a.len(),
        a[i] == b[i],
    ensures
        spec_batch_outcomes(a)[i] == spec_batch_outcomes(b)[i],
{
}

} // verus!
