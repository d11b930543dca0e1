use vstd::prelude::*;
use crate::error::PipelineError;
use crate::record::{CatalogItem, EnrichedRecord};

verus! {

/// Whether every lookup succeeded.
pub open spec fn all_found(outcomes: Seq<Result<u64, PipelineError>>) -> bool {
    forall|i: int| 0 <= i < outcomes.len() ==> (#[trigger] outcomes[i]) is Ok
}

/// Whether `k` is the position of the first failed lookup.
pub open spec fn is_first_failure(outcomes: Seq<Result<u64, PipelineError>>, k: int) -> bool {
    &&& 0 <= k < outcomes.len()
    &&& outcomes[k] is Err
    &&& forall|j: int| 0 <= j < k ==> (#[trigger] outcomes[j]) is Ok
}

/// Whether `r` is the record that joins `item`, at catalog position `index`,
/// with `statistic`.
pub open spec fn joins(r: EnrichedRecord, item: CatalogItem, statistic: u64, index: int) -> bool {
    &&& r.title@ == item.title@
    &&& r.id@ == item.id@
    &&& r.thumbnail_url@ == item.thumbnail_url@
    &&& r.statistic == statistic
    &&& r.index == index
    &&& r.wf()
}

/// Whether `records` joins each item with the statistic found for it, in
/// catalog order.
pub open spec fn joins_all(
    records: Seq<EnrichedRecord>,
    items: Seq<CatalogItem>,
    outcomes: Seq<Result<u64, PipelineError>>,
) -> bool {
    &&& records.len() == items.len()
    &&& forall|i: int|
        0 <= i < items.len() ==> joins(#[trigger] records[i], items[i], outcomes[i]->Ok_0, i)
}

/// Joins each catalog item with the outcome of its statistic lookup, given in
/// catalog order. Where every lookup succeeded the result holds one record
/// per item; otherwise it is the error of the first failed lookup, and no
/// record is returned.
pub fn enrich(items: &Vec<CatalogItem>, outcomes: &Vec<Result<u64, PipelineError>>) -> (r: Result<
    Vec<EnrichedRecord>,
    PipelineError,
>)
    requires
        outcomes@.len() == items@.len(),
    ensures
        r is Ok <==> all_found(outcomes@),
        r is Ok ==> joins_all(r->Ok_0@, items@, outcomes@),
        r is Err ==> exists|k: int|
            is_first_failure(outcomes@, k) && r->Err_0 == outcomes@[k]->Err_0,
{
    let mut records: Vec<EnrichedRecord> = Vec::new();
    let n = items.len();
    let mut i: usize = 0;
    while i < n
        invariant
            n == items@.len(),
            n == outcomes@.len(),
            i <= n,
            records@.len() == i,
            forall|j: int| 0 <= j < i ==> (#[trigger] outcomes@[j]) is Ok,
            forall|j: int|
                0 <= j < i ==> joins(#[trigger] records@[j], items@[j], outcomes@[j]->Ok_0, j),
        decreases n - i,
    {
        match &outcomes[i] {
            Ok(statistic) => {
                let record = EnrichedRecord::from_item(&items[i], *statistic, i);
                records.push(record);
            },
            Err(e) => {
                assert(is_first_failure(outcomes@, i as int));
                return Err(e.duplicate());
            },
        }
        i = i + 1;
    }
    Ok(records)
}

} // verus!
