use vstd::prelude::*;
use crate::enrich::{all_found, is_first_failure, joins_all};
use crate::error::PipelineError;
use crate::record::{CatalogItem, EnrichedRecord};

verus! {

/// When every lookup succeeds, enrichment gives exactly one record per item,
/// and the records' ids are the items' ids, position by position.
pub proof fn law_complete_fan_out(
    items: Seq<CatalogItem>,
    outcomes: Seq<Result<u64, PipelineError>>,
    records: Seq<EnrichedRecord>,
)
    requires
        outcomes.len() == items.len(),
        all_found(outcomes),
        joins_all(records, items, outcomes),
    ensures
        records.len() == items.len(),
        forall|i: int| 0 <= i < items.len() ==> (#[trigger] records[i]).id@ == items[i].id@,
        forall|i: int|
            0 <= i < items.len() ==> (#[trigger] records[i]).statistic == outcomes[i]->Ok_0,
{
    assert forall|i: int| 0 <= i < items.len() implies (#[trigger] records[i]).id@ == items[i].id@ by {
        assert(crate::enrich::joins(records[i], items[i], outcomes[i]->Ok_0, i));
    }
}

/// When exactly one lookup fails, enrichment cannot succeed, and the error it
/// returns is that lookup's error.
pub proof fn law_single_failure(outcomes: Seq<Result<u64, PipelineError>>, k: int)
    requires
        0 <= k < outcomes.len(),
        outcomes[k] is Err,
        forall|j: int| 0 <= j < outcomes.len() && j != k ==> (#[trigger] outcomes[j]) is Ok,
    ensures
        !all_found(outcomes),
        forall|m: int| #[trigger] is_first_failure(outcomes, m) <==> m == k,
{
    assert forall|m: int| #[trigger] is_first_failure(outcomes, m) <==> m == k by {
        if is_first_failure(outcomes, m) && m != k {
            assert(outcomes[m] is Ok);
        }
    }
}

} // verus!
