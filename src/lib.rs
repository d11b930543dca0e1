//! Ranks the videos of a playlist by their view counts.
//!
//! The library holds the decisions of the pipeline: reading the two upstream
//! JSON replies, joining each catalog item with its statistic, ranking the
//! joined records and rendering a bounded number of them as Markdown blocks.
//! Fetching the replies over the network is left to the caller.

mod count;
mod enrich;
mod error;
mod fan_out;
mod json;
mod laws;
mod present;
mod rank;
mod record;
mod reply;

pub use count::{count_digits, count_value, field_statistic, is_count_text, parse_count, statistic_from_field};
pub use enrich::{all_found, enrich, is_first_failure, joins, joins_all};
pub use error::{ErrorKind, PipelineError};
pub use fan_out::{running_count, FanOut, Slot};
pub use laws::{law_complete_fan_out, law_single_failure};
pub use present::{block_text, decimal_text, grouped_text, render, render_block, shown_count};
pub use rank::{is_ranked, rank, ranks_before};
pub use record::{permalink, permalink_of, CatalogItem, EnrichedRecord};
pub use json::{field_in, get, items_in, items_of, json_of, member, text, text_value, Json};
pub use reply::{
    catalog_from_body, catalog_ok, count_field, entry_id, entry_ok, entry_thumbnail, entry_title, malformed_about,
    reads_as, resolve, statistic_from_body,
};
