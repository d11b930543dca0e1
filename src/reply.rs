use vstd::prelude::*;
use crate::count::{field_statistic, statistic_from_field};
use crate::error::{ErrorKind, PipelineError};
use crate::json::{get, items, items_in, member, opt_text, parse_json, text, text_value, Json};
use crate::record::CatalogItem;

verus! {

/// The title of a catalog entry, at `snippet.title`.
pub open spec fn entry_title(e: Json) -> Option<Seq<char>> {
    text(get(get(Some(e), "snippet"@), "title"@))
}

/// The video id of a catalog entry, at `snippet.resourceId.videoId`.
pub open spec fn entry_id(e: Json) -> Option<Seq<char>> {
    text(get(get(get(Some(e), "snippet"@), "resourceId"@), "videoId"@))
}

/// The thumbnail of a catalog entry, at `snippet.thumbnails.default.url`,
/// or the empty text where there is none.
pub open spec fn entry_thumbnail(e: Json) -> Seq<char> {
    match text(get(get(get(get(Some(e), "snippet"@), "thumbnails"@), "default"@), "url"@)) {
        Some(s) => s,
        None => Seq::empty(),
    }
}

/// Whether a catalog entry has a title and a non-empty video id.
pub open spec fn entry_ok(e: Json) -> bool {
    &&& entry_title(e) is Some
    &&& entry_id(e) matches Some(id) && id.len() > 0
}

/// Whether `body` is JSON with an `items` array whose every entry has a
/// title and a non-empty video id.
pub open spec fn catalog_ok(body: Seq<char>) -> bool {
    &&& items_in(body) is Some
    &&& forall|i: int|
        0 <= i < items_in(body)->Some_0.len() ==> entry_ok(#[trigger] items_in(body)->Some_0[i])
}

/// Whether `item` is what the catalog entry `e` lists.
pub open spec fn reads_as(item: CatalogItem, e: Json) -> bool {
    &&& item.title@ == entry_title(e)->Some_0
    &&& item.id@ == entry_id(e)->Some_0
    &&& item.thumbnail_url@ == entry_thumbnail(e)
}

/// The count field of a statistics reply: `statistics.viewCount` of the
/// first entry, where there is one.
pub open spec fn count_field(entries: Seq<Json>) -> Option<Seq<char>> {
    if entries.len() == 0 {
        None
    } else {
        text(get(get(Some(entries[0]), "statistics"@), "viewCount"@))
    }
}

/// Whether `e` is a malformed-response error about the item `id`.
pub open spec fn malformed_about(e: PipelineError, id: Option<Seq<char>>) -> bool {
    &&& e.kind == ErrorKind::MalformedResponse
    &&& match (e.item_id, id) {
        (Some(s), Some(t)) => s@ == t,
        (None, None) => true,
        _ => false,
    }
}

fn malformed(item_id: Option<&str>, cause: &str) -> (r: PipelineError)
    ensures
        malformed_about(r, opt_text(item_id)),
        r.cause@ == cause@,
{
    let id = match item_id {
        Some(s) => Some(s.to_owned()),
        None => None,
    };
    PipelineError::new(ErrorKind::MalformedResponse, id, cause.to_owned())
}

/// Reads one entry of the catalog's `items` array. Its title and video id are
/// required; a missing thumbnail becomes the empty text.
fn catalog_entry(entry: &Json) -> (r: Result<CatalogItem, PipelineError>)
    ensures
        r is Ok <==> entry_ok(*entry),
        r is Ok ==> reads_as(r->Ok_0, *entry),
        r is Err ==> malformed_about(r->Err_0, None),
{
    let snippet = member(Some(entry), "snippet");
    let title = match text_value(member(snippet, "title")) {
        Some(t) => t,
        None => return Err(malformed(None, "a catalog entry has no title")),
    };
    let id = match text_value(member(member(snippet, "resourceId"), "videoId")) {
        Some(t) => t,
        None => return Err(malformed(None, "a catalog entry has no video id")),
    };
    if id.is_empty() {
        return Err(malformed(None, "a catalog entry has an empty video id"));
    }
    let url = member(member(member(snippet, "thumbnails"), "default"), "url");
    let thumbnail = match text_value(url) {
        Some(t) => t.to_owned(),
        None => String::new(),
    };
    Ok(CatalogItem::new(title.to_owned(), id.to_owned(), thumbnail))
}

/// Reads the catalog endpoint's reply: one item per entry of its `items`
/// array, in order. A reply that is not JSON, has no `items` array, or holds
/// an entry without a title or a video id is malformed.
pub fn catalog_from_body(body: &str) -> (r: Result<Vec<CatalogItem>, PipelineError>)
    ensures
        r is Ok <==> catalog_ok(body@),
        r is Ok ==> r->Ok_0@.len() == items_in(body@)->Some_0.len(),
        r is Ok ==> forall|i: int|
            0 <= i < r->Ok_0@.len() ==> reads_as(#[trigger] r->Ok_0@[i], items_in(body@)->Some_0[i]),
        r is Err ==> malformed_about(r->Err_0, None),
{
    let doc = match parse_json(body) {
        Some(d) => d,
        None => return Err(malformed(None, "the catalog reply is not JSON")),
    };
    let entries = match items(&doc) {
        Some(a) => a,
        None => return Err(malformed(None, "the catalog reply has no items array")),
    };
    let mut out: Vec<CatalogItem> = Vec::new();
    let mut i: usize = 0;
    while i < entries.len()
        invariant
            items_in(body@) == Some(entries@),
            i <= entries@.len(),
            out@.len() == i,
            forall|j: int| 0 <= j < i ==> entry_ok(#[trigger] entries@[j]),
            forall|j: int| 0 <= j < i ==> reads_as(#[trigger] out@[j], entries@[j]),
        decreases entries@.len() - i,
    {
        match catalog_entry(&entries[i]) {
            Ok(item) => out.push(item),
            Err(e) => {
                assert(!entry_ok(entries@[i as int]));
                assert(items_in(body@)->Some_0[i as int] == entries@[i as int]);
                assert(!catalog_ok(body@));
                return Err(e);
            },
        }
        i = i + 1;
    }
    Ok(out)
}

/// Reads the statistics endpoint's reply for the item `item_id`: the count
/// field of the first entry of its `items` array. A reply that is not JSON or
/// has no `items` array is malformed; a missing or non-numeric count, or an
/// empty array, gives zero.
pub fn statistic_from_body(item_id: &str, body: &str) -> (r: Result<u64, PipelineError>)
    ensures
        r is Ok <==> items_in(body@) is Some,
        r is Ok ==> r->Ok_0 == field_statistic(count_field(items_in(body@)->Some_0)),
        r is Err ==> malformed_about(r->Err_0, Some(item_id@)),
{
    let doc = match parse_json(body) {
        Some(d) => d,
        None => return Err(malformed(Some(item_id), "the statistics reply is not JSON")),
    };
    let entries = match items(&doc) {
        Some(a) => a,
        None => return Err(malformed(Some(item_id), "the statistics reply has no items array")),
    };
    let field = if entries.len() > 0 {
        text_value(member(member(Some(&entries[0]), "statistics"), "viewCount"))
    } else {
        None
    };
    Ok(statistic_from_field(field))
}

/// The outcome of the statistic lookup for `item_id`, given the endpoint's
/// reply: its body, or the cause of a transport or status failure.
pub fn resolve(item_id: &str, reply: Result<String, String>) -> (r: Result<u64, PipelineError>)
    ensures
        reply is Err ==> r is Err,
        reply is Err ==> r->Err_0.kind == ErrorKind::UpstreamRequestFailed,
        reply is Err ==> r->Err_0.cause == reply->Err_0,
        reply is Err ==> (r->Err_0.item_id matches Some(s) && s@ == item_id@),
        reply is Ok ==> (r is Ok <==> items_in(reply->Ok_0@) is Some),
        reply is Ok && r is Ok ==> r->Ok_0 == field_statistic(
            count_field(items_in(reply->Ok_0@)->Some_0),
        ),
        reply is Ok && r is Err ==> malformed_about(r->Err_0, Some(item_id@)),
{
    match reply {
        Ok(body) => statistic_from_body(item_id, body.as_str()),
        Err(cause) => Err(
            PipelineError::new(ErrorKind::UpstreamRequestFailed, Some(item_id.to_owned()), cause),
        ),
    }
}

} // verus!
