use vstd::prelude::*;

verus! {

/// The prefix of a video's permalink; the video id follows it.
pub open spec fn watch_prefix() -> Seq<char> {
    "https://www.youtube.com/watch?v="@
}

/// The permalink of the item with the given id.
pub open spec fn permalink_of(id: Seq<char>) -> Seq<char> {
    watch_prefix() + id
}

/// One entry of the playlist, as the catalog endpoint lists it.
#[derive(Debug)]
pub struct CatalogItem {
    pub title: String,
    pub id: String,
    /// Empty where the catalog gives no thumbnail.
    pub thumbnail_url: String,
}

/// A catalog item joined with its statistic.
#[derive(Debug)]
pub struct EnrichedRecord {
    pub title: String,
    pub id: String,
    pub statistic: u64,
    pub thumbnail_url: String,
    pub permalink: String,
    /// The position of the item in the catalog; it breaks ties in the ranking.
    pub index: usize,
}

impl CatalogItem {
    pub fn new(title: String, id: String, thumbnail_url: String) -> (r: CatalogItem)
        ensures
            r.title == title,
            r.id == id,
            r.thumbnail_url == thumbnail_url,
    {
        CatalogItem { title, id, thumbnail_url }
    }
}

impl EnrichedRecord {
    /// Whether the permalink is the one derived from the id.
    pub open spec fn wf(&self) -> bool {
        self.permalink@ == permalink_of(self.id@)
    }

    /// Joins the catalog item at position `index` with its statistic.
    pub fn from_item(item: &CatalogItem, statistic: u64, index: usize) -> (r: EnrichedRecord)
        ensures
            r.title@ == item.title@,
            r.id@ == item.id@,
            r.thumbnail_url@ == item.thumbnail_url@,
            r.statistic == statistic,
            r.index == index,
            r.wf(),
    {
        EnrichedRecord {
            title: item.title.clone(),
            id: item.id.clone(),
            statistic,
            thumbnail_url: item.thumbnail_url.clone(),
            permalink: permalink(item.id.as_str()),
            index,
        }
    }

    /// A field-by-field copy.
    pub fn duplicate(&self) -> (r: EnrichedRecord)
        ensures
            r == *self,
    {
        EnrichedRecord {
            title: self.title.clone(),
            id: self.id.clone(),
            statistic: self.statistic,
            thumbnail_url: self.thumbnail_url.clone(),
            permalink: self.permalink.clone(),
            index: self.index,
        }
    }
}

/// The permalink of the item with the given id.
pub fn permalink(id: &str) -> (r: String)
    ensures
        r@ == permalink_of(id@),
{
    let prefix = String::from_str("https://www.youtube.com/watch?v=");
    proof {
        reveal_strlit("https://www.youtube.com/watch?v=");
    }
    prefix.concat(id)
}

} // verus!
