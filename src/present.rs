use vstd::prelude::*;
use num_format::{Locale, ToFormattedString};
use crate::error::{ErrorKind, PipelineError};
use crate::record::EnrichedRecord;

verus! {

/// The character of the decimal digit `d`.
pub open spec fn digit_char(d: nat) -> char
    recommends
        d < 10,
{
    seq!['0', '1', '2', '3', '4', '5', '6', '7', '8', '9'][d as int]
}

/// The decimal digits of `n`, without leading zeros.
pub open spec fn decimal_text(n: nat) -> Seq<char>
    decreases n,
{
    if n < 10 {
        seq![digit_char(n)]
    } else {
        decimal_text(n / 10).push(digit_char(n % 10))
    }
}

/// The three digits of `n` below one thousand, padded with zeros.
pub open spec fn group_text(n: nat) -> Seq<char> {
    seq![digit_char((n / 100) % 10), digit_char((n / 10) % 10), digit_char(n % 10)]
}

/// The decimal digits of `n` in groups of three from the right, separated by commas.
pub open spec fn grouped_text(n: nat) -> Seq<char>
    decreases n,
{
    if n < 1000 {
        decimal_text(n)
    } else {
        grouped_text(n / 1000) + ","@ + group_text(n % 1000)
    }
}

/// Relies on num_format's `ToFormattedString::to_formatted_string` with
/// `Locale::en`, whose separator is "," and whose grouping is by threes.
#[verifier::external_body]
fn grouped(n: u64) -> (r: String)
    ensures
        r@ == grouped_text(n as nat),
{
    n.to_formatted_string(&Locale::en)
}

/// The Markdown block that presents one record: its title, its statistic with
/// grouped digits, and its thumbnail linked to its permalink.
pub open spec fn block_text(r: EnrichedRecord) -> Seq<char> {
    "### "@ + r.title@ + " \n### view count: "@ + grouped_text(r.statistic as nat)
        + "\n\n[![thumbnail]("@ + r.thumbnail_url@ + ")]("@ + r.permalink@ + ")\n\n"@
}

/// The number of records that a limit lets through: all of them where the
/// limit is zero or exceeds the list.
pub open spec fn shown_count(len: nat, limit: int) -> nat {
    if limit == 0 || limit >= len {
        len
    } else {
        limit as nat
    }
}

/// The Markdown block of one record.
pub fn render_block(record: &EnrichedRecord) -> (r: String)
    ensures
        r@ == block_text(*record),
{
    let s = String::from_str("### ");
    let s = s.concat(record.title.as_str());
    let s = s.concat(" \n### view count: ");
    let count = grouped(record.statistic);
    let s = s.concat(count.as_str());
    let s = s.concat("\n\n[![thumbnail](");
    let s = s.concat(record.thumbnail_url.as_str());
    let s = s.concat(")](");
    let s = s.concat(record.permalink.as_str());
    s.concat(")\n\n")
}

/// The blocks of the first `limit` records of `list` (of all of them where
/// `limit` is zero). A negative limit is refused.
pub fn render(list: &Vec<EnrichedRecord>, limit: i64) -> (r: Result<Vec<String>, PipelineError>)
    ensures
        r is Err <==> limit < 0,
        r is Err ==> r->Err_0.kind == ErrorKind::ValidationError,
        r is Ok ==> r->Ok_0@.len() == shown_count(list@.len(), limit as int),
        r is Ok ==> forall|i: int|
            0 <= i < r->Ok_0@.len() ==> (#[trigger] r->Ok_0@[i])@ == block_text(list@[i]),
{
    if limit < 0 {
        return Err(
            PipelineError::new(
                ErrorKind::ValidationError,
                None,
                String::from_str("the display limit is negative"),
            ),
        );
    }
    let n: usize = if limit == 0 || limit as u64 >= list.len() as u64 {
        list.len()
    } else {
        limit as usize
    };
    let mut blocks: Vec<String> = Vec::new();
    let mut i: usize = 0;
    while i < n
        invariant
            n <= list@.len(),
            i <= n,
            blocks@.len() == i,
            forall|j: int| 0 <= j < i ==> (#[trigger] blocks@[j])@ == block_text(list@[j]),
        decreases n - i,
    {
        blocks.push(render_block(&list[i]));
        i = i + 1;
    }
    Ok(blocks)
}

} // verus!
