//! The crate's trusted boundary: declarations and wrappers for the outside
//! crates that the converters and the builder lean on. Verus believes the
//! contracts here without proof; everything else in the crate is verified
//! against them.

use vstd::prelude::*;

use crate::convert::{CsvData, FeedItem};

verus! {

/// What attempting to read a field as a number yields: the decimal rendering
/// of the parsed value, or nothing when the field is not numeric. A function
/// of the characters alone.
pub uninterp spec fn numeric_form(s: Seq<char>) -> Option<Seq<char>>;

/// What parsing CSV text yields: the heading labels consumed from the first
/// record (empty when no header row is read) and the data records, each a
/// sequence of field strings; or nothing when the text is not well-formed
/// delimited text. A function of the text and the header switch alone.
pub uninterp spec fn csv_parse(text: Seq<char>, headings: bool) -> Option<
    (Seq<Seq<char>>, Seq<Seq<Seq<char>>>),
>;

/// What parsing a feed document yields: for each item, its publish date,
/// title, description and link, each possibly absent; or nothing when the
/// document is not a well-formed feed. A function of the text alone.
pub uninterp spec fn rss_items(text: Seq<char>) -> Option<
    Seq<(Option<Seq<char>>, Option<Seq<char>>, Option<Seq<char>>, Option<Seq<char>>)>,
>;

/// Whether a string is a well-formed URL. A function of the characters alone.
pub uninterp spec fn is_url_of(s: Seq<char>) -> bool;

#[verifier::external_type_specification]
#[verifier::external_body]
pub struct ExCsvError(csv::Error);

#[verifier::external_type_specification]
#[verifier::external_body]
pub struct ExRssError(rss::Error);

/// Relies on serde_json::Number: its string parse and its rendering are both
/// functions of the characters alone (integers render exactly; other values
/// render through the crate's finite-float formatter).
#[verifier::external_body]
pub(crate) fn render_numeric(s: &str) -> (r: Option<String>)
    ensures
        r matches Some(n) ==> numeric_form(s@) == Some(n@),
        r is None ==> numeric_form(s@) is None,
{
    s.parse::<serde_json::Number>().ok().map(|n| n.to_string())
}

/// Relies on csv::Reader: parsing is a function of the input text and the
/// header switch alone; the reader yields each record's fields as strings in
/// input order, and errors on text that is not well-formed delimited text.
#[verifier::external_body]
pub(crate) fn read_csv(text: &str, headings: bool) -> (r: Result<CsvData, csv::Error>)
    ensures
        r matches Ok(d) ==> csv_parse(text@, headings) == Some(
            (
                d.headers@.map_values(|s: String| s@),
                d.records@.map_values(|rec: Vec<String>| rec@.map_values(|f: String| f@)),
            ),
        ),
        r is Err ==> csv_parse(text@, headings) is None,
{
    let mut rdr = csv::ReaderBuilder::new().has_headers(headings).from_reader(text.as_bytes());
    let headers: Vec<String> = if headings {
        rdr.headers()?.iter().map(|f| f.to_string()).collect()
    } else {
        Vec::new()
    };
    let mut records: Vec<Vec<String>> = Vec::new();
    for rec in rdr.records() {
        records.push(rec?.iter().map(|f| f.to_string()).collect());
    }
    Ok(CsvData { headers, records })
}

/// Relies on rss::Channel::read_from: feed parsing is a function of the text
/// alone; each item's publish date, title, description and link are carried
/// over unchanged, in item order.
#[verifier::external_body]
pub(crate) fn read_feed(text: &str) -> (r: Result<Vec<FeedItem>, rss::Error>)
    ensures
        r matches Ok(items) ==> rss_items(text@) == Some(
            items@.map_values(|it: FeedItem| it@),
        ),
        r is Err ==> rss_items(text@) is None,
{
    let channel = rss::Channel::read_from(text.as_bytes())?;
    Ok(channel.items.into_iter().map(
        |i| FeedItem { date: i.pub_date, title: i.title, description: i.description, link: i.link },
    ).collect())
}

/// Relies on is_url::is_url: a fixed regular-expression test, a function of
/// the characters alone.
#[verifier::external_body]
pub(crate) fn path_is_url(path: &str) -> (r: bool)
    ensures
        r == is_url_of(path@),
{
    is_url::is_url(path)
}

/// Relies on the standard Display-to-String conversion for csv::Error: turns
/// the error into its descriptive message.
#[verifier::external_body]
pub(crate) fn csv_error_message(e: &csv::Error) -> (r: String)
{
    e.to_string()
}

/// Relies on the standard Display-to-String conversion for rss::Error: turns
/// the error into its descriptive message.
#[verifier::external_body]
pub(crate) fn rss_error_message(e: &rss::Error) -> (r: String)
{
    e.to_string()
}

} // verus!
