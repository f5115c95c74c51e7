//! What the platform answered to one page request, and the page read from it.

use vstd::prelude::*;
use crate::error::{EnumerationError, EnumerationErrorView};
use crate::json::{array_items, json_parse, json_view, json_views, member_of, parse_value, text_of, Json};
use crate::record::{record_views, text_view, Page, PageView, RawRecord, RawRecordView};

verus! {

/// The raw answer to one page request: the status code, the value of the
/// `Link` header if the response has one, and the body.
#[derive(Debug, PartialEq, Eq)]
pub struct PageResponse {
    pub status: u16,
    pub link: Option<String>,
    pub body: Vec<u8>,
}

/// What a `PageResponse` holds.
pub struct PageResponseView {
    pub status: u16,
    pub link: Option<Seq<char>>,
    pub body: Seq<u8>,
}

impl View for PageResponse {
    type V = PageResponseView;

    open spec fn view(&self) -> PageResponseView {
        PageResponseView { status: self.status, link: text_view(self.link), body: self.body@ }
    }
}

/// A status code that reports success: 200 to 299.
pub open spec fn is_success(status: u16) -> bool {
    200 <= status <= 299
}

/// The record that one element of the platform's array stands for: its
/// `name` and its `html_url`, each where it is a string.
pub open spec fn record_of(item: Json) -> RawRecordView {
    RawRecordView {
        name: item.member("name"@).text(),
        clone_url: item.member("html_url"@).text(),
    }
}

/// The records of a document: one for each element where the document is an
/// array, `None` where it is anything else.
pub open spec fn records_of(document: Json) -> Option<Seq<RawRecordView>> {
    match document {
        Json::Array(items) => Some(items.map_values(|item: Json| record_of(item))),
        _ => None,
    }
}

/// The records that a body holds: those of the document it parses to, `None`
/// where it does not parse.
pub open spec fn decode_body(body: Seq<u8>) -> Option<Seq<RawRecordView>> {
    match json_parse(body) {
        Some(document) => records_of(document),
        None => None,
    }
}

/// The page that a response delivers, or the error that it amounts to.
///
/// A status outside 200..=299 is an error whatever the body holds. The
/// continuation signal is the presence of a `Link` header.
pub open spec fn page_of(response: PageResponseView) -> Result<PageView, EnumerationErrorView> {
    if !is_success(response.status) {
        Err(EnumerationErrorView::HttpStatus { status: response.status, body: response.body })
    } else {
        match decode_body(response.body) {
            Some(records) => Ok(PageView { records, has_next: response.link is Some }),
            None => Err(EnumerationErrorView::MalformedBody),
        }
    }
}

/// Whether `status` reports success.
pub fn status_is_success(status: u16) -> (r: bool)
    ensures
        r == is_success(status),
{
    200 <= status && status <= 299
}

fn text_member(item: &serde_json::Value, key: &str) -> (r: Option<String>)
    ensures
        text_view(r) == json_view(*item).member(key@).text(),
{
    match text_of(member_of(item, key)) {
        Some(text) => Some(text.to_owned()),
        None => None,
    }
}

/// Reads the two fields of one element of the platform's array.
pub fn read_record(item: &serde_json::Value) -> (r: RawRecord)
    ensures
        r@ == record_of(json_view(*item)),
{
    RawRecord { name: text_member(item, "name"), clone_url: text_member(item, "html_url") }
}

/// Reads the records of a parsed document: `Some` exactly when the document
/// is an array, with one record for each element, in order.
pub fn read_records(document: &serde_json::Value) -> (r: Option<Vec<RawRecord>>)
    ensures
        match r {
            Some(records) => records_of(json_view(*document)) == Some(record_views(records@)),
            None => records_of(json_view(*document)) is None,
        },
{
    match array_items(document) {
        None => None,
        Some(items) => {
            let mut records: Vec<RawRecord> = Vec::new();
            let mut i: usize = 0;
            while i < items.len()
                invariant
                    0 <= i <= items.len(),
                    record_views(records@) == json_views(items@).take(i as int).map_values(
                        |item: Json| record_of(item),
                    ),
                decreases items.len() - i,
            {
                let record = read_record(&items[i]);
                let ghost before = records@;
                records.push(record);
                proof {
                    assert(record_views(records@) =~= record_views(before).push(record@));
                    assert(record_views(records@) =~= json_views(items@).take(i + 1).map_values(
                        |item: Json| record_of(item),
                    ));
                }
                i += 1;
            }
            proof {
                assert(json_views(items@).take(i as int) =~= json_views(items@));
            }
            Some(records)
        },
    }
}

/// Parses a body and reads its records: `Some` exactly when the body is a
/// JSON array.
pub fn decode_records(body: &[u8]) -> (r: Option<Vec<RawRecord>>)
    ensures
        match r {
            Some(records) => decode_body(body@) == Some(record_views(records@)),
            None => decode_body(body@) is None,
        },
{
    match parse_value(body) {
        Ok(document) => read_records(&document),
        Err(_) => None,
    }
}

/// Reads the page that a response delivers.
///
/// Fails with `HttpStatus` where the status is outside 200..=299, and with
/// `MalformedBody` where the status is a success and the body is not a JSON
/// array. Records are not checked for completeness here.
pub fn read_page(response: PageResponse) -> (r: Result<Page, EnumerationError>)
    ensures
        match r {
            Ok(page) => page_of(response@) == Ok::<PageView, EnumerationErrorView>(page@),
            Err(e) => page_of(response@) == Err::<PageView, EnumerationErrorView>(e@),
        },
{
    if !status_is_success(response.status) {
        return Err(EnumerationError::HttpStatus { status: response.status, body: response.body });
    }
    match decode_records(response.body.as_slice()) {
        Some(records) => Ok(Page { records, has_next: response.link.is_some() }),
        None => Err(EnumerationError::MalformedBody),
    }
}

} // verus!
