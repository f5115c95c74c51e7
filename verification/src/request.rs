//! The request for one page of an account's repository list.

use vstd::prelude::*;
use vstd::utf8::encode_utf8;
use crate::decimal::{decimal, decimal_string};
use crate::error::{EnumerationError, EnumerationErrorView};
use crate::record::text_view;

verus! {

/// One request header.
#[derive(Debug, PartialEq, Eq)]
pub struct Header {
    pub name: String,
    pub value: String,
}

/// What a `Header` holds.
pub struct HeaderView {
    pub name: Seq<char>,
    pub value: Seq<char>,
}

impl View for Header {
    type V = HeaderView;

    open spec fn view(&self) -> HeaderView {
        HeaderView { name: self.name@, value: self.value@ }
    }
}

/// The views of `headers`, in order.
pub open spec fn header_views(headers: Seq<Header>) -> Seq<HeaderView> {
    headers.map_values(|h: Header| h@)
}

/// A `GET` request for one page: where to send it, and the headers to send
/// with it.
#[derive(Debug, PartialEq, Eq)]
pub struct PageRequest {
    pub url: String,
    pub headers: Vec<Header>,
}

/// What a `PageRequest` holds.
pub struct PageRequestView {
    pub url: Seq<char>,
    pub headers: Seq<HeaderView>,
}

impl View for PageRequest {
    type V = PageRequestView;

    open spec fn view(&self) -> PageRequestView {
        PageRequestView { url: self.url@, headers: header_views(self.headers@) }
    }
}

/// The address of page `page` of the repository list of `account`, with 100
/// records to a page.
pub open spec fn page_url(account: Seq<char>, page: nat) -> Seq<char> {
    "https://api.github.com/users/"@ + account + "/repos?page="@ + decimal(page)
        + "&per_page=100"@
}

/// The header that identifies this client.
pub open spec fn user_agent_header() -> HeaderView {
    HeaderView { name: "User-Agent"@, value: "werdl/githuback"@ }
}

/// The header that says which media types the client takes.
pub open spec fn accept_header() -> HeaderView {
    HeaderView {
        name: "Accept"@,
        value: "text/html,application/xhtml+xml,application/xml;q=0.9,image/avif,image/webp,*/*;q=0.8"@,
    }
}

/// Whether a token was supplied: there is one and it is not empty.
pub open spec fn has_token(token: Option<Seq<char>>) -> bool {
    token is Some && token->0.len() > 0
}

/// A byte that may stand in the value of a header: a tab, or any byte from
/// the space on but the delete character.
pub open spec fn is_header_byte(b: u8) -> bool {
    b == 9 || (b >= 32 && b != 127)
}

/// Whether `text` can be sent as the value of a header: every byte of its
/// UTF-8 encoding may stand in one.
pub open spec fn is_header_value(text: Seq<char>) -> bool {
    forall|i: int|
        0 <= i < encode_utf8(text).len() ==> is_header_byte(#[trigger] encode_utf8(text)[i])
}

/// Whether the token can go with a request: no token and an empty one are
/// not sent at all, any other is sent and must be a header value.
pub open spec fn token_is_sendable(token: Option<Seq<char>>) -> bool {
    has_token(token) ==> is_header_value(token->0)
}

/// The headers of every page request: the client's name, the accepted media
/// types and, only where a token was supplied, the token as the value of
/// `Authorization`.
pub open spec fn request_headers(token: Option<Seq<char>>) -> Seq<HeaderView> {
    if has_token(token) {
        seq![
            user_agent_header(),
            accept_header(),
            HeaderView { name: "Authorization"@, value: token->0 },
        ]
    } else {
        seq![user_agent_header(), accept_header()]
    }
}

/// The request for page `page` of `account`.
pub open spec fn page_request(account: Seq<char>, page: nat, token: Option<Seq<char>>)
    -> PageRequestView {
    PageRequestView { url: page_url(account, page), headers: request_headers(token) }
}

/// Calls `reqwest::header::HeaderValue::from_str` and says whether it
/// returned `Ok`. Trusted: it does exactly when every byte of the text is a
/// tab, or is at least 32 and not 127.
#[verifier::external_body]
pub(crate) fn header_value_accepts(text: &str) -> (accepted: bool)
    ensures
        accepted == is_header_value(text@),
{
    reqwest::header::HeaderValue::from_str(text).is_ok()
}

/// Says whether the token can go with a request.
pub fn token_can_be_sent(token: &Option<String>) -> (r: bool)
    ensures
        r == token_is_sendable(text_view(*token)),
{
    match token {
        Some(t) => t.as_str().is_empty() || header_value_accepts(t.as_str()),
        None => true,
    }
}

/// Builds the address of page `page` of the repository list of `account`.
pub fn build_url(account: &str, page: u128) -> (url: String)
    ensures
        url@ == page_url(account@, page as nat),
{
    let mut url = String::from_str("https://api.github.com/users/");
    url.append(account);
    url.append("/repos?page=");
    let number = decimal_string(page);
    url.append(number.as_str());
    url.append("&per_page=100");
    url
}

/// Builds the headers of a page request. The token is taken as it is:
/// whether it can be sent is for `token_can_be_sent` to say.
pub fn build_headers(token: &Option<String>) -> (headers: Vec<Header>)
    ensures
        header_views(headers@) == request_headers(text_view(*token)),
{
    let mut headers: Vec<Header> = Vec::new();
    headers.push(
        Header { name: String::from_str("User-Agent"), value: String::from_str("werdl/githuback") },
    );
    headers.push(
        Header {
            name: String::from_str("Accept"),
            value: String::from_str(
                "text/html,application/xhtml+xml,application/xml;q=0.9,image/avif,image/webp,*/*;q=0.8",
            ),
        },
    );
    match token {
        Some(t) => {
            if !t.as_str().is_empty() {
                headers.push(Header { name: String::from_str("Authorization"), value: t.clone() });
            }
        },
        None => {},
    }
    assert(header_views(headers@) =~= request_headers(text_view(*token)));
    headers
}

/// Builds the request for page `page` of `account`.
///
/// The page is requested from `/users/{account}/repos` with `page` in decimal
/// and `per_page=100`. `Authorization` is sent only with a non-empty token,
/// and carries the token as it was given. A token that cannot be sent is
/// refused, and no request is built.
pub fn build_request(account: &str, page: u128, token: &Option<String>) -> (r: Result<
    PageRequest,
    EnumerationError,
>)
    ensures
        match r {
            Ok(request) => token_is_sendable(text_view(*token)) && request@ == page_request(
                account@,
                page as nat,
                text_view(*token),
            ),
            Err(e) => !token_is_sendable(text_view(*token)) && e@
                == EnumerationErrorView::InvalidToken,
        },
{
    if token_can_be_sent(token) {
        Ok(PageRequest { url: build_url(account, page), headers: build_headers(token) })
    } else {
        Err(EnumerationError::InvalidToken)
    }
}

} // verus!
