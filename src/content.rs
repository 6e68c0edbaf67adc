//! The readable text of an article: its page, read at its address, reduced to
//! plain text, with a fixed text in place of any failure.
use vstd::prelude::*;

verus! {

#[verifier::external_type_specification]
#[verifier::external_body]
pub struct ExUrl(url::Url);

#[verifier::external_type_specification]
#[verifier::external_body]
pub struct ExUrlParseError(url::ParseError);

#[verifier::external_type_specification]
#[verifier::external_body]
pub struct ExReadabilityError(readability::error::Error);

/// Whether the text is an address that `url::Url::parse` accepts.
pub uninterp spec fn url_parses(s: Seq<char>) -> bool;

/// The readable text that `readability` extracts from a page's bytes, with
/// relative links resolved against the page's address.
pub uninterp spec fn readable_text_of(html: Seq<u8>, page_url: Seq<char>) -> Seq<char>;

/// The text an article shows when its readable text could not be had.
pub open spec fn fallback_text() -> Seq<char> {
    "No description available"@
}

/// Why an article's readable text could not be had.
#[derive(Clone, Copy, Debug, PartialEq, Eq, Structural)]
pub enum ContentError {
    /// The page could not be fetched.
    Unreachable,
    /// The article's address is not a valid URL.
    BadUrl,
}

/// A page address, parsed, together with the text it was parsed from.
struct BaseUrl {
    url: url::Url,
    text: String,
}

impl BaseUrl {
    /// The text the address was parsed from.
    closed spec fn source(&self) -> Seq<char> {
        self.text@
    }
}

/// Relies on `url::Url::parse`: whether an address is accepted depends on its
/// text alone.
#[verifier::external_body]
fn parse_base_url(page_url: &str) -> (r: Result<BaseUrl, url::ParseError>)
    ensures
        r is Ok <==> url_parses(page_url@),
        r is Ok ==> r->Ok_0.source() == page_url@,
{
    let url = url::Url::parse(page_url)?;
    Ok(BaseUrl { url, text: page_url.to_string() })
}

/// Relies on `readability::extractor::extract`, which reads the page from
/// memory and returns its readable text (the `text` field of its product).
/// Its only failure is an error of the reader, and reading a byte slice
/// never fails, so the result is always `Ok`.
#[verifier::external_body]
fn extract_readable(html: &[u8], base: &BaseUrl) -> (r: Result<String, readability::error::Error>)
    ensures
        r is Ok,
        r is Ok ==> r->Ok_0@ == readable_text_of(html@, base.source()),
{
    let mut input: &[u8] = html;
    readability::extractor::extract(&mut input, &base.url).map(|p| p.text)
}

/// The readable text of a page fetched from `page_url`; fails only where the
/// address is not a valid URL.
pub fn extract_text(html: &[u8], page_url: &str) -> (r: Result<String, ContentError>)
    ensures
        r is Ok <==> url_parses(page_url@),
        r is Ok ==> r->Ok_0@ == readable_text_of(html@, page_url@),
        r is Err ==> r->Err_0 == ContentError::BadUrl,
{
    match parse_base_url(page_url) {
        Err(_) => Err(ContentError::BadUrl),
        Ok(base) => match extract_readable(html, &base) {
            Ok(text) => Ok(text),
            Err(_) => {
                proof {
                    assert(false);
                }
                Err(ContentError::BadUrl)
            },
        },
    }
}

/// The text that stands in for an article whose content could not be had.
pub fn fallback_detail() -> (r: String)
    ensures
        r@ == fallback_text(),
{
    String::from_str("No description available")
}

/// The text an article shows: its readable text, or the fallback on any failure.
pub fn detail_or_fallback(content: Result<String, ContentError>) -> (r: String)
    ensures
        match content {
            Ok(text) => r@ == text@,
            Err(_) => r@ == fallback_text(),
        },
{
    match content {
        Ok(text) => text,
        Err(_) => fallback_detail(),
    }
}

/// The text of an article at `page_url` whose page was fetched as `page`
/// (`None` where fetching failed): the page's readable text, or the fallback
/// text where the page is missing or the address is not a valid URL.
pub open spec fn detail_of_page(page_url: Seq<char>, page: Option<Seq<u8>>) -> Seq<char> {
    match page {
        Some(html) => if url_parses(page_url) {
            readable_text_of(html, page_url)
        } else {
            fallback_text()
        },
        None => fallback_text(),
    }
}

/// The text of an article at `page_url`, given its page as fetched (`None`
/// where fetching failed). Never fails: any failure gives the fallback text.
pub fn detail_for_page(page_url: &str, page: &Option<Vec<u8>>) -> (r: String)
    ensures
        r@ == detail_of_page(page_url@, page_view(page)),
{
    match page {
        None => fallback_detail(),
        Some(html) => detail_or_fallback(extract_text(html.as_slice(), page_url)),
    }
}

/// The bytes of a fetched page, if any.
pub open spec fn page_view(page: &Option<Vec<u8>>) -> Option<Seq<u8>> {
    match page {
        Some(html) => Some(html@),
        None => None,
    }
}

} // verus!
