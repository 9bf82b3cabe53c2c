use vstd::prelude::*;
use crate::extract::{first_attribute, first_found, found_view, record_of, web_data_from};
use crate::types::{opt_view, WebData, WebDataView};

verus! {

/// Selects the `og:description` meta tag.
pub const DESCRIPTION_SELECTOR: &'static str = "meta[property=\"og:description\"]";

/// Selects the `og:type` meta tag.
pub const TYPE_SELECTOR: &'static str = "meta[property=\"og:type\"]";

/// Selects the `og:image` meta tag.
pub const IMAGE_SELECTOR: &'static str = "meta[property=\"og:image\"]";

/// Selects the author meta tags (`book:author`, `article:author`, ...).
pub const AUTHOR_SELECTOR: &'static str = "meta[property$=\":author\"]";

/// Selects the `theme-color` meta tag.
pub const THEME_COLOUR_SELECTOR: &'static str = "meta[name=\"theme-color\"]";

/// Selects the page title.
pub const TITLE_SELECTOR: &'static str = "title";

/// The attribute that holds a meta tag's value.
pub const CONTENT_ATTRIBUTE: &'static str = "content";

/// The text of the origin of an absolute URL; none where the text is no absolute URL.
pub uninterp spec fn url_origin(base: Seq<char>) -> Option<Seq<char>>;

/// The text of the URL that `rel` denotes relative to `base`; none where either fails to parse.
pub uninterp spec fn url_joined(base: Seq<char>, rel: Seq<char>) -> Option<Seq<char>>;

/// The values of attribute `attr` on the elements of the parsed document `html` that
/// `selector` matches, in document order; none where the selector does not parse.
pub uninterp spec fn selected_attrs(html: Seq<char>, selector: Seq<char>, attr: Seq<char>) -> Option<
    Seq<Option<Seq<char>>>,
>;

/// The text content of the elements of the parsed document `html` that `selector`
/// matches, in document order; none where the selector does not parse.
pub uninterp spec fn selected_texts(html: Seq<char>, selector: Seq<char>) -> Option<Seq<Seq<char>>>;

/// Relies on `url::Url::parse`, `Url::origin` and `Origin::unicode_serialization`:
/// the origin of the parsed URL, as text.
#[verifier::external_body]
fn origin_of(base: &str) -> (r: Option<String>)
    ensures
        opt_view(r) == url_origin(base@),
{
    match url::Url::parse(base) {
        Ok(u) => Some(u.origin().unicode_serialization()),
        Err(_) => None,
    }
}

/// Relies on `url::Url::parse` and `Url::join`: the URL that `rel` denotes relative to
/// `base`, as text.
#[verifier::external_body]
fn join_url(base: &str, rel: &str) -> (r: Option<String>)
    ensures
        opt_view(r) == url_joined(base@, rel@),
{
    match url::Url::parse(base) {
        Ok(b) => match b.join(rel) {
            Ok(u) => Some(u.to_string()),
            Err(_) => None,
        },
        Err(_) => None,
    }
}

/// Relies on `scraper::Html::parse_document`, `Selector::parse`, `Html::select` and
/// `Element::attr`: the attribute values of the matched elements, in document order.
#[verifier::external_body]
fn select_attrs(html: &str, selector: &str, attr: &str) -> (r: Option<Vec<Option<String>>>)
    ensures
        match r {
            Some(v) => selected_attrs(html@, selector@, attr@) == Some(found_view(v@)),
            None => selected_attrs(html@, selector@, attr@) is None,
        },
{
    let doc = scraper::Html::parse_document(html);
    match scraper::Selector::parse(selector) {
        Ok(sel) => {
            let mut out = Vec::new();
            for e in doc.select(&sel) {
                out.push(e.value().attr(attr).map(String::from));
            }
            Some(out)
        },
        Err(_) => None,
    }
}

/// Relies on `scraper::Html::parse_document`, `Selector::parse`, `Html::select` and
/// `ElementRef::text`: the text content of the matched elements, in document order.
#[verifier::external_body]
fn select_texts(html: &str, selector: &str) -> (r: Option<Vec<String>>)
    ensures
        match r {
            Some(v) => selected_texts(html@, selector@) == Some(v@.map_values(|t: String| t@)),
            None => selected_texts(html@, selector@) is None,
        },
{
    let doc = scraper::Html::parse_document(html);
    match scraper::Selector::parse(selector) {
        Ok(sel) => {
            let mut out = Vec::new();
            for e in doc.select(&sel) {
                out.push(e.text().collect::<String>());
            }
            Some(out)
        },
        Err(_) => None,
    }
}

/// Whether a link is relative to the site's root (`/...`) or to the page (`./...`).
pub open spec fn is_local_link(u: Seq<char>) -> bool {
    (u.len() >= 1 && u[0] == '/') || (u.len() >= 2 && u[0] == '.' && u[1] == '/')
}

/// A link made absolute against the origin of `base`; other links are kept as they are.
pub open spec fn resolved(url: Seq<char>, base: Seq<char>) -> Option<Seq<char>> {
    if is_local_link(url) {
        match url_origin(base) {
            Some(o) => url_joined(o, url),
            None => None,
        }
    } else {
        Some(url)
    }
}

fn local_link(u: &str) -> (r: bool)
    ensures
        r == is_local_link(u@),
{
    let n = u.unicode_len();
    if n >= 1 && u.get_char(0) == '/' {
        true
    } else {
        n >= 2 && u.get_char(0) == '.' && u.get_char(1) == '/'
    }
}

/// Resolves the given url to an absolute url: a link that starts with `/` or `./` is
/// joined to the origin of `base`; any other is returned unchanged. Absent where `base`
/// or the joined link is no URL.
pub fn resolve_url(url: &str, base: &str) -> (r: Option<String>)
    ensures
        opt_view(r) == resolved(url@, base@),
        !is_local_link(url@) ==> opt_view(r) == Some(url@),
{
    if local_link(url) {
        match origin_of(base) {
            Some(o) => join_url(o.as_str(), url),
            None => None,
        }
    } else {
        Some(url.to_string())
    }
}

/// What a selector found in a document: nothing where the selector does not parse.
pub open spec fn found_in(html: Seq<char>, selector: Seq<char>) -> Seq<Option<Seq<char>>> {
    match selected_attrs(html, selector, CONTENT_ATTRIBUTE@) {
        Some(s) => s,
        None => Seq::empty(),
    }
}

/// The text of the document's first title; empty where it has none.
pub open spec fn title_in(html: Seq<char>) -> Seq<char> {
    match selected_texts(html, TITLE_SELECTOR@) {
        Some(t) => if t.len() > 0 {
            t[0]
        } else {
            Seq::empty()
        },
        None => Seq::empty(),
    }
}

/// The document's preview image, made absolute against the page's URL.
pub open spec fn image_in(html: Seq<char>, page_url: Seq<char>) -> Option<Seq<char>> {
    match first_found(found_in(html, IMAGE_SELECTOR@)) {
        Some(i) => resolved(i, page_url),
        None => None,
    }
}

/// The record of a document fetched from `page_url`.
pub open spec fn html_record(html: Seq<char>, page_url: Seq<char>) -> WebDataView {
    record_of(
        title_in(html),
        found_in(html, DESCRIPTION_SELECTOR@),
        found_in(html, TYPE_SELECTOR@),
        image_in(html, page_url),
        found_in(html, AUTHOR_SELECTOR@),
        found_in(html, THEME_COLOUR_SELECTOR@),
    )
}

fn content_found(html: &str, selector: &str) -> (r: Vec<Option<String>>)
    ensures
        found_view(r@) == found_in(html@, selector@),
{
    match select_attrs(html, selector, CONTENT_ATTRIBUTE) {
        Some(v) => v,
        None => {
            let r: Vec<Option<String>> = Vec::new();
            assert(found_view(r@) =~= Seq::<Option<Seq<char>>>::empty());
            r
        },
    }
}

/// Extracts the metadata record of an HTML document fetched from `page_url`. Absent
/// tags give absent fields; a missing title gives an empty one.
pub fn web_data_from_html(html: &str, page_url: &str) -> (r: WebData)
    ensures
        r@ == html_record(html@, page_url@),
{
    let title = match select_texts(html, TITLE_SELECTOR) {
        Some(t) => if t.len() > 0 {
            t[0].clone()
        } else {
            String::new()
        },
        None => String::new(),
    };
    let images = content_found(html, IMAGE_SELECTOR);
    let image = match first_attribute(&images) {
        Some(i) => resolve_url(i.as_str(), page_url),
        None => None,
    };
    web_data_from(
        title,
        &content_found(html, DESCRIPTION_SELECTOR),
        &content_found(html, TYPE_SELECTOR),
        image,
        &content_found(html, AUTHOR_SELECTOR),
        &content_found(html, THEME_COLOUR_SELECTOR),
    )
}

} // verus!
