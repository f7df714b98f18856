//! Reading the title, description and thumbnail of a web page from its HTML.
use vstd::prelude::*;
use select::predicate::Name;

verus! {

/// What is known of a web page.
#[derive(Debug, Clone, PartialEq, Eq)]
pub struct WebsiteMetadata {
    /// Whether the page could be fetched.
    pub can_resolve: bool,
    pub title: Option<String>,
    pub description: Option<String>,
    pub thumbnail: Option<String>,
}

impl Default for WebsiteMetadata {
    /// A page that could not be fetched.
    fn default() -> (r: WebsiteMetadata)
        ensures
            r == (WebsiteMetadata { can_resolve: false, title: None, description: None, thumbnail: None }),
    {
        WebsiteMetadata { can_resolve: false, title: None, description: None, thumbnail: None }
    }
}

/// The `property` and `content` attributes of a `meta` element.
#[derive(Debug, Clone, PartialEq, Eq)]
pub struct MetaTag {
    pub property: Option<String>,
    pub content: Option<String>,
}

/// The text of an optional string.
pub open spec fn opt_view(s: Option<String>) -> Option<Seq<char>> {
    match s {
        Some(t) => Some(t@),
        None => None,
    }
}

/// The attributes of a meta element, as texts.
pub open spec fn meta_view(m: MetaTag) -> (Option<Seq<char>>, Option<Seq<char>>) {
    (opt_view(m.property), opt_view(m.content))
}

/// What the select crate finds in a page: the text of its first `title` element.
pub uninterp spec fn html_title(html: Seq<char>) -> Option<Seq<char>>;

/// What the select crate finds in a page: the `property` and `content` attributes of
/// each `meta` element, in document order.
pub uninterp spec fn html_meta_tags(html: Seq<char>) -> Seq<(Option<Seq<char>>, Option<Seq<char>>)>;

/// `select::document::Document::from(html).find(Name("title")).next()`, read with `text()`.
#[verifier::external_body]
fn document_title(html: &str) -> (r: Option<String>)
    ensures
        opt_view(r) == html_title(html@),
{
    select::document::Document::from(html).find(Name("title")).next().map(|node| node.text())
}

/// `select::document::Document::from(html).find(Name("meta"))`, each element read with
/// `attr("property")` and `attr("content")`.
#[verifier::external_body]
fn document_meta_tags(html: &str) -> (r: Vec<MetaTag>)
    ensures
        r@.map_values(|m: MetaTag| meta_view(m)) == html_meta_tags(html@),
{
    select::document::Document::from(html).find(Name("meta")).map(
        |node| MetaTag {
            property: node.attr("property").map(|v| v.to_owned()),
            content: node.attr("content").map(|v| v.to_owned()),
        },
    ).collect()
}

/// The content of the first meta element whose property is `property` (`None` where
/// there is none, or where it has no content).
pub open spec fn meta_content(
    metas: Seq<(Option<Seq<char>>, Option<Seq<char>>)>,
    property: Seq<char>,
) -> Option<Seq<char>>
    decreases metas.len(),
{
    if metas.len() == 0 {
        None
    } else if metas[0].0 == Some(property) {
        metas[0].1
    } else {
        meta_content(metas.drop_first(), property)
    }
}

/// What a page's HTML says of it: the text of its title element, and the Open Graph
/// title, description and image.
#[derive(Debug, Clone, PartialEq, Eq)]
pub struct ScrapedPage {
    pub tag_title: Option<String>,
    pub title: Option<String>,
    pub description: Option<String>,
    pub thumbnail: Option<String>,
}

/// The metadata that the link scraping service returned for a page.
#[derive(Debug, Clone, PartialEq, Eq)]
pub struct LinkishResponse {
    pub title: Option<String>,
    pub description: Option<String>,
    pub image: Option<String>,
}

fn find_meta(metas: &Vec<MetaTag>, property: &str) -> (r: Option<String>)
    ensures
        opt_view(r) == meta_content(metas@.map_values(|m: MetaTag| meta_view(m)), property@),
{
    let ghost all = metas@.map_values(|m: MetaTag| meta_view(m));
    let mut i: usize = 0;
    assert(all.skip(0) =~= all);
    while i < metas.len()
        invariant
            all == metas@.map_values(|m: MetaTag| meta_view(m)),
            i <= metas@.len(),
            meta_content(all, property@) == meta_content(all.skip(i as int), property@),
        decreases metas.len() - i,
    {
        let ghost rest = all.skip(i as int);
        assert(rest[0] == meta_view(metas@[i as int]));
        let found = match &metas[i].property {
            Some(p) => crate::text::str_equal(p.as_str(), property),
            None => false,
        };
        if found {
            return match &metas[i].content {
                Some(c) => Some(c.clone()),
                None => None,
            };
        }
        assert(rest.drop_first() =~= all.skip(i + 1));
        i += 1;
    }
    None
}

/// What a page's HTML says of it.
pub fn scrape_page(html: &str) -> (r: ScrapedPage)
    ensures
        opt_view(r.tag_title) == html_title(html@),
        opt_view(r.title) == meta_content(html_meta_tags(html@), "og:title"@),
        opt_view(r.description) == meta_content(html_meta_tags(html@), "og:description"@),
        opt_view(r.thumbnail) == meta_content(html_meta_tags(html@), "og:image"@),
{
    let tag_title = document_title(html);
    let metas = document_meta_tags(html);
    let title = find_meta(&metas, "og:title");
    let description = find_meta(&metas, "og:description");
    let thumbnail = find_meta(&metas, "og:image");
    ScrapedPage { tag_title, title, description, thumbnail }
}

/// Whether the Open Graph data of a page lacks its title, description or image, so that
/// the link scraping service is asked.
pub fn needs_fallback(page: &ScrapedPage) -> (r: bool)
    ensures
        r == (page.title is None || page.description is None || page.thumbnail is None),
{
    page.title.is_none() || page.description.is_none() || page.thumbnail.is_none()
}

/// The first of two optional values that is present.
pub open spec fn or_else<T>(a: Option<T>, b: Option<T>) -> Option<T> {
    match a {
        Some(x) => Some(x),
        None => b,
    }
}

fn first_of(a: Option<String>, b: Option<String>) -> (r: Option<String>)
    ensures
        r == or_else(a, b),
{
    match a {
        Some(x) => Some(x),
        None => b,
    }
}

/// What is known of a fetched page: its Open Graph data, completed where missing by the
/// link scraping service's answer (when there is one), and the title element's text as
/// the last resort for the title.
pub fn website_metadata(page: ScrapedPage, linkish: Option<LinkishResponse>) -> (r: WebsiteMetadata)
    ensures
        r.can_resolve,
        r.title == or_else(
            match linkish {
                Some(l) => or_else(page.title, l.title),
                None => page.title,
            },
            page.tag_title,
        ),
        r.description == match linkish {
            Some(l) => or_else(page.description, l.description),
            None => page.description,
        },
        r.thumbnail == match linkish {
            Some(l) => or_else(page.thumbnail, l.image),
            None => page.thumbnail,
        },
{
    let mut title = page.title;
    let mut description = page.description;
    let mut thumbnail = page.thumbnail;
    match linkish {
        Some(l) => {
            title = first_of(title, l.title);
            description = first_of(description, l.description);
            thumbnail = first_of(thumbnail, l.image);
        },
        None => {},
    }
    WebsiteMetadata {
        can_resolve: true,
        title: first_of(title, page.tag_title),
        description,
        thumbnail,
    }
}

} // verus!
