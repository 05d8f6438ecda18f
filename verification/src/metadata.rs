use vstd::prelude::*;

use crate::html_query::{query_attr, query_text, selected_attr, selected_text, string_opt_view};

verus! {

/// The preview record derived from one fetched document. `url` echoes the
/// input URL unchanged; each optional field is absent exactly when no source
/// tag of its fallback chain yielded a non-empty value.
pub struct LinkMetadata {
    pub title: Option<String>,
    pub description: Option<String>,
    pub image: Option<String>,
    pub site_name: Option<String>,
    pub url: String,
}

/// Why a fetch produced no record: the request could not be sent or errored
/// in transport, or the response headers arrived but the body could not be
/// read or decoded. HTML parsing is total and never contributes an error.
pub enum FetchError {
    Transport(String),
    BodyRead(String),
}

impl FetchError {
    /// The human-readable message carried by the error.
    pub open spec fn message_view(self) -> Seq<char> {
        match self {
            FetchError::Transport(m) => m@,
            FetchError::BodyRead(m) => m@,
        }
    }

    /// Hands the carried message out as a plain string.
    pub fn into_message(self) -> (r: String)
        ensures
            r@ == self.message_view(),
    {
        match self {
            FetchError::Transport(m) => m,
            FetchError::BodyRead(m) => m,
        }
    }
}

/// A link of a fallback chain counts only when it yields a non-empty value:
/// an absent tag and a tag whose value is the empty string are treated
/// alike, and both hand over to the next link (or leave the field absent).
pub open spec fn nonempty_or_none(o: Option<Seq<char>>) -> Option<Seq<char>> {
    match o {
        Some(s) => if s.len() > 0 {
            Some(s)
        } else {
            None
        },
        None => None,
    }
}

/// The extracted title: the `content` of the first `og:title` meta tag if
/// non-empty, else the text of the first `title` element if non-empty, else
/// absent.
pub open spec fn spec_title(html: Seq<char>) -> Option<Seq<char>> {
    match nonempty_or_none(selected_attr(html, "meta[property='og:title']"@, "content"@)) {
        Some(t) => Some(t),
        None => nonempty_or_none(selected_text(html, "title"@)),
    }
}

/// The extracted description: the `content` of the first `og:description`
/// meta tag if non-empty, else that of the first `meta[name='description']`
/// if non-empty, else absent.
pub open spec fn spec_description(html: Seq<char>) -> Option<Seq<char>> {
    match nonempty_or_none(
        selected_attr(html, "meta[property='og:description']"@, "content"@),
    ) {
        Some(d) => Some(d),
        None => nonempty_or_none(selected_attr(html, "meta[name='description']"@, "content"@)),
    }
}

/// The extracted image URL: the `content` of the first `og:image` meta tag
/// if non-empty; no fallback. The non-empty rule of the chains applies to
/// the single-link chains too: an empty `content` leaves the field absent.
pub open spec fn spec_image(html: Seq<char>) -> Option<Seq<char>> {
    nonempty_or_none(selected_attr(html, "meta[property='og:image']"@, "content"@))
}

/// The extracted site name: the `content` of the first `og:site_name` meta
/// tag if non-empty; no fallback, and an empty `content` leaves the field
/// absent.
pub open spec fn spec_site_name(html: Seq<char>) -> Option<Seq<char>> {
    nonempty_or_none(selected_attr(html, "meta[property='og:site_name']"@, "content"@))
}

/// The record `m` is exactly what extraction over `html` yields for `url`:
/// the URL is echoed unchanged and every field follows its fallback chain.
pub open spec fn extracted(m: LinkMetadata, url: String, html: Seq<char>) -> bool {
    &&& m.url == url
    &&& string_opt_view(m.title) == spec_title(html)
    &&& string_opt_view(m.description) == spec_description(html)
    &&& string_opt_view(m.image) == spec_image(html)
    &&& string_opt_view(m.site_name) == spec_site_name(html)
}

/// Keeps a queried value only when it is non-empty, so that an empty match
/// hands over to the next link of its fallback chain.
fn nonempty(o: Option<String>) -> (r: Option<String>)
    ensures
        string_opt_view(r) == nonempty_or_none(string_opt_view(o)),
{
    match o {
        Some(s) => if s.as_str().unicode_len() > 0 {
            Some(s)
        } else {
            None
        },
        None => None,
    }
}

/// Derives the preview record for `url` from the document text `html`.
/// Extraction is total: malformed or empty markup yields absent fields,
/// never an error, and the input URL is echoed back unchanged.
pub fn extract_metadata(url: String, html: &str) -> (r: LinkMetadata)
    ensures
        extracted(r, url, html@),
{
    let title = match nonempty(query_attr(html, "meta[property='og:title']", "content")) {
        Some(t) => Some(t),
        None => nonempty(query_text(html, "title")),
    };
    let description = match nonempty(
        query_attr(html, "meta[property='og:description']", "content"),
    ) {
        Some(d) => Some(d),
        None => nonempty(query_attr(html, "meta[name='description']", "content")),
    };
    let image = nonempty(query_attr(html, "meta[property='og:image']", "content"));
    let site_name = nonempty(query_attr(html, "meta[property='og:site_name']", "content"));
    LinkMetadata { title, description, image, site_name, url }
}

/// Completes a fetch once the transport has spoken: a transport or body-read
/// failure propagates unchanged and yields no record, while a successfully
/// read body yields the extracted record, never an error.
pub fn resolve_fetch(url: String, body: Result<String, FetchError>) -> (r: Result<
    LinkMetadata,
    FetchError,
>)
    ensures
        body matches Err(e) ==> r == Result::<LinkMetadata, FetchError>::Err(e),
        body matches Ok(h) ==> r matches Ok(m) && extracted(m, url, h@),
{
    match body {
        Ok(html) => Ok(extract_metadata(url, html.as_str())),
        Err(e) => Err(e),
    }
}

/// Fallback precedence for the title: when a document carries an `og:title`
/// meta tag with non-empty content, that content is the extracted title,
/// whatever any `title` element of the same document holds.
pub proof fn lemma_title_precedence(html: Seq<char>, t: Seq<char>)
    requires
        selected_attr(html, "meta[property='og:title']"@, "content"@) == Some(t),
        t.len() > 0,
    ensures
        spec_title(html) == Some(t),
{
}

/// Fallback activation for the title: when no `og:title` meta tag yields a
/// non-empty content (the tag is absent, or its content is empty), the
/// extracted title is the first `title` element's non-empty text.
pub proof fn lemma_title_fallback(html: Seq<char>, b: Seq<char>)
    requires
        nonempty_or_none(selected_attr(html, "meta[property='og:title']"@, "content"@))
            is None,
        selected_text(html, "title"@) == Some(b),
        b.len() > 0,
    ensures
        spec_title(html) == Some(b),
{
}

/// Fallback precedence for the description: an `og:description` meta tag
/// with non-empty content wins over any `meta[name='description']` tag of
/// the same document.
pub proof fn lemma_description_precedence(html: Seq<char>, d: Seq<char>)
    requires
        selected_attr(html, "meta[property='og:description']"@, "content"@) == Some(d),
        d.len() > 0,
    ensures
        spec_description(html) == Some(d),
{
}

/// Fallback activation for the description: when no `og:description` meta
/// tag yields a non-empty content, the extracted description is what
/// `meta[name='description']` yields if non-empty, else absent.
pub proof fn lemma_description_fallback(html: Seq<char>)
    requires
        nonempty_or_none(
            selected_attr(html, "meta[property='og:description']"@, "content"@),
        ) is None,
    ensures
        spec_description(html) == nonempty_or_none(
            selected_attr(html, "meta[name='description']"@, "content"@),
        ),
{
}

/// Graceful absence: a document in which no recognized tag pattern yields a
/// non-empty value (each tag absent or with empty content) extracts to a
/// record with all four optional fields absent; extraction itself is total
/// and still succeeds.
pub proof fn lemma_all_fields_absent(html: Seq<char>)
    requires
        nonempty_or_none(selected_attr(html, "meta[property='og:title']"@, "content"@))
            is None,
        nonempty_or_none(selected_text(html, "title"@)) is None,
        nonempty_or_none(
            selected_attr(html, "meta[property='og:description']"@, "content"@),
        ) is None,
        nonempty_or_none(selected_attr(html, "meta[name='description']"@, "content"@))
            is None,
        nonempty_or_none(selected_attr(html, "meta[property='og:image']"@, "content"@))
            is None,
        nonempty_or_none(selected_attr(html, "meta[property='og:site_name']"@, "content"@))
            is None,
    ensures
        spec_title(html) is None,
        spec_description(html) is None,
        spec_image(html) is None,
        spec_site_name(html) is None,
{
}

/// Field independence, title: the extracted title depends only on what the
/// title's own source tags yield. Two documents whose `og:title` and `title`
/// queries agree extract the same title, however their other tags differ.
pub proof fn lemma_title_sources_only(h1: Seq<char>, h2: Seq<char>)
    requires
        selected_attr(h1, "meta[property='og:title']"@, "content"@) == selected_attr(
            h2,
            "meta[property='og:title']"@,
            "content"@,
        ),
        selected_text(h1, "title"@) == selected_text(h2, "title"@),
    ensures
        spec_title(h1) == spec_title(h2),
{
}

/// Field independence, description: the extracted description depends only
/// on what the description's own source tags yield.
pub proof fn lemma_description_sources_only(h1: Seq<char>, h2: Seq<char>)
    requires
        selected_attr(h1, "meta[property='og:description']"@, "content"@) == selected_attr(
            h2,
            "meta[property='og:description']"@,
            "content"@,
        ),
        selected_attr(h1, "meta[name='description']"@, "content"@) == selected_attr(
            h2,
            "meta[name='description']"@,
            "content"@,
        ),
    ensures
        spec_description(h1) == spec_description(h2),
{
}

/// Field independence, image: the extracted image depends only on what the
/// `og:image` query yields.
pub proof fn lemma_image_sources_only(h1: Seq<char>, h2: Seq<char>)
    requires
        selected_attr(h1, "meta[property='og:image']"@, "content"@) == selected_attr(
            h2,
            "meta[property='og:image']"@,
            "content"@,
        ),
    ensures
        spec_image(h1) == spec_image(h2),
{
}

/// Field independence, site name: the extracted site name depends only on
/// what the `og:site_name` query yields.
pub proof fn lemma_site_name_sources_only(h1: Seq<char>, h2: Seq<char>)
    requires
        selected_attr(h1, "meta[property='og:site_name']"@, "content"@) == selected_attr(
            h2,
            "meta[property='og:site_name']"@,
            "content"@,
        ),
    ensures
        spec_site_name(h1) == spec_site_name(h2),
{
}

} // verus!
