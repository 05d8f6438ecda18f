use linkmeta::metadata::extract_metadata;

fn extract(html: &str) -> linkmeta::metadata::LinkMetadata {
    extract_metadata("https://example.com/page".to_string(), html)
}

#[test]
fn scenario_article() {
    let html = "<html><head>\
        <meta property=\"og:title\" content=\"Example Article\">\
        <meta name=\"description\" content=\"A short summary.\">\
        </head><body></body></html>";
    let m = extract_metadata("https://example.com/article".to_string(), html);
    assert_eq!(m.url, "https://example.com/article".to_string());
    assert_eq!(m.title, Some("Example Article".to_string()));
    assert_eq!(m.description, Some("A short summary.".to_string()));
    assert_eq!(m.image, None);
    assert_eq!(m.site_name, None);
}

#[test]
fn url_round_trip() {
    let m = extract_metadata(
        "https://example.com/a?b=c#d".to_string(),
        "<html><head><title>T</title></head></html>",
    );
    assert_eq!(m.url, "https://example.com/a?b=c#d".to_string());
}

#[test]
fn url_round_trip_empty_document() {
    let m = extract_metadata("not even a valid url".to_string(), "");
    assert_eq!(m.url, "not even a valid url".to_string());
}

#[test]
fn og_title_wins_over_title_element() {
    let html = "<html><head>\
        <title>Element Title</title>\
        <meta property=\"og:title\" content=\"Open Graph Title\">\
        </head></html>";
    let m = extract(html);
    assert_eq!(m.title, Some("Open Graph Title".to_string()));
}

#[test]
fn title_element_fallback() {
    let html = "<html><head><title>Fallback Title</title></head></html>";
    let m = extract(html);
    assert_eq!(m.title, Some("Fallback Title".to_string()));
}

#[test]
fn og_description_wins_over_meta_description() {
    let html = "<html><head>\
        <meta name=\"description\" content=\"plain\">\
        <meta property=\"og:description\" content=\"open graph\">\
        </head></html>";
    let m = extract(html);
    assert_eq!(m.description, Some("open graph".to_string()));
}

#[test]
fn meta_description_fallback() {
    let html = "<html><head>\
        <meta name=\"description\" content=\"plain description\">\
        </head></html>";
    let m = extract(html);
    assert_eq!(m.description, Some("plain description".to_string()));
}

#[test]
fn image_extracted() {
    let html = "<html><head>\
        <meta property=\"og:image\" content=\"https://example.com/img.png\">\
        </head></html>";
    let m = extract(html);
    assert_eq!(m.image, Some("https://example.com/img.png".to_string()));
}

#[test]
fn image_has_no_fallback() {
    let html = "<html><head>\
        <title>T</title>\
        <meta name=\"description\" content=\"d\">\
        </head></html>";
    let m = extract(html);
    assert_eq!(m.image, None);
}

#[test]
fn site_name_extracted() {
    let html = "<html><head>\
        <meta property=\"og:site_name\" content=\"Example Site\">\
        </head></html>";
    let m = extract(html);
    assert_eq!(m.site_name, Some("Example Site".to_string()));
}

#[test]
fn all_fields_absent_still_succeeds() {
    let html = "<html><head><meta charset=\"utf-8\"></head><body><p>hi</p></body></html>";
    let m = extract(html);
    assert_eq!(m.title, None);
    assert_eq!(m.description, None);
    assert_eq!(m.image, None);
    assert_eq!(m.site_name, None);
}

#[test]
fn fields_are_independent() {
    let without = "<html><head><title>Same Title</title></head></html>";
    let with = "<html><head><title>Same Title</title>\
        <meta property=\"og:image\" content=\"https://example.com/i.png\">\
        <meta property=\"og:site_name\" content=\"S\">\
        </head></html>";
    let a = extract(without);
    let b = extract(with);
    assert_eq!(a.title, b.title);
    assert_eq!(a.description, b.description);
    assert_eq!(a.description, None);
    assert_eq!(b.image, Some("https://example.com/i.png".to_string()));
    assert_eq!(a.image, None);
}

#[test]
fn malformed_markup_is_tolerated() {
    let html = "<html><head><meta property=\"og:site_name\" content=\"Still Here\">\
        <body><div><p>unclosed <b>text</div><span>stray</spa";
    let m = extract(html);
    assert_eq!(m.site_name, Some("Still Here".to_string()));
    assert_eq!(m.url, "https://example.com/page".to_string());
}

#[test]
fn empty_og_title_activates_fallback() {
    let html = "<html><head>\
        <meta property=\"og:title\" content=\"\">\
        <title>Element Text</title>\
        </head></html>";
    let m = extract(html);
    assert_eq!(m.title, Some("Element Text".to_string()));
}

#[test]
fn empty_title_element_leaves_title_absent() {
    let html = "<html><head><title></title></head></html>";
    let m = extract(html);
    assert_eq!(m.title, None);
}

#[test]
fn empty_og_description_activates_fallback() {
    let html = "<html><head>\
        <meta property=\"og:description\" content=\"\">\
        <meta name=\"description\" content=\"plain fallback\">\
        </head></html>";
    let m = extract(html);
    assert_eq!(m.description, Some("plain fallback".to_string()));
}

#[test]
fn empty_description_chain_leaves_description_absent() {
    let html = "<html><head>\
        <meta property=\"og:description\" content=\"\">\
        <meta name=\"description\" content=\"\">\
        </head></html>";
    let m = extract(html);
    assert_eq!(m.description, None);
}

#[test]
fn empty_og_image_leaves_image_absent() {
    let html = "<html><head>\
        <meta property=\"og:image\" content=\"\">\
        </head></html>";
    let m = extract(html);
    assert_eq!(m.image, None);
}

#[test]
fn empty_og_site_name_leaves_site_name_absent() {
    let html = "<html><head>\
        <meta property=\"og:site_name\" content=\"\">\
        </head></html>";
    let m = extract(html);
    assert_eq!(m.site_name, None);
}

#[test]
fn title_text_is_concatenated() {
    let html = "<html><head><title>One Two</title><title>Second</title></head></html>";
    let m = extract(html);
    assert_eq!(m.title, Some("One Two".to_string()));
}
