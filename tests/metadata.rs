use embedder::extract::{
    accent_colour, first_attribute, media_type, present_attributes, reads_or_absent, settle_reads,
    web_data_from,
};
use embedder::page::{resolve_url, web_data_from_html};
use embedder::types::{OgType, WebData};

fn s(v: &str) -> String {
    v.to_string()
}

#[test]
fn from_meta_reads_every_known_type() {
    assert_eq!(OgType::from_meta("music.song"), OgType::MusicSong);
    assert_eq!(OgType::from_meta("music.album"), OgType::MusicAlbum);
    assert_eq!(OgType::from_meta("music.playlist"), OgType::MusicPlaylist);
    assert_eq!(OgType::from_meta("music.radio_station"), OgType::MusicRadioStation);
    assert_eq!(OgType::from_meta("video.movie"), OgType::VideoMovie);
    assert_eq!(OgType::from_meta("video.episode"), OgType::VideoEpisode);
    assert_eq!(OgType::from_meta("video.tv_show"), OgType::VideoTvShow);
    assert_eq!(OgType::from_meta("video.other"), OgType::VideoOther);
    assert_eq!(OgType::from_meta("article"), OgType::Article);
    assert_eq!(OgType::from_meta("book"), OgType::Book);
    assert_eq!(OgType::from_meta("profile"), OgType::Profile);
    assert_eq!(OgType::from_meta("website"), OgType::Website);
}

#[test]
fn from_meta_falls_back_to_website() {
    assert_eq!(OgType::from_meta(""), OgType::Website);
    assert_eq!(OgType::from_meta("Article"), OgType::Website);
    assert_eq!(OgType::from_meta("music.songs"), OgType::Website);
    assert_eq!(OgType::from_meta("music"), OgType::Website);
}

#[test]
fn defaults_are_website_and_empty() {
    assert_eq!(OgType::default(), OgType::Website);
    let d = WebData::default();
    assert_eq!(d.title, "");
    assert_eq!(d.kind, OgType::Website);
    assert_eq!(d.description, None);
    assert_eq!(d.image, None);
    assert!(d.author.is_empty());
    assert_eq!(d.colour, None);
}

#[test]
fn query_on_zero_matches_is_absent() {
    let none: Vec<Option<String>> = Vec::new();
    assert_eq!(first_attribute(&none), None);
    assert!(present_attributes(&none).is_empty());
    assert_eq!(accent_colour(&none), None);
    assert_eq!(media_type(&none), OgType::Website);
}

#[test]
fn first_attribute_takes_first_match() {
    let found = vec![Some(s("a")), Some(s("b"))];
    assert_eq!(first_attribute(&found), Some(s("a")));
    let missing = vec![None, Some(s("b"))];
    assert_eq!(first_attribute(&missing), None);
}

#[test]
fn present_attributes_keeps_order_and_skips_missing() {
    let found = vec![Some(s("Ann")), None, Some(s("Bo")), Some(s("Cy"))];
    assert_eq!(present_attributes(&found), vec![s("Ann"), s("Bo"), s("Cy")]);
}

#[test]
fn accent_colour_without_value_is_empty() {
    assert_eq!(accent_colour(&vec![None]), Some(s("")));
    assert_eq!(accent_colour(&vec![Some(s("#ff0000")), Some(s("#000"))]), Some(s("#ff0000")));
}

#[test]
fn settle_reads_drops_a_failed_batch() {
    let ok = vec![Some(Some(s("x"))), Some(None)];
    assert_eq!(settle_reads(&ok), vec![Some(s("x")), None]);
    let failed = vec![Some(Some(s("x"))), None];
    assert!(settle_reads(&failed).is_empty());
}

#[test]
fn web_data_from_assembles_all_fields() {
    let d = web_data_from(
        s("Title"),
        &vec![Some(s("desc"))],
        &vec![Some(s("book"))],
        Some(s("http://x/i.png")),
        &vec![Some(s("A")), None, Some(s("B"))],
        &vec![],
    );
    assert_eq!(d.title, "Title");
    assert_eq!(d.kind, OgType::Book);
    assert_eq!(d.description, Some(s("desc")));
    assert_eq!(d.image, Some(s("http://x/i.png")));
    assert_eq!(d.author, vec![s("A"), s("B")]);
    assert_eq!(d.colour, None);
}

#[test]
fn resolve_url_joins_root_relative_links() {
    assert_eq!(
        resolve_url("/img/a.png", "https://example.com/news/story?id=3"),
        Some(s("https://example.com/img/a.png"))
    );
    assert_eq!(
        resolve_url("./a.png", "https://example.com:8080/news/story"),
        Some(s("https://example.com:8080/a.png"))
    );
}

#[test]
fn resolve_url_keeps_absolute_links() {
    assert_eq!(
        resolve_url("https://cdn.example.org/a.png", "https://example.com/"),
        Some(s("https://cdn.example.org/a.png"))
    );
    assert_eq!(resolve_url("img.png", "not a url"), Some(s("img.png")));
}

#[test]
fn resolve_url_fails_on_bad_base() {
    assert_eq!(resolve_url("/a.png", "not a url"), None);
}

const ARTICLE_PAGE: &str = r##"<html><head>
<title>Coal power all but gone</title>
<meta property="og:description" content="A prediction">
<meta property="og:type" content="article">
<meta property="og:image" content="/images/coal.jpg">
<meta property="article:author" content="Jo Smith">
<meta property="book:author" content="Al Jones">
<meta name="theme-color" content="#112233">
</head><body><p>text</p></body></html>"##;

#[test]
fn html_page_yields_full_record() {
    let d = web_data_from_html(ARTICLE_PAGE, "https://news.example.com/a/b");
    assert_eq!(d.title, "Coal power all but gone");
    assert_eq!(d.kind, OgType::Article);
    assert_eq!(d.description, Some(s("A prediction")));
    assert_eq!(d.image, Some(s("https://news.example.com/images/coal.jpg")));
    assert_eq!(d.author, vec![s("Jo Smith"), s("Al Jones")]);
    assert_eq!(d.colour, Some(s("#112233")));
}

#[test]
fn page_without_theme_colour_has_no_accent() {
    let page = r#"<html><head><title>T</title><meta property="og:type" content="video.movie"></head></html>"#;
    let d = web_data_from_html(page, "https://example.com/");
    assert_eq!(d.colour, None);
    assert_eq!(d.kind, OgType::VideoMovie);
    assert_eq!(d.description, None);
    assert_eq!(d.image, None);
    assert!(d.author.is_empty());
}

#[test]
fn page_without_tags_gives_default_record() {
    let d = web_data_from_html("<html><body>nothing</body></html>", "https://example.com/");
    assert_eq!(d, WebData::default());
}

#[test]
fn failed_single_reads_count_as_absent() {
    let reads = vec![Some(Some(s("a"))), None, Some(None)];
    assert_eq!(reads_or_absent(&reads), vec![Some(s("a")), None, None]);
}
