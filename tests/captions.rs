use embed_bot::caption::{first_link, plan_post, process_metadata, Config, MessageParams, Metadata, PostPlan};
use url::Url;

#[test]
fn test_process_metadata() {
    let meta = Metadata {
        card: Some("summary_large_image".to_string()),
        title: Some("Test Title".to_string()),
        description: Some("Test Description".to_string()),
        image_url: None,
        video_url: Some(Url::parse("https://example.com/video.mp4").unwrap().to_string()),
        audio_url: None,
    };

    let params = process_metadata(meta, &Config::default());

    assert_eq!(params.body, "Test Title: Test Description");
    assert!(params.html_body.contains("<strong>Test Title:</strong>"));
    assert!(params.html_body.contains("<p>Test Description</p>"));
    assert_eq!(params.media_url.unwrap().as_str(), "https://example.com/video.mp4");
}

#[test]
fn test_rewrite_url() {
    let config = Config::default();

    let url = Url::parse("https://x.com/what/ever").unwrap();
    let new_url = config.rewrite_url(url.as_str());
    assert_eq!(new_url.as_str(), "https://vxtwitter.com/what/ever");

    let url = Url::parse("https://www.x.com/what/ever").unwrap();
    let new_url = config.rewrite_url(url.as_str());
    assert_eq!(new_url.as_str(), "https://vxtwitter.com/what/ever");

    let url = Url::parse("https://google.com").unwrap();
    let new_url = config.rewrite_url(url.as_str());
    assert_eq!(new_url.as_str(), "https://google.com/");
}

#[test]
fn rewrite_result_is_normalized_by_url_parsing() {
    let config = Config {
        url_rewrites: vec![("^https://a\\.example/".to_string(), "HTTPS://B.example/".to_string())],
        ..Config::default()
    };
    assert_eq!(config.rewrite_url("https://a.example/x"), "https://b.example/x");
    assert_eq!(config.rewrite_url("https://c.example/x"), "https://c.example/x");
}

#[test]
fn rewrite_skips_invalid_patterns_and_unparsable_results() {
    let config = Config {
        url_rewrites: vec![
            ("(".to_string(), "https://never/".to_string()),
            ("^https://".to_string(), "not a url ".to_string()),
            ("^https://d\\.example".to_string(), "https://e.example".to_string()),
        ],
        ..Config::default()
    };
    assert_eq!(config.rewrite_url("https://d.example/p"), "https://e.example/p");
}

#[test]
fn ignored_title_is_left_out() {
    let meta = Metadata {
        card: None,
        title: Some("Image File".to_string()),
        description: Some("A description".to_string()),
        image_url: Some("https://example.com/a.png".to_string()),
        video_url: None,
        audio_url: None,
    };
    let params = process_metadata(meta, &Config::default());
    assert_eq!(params.body, "A description");
    assert_eq!(params.html_body, "<br/><blockquote><p>A description</p></blockquote>");
    assert_eq!(params.media_url.as_deref(), Some("https://example.com/a.png"));
}

#[test]
fn caption_escapes_html_and_breaks_lines() {
    let meta = Metadata {
        card: Some("summary".to_string()),
        title: Some("a <b> & c".to_string()),
        description: None,
        image_url: Some("https://example.com/a.png".to_string()),
        video_url: None,
        audio_url: None,
    };
    let params = process_metadata(meta, &Config::default());
    assert_eq!(params.body, "a <b> & c");
    assert_eq!(params.html_body, "<blockquote><strong>a &lt;b&gt; &amp; c</strong></blockquote>");
    assert_eq!(params.media_url, None);
}

#[test]
fn caption_description_lines() {
    let meta = Metadata {
        card: Some("tweet".to_string()),
        title: None,
        description: Some("one\ntwo".to_string()),
        image_url: None,
        video_url: None,
        audio_url: Some("https://example.com/a.mp3".to_string()),
    };
    let params = process_metadata(meta, &Config::default());
    assert_eq!(params.body, "one\ntwo");
    assert_eq!(params.html_body, "<blockquote><p>one<br/>two</p></blockquote>");
    assert_eq!(params.media_url, None);
}

#[test]
fn empty_metadata_gives_empty_message() {
    let meta = Metadata::new();
    assert!(meta.is_empty());
    let params = process_metadata(meta, &Config::default());
    assert_eq!(params.body, "");
    assert_eq!(params.html_body, "");
    assert_eq!(params.media_url, None);
}

#[test]
fn media_preference_is_video_audio_image() {
    let meta = Metadata {
        card: None,
        title: Some("T".to_string()),
        description: None,
        image_url: Some("https://example.com/i.png".to_string()),
        video_url: None,
        audio_url: Some("https://example.com/a.mp3".to_string()),
    };
    let params = process_metadata(meta, &Config::default());
    assert_eq!(params.media_url.as_deref(), Some("https://example.com/a.mp3"));
    assert_eq!(params.html_body, "<br/><blockquote><strong>T</strong></blockquote>");
}

#[test]
fn default_config_values() {
    let config = Config::default();
    assert_eq!(config.max_file_size, 100 * 1024 * 1024);
    assert_eq!(config.download_timeout_secs, 30);
    assert_eq!(config.ignored_title_patterns, vec![r"^(Image|Video|Audio) File$".to_string()]);
}

#[test]
fn parse_metadata_from_html() {
    let html = r#"<html><head>
        <meta property="og:title" content="Page title">
        <meta name="og:description" content="Line one">
        <meta property="og:image" content="not a url">
        <meta property="og:video" content="https://example.com/v.mp4">
        <meta name="twitter:card" content="player">
        <meta name="twitter:title" content="Ignored, og:title was set">
        <meta property="twitter:image" content="https://example.com/t.jpg">
        </head><body></body></html>"#;
    let m = Metadata::parse_from_html(html);
    assert_eq!(m.title.as_deref(), Some("Page title"));
    assert_eq!(m.description.as_deref(), Some("Line one"));
    assert_eq!(m.video_url.as_deref(), Some("https://example.com/v.mp4"));
    assert_eq!(m.image_url.as_deref(), Some("https://example.com/t.jpg"));
    assert_eq!(m.card.as_deref(), Some("player"));
    assert_eq!(m.audio_url, None);
    assert!(!m.is_empty());
}

#[test]
fn twitter_creator_stands_in_for_title() {
    let html = r#"<html><head>
        <meta name="twitter:creator" content="@someone">
        <meta name="twitter:description" content="Words">
        </head></html>"#;
    let m = Metadata::parse_from_html(html);
    assert_eq!(m.title.as_deref(), Some("someone"));
    assert_eq!(m.description.as_deref(), Some("Words"));
}

#[test]
fn page_without_tags_is_empty() {
    let m = Metadata::parse_from_html("<html><head><title>x</title></head></html>");
    assert!(m.is_empty());
}

#[test]
fn first_link_in_message() {
    assert_eq!(first_link("look https://example.com/a b").as_deref(), Some("https://example.com/a"));
    assert_eq!(first_link("http://EXAMPLE.com").as_deref(), Some("http://example.com/"));
    assert_eq!(first_link("https:// then http://x.org/y").as_deref(), Some("http://x.org/y"));
    assert_eq!(first_link("ftp://a.b www.example.com").as_deref(), None);
    assert_eq!(first_link("").as_deref(), None);
    assert_eq!(first_link("xhttp://a.b\u{3000}https://c.d").as_deref(), Some("https://c.d/"));
}

#[test]
fn post_plans() {
    let with_media = MessageParams {
        body: "b".to_string(),
        html_body: "<p>b</p>".to_string(),
        media_url: Some("https://example.com/v.mp4".to_string()),
    };
    match plan_post(&with_media) {
        PostPlan::Media { url, caption, text_fallback } => {
            assert_eq!(url, "https://example.com/v.mp4");
            let c = caption.unwrap();
            assert_eq!((c.body.as_str(), c.html_body.as_str()), ("b", "<p>b</p>"));
            assert!(text_fallback);
        }
        _ => panic!("expected media"),
    }
    let bare_media = MessageParams {
        body: String::new(),
        html_body: String::new(),
        media_url: Some("https://example.com/i.png".to_string()),
    };
    assert!(matches!(plan_post(&bare_media), PostPlan::Media { caption: None, text_fallback: false, .. }));
    let text = MessageParams { body: "t".to_string(), html_body: String::new(), media_url: None };
    assert!(matches!(plan_post(&text), PostPlan::Text));
    let nothing = MessageParams { body: String::new(), html_body: String::new(), media_url: None };
    assert!(matches!(plan_post(&nothing), PostPlan::Nothing));
}
