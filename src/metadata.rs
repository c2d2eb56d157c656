//! A page's OpenGraph and Twitter card metadata.
use crate::caption::{sv, url_serialization, Metadata};
use crate::text::same_text;
use vstd::prelude::*;

verus! {

/// The `property`, `name` and `content` attributes of one `<meta>` element.
pub struct MetaTag {
    pub property: Option<String>,
    pub name: Option<String>,
    pub content: Option<String>,
}

pub struct MetaTagView {
    pub property: Option<Seq<char>>,
    pub name: Option<Seq<char>>,
    pub content: Option<Seq<char>>,
}

impl View for MetaTag {
    type V = MetaTagView;

    open spec fn view(&self) -> MetaTagView {
        MetaTagView { property: sv(self.property), name: sv(self.name), content: sv(self.content) }
    }
}

pub struct MetadataView {
    pub card: Option<Seq<char>>,
    pub title: Option<Seq<char>>,
    pub description: Option<Seq<char>>,
    pub image_url: Option<Seq<char>>,
    pub video_url: Option<Seq<char>>,
    pub audio_url: Option<Seq<char>>,
}

impl View for Metadata {
    type V = MetadataView;

    open spec fn view(&self) -> MetadataView {
        MetadataView {
            card: sv(self.card),
            title: sv(self.title),
            description: sv(self.description),
            image_url: sv(self.image_url),
            video_url: sv(self.video_url),
            audio_url: sv(self.audio_url),
        }
    }
}

/// `<meta>` elements whose `property` or `name` starts with `og:`.
pub const OPENGRAPH_SELECTOR: &'static str = r#"meta[property^="og:"], meta[name^="og:"]"#;

/// `<meta>` elements whose `property` or `name` starts with `twitter:`.
pub const TWITTER_SELECTOR: &'static str = r#"meta[property^="twitter:"], meta[name^="twitter:"]"#;

/// The attributes of the elements of the HTML document `html` that the CSS
/// selector `selector` selects, in document order.
pub uninterp spec fn selected_meta(html: Seq<char>, selector: Seq<char>) -> Seq<MetaTagView>;

/// Relies on `scraper::Html::parse_document`, `Selector::parse`, `Html::select`
/// (document order) and `Element::attr`.
#[verifier::external_body]
fn select_meta(html: &str, selector: &str) -> (r: Vec<MetaTag>)
    ensures
        r@.map_values(|t: MetaTag| t@) == selected_meta(html@, selector@),
{
    let document = scraper::Html::parse_document(html);
    let mut tags = Vec::new();
    if let Ok(sel) = scraper::Selector::parse(selector) {
        for element in document.select(&sel) {
            let e = element.value();
            let property = e.attr("property").map(|s| s.to_string());
            let name = e.attr("name").map(|s| s.to_string());
            tags.push(MetaTag { property, name, content: e.attr("content").map(|s| s.to_string()) });
        }
    }
    tags
}

pub open spec fn empty_metadata() -> MetadataView {
    MetadataView {
        card: None,
        title: None,
        description: None,
        image_url: None,
        video_url: None,
        audio_url: None,
    }
}

/// One OpenGraph tag: its `property` (else its `name`) says which field its
/// content fills; URLs count only when they parse, later tags win.
pub open spec fn og_step(m: MetadataView, t: MetaTagView) -> MetadataView {
    let key = if t.property is Some {
        t.property
    } else {
        t.name
    };
    if key is None || t.content is None {
        m
    } else {
        let k = key.unwrap();
        let c = t.content.unwrap();
        if k == "og:title"@ {
            MetadataView { title: Some(c), ..m }
        } else if k == "og:description"@ {
            MetadataView { description: Some(c), ..m }
        } else if k == "og:image"@ && url_serialization(c) is Some {
            MetadataView { image_url: url_serialization(c), ..m }
        } else if k == "og:video"@ && url_serialization(c) is Some {
            MetadataView { video_url: url_serialization(c), ..m }
        } else if k == "og:audio"@ && url_serialization(c) is Some {
            MetadataView { audio_url: url_serialization(c), ..m }
        } else {
            m
        }
    }
}

/// `s` without one leading `@`.
pub open spec fn without_at(s: Seq<char>) -> Seq<char> {
    if s.len() > 0 && s[0] == '@' {
        s.drop_first()
    } else {
        s
    }
}

/// One Twitter tag: its `name` (else its `property`) says which field its
/// content fills. The card type always; the rest only where OpenGraph left a
/// gap, the creator (without `@`) standing in for a missing title.
pub open spec fn twitter_step(m: MetadataView, t: MetaTagView) -> MetadataView {
    let key = if t.name is Some {
        t.name
    } else {
        t.property
    };
    if key is None || t.content is None {
        m
    } else {
        let k = key.unwrap();
        let c = t.content.unwrap();
        if k == "twitter:card"@ {
            MetadataView { card: Some(c), ..m }
        } else if k == "twitter:title"@ && m.title is None {
            MetadataView { title: Some(c), ..m }
        } else if k == "twitter:description"@ && m.description is None {
            MetadataView { description: Some(c), ..m }
        } else if k == "twitter:image"@ && m.image_url is None && url_serialization(c) is Some {
            MetadataView { image_url: url_serialization(c), ..m }
        } else if k == "twitter:creator"@ && m.title is None {
            MetadataView { title: Some(without_at(c)), ..m }
        } else {
            m
        }
    }
}

pub open spec fn og_fold(m: MetadataView, tags: Seq<MetaTagView>) -> MetadataView
    decreases tags.len(),
{
    if tags.len() == 0 {
        m
    } else {
        og_step(og_fold(m, tags.drop_last()), tags.last())
    }
}

pub open spec fn twitter_fold(m: MetadataView, tags: Seq<MetaTagView>) -> MetadataView
    decreases tags.len(),
{
    if tags.len() == 0 {
        m
    } else {
        twitter_step(twitter_fold(m, tags.drop_last()), tags.last())
    }
}

/// The metadata of an HTML page: OpenGraph tags first, Twitter tags filling in.
pub open spec fn page_metadata(html: Seq<char>) -> MetadataView {
    twitter_fold(
        og_fold(empty_metadata(), selected_meta(html, OPENGRAPH_SELECTOR@)),
        selected_meta(html, TWITTER_SELECTOR@),
    )
}

fn is_key(key: &Option<String>, k: &str) -> (r: bool)
    ensures
        r == (sv(*key) == Some(k@)),
{
    match key {
        Some(s) => same_text(s.as_str(), k),
        None => false,
    }
}

fn parse_url_text(s: &str) -> (r: Option<String>)
    ensures
        sv(r) == url_serialization(s@),
{
    crate::caption::parse_url(s)
}

impl Metadata {
    pub fn new() -> (r: Metadata)
        ensures
            r@ == empty_metadata(),
    {
        Metadata {
            card: None,
            title: None,
            description: None,
            image_url: None,
            video_url: None,
            audio_url: None,
        }
    }

    /// No field was found.
    pub fn is_empty(&self) -> (r: bool)
        ensures
            r == (self@ == empty_metadata()),
    {
        self.card.is_none() && self.title.is_none() && self.description.is_none()
            && self.image_url.is_none() && self.video_url.is_none() && self.audio_url.is_none()
    }

    /// Reads a page's metadata.
    pub fn parse_from_html(html_content: &str) -> (r: Metadata)
        ensures
            r@ == page_metadata(html_content@),
    {
        let mut metadata = Metadata::new();
        let og = select_meta(html_content, OPENGRAPH_SELECTOR);
        Self::parse_og_meta(&og, &mut metadata);
        let twitter = select_meta(html_content, TWITTER_SELECTOR);
        Self::parse_twitter_meta(&twitter, &mut metadata);
        metadata
    }

    fn parse_og_meta(tags: &Vec<MetaTag>, metadata: &mut Metadata)
        ensures
            final(metadata)@ == og_fold(old(metadata)@, tags@.map_values(|t: MetaTag| t@)),
    {
        let ghost start = metadata@;
        let ghost views = tags@.map_values(|t: MetaTag| t@);
        let mut i: usize = 0;
        while i < tags.len()
            invariant
                i <= tags@.len(),
                views == tags@.map_values(|t: MetaTag| t@),
                metadata@ == og_fold(start, views.subrange(0, i as int)),
            decreases tags@.len() - i,
        {
            assert(views.subrange(0, i + 1).drop_last() =~= views.subrange(0, i as int));
            let t = &tags[i];
            let key = if t.property.is_some() {
                &t.property
            } else {
                &t.name
            };
            if let (Some(_), Some(c)) = (key, &t.content) {
                if is_key(key, "og:title") {
                    metadata.title = Some(String::from_str(c.as_str()));
                } else if is_key(key, "og:description") {
                    metadata.description = Some(String::from_str(c.as_str()));
                } else if is_key(key, "og:image") {
                    let u = parse_url_text(c.as_str());
                    if u.is_some() {
                        metadata.image_url = u;
                    }
                } else if is_key(key, "og:video") {
                    let u = parse_url_text(c.as_str());
                    if u.is_some() {
                        metadata.video_url = u;
                    }
                } else if is_key(key, "og:audio") {
                    let u = parse_url_text(c.as_str());
                    if u.is_some() {
                        metadata.audio_url = u;
                    }
                }
            }
            i = i + 1;
        }
        assert(views.subrange(0, tags@.len() as int) =~= views);
    }

    fn parse_twitter_meta(tags: &Vec<MetaTag>, metadata: &mut Metadata)
        ensures
            final(metadata)@ == twitter_fold(old(metadata)@, tags@.map_values(|t: MetaTag| t@)),
    {
        let ghost start = metadata@;
        let ghost views = tags@.map_values(|t: MetaTag| t@);
        let mut i: usize = 0;
        while i < tags.len()
            invariant
                i <= tags@.len(),
                views == tags@.map_values(|t: MetaTag| t@),
                metadata@ == twitter_fold(start, views.subrange(0, i as int)),
            decreases tags@.len() - i,
        {
            assert(views.subrange(0, i + 1).drop_last() =~= views.subrange(0, i as int));
            let t = &tags[i];
            let key = if t.name.is_some() {
                &t.name
            } else {
                &t.property
            };
            if let (Some(_), Some(c)) = (key, &t.content) {
                if is_key(key, "twitter:card") {
                    metadata.card = Some(String::from_str(c.as_str()));
                } else if is_key(key, "twitter:title") && metadata.title.is_none() {
                    metadata.title = Some(String::from_str(c.as_str()));
                } else if is_key(key, "twitter:description") && metadata.description.is_none() {
                    metadata.description = Some(String::from_str(c.as_str()));
                } else if is_key(key, "twitter:image") && metadata.image_url.is_none() && {
                    let u = parse_url_text(c.as_str());
                    u.is_some()
                } {
                    metadata.image_url = parse_url_text(c.as_str());
                } else if is_key(key, "twitter:creator") && metadata.title.is_none() {
                    let n = c.as_str().unicode_len();
                    if n > 0 && c.as_str().get_char(0) == '@' {
                        metadata.title = Some(String::from_str(c.as_str().substring_char(1, n)));
                    } else {
                        metadata.title = Some(String::from_str(c.as_str()));
                    }
                }
            }
            i = i + 1;
        }
        assert(views.subrange(0, tags@.len() as int) =~= views);
    }
}

} // verus!
