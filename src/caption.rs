//! The settings the library reads, the rewriting of shared links, and the
//! caption made of a page's metadata.
use crate::assemble::Caption;
use crate::text::{is_white_space, is_white_space_char, push_char, same_text};
use vstd::prelude::*;

verus! {

pub const DEFAULT_MAX_FILE_SIZE: u64 = 104857600;

pub const DEFAULT_DOWNLOAD_TIMEOUT_SECONDS: u64 = 30;

/// The settings that the library's logic reads. Patterns are regular
/// expressions in the syntax of the `regex` crate.
pub struct Config {
    /// The byte budget of one download.
    pub max_file_size: u64,
    pub download_timeout_secs: u64,
    /// Pattern and replacement of each link rewrite, tried in order.
    pub url_rewrites: Vec<(String, String)>,
    /// Titles matching any of these patterns are left out of captions.
    pub ignored_title_patterns: Vec<String>,
}

/// A page's metadata. URLs are held in their serialized form.
#[derive(Debug, Clone, PartialEq, Eq)]
pub struct Metadata {
    pub card: Option<String>,
    pub title: Option<String>,
    pub description: Option<String>,
    pub image_url: Option<String>,
    pub video_url: Option<String>,
    pub audio_url: Option<String>,
}

/// A message to post: plain and HTML text, and the media to attach.
pub struct MessageParams {
    pub body: String,
    pub html_body: String,
    pub media_url: Option<String>,
}

pub open spec fn sv(s: Option<String>) -> Option<Seq<char>> {
    match s {
        Some(s) => Some(s@),
        None => None,
    }
}

// ---- what the outside crates compute ----

/// Whether the regular expression `pattern` matches somewhere in `text`;
/// `None` when the pattern does not compile.
pub uninterp spec fn pattern_match(pattern: Seq<char>, text: Seq<char>) -> Option<bool>;

/// `text` with the leftmost match of `pattern` replaced by `replacement`
/// (with `$` group references expanded); `None` when the pattern does not compile.
pub uninterp spec fn pattern_replace(pattern: Seq<char>, text: Seq<char>, replacement: Seq<char>) -> Option<Seq<char>>;

/// The serialization of the URL parsed from `s`; `None` when it does not parse.
pub uninterp spec fn url_serialization(s: Seq<char>) -> Option<Seq<char>>;

/// Relies on `regex::Regex::new` to compile the pattern and `Regex::is_match`.
#[verifier::external_body]
fn regex_matches(pattern: &str, text: &str) -> (r: Option<bool>)
    ensures
        r == pattern_match(pattern@, text@),
{
    match regex::Regex::new(pattern) {
        Ok(re) => Some(re.is_match(text)),
        Err(_) => None,
    }
}

/// Relies on `regex::Regex::new` to compile the pattern and `Regex::replace`,
/// which replaces the leftmost match.
#[verifier::external_body]
fn regex_replace(pattern: &str, text: &str, replacement: &str) -> (r: Option<String>)
    ensures
        r matches Some(s) ==> pattern_replace(pattern@, text@, replacement@) == Some(s@),
        r is None ==> pattern_replace(pattern@, text@, replacement@) is None,
{
    match regex::Regex::new(pattern) {
        Ok(re) => Some(re.replace(text, replacement).into_owned()),
        Err(_) => None,
    }
}

/// Relies on `url::Url::parse` and `Url::as_str`.
#[verifier::external_body]
pub(crate) fn parse_url(s: &str) -> (r: Option<String>)
    ensures
        r matches Some(u) ==> url_serialization(s@) == Some(u@),
        r is None ==> url_serialization(s@) is None,
{
    match url::Url::parse(s) {
        Ok(u) => Some(u.as_str().to_string()),
        Err(_) => None,
    }
}

/// What `html_escape::encode_text` makes of one character.
pub open spec fn escaped_char(c: char) -> Seq<char> {
    if c == '&' {
        "&amp;"@
    } else if c == '<' {
        "&lt;"@
    } else if c == '>' {
        "&gt;"@
    } else {
        seq![c]
    }
}

/// Text escaped for HTML: every `&`, `<` and `>` as an entity.
pub open spec fn html_text(s: Seq<char>) -> Seq<char>
    decreases s.len(),
{
    if s.len() == 0 {
        Seq::empty()
    } else {
        html_text(s.drop_last()) + escaped_char(s.last())
    }
}

/// Relies on `html_escape::encode_text`, which escapes `&`, `<` and `>` and
/// keeps every other character.
#[verifier::external_body]
fn encode_html_text(s: &str) -> (r: String)
    ensures
        r@ == html_text(s@),
{
    html_escape::encode_text(s).into_owned()
}

// ---- link rewriting ----

/// The first rewrite that changes the link into a URL that parses gives the
/// result (serialized); otherwise the link stays as it is.
pub open spec fn rewritten(rules: Seq<(Seq<char>, Seq<char>)>, url: Seq<char>) -> Seq<char>
    decreases rules.len(),
{
    if rules.len() == 0 {
        url
    } else {
        let candidate = pattern_replace(rules[0].0, url, rules[0].1);
        if candidate matches Some(c) && c != url && url_serialization(c) is Some {
            url_serialization(candidate.unwrap()).unwrap()
        } else {
            rewritten(rules.drop_first(), url)
        }
    }
}

pub open spec fn rules_view(rules: Seq<(String, String)>) -> Seq<(Seq<char>, Seq<char>)> {
    rules.map_values(|r: (String, String)| (r.0@, r.1@))
}

// ---- captions ----

/// `\n` written as `<br/>`.
pub open spec fn with_breaks(s: Seq<char>) -> Seq<char>
    decreases s.len(),
{
    if s.len() == 0 {
        Seq::empty()
    } else {
        with_breaks(s.drop_last()) + if s.last() == '\n' {
            "<br/>"@
        } else {
            seq![s.last()]
        }
    }
}

/// Cards that carry no media of their own.
pub open spec fn suppresses_media(card: Option<Seq<char>>) -> bool {
    card == Some("summary"@) || card == Some("tweet"@)
}

/// Video before audio before image, unless the card suppresses media.
pub open spec fn chosen_media(m: Metadata) -> Option<Seq<char>> {
    if suppresses_media(sv(m.card)) {
        None
    } else if m.video_url is Some {
        sv(m.video_url)
    } else if m.audio_url is Some {
        sv(m.audio_url)
    } else {
        sv(m.image_url)
    }
}

pub open spec fn title_ignored(patterns: Seq<Seq<char>>, title: Seq<char>) -> bool {
    exists|i: int| 0 <= i < patterns.len() && pattern_match(#[trigger] patterns[i], title) == Some(true)
}

/// The title that stays in the caption.
pub open spec fn kept_title(patterns: Seq<Seq<char>>, title: Option<Seq<char>>) -> Option<Seq<char>> {
    match title {
        Some(t) => if title_ignored(patterns, t) {
            None
        } else {
            Some(t)
        },
        None => None,
    }
}

pub open spec fn caption_body(title: Option<Seq<char>>, desc: Option<Seq<char>>) -> Seq<char> {
    match (title, desc) {
        (Some(t), Some(d)) => t + ": "@ + d,
        (Some(t), None) => t,
        (None, Some(d)) => d,
        (None, None) => Seq::empty(),
    }
}

pub open spec fn caption_html(title: Option<Seq<char>>, desc: Option<Seq<char>>, has_media: bool) -> Seq<char> {
    if title is None && desc is None {
        Seq::empty()
    } else {
        let lead = if has_media {
            "<br/>"@
        } else {
            Seq::empty()
        };
        let t = match title {
            Some(t) => "<strong>"@ + with_breaks(html_text(t)) + (if desc is Some {
                ":"@
            } else {
                Seq::empty()
            }) + "</strong>"@,
            None => Seq::empty(),
        };
        let d = match desc {
            Some(d) => "<p>"@ + with_breaks(html_text(d)) + "</p>"@,
            None => Seq::empty(),
        };
        lead + "<blockquote>"@ + t + d + "</blockquote>"@
    }
}

fn string_from(s: &str) -> (r: String)
    ensures
        r@ == s@,
{
    String::from_str(s)
}

/// `s` with each `\n` written as `<br/>`.
pub fn replace_newlines(s: &str) -> (r: String)
    ensures
        r@ == with_breaks(s@),
{
    let n = s.unicode_len();
    let mut out = String::new();
    let mut i: usize = 0;
    while i < n
        invariant
            i <= n,
            n == s@.len(),
            out@ == with_breaks(s@.subrange(0, i as int)),
        decreases n - i,
    {
        let c = s.get_char(i);
        assert(s@.subrange(0, i + 1).drop_last() =~= s@.subrange(0, i as int));
        if c == '\n' {
            out.append("<br/>");
        } else {
            push_char(&mut out, c);
        }
        i = i + 1;
    }
    assert(s@.subrange(0, n as int) =~= s@);
    out
}

fn is_ignored(patterns: &Vec<String>, title: &str) -> (r: bool)
    ensures
        r == title_ignored(patterns.deep_view(), title@),
{
    let mut i: usize = 0;
    while i < patterns.len()
        invariant
            i <= patterns@.len(),
            forall|j: int| 0 <= j < i ==> pattern_match(#[trigger] patterns.deep_view()[j], title@) != Some(true),
        decreases patterns@.len() - i,
    {
        assert(patterns.deep_view()[i as int] == patterns@[i as int]@);
        if regex_matches(patterns[i].as_str(), title) == Some(true) {
            return true;
        }
        i = i + 1;
    }
    false
}

impl Config {
    /// Rewrites a link by the first rule that turns it into another valid URL.
    pub fn rewrite_url(&self, url: &str) -> (r: String)
        ensures
            r@ == rewritten(rules_view(self.url_rewrites@), url@),
    {
        let ghost rules = rules_view(self.url_rewrites@);
        let mut i: usize = 0;
        assert(rules.subrange(0, rules.len() as int) =~= rules);
        while i < self.url_rewrites.len()
            invariant
                i <= self.url_rewrites@.len(),
                rules == rules_view(self.url_rewrites@),
                rewritten(rules, url@) == rewritten(rules.subrange(i as int, rules.len() as int), url@),
            decreases self.url_rewrites@.len() - i,
        {
            let ghost rest = rules.subrange(i as int, rules.len() as int);
            assert(rest.drop_first() =~= rules.subrange(i + 1, rules.len() as int));
            assert(rest[0] == (self.url_rewrites@[i as int].0@, self.url_rewrites@[i as int].1@));
            let (pattern, replacement) = &self.url_rewrites[i];
            if let Some(candidate) = regex_replace(pattern.as_str(), url, replacement.as_str()) {
                if !same_text(candidate.as_str(), url) {
                    if let Some(u) = parse_url(candidate.as_str()) {
                        return u;
                    }
                }
            }
            i = i + 1;
        }
        string_from(url)
    }
}

impl Default for Config {
    fn default() -> (r: Config)
        ensures
            r.max_file_size == DEFAULT_MAX_FILE_SIZE,
            r.download_timeout_secs == DEFAULT_DOWNLOAD_TIMEOUT_SECONDS,
            rules_view(r.url_rewrites@) == seq![
                (r"^https?://(www\.)?x(cancel)?\.com/"@, "https://vxtwitter.com/"@),
                (r"^https?://(www\.)?pixiv\.net/"@, "https://phixiv.net/"@),
            ],
            r.ignored_title_patterns.deep_view() == seq![r"^(Image|Video|Audio) File$"@],
    {
        let mut url_rewrites: Vec<(String, String)> = Vec::new();
        url_rewrites.push(
            (string_from(r"^https?://(www\.)?x(cancel)?\.com/"), string_from("https://vxtwitter.com/")),
        );
        url_rewrites.push(
            (string_from(r"^https?://(www\.)?pixiv\.net/"), string_from("https://phixiv.net/")),
        );
        let mut ignored_title_patterns: Vec<String> = Vec::new();
        ignored_title_patterns.push(string_from(r"^(Image|Video|Audio) File$"));
        assert(rules_view(url_rewrites@) =~= seq![
            (r"^https?://(www\.)?x(cancel)?\.com/"@, "https://vxtwitter.com/"@),
            (r"^https?://(www\.)?pixiv\.net/"@, "https://phixiv.net/"@),
        ]);
        assert(ignored_title_patterns.deep_view() =~= seq![r"^(Image|Video|Audio) File$"@]);
        Config {
            max_file_size: DEFAULT_MAX_FILE_SIZE,
            download_timeout_secs: DEFAULT_DOWNLOAD_TIMEOUT_SECONDS,
            url_rewrites,
            ignored_title_patterns,
        }
    }
}

fn card_is(card: &Option<String>, kind: &str) -> (r: bool)
    ensures
        r == (sv(*card) == Some(kind@)),
{
    match card {
        Some(c) => same_text(c.as_str(), kind),
        None => false,
    }
}

/// `s` escaped for HTML, with line breaks as `<br/>`.
fn html_lines(s: &str) -> (r: String)
    ensures
        r@ == with_breaks(html_text(s@)),
{
    let escaped = encode_html_text(s);
    replace_newlines(escaped.as_str())
}

/// Turns a page's metadata into the message to post: the media to attach,
/// and a caption of the title (unless ignored) and the description.
pub fn process_metadata(meta: Metadata, config: &Config) -> (r: MessageParams)
    ensures
        sv(r.media_url) == chosen_media(meta),
        r.body@ == caption_body(
            kept_title(config.ignored_title_patterns.deep_view(), sv(meta.title)),
            sv(meta.description),
        ),
        r.html_body@ == caption_html(
            kept_title(config.ignored_title_patterns.deep_view(), sv(meta.title)),
            sv(meta.description),
            chosen_media(meta) is Some,
        ),
{
    let suppress = card_is(&meta.card, "summary") || card_is(&meta.card, "tweet");
    let Metadata { card: _, title, description, image_url, video_url, audio_url } = meta;
    let media_url = if suppress {
        None
    } else if video_url.is_some() {
        video_url
    } else if audio_url.is_some() {
        audio_url
    } else {
        image_url
    };
    let title = match title {
        Some(t) => if is_ignored(&config.ignored_title_patterns, t.as_str()) {
            None
        } else {
            Some(t)
        },
        None => None,
    };
    let body = match (&title, &description) {
        (Some(t), Some(d)) => {
            let mut b = string_from(t.as_str());
            b.append(": ");
            b.append(d.as_str());
            b
        },
        (Some(t), None) => string_from(t.as_str()),
        (None, Some(d)) => string_from(d.as_str()),
        (None, None) => String::new(),
    };
    let html_body = if title.is_none() && description.is_none() {
        String::new()
    } else {
        let mut h = if media_url.is_some() {
            string_from("<br/>")
        } else {
            String::new()
        };
        h.append("<blockquote>");
        if let Some(t) = &title {
            h.append("<strong>");
            let esc = html_lines(t.as_str());
            h.append(esc.as_str());
            if description.is_some() {
                h.append(":");
            }
            h.append("</strong>");
        }
        if let Some(d) = &description {
            h.append("<p>");
            let esc = html_lines(d.as_str());
            h.append(esc.as_str());
            h.append("</p>");
        }
        h.append("</blockquote>");
        h
    };
    MessageParams { body, html_body, media_url }
}

// ---- links in messages ----

/// A word that is a link: it starts with `http://` or `https://` and parses
/// as a URL; the URL's serialization.
pub open spec fn link_in_word(word: Seq<char>) -> Option<Seq<char>> {
    if (word.len() >= 7 && word.subrange(0, 7) == "http://"@) || (word.len() >= 8 && word.subrange(
        0,
        8,
    ) == "https://"@) {
        url_serialization(word)
    } else {
        None
    }
}

/// The first link among the whitespace-separated words of `s`, scanning from
/// `i` with the current word starting at `w`.
pub open spec fn scan_links(s: Seq<char>, w: int, i: int) -> Option<Seq<char>>
    decreases s.len() - i,
{
    if i >= s.len() {
        if 0 <= w < s.len() {
            link_in_word(s.subrange(w, s.len() as int))
        } else {
            None
        }
    } else if is_white_space(s[i]) {
        let found = if 0 <= w < i {
            link_in_word(s.subrange(w, i))
        } else {
            None
        };
        if found is Some {
            found
        } else {
            scan_links(s, i + 1, i + 1)
        }
    } else {
        scan_links(s, w, i + 1)
    }
}

fn starts_with_text(s: &str, prefix: &str) -> (r: bool)
    ensures
        r == (s@.len() >= prefix@.len() && s@.subrange(0, prefix@.len() as int) == prefix@),
{
    let n = prefix.unicode_len();
    if s.unicode_len() < n {
        return false;
    }
    same_text(s.substring_char(0, n), prefix)
}

fn word_link(word: &str) -> (r: Option<String>)
    ensures
        sv(r) == link_in_word(word@),
{
    proof {
        reveal_strlit("http://");
        reveal_strlit("https://");
    }
    if starts_with_text(word, "http://") || starts_with_text(word, "https://") {
        let u = parse_url(word);
        u
    } else {
        None
    }
}

/// The first link in a message's text, serialized as a URL.
pub fn first_link(body: &str) -> (r: Option<String>)
    ensures
        sv(r) == scan_links(body@, 0, 0),
{
    let n = body.unicode_len();
    let mut w: usize = 0;
    let mut i: usize = 0;
    while i < n
        invariant
            w <= i <= n,
            n == body@.len(),
            scan_links(body@, 0, 0) == scan_links(body@, w as int, i as int),
        decreases n - i,
    {
        if is_white_space_char(body.get_char(i)) {
            if w < i {
                let found = word_link(body.substring_char(w, i));
                if found.is_some() {
                    return found;
                }
            }
            w = i + 1;
        }
        i = i + 1;
    }
    if w < n {
        word_link(body.substring_char(w, n))
    } else {
        None
    }
}

// ---- posting ----

/// How a message is posted.
pub enum PostPlan {
    /// Download and attach the media, captioned; should that fail, post the
    /// text alone when `text_fallback` holds.
    Media { url: String, caption: Option<Caption>, text_fallback: bool },
    /// Post the text alone.
    Text,
    /// Post nothing.
    Nothing,
}

pub open spec fn has_text(p: MessageParams) -> bool {
    p.body@.len() > 0 || p.html_body@.len() > 0
}

/// Media when there is some, captioned with the text when there is any; the
/// text alone otherwise, or nothing.
pub fn plan_post(params: &MessageParams) -> (r: PostPlan)
    ensures
        r is Media <==> params.media_url is Some,
        r is Text <==> params.media_url is None && has_text(*params),
        r matches PostPlan::Media { url, caption, text_fallback } ==> url@
            == params.media_url.unwrap()@ && text_fallback == has_text(*params) && (caption is Some
            <==> has_text(*params)) && (caption matches Some(c) ==> c.body@ == params.body@
            && c.html_body@ == params.html_body@),
{
    let text = params.body.as_str().unicode_len() > 0 || params.html_body.as_str().unicode_len() > 0;
    match &params.media_url {
        Some(u) => {
            let caption = if text {
                Some(
                    Caption {
                        body: string_from(params.body.as_str()),
                        html_body: string_from(params.html_body.as_str()),
                    },
                )
            } else {
                None
            };
            PostPlan::Media { url: string_from(u.as_str()), caption, text_fallback: text }
        },
        None => if text {
            PostPlan::Text
        } else {
            PostPlan::Nothing
        },
    }
}

} // verus!
