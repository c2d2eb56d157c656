//! The attachment assembler: from downloaded bytes to an attachment record,
//! through container normalization, probing, thumbnailing and placeholder
//! encoding, each of which may fail without failing the whole.
//!
//! The tools run outside the library: the caller asks `next_action` what to
//! run, runs it, and hands the outcome back to `advance`.
use crate::media::MediaInfo;
use crate::placeholder::{generate_blurhash, placeholder_of};
use crate::resolve::{find_from, index_of, opt_view, resolve_filename, resolve_mime_type, resolved_filename, resolved_mime};
use crate::text::{eq_ignore_ascii_case, equals_ignore_ascii_case};
use vstd::prelude::*;

verus! {

/// Width of the thumbnail frame, in pixels.
pub const THUMBNAIL_WIDTH: u32 = 600;

#[derive(Debug, Clone, Copy, PartialEq, Eq, Structural)]
pub enum Phase {
    /// Waiting for the container to be remuxed.
    Normalize,
    /// Waiting for the media's dimensions.
    Probe,
    /// Waiting for a thumbnail frame.
    Thumbnail,
    /// Waiting for the thumbnail's dimensions.
    ThumbnailProbe,
    /// Nothing more to run.
    Done,
}

/// What the caller runs next.
#[derive(Debug, Clone, Copy, PartialEq, Eq, Structural)]
pub enum Action {
    /// Remux the current data into MP4.
    Remux,
    /// Probe the current data.
    Probe,
    /// Render a thumbnail of the current data, this many pixels wide.
    Thumbnail(u32),
    /// Probe the thumbnail.
    ProbeThumbnail,
    /// Call `finish`.
    Finish,
}

/// The outcome of one action; `None` when it failed.
pub enum Event {
    Remuxed(Option<Vec<u8>>),
    Probed(Option<MediaInfo>),
    Thumbnailed(Option<Vec<u8>>),
    ThumbnailProbed(Option<MediaInfo>),
}

pub enum EventView {
    Remuxed(Option<Seq<u8>>),
    Probed(Option<MediaInfo>),
    Thumbnailed(Option<Seq<u8>>),
    ThumbnailProbed(Option<MediaInfo>),
}

impl View for Event {
    type V = EventView;

    open spec fn view(&self) -> EventView {
        match self {
            Event::Remuxed(Some(b)) => EventView::Remuxed(Some(b@)),
            Event::Remuxed(None) => EventView::Remuxed(None),
            Event::Probed(i) => EventView::Probed(*i),
            Event::Thumbnailed(Some(b)) => EventView::Thumbnailed(Some(b@)),
            Event::Thumbnailed(None) => EventView::Thumbnailed(None),
            Event::ThumbnailProbed(i) => EventView::ThumbnailProbed(*i),
        }
    }
}

/// What the download handed over.
pub struct Download {
    /// The content type header, if it was readable text.
    pub content_type: Option<String>,
    /// The content disposition header, if it was readable text.
    pub content_disposition: Option<String>,
    /// The path of the final URL, after redirects.
    pub url_path: String,
    pub data: Vec<u8>,
}

/// A caption in plain and in HTML form.
pub struct Caption {
    pub body: String,
    pub html_body: String,
}

pub struct Thumbnail {
    pub data: Vec<u8>,
    pub mime_type: String,
    pub width: u32,
    pub height: u32,
}

pub struct ThumbnailView {
    pub data: Seq<u8>,
    pub mime_type: Seq<char>,
    pub width: u32,
    pub height: u32,
}

#[derive(Debug, Clone, Copy, PartialEq, Eq, Structural)]
pub enum MediaKind {
    Image,
    Video,
    Audio,
    Other,
}

/// The finished attachment record.
pub struct AttachmentResult {
    pub filename: String,
    pub mime_type: String,
    pub data: Vec<u8>,
    pub kind: MediaKind,
    pub width: Option<u32>,
    pub height: Option<u32>,
    pub placeholder: Option<String>,
    pub thumbnail: Option<Thumbnail>,
    /// The media was probed successfully.
    pub probed: bool,
    pub caption: Option<Caption>,
}

pub struct AttachmentView {
    pub filename: Seq<char>,
    pub mime_type: Seq<char>,
    pub data: Seq<u8>,
    pub kind: MediaKind,
    pub width: Option<u32>,
    pub height: Option<u32>,
    pub placeholder: Option<Seq<char>>,
    pub thumbnail: Option<ThumbnailView>,
    pub probed: bool,
    pub caption: Option<(Seq<char>, Seq<char>)>,
}

/// A caption as its plain and HTML text.
pub open spec fn caption_view(c: Option<Caption>) -> Option<(Seq<char>, Seq<char>)> {
    match c {
        Some(c) => Some((c.body@, c.html_body@)),
        None => None,
    }
}

pub open spec fn thumbnail_view(t: Option<Thumbnail>) -> Option<ThumbnailView> {
    match t {
        Some(t) => Some(
            ThumbnailView { data: t.data@, mime_type: t.mime_type@, width: t.width, height: t.height },
        ),
        None => None,
    }
}

pub open spec fn string_view(s: Option<String>) -> Option<Seq<char>> {
    match s {
        Some(s) => Some(s@),
        None => None,
    }
}

impl View for AttachmentResult {
    type V = AttachmentView;

    open spec fn view(&self) -> AttachmentView {
        AttachmentView {
            filename: self.filename@,
            mime_type: self.mime_type@,
            data: self.data@,
            kind: self.kind,
            width: self.width,
            height: self.height,
            placeholder: string_view(self.placeholder),
            thumbnail: thumbnail_view(self.thumbnail),
            probed: self.probed,
            caption: caption_view(self.caption),
        }
    }
}

/// An attachment on its way.
pub struct Assembly {
    phase: Phase,
    budget: u64,
    mime_type: String,
    data: Vec<u8>,
    content_disposition: Option<String>,
    url_path: String,
    dimensions: Option<MediaInfo>,
    thumbnail_data: Option<Vec<u8>>,
    placeholder: Option<String>,
    thumbnail: Option<Thumbnail>,
    caption: Option<Caption>,
}

pub struct AssemblyView {
    pub phase: Phase,
    pub budget: nat,
    pub mime_type: Seq<char>,
    pub data: Seq<u8>,
    pub content_disposition: Option<Seq<char>>,
    pub url_path: Seq<char>,
    pub dimensions: Option<MediaInfo>,
    pub thumbnail_data: Option<Seq<u8>>,
    pub placeholder: Option<Seq<char>>,
    pub thumbnail: Option<ThumbnailView>,
    pub caption: Option<(Seq<char>, Seq<char>)>,
}

impl View for Assembly {
    type V = AssemblyView;

    closed spec fn view(&self) -> AssemblyView {
        AssemblyView {
            phase: self.phase,
            budget: self.budget as nat,
            mime_type: self.mime_type@,
            data: self.data@,
            content_disposition: string_view(self.content_disposition),
            url_path: self.url_path@,
            dimensions: self.dimensions,
            thumbnail_data: match self.thumbnail_data {
                Some(d) => Some(d@),
                None => None,
            },
            placeholder: string_view(self.placeholder),
            thumbnail: thumbnail_view(self.thumbnail),
            caption: caption_view(self.caption),
        }
    }
}

/// The container that gets remuxed for the sake of strict viewers.
pub open spec fn is_matroska(mime: Seq<char>) -> bool {
    eq_ignore_ascii_case(mime, "video/x-matroska"@)
}

/// The top-level type of a MIME type, compared without regard to ASCII case.
pub open spec fn kind_of(mime: Seq<char>) -> MediaKind {
    let top = mime.subrange(0, index_of(mime, '/'));
    if eq_ignore_ascii_case(top, "image"@) {
        MediaKind::Image
    } else if eq_ignore_ascii_case(top, "video"@) {
        MediaKind::Video
    } else if eq_ignore_ascii_case(top, "audio"@) {
        MediaKind::Audio
    } else {
        MediaKind::Other
    }
}

/// What each stage holds: nothing is learned about the media before it is
/// probed, a thumbnail is rendered only after a successful probe, and the data
/// never outgrows the budget.
pub open spec fn well_formed(a: AssemblyView) -> bool {
    &&& a.data.len() <= a.budget
    &&& (a.thumbnail matches Some(t) ==> t.width > 0 && t.height > 0 && a.dimensions is Some)
    &&& (a.placeholder is Some ==> a.dimensions is Some)
    &&& match a.phase {
        Phase::Normalize | Phase::Probe => a.dimensions is None && a.thumbnail_data is None
            && a.placeholder is None && a.thumbnail is None,
        Phase::Thumbnail => a.dimensions is Some && a.thumbnail_data is None && a.placeholder is None
            && a.thumbnail is None,
        Phase::ThumbnailProbe => a.dimensions is Some && a.thumbnail_data is Some && a.thumbnail is None,
        Phase::Done => true,
    }
}

pub open spec fn action_for(phase: Phase) -> Action {
    match phase {
        Phase::Normalize => Action::Remux,
        Phase::Probe => Action::Probe,
        Phase::Thumbnail => Action::Thumbnail(THUMBNAIL_WIDTH),
        Phase::ThumbnailProbe => Action::ProbeThumbnail,
        Phase::Done => Action::Finish,
    }
}

/// The state after `e`; an outcome that does not answer the current phase
/// changes nothing.
pub open spec fn next(a: AssemblyView, e: EventView) -> AssemblyView {
    match (a.phase, e) {
        (Phase::Normalize, EventView::Remuxed(Some(b))) => if b.len() <= a.budget {
            AssemblyView { phase: Phase::Probe, mime_type: "video/mp4"@, data: b, ..a }
        } else {
            AssemblyView { phase: Phase::Probe, ..a }
        },
        (Phase::Normalize, EventView::Remuxed(None)) => AssemblyView { phase: Phase::Probe, ..a },
        (Phase::Probe, EventView::Probed(Some(info))) => AssemblyView {
            phase: Phase::Thumbnail,
            dimensions: Some(info),
            ..a
        },
        (Phase::Probe, EventView::Probed(None)) => AssemblyView { phase: Phase::Done, ..a },
        (Phase::Thumbnail, EventView::Thumbnailed(Some(t))) => AssemblyView {
            phase: Phase::ThumbnailProbe,
            thumbnail_data: Some(t),
            placeholder: match placeholder_of(t) {
                Ok(p) => Some(p),
                Err(_) => None,
            },
            ..a
        },
        (Phase::Thumbnail, EventView::Thumbnailed(None)) => AssemblyView { phase: Phase::Done, ..a },
        (Phase::ThumbnailProbe, EventView::ThumbnailProbed(Some(info))) => if info.width > 0
            && info.height > 0 && a.thumbnail_data is Some {
            AssemblyView {
                phase: Phase::Done,
                thumbnail_data: None,
                thumbnail: Some(
                    ThumbnailView {
                        data: a.thumbnail_data.unwrap(),
                        mime_type: "image/jpeg"@,
                        width: info.width,
                        height: info.height,
                    },
                ),
                ..a
            }
        } else {
            AssemblyView { phase: Phase::Done, ..a }
        },
        (Phase::ThumbnailProbe, EventView::ThumbnailProbed(None)) => AssemblyView {
            phase: Phase::Done,
            ..a
        },
        _ => a,
    }
}

/// The record made of an assembly: named last, so that the name sees the final
/// type; dimensions and placeholder are recorded for images and videos; the
/// caption is carried over.
pub open spec fn finished(a: AssemblyView) -> AttachmentView {
    let kind = kind_of(a.mime_type);
    let shown = (kind == MediaKind::Image || kind == MediaKind::Video) && a.dimensions is Some;
    AttachmentView {
        filename: resolved_filename(a.mime_type, a.content_disposition, a.url_path),
        mime_type: a.mime_type,
        data: a.data,
        kind,
        width: if shown {
            Some(a.dimensions.unwrap().width)
        } else {
            None
        },
        height: if shown {
            Some(a.dimensions.unwrap().height)
        } else {
            None
        },
        placeholder: if shown {
            a.placeholder
        } else {
            None
        },
        thumbnail: a.thumbnail,
        probed: a.dimensions is Some,
        caption: a.caption,
    }
}

fn kind_of_mime(mime: &str) -> (r: MediaKind)
    ensures
        r == kind_of(mime@),
{
    let k = find_from(mime, 0, '/');
    assert(mime@.subrange(0, mime@.len() as int) =~= mime@);
    let top = mime.substring_char(0, k);
    if equals_ignore_ascii_case(top, "image") {
        MediaKind::Image
    } else if equals_ignore_ascii_case(top, "video") {
        MediaKind::Video
    } else if equals_ignore_ascii_case(top, "audio") {
        MediaKind::Audio
    } else {
        MediaKind::Other
    }
}

fn opt_str(s: &Option<String>) -> (r: Option<&str>)
    ensures
        opt_view(r) == string_view(*s),
{
    match s {
        Some(s) => Some(s.as_str()),
        None => None,
    }
}

impl Assembly {
    /// Resolves the type of downloaded data (the first two, mandatory, stages)
    /// and sets out the optional ones: a Matroska container is remuxed first.
    pub fn start(download: Download, budget: u64, caption: Option<Caption>) -> (r: Assembly)
        requires
            download.data@.len() <= budget,
        ensures
            well_formed(r@),
            r@.mime_type == resolved_mime(
                string_view(download.content_type),
                download.url_path@,
                download.data@,
            ),
            r@.phase == (if is_matroska(r@.mime_type) {
                Phase::Normalize
            } else {
                Phase::Probe
            }),
            r@.budget == budget,
            r@.data == download.data@,
            r@.content_disposition == string_view(download.content_disposition),
            r@.url_path == download.url_path@,
            r@.caption == caption_view(caption),
    {
        let Download { content_type, content_disposition, url_path, data } = download;
        let mime_type = resolve_mime_type(opt_str(&content_type), url_path.as_str(), data.as_slice());
        let phase = if equals_ignore_ascii_case(mime_type.as_str(), "video/x-matroska") {
            Phase::Normalize
        } else {
            Phase::Probe
        };
        Assembly {
            phase,
            budget,
            mime_type,
            data,
            content_disposition,
            url_path,
            dimensions: None,
            thumbnail_data: None,
            placeholder: None,
            thumbnail: None,
            caption,
        }
    }

    pub fn phase(&self) -> (r: Phase)
        ensures
            r == self@.phase,
    {
        self.phase
    }

    /// The bytes the next tool is to read: the media, or in the last probe the thumbnail.
    pub fn input(&self) -> (r: &[u8])
        ensures
            self@.phase == Phase::ThumbnailProbe && self@.thumbnail_data is Some ==> r@
                == self@.thumbnail_data.unwrap(),
            !(self@.phase == Phase::ThumbnailProbe && self@.thumbnail_data is Some) ==> r@
                == self@.data,
    {
        if self.phase == Phase::ThumbnailProbe {
            if let Some(t) = &self.thumbnail_data {
                return t.as_slice();
            }
        }
        self.data.as_slice()
    }

    pub fn mime_type(&self) -> (r: &str)
        ensures
            r@ == self@.mime_type,
    {
        self.mime_type.as_str()
    }

    pub fn next_action(&self) -> (r: Action)
        ensures
            r == action_for(self@.phase),
    {
        match self.phase {
            Phase::Normalize => Action::Remux,
            Phase::Probe => Action::Probe,
            Phase::Thumbnail => Action::Thumbnail(THUMBNAIL_WIDTH),
            Phase::ThumbnailProbe => Action::ProbeThumbnail,
            Phase::Done => Action::Finish,
        }
    }

    /// Takes the outcome of the last action.
    pub fn advance(&mut self, event: Event)
        requires
            well_formed(old(self)@),
        ensures
            final(self)@ == next(old(self)@, event@),
            well_formed(final(self)@),
    {
        match (self.phase, event) {
            (Phase::Normalize, Event::Remuxed(Some(b))) => {
                if b.len() as u64 <= self.budget {
                    self.data = b;
                    self.mime_type = String::from_str("video/mp4");
                }
                self.phase = Phase::Probe;
            },
            (Phase::Normalize, Event::Remuxed(None)) => {
                self.phase = Phase::Probe;
            },
            (Phase::Probe, Event::Probed(Some(info))) => {
                self.dimensions = Some(info);
                self.phase = Phase::Thumbnail;
            },
            (Phase::Probe, Event::Probed(None)) => {
                self.phase = Phase::Done;
            },
            (Phase::Thumbnail, Event::Thumbnailed(Some(t))) => {
                self.placeholder = match generate_blurhash(t.as_slice()) {
                    Ok(p) => Some(p),
                    Err(_) => None,
                };
                self.thumbnail_data = Some(t);
                self.phase = Phase::ThumbnailProbe;
            },
            (Phase::Thumbnail, Event::Thumbnailed(None)) => {
                self.phase = Phase::Done;
            },
            (Phase::ThumbnailProbe, Event::ThumbnailProbed(Some(info))) => {
                if info.width > 0 && info.height > 0 && self.thumbnail_data.is_some() {
                    let data = self.thumbnail_data.take().unwrap();
                    self.thumbnail = Some(
                        Thumbnail {
                            data,
                            mime_type: String::from_str("image/jpeg"),
                            width: info.width,
                            height: info.height,
                        },
                    );
                }
                self.phase = Phase::Done;
            },
            (Phase::ThumbnailProbe, Event::ThumbnailProbed(None)) => {
                self.phase = Phase::Done;
            },
            _ => {},
        }
    }

    /// Names the attachment and hands over the record.
    pub fn finish(self) -> (r: AttachmentResult)
        ensures
            r@ == finished(self@),
    {
        let filename = resolve_filename(
            self.mime_type.as_str(),
            opt_str(&self.content_disposition),
            self.url_path.as_str(),
        );
        let kind = kind_of_mime(self.mime_type.as_str());
        let shown = match kind {
            MediaKind::Image | MediaKind::Video => self.dimensions.is_some(),
            _ => false,
        };
        let probed = self.dimensions.is_some();
        let (width, height, placeholder) = if shown {
            let info = self.dimensions.unwrap();
            (Some(info.width), Some(info.height), self.placeholder)
        } else {
            (None, None, None)
        };
        AttachmentResult {
            filename,
            mime_type: self.mime_type,
            data: self.data,
            kind,
            width,
            height,
            placeholder,
            thumbnail: self.thumbnail,
            probed,
            caption: self.caption,
        }
    }
}

/// When the prober fails, the assembly still completes: it is done, its data
/// and type are kept, and the record carries no dimensions, thumbnail or
/// placeholder.
pub proof fn probe_failure_still_completes(a: AssemblyView)
    requires
        well_formed(a),
        a.phase == Phase::Probe,
    ensures
        next(a, EventView::Probed(None)).phase == Phase::Done,
        finished(next(a, EventView::Probed(None))).data == a.data,
        finished(next(a, EventView::Probed(None))).mime_type == a.mime_type,
        finished(next(a, EventView::Probed(None))).width is None,
        finished(next(a, EventView::Probed(None))).height is None,
        finished(next(a, EventView::Probed(None))).thumbnail is None,
        finished(next(a, EventView::Probed(None))).placeholder is None,
{
}

/// Every record made of a well-formed assembly has dimensions either both or
/// neither, a thumbnail only with positive dimensions of its own, and no more
/// data than the budget.
pub proof fn finished_record_is_consistent(a: AssemblyView)
    requires
        well_formed(a),
    ensures
        finished(a).width is Some <==> finished(a).height is Some,
        finished(a).thumbnail matches Some(t) ==> t.width > 0 && t.height > 0,
        finished(a).data.len() <= a.budget,
        finished(a).mime_type == a.mime_type,
{
}

/// Matroska content whose remux succeeds within the budget becomes MP4: the
/// record carries the remuxed bytes under `video/mp4`, whatever the later
/// stages give.
pub proof fn remuxed_matroska_becomes_mp4(a: AssemblyView, remuxed: Seq<u8>)
    requires
        well_formed(a),
        a.phase == Phase::Normalize,
        remuxed.len() <= a.budget,
    ensures
        next(a, EventView::Remuxed(Some(remuxed))).phase == Phase::Probe,
        next(a, EventView::Remuxed(Some(remuxed))).mime_type == "video/mp4"@,
        next(a, EventView::Remuxed(Some(remuxed))).data == remuxed,
        forall|e: EventView|
            #![trigger next(next(a, EventView::Remuxed(Some(remuxed))), e)]
            next(next(a, EventView::Remuxed(Some(remuxed))), e).mime_type == "video/mp4"@
                && next(next(a, EventView::Remuxed(Some(remuxed))), e).data == remuxed,
        finished(next(a, EventView::Remuxed(Some(remuxed)))).mime_type == "video/mp4"@,
        finished(next(a, EventView::Remuxed(Some(remuxed)))).data == remuxed,
{
}

} // verus!
