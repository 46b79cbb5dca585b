//! Typed content returned by the catalog endpoints, the mathematical view of
//! each shape, and the URL-rewriting pass that makes every embedded media URL
//! absolute before a value reaches a caller.

use vstd::prelude::*;

use crate::uri::{correct_uri, spec_correct_uri};

verus! {

/// One selectable rendition of a thumbnail image.
#[derive(Debug)]
pub struct Thumbnail {
    pub quality: Option<String>,
    pub uri: String,
    pub width: u32,
    pub height: u32,
}

/// A video summary as list endpoints return it.
#[derive(Debug)]
pub struct Video {
    pub title: String,
    pub id: String,
    pub views: u64,
    pub length: u32,
    pub thumbnails: Vec<Thumbnail>,
    pub author: String,
    pub author_id: String,
    pub published: String,
}

/// A playlist summary.
#[derive(Debug, Clone)]
pub struct Playlist {
    pub title: String,
    pub id: String,
    pub author: String,
    pub author_id: String,
    pub video_count: u64,
    pub thumbnail: String,
}

/// A channel summary.
#[derive(Debug, Clone)]
pub struct Channel {
    pub title: String,
    pub id: String,
    pub thumbnails: Vec<Thumbnail>,
    pub subscribers: u64,
}

/// The tagged union over the three summary shapes, discriminated on the wire
/// by the `type` field.
#[derive(Debug, Clone)]
pub enum Content {
    Video(Video),
    Playlist(Playlist),
    Channel(Channel),
}

/// One downloadable media rendition of a video.
#[derive(Debug, Clone)]
pub struct FormatStream {
    pub uri: String,
    pub quality: String,
    pub fps: u32,
    pub resolution: String,
    pub size: String,
}

/// One subtitle track of a video.
#[derive(Debug, Clone)]
pub struct Caption {
    pub label: String,
    pub language_code: String,
    pub uri: String,
}

/// The detail shape of a single video, with its recommended list embedded.
#[derive(Debug, Clone)]
pub struct DetailedVideo {
    pub title: String,
    pub id: String,
    pub description: String,
    pub description_html: String,
    pub published: String,
    pub length: u32,
    pub author: String,
    pub author_id: String,
    pub views: u64,
    pub likes: u32,
    pub dislikes: u32,
    pub subscribers: String,
    pub thumbnails: Vec<Thumbnail>,
    pub author_thumbnails: Vec<Thumbnail>,
    pub format_streams: Vec<FormatStream>,
    pub captions: Vec<Caption>,
    pub recommended: Vec<Video>,
}

/// The detail shape of a single channel, with related channels and recent
/// uploads embedded.
#[derive(Debug, Clone)]
pub struct DetailedChannel {
    pub title: String,
    pub id: String,
    pub thumbnails: Vec<Thumbnail>,
    pub banners: Vec<Thumbnail>,
    pub subscribers: u64,
    pub total_views: u128,
    pub description: String,
    pub description_html: String,
    pub verified: bool,
    pub videos: Vec<Video>,
    pub related_channels: Vec<Channel>,
}

/// The detail shape of a single playlist, with its member videos embedded.
#[derive(Debug, Clone)]
pub struct DetailedPlaylist {
    pub title: String,
    pub id: String,
    pub author: String,
    pub author_id: String,
    pub video_count: u64,
    pub thumbnail: String,
    pub videos: Vec<Video>,
}

// ---------------------------------------------------------------------------
// Mathematical views
// ---------------------------------------------------------------------------
/// View of [`Thumbnail`].
pub struct ThumbnailV {
    pub quality: Option<Seq<char>>,
    pub uri: Seq<char>,
    pub width: u32,
    pub height: u32,
}

/// View of [`Video`].
pub struct VideoV {
    pub title: Seq<char>,
    pub id: Seq<char>,
    pub views: u64,
    pub length: u32,
    pub thumbnails: Seq<ThumbnailV>,
    pub author: Seq<char>,
    pub author_id: Seq<char>,
    pub published: Seq<char>,
}

/// View of [`Playlist`].
pub struct PlaylistV {
    pub title: Seq<char>,
    pub id: Seq<char>,
    pub author: Seq<char>,
    pub author_id: Seq<char>,
    pub video_count: u64,
    pub thumbnail: Seq<char>,
}

/// View of [`Channel`].
pub struct ChannelV {
    pub title: Seq<char>,
    pub id: Seq<char>,
    pub thumbnails: Seq<ThumbnailV>,
    pub subscribers: u64,
}

/// View of [`Content`].
pub enum ContentV {
    Video(VideoV),
    Playlist(PlaylistV),
    Channel(ChannelV),
}

/// View of [`FormatStream`].
pub struct FormatStreamV {
    pub uri: Seq<char>,
    pub quality: Seq<char>,
    pub fps: u32,
    pub resolution: Seq<char>,
    pub size: Seq<char>,
}

/// View of [`Caption`].
pub struct CaptionV {
    pub label: Seq<char>,
    pub language_code: Seq<char>,
    pub uri: Seq<char>,
}

/// View of [`DetailedVideo`].
pub struct DetailedVideoV {
    pub title: Seq<char>,
    pub id: Seq<char>,
    pub description: Seq<char>,
    pub description_html: Seq<char>,
    pub published: Seq<char>,
    pub length: u32,
    pub author: Seq<char>,
    pub author_id: Seq<char>,
    pub views: u64,
    pub likes: u32,
    pub dislikes: u32,
    pub subscribers: Seq<char>,
    pub thumbnails: Seq<ThumbnailV>,
    pub author_thumbnails: Seq<ThumbnailV>,
    pub format_streams: Seq<FormatStreamV>,
    pub captions: Seq<CaptionV>,
    pub recommended: Seq<VideoV>,
}

/// View of [`DetailedChannel`].
pub struct DetailedChannelV {
    pub title: Seq<char>,
    pub id: Seq<char>,
    pub thumbnails: Seq<ThumbnailV>,
    pub banners: Seq<ThumbnailV>,
    pub subscribers: u64,
    pub total_views: u128,
    pub description: Seq<char>,
    pub description_html: Seq<char>,
    pub verified: bool,
    pub videos: Seq<VideoV>,
    pub related_channels: Seq<ChannelV>,
}

/// View of [`DetailedPlaylist`].
pub struct DetailedPlaylistV {
    pub title: Seq<char>,
    pub id: Seq<char>,
    pub author: Seq<char>,
    pub author_id: Seq<char>,
    pub video_count: u64,
    pub thumbnail: Seq<char>,
    pub videos: Seq<VideoV>,
}

impl DeepView for Thumbnail {
    type V = ThumbnailV;

    open spec fn deep_view(&self) -> ThumbnailV {
        ThumbnailV {
            quality: self.quality.deep_view(),
            uri: self.uri@,
            width: self.width,
            height: self.height,
        }
    }
}

impl DeepView for Video {
    type V = VideoV;

    open spec fn deep_view(&self) -> VideoV {
        VideoV {
            title: self.title@,
            id: self.id@,
            views: self.views,
            length: self.length,
            thumbnails: self.thumbnails.deep_view(),
            author: self.author@,
            author_id: self.author_id@,
            published: self.published@,
        }
    }
}

impl DeepView for Playlist {
    type V = PlaylistV;

    open spec fn deep_view(&self) -> PlaylistV {
        PlaylistV {
            title: self.title@,
            id: self.id@,
            author: self.author@,
            author_id: self.author_id@,
            video_count: self.video_count,
            thumbnail: self.thumbnail@,
        }
    }
}

impl DeepView for Channel {
    type V = ChannelV;

    open spec fn deep_view(&self) -> ChannelV {
        ChannelV {
            title: self.title@,
            id: self.id@,
            thumbnails: self.thumbnails.deep_view(),
            subscribers: self.subscribers,
        }
    }
}

impl DeepView for Content {
    type V = ContentV;

    open spec fn deep_view(&self) -> ContentV {
        match self {
            Content::Video(v) => ContentV::Video(v.deep_view()),
            Content::Playlist(p) => ContentV::Playlist(p.deep_view()),
            Content::Channel(c) => ContentV::Channel(c.deep_view()),
        }
    }
}

impl DeepView for FormatStream {
    type V = FormatStreamV;

    open spec fn deep_view(&self) -> FormatStreamV {
        FormatStreamV {
            uri: self.uri@,
            quality: self.quality@,
            fps: self.fps,
            resolution: self.resolution@,
            size: self.size@,
        }
    }
}

impl DeepView for Caption {
    type V = CaptionV;

    open spec fn deep_view(&self) -> CaptionV {
        CaptionV { label: self.label@, language_code: self.language_code@, uri: self.uri@ }
    }
}

impl DeepView for DetailedVideo {
    type V = DetailedVideoV;

    open spec fn deep_view(&self) -> DetailedVideoV {
        DetailedVideoV {
            title: self.title@,
            id: self.id@,
            description: self.description@,
            description_html: self.description_html@,
            published: self.published@,
            length: self.length,
            author: self.author@,
            author_id: self.author_id@,
            views: self.views,
            likes: self.likes,
            dislikes: self.dislikes,
            subscribers: self.subscribers@,
            thumbnails: self.thumbnails.deep_view(),
            author_thumbnails: self.author_thumbnails.deep_view(),
            format_streams: self.format_streams.deep_view(),
            captions: self.captions.deep_view(),
            recommended: self.recommended.deep_view(),
        }
    }
}

impl DeepView for DetailedChannel {
    type V = DetailedChannelV;

    open spec fn deep_view(&self) -> DetailedChannelV {
        DetailedChannelV {
            title: self.title@,
            id: self.id@,
            thumbnails: self.thumbnails.deep_view(),
            banners: self.banners.deep_view(),
            subscribers: self.subscribers,
            total_views: self.total_views,
            description: self.description@,
            description_html: self.description_html@,
            verified: self.verified,
            videos: self.videos.deep_view(),
            related_channels: self.related_channels.deep_view(),
        }
    }
}

impl DeepView for DetailedPlaylist {
    type V = DetailedPlaylistV;

    open spec fn deep_view(&self) -> DetailedPlaylistV {
        DetailedPlaylistV {
            title: self.title@,
            id: self.id@,
            author: self.author@,
            author_id: self.author_id@,
            video_count: self.video_count,
            thumbnail: self.thumbnail@,
            videos: self.videos.deep_view(),
        }
    }
}

// ---------------------------------------------------------------------------
// The URL-rewriting pass
// ---------------------------------------------------------------------------
/// One thumbnail after rewriting.
pub open spec fn spec_rewrite_thumbnail(base: Seq<char>, t: ThumbnailV) -> ThumbnailV {
    ThumbnailV { uri: spec_correct_uri(base, t.uri), ..t }
}

/// A thumbnail list after rewriting.
pub open spec fn spec_rewrite_thumbnails(base: Seq<char>, ts: Seq<ThumbnailV>) -> Seq<ThumbnailV> {
    ts.map_values(|t: ThumbnailV| spec_rewrite_thumbnail(base, t))
}

/// A video summary after rewriting: only its thumbnails carry URLs.
pub open spec fn spec_rewrite_video(base: Seq<char>, v: VideoV) -> VideoV {
    VideoV { thumbnails: spec_rewrite_thumbnails(base, v.thumbnails), ..v }
}

/// A video list after rewriting.
pub open spec fn spec_rewrite_videos(base: Seq<char>, vs: Seq<VideoV>) -> Seq<VideoV> {
    vs.map_values(|v: VideoV| spec_rewrite_video(base, v))
}

/// A playlist summary after rewriting: only its one thumbnail URL.
pub open spec fn spec_rewrite_playlist(base: Seq<char>, p: PlaylistV) -> PlaylistV {
    PlaylistV { thumbnail: spec_correct_uri(base, p.thumbnail), ..p }
}

/// A channel summary after rewriting: only its thumbnails.
pub open spec fn spec_rewrite_channel(base: Seq<char>, c: ChannelV) -> ChannelV {
    ChannelV { thumbnails: spec_rewrite_thumbnails(base, c.thumbnails), ..c }
}

/// A channel list after rewriting.
pub open spec fn spec_rewrite_channels(base: Seq<char>, cs: Seq<ChannelV>) -> Seq<ChannelV> {
    cs.map_values(|c: ChannelV| spec_rewrite_channel(base, c))
}

/// One content item after rewriting, by its variant.
pub open spec fn spec_rewrite_content(base: Seq<char>, c: ContentV) -> ContentV {
    match c {
        ContentV::Video(v) => ContentV::Video(spec_rewrite_video(base, v)),
        ContentV::Playlist(p) => ContentV::Playlist(spec_rewrite_playlist(base, p)),
        ContentV::Channel(ch) => ContentV::Channel(spec_rewrite_channel(base, ch)),
    }
}

/// A content list after rewriting.
pub open spec fn spec_rewrite_contents(base: Seq<char>, cs: Seq<ContentV>) -> Seq<ContentV> {
    cs.map_values(|c: ContentV| spec_rewrite_content(base, c))
}

/// A detailed video after rewriting: its own thumbnails and every recommended
/// video.
pub open spec fn spec_rewrite_detailed_video(base: Seq<char>, v: DetailedVideoV) -> DetailedVideoV {
    DetailedVideoV {
        thumbnails: spec_rewrite_thumbnails(base, v.thumbnails),
        recommended: spec_rewrite_videos(base, v.recommended),
        ..v
    }
}

/// A detailed channel after rewriting: thumbnails, banners, related channels
/// and recent videos.
pub open spec fn spec_rewrite_detailed_channel(
    base: Seq<char>,
    c: DetailedChannelV,
) -> DetailedChannelV {
    DetailedChannelV {
        thumbnails: spec_rewrite_thumbnails(base, c.thumbnails),
        banners: spec_rewrite_thumbnails(base, c.banners),
        videos: spec_rewrite_videos(base, c.videos),
        related_channels: spec_rewrite_channels(base, c.related_channels),
        ..c
    }
}

/// A detailed playlist after rewriting: its thumbnail and every member video.
pub open spec fn spec_rewrite_detailed_playlist(
    base: Seq<char>,
    p: DetailedPlaylistV,
) -> DetailedPlaylistV {
    DetailedPlaylistV {
        thumbnail: spec_correct_uri(base, p.thumbnail),
        videos: spec_rewrite_videos(base, p.videos),
        ..p
    }
}

fn correct_thumbnails(base: &str, ts: &mut Vec<Thumbnail>)
    ensures
        final(ts).deep_view() == spec_rewrite_thumbnails(base@, old(ts).deep_view()),
{
    let n = ts.len();
    let mut i: usize = 0;
    while i < n
        invariant
            i <= n,
            n == ts@.len(),
            ts@.len() == old(ts)@.len(),
            forall|k: int|
                0 <= k < i ==> ts@[k].deep_view() == spec_rewrite_thumbnail(
                    base@,
                    old(ts)@[k].deep_view(),
                ),
            forall|k: int| i <= k < n ==> ts@[k] == old(ts)@[k],
        decreases n - i,
    {
        let t = &mut ts[i];
        t.correct_uri(base);
        i += 1;
    }
    proof {
        assert(ts.deep_view() =~= spec_rewrite_thumbnails(base@, old(ts).deep_view()));
    }
}

fn correct_videos(base: &str, vs: &mut Vec<Video>)
    ensures
        final(vs).deep_view() == spec_rewrite_videos(base@, old(vs).deep_view()),
{
    let n = vs.len();
    let mut i: usize = 0;
    while i < n
        invariant
            i <= n,
            n == vs@.len(),
            vs@.len() == old(vs)@.len(),
            forall|k: int|
                0 <= k < i ==> vs@[k].deep_view() == spec_rewrite_video(
                    base@,
                    old(vs)@[k].deep_view(),
                ),
            forall|k: int| i <= k < n ==> vs@[k] == old(vs)@[k],
        decreases n - i,
    {
        let v = &mut vs[i];
        v.correct_uri(base);
        i += 1;
    }
    proof {
        assert(vs.deep_view() =~= spec_rewrite_videos(base@, old(vs).deep_view()));
    }
}

fn correct_channels(base: &str, cs: &mut Vec<Channel>)
    ensures
        final(cs).deep_view() == spec_rewrite_channels(base@, old(cs).deep_view()),
{
    let n = cs.len();
    let mut i: usize = 0;
    while i < n
        invariant
            i <= n,
            n == cs@.len(),
            cs@.len() == old(cs)@.len(),
            forall|k: int|
                0 <= k < i ==> cs@[k].deep_view() == spec_rewrite_channel(
                    base@,
                    old(cs)@[k].deep_view(),
                ),
            forall|k: int| i <= k < n ==> cs@[k] == old(cs)@[k],
        decreases n - i,
    {
        let c = &mut cs[i];
        c.correct_uri(base);
        i += 1;
    }
    proof {
        assert(cs.deep_view() =~= spec_rewrite_channels(base@, old(cs).deep_view()));
    }
}

/// Makes every embedded URL of each item in the list absolute.
pub fn correct_contents(base: &str, cs: &mut Vec<Content>)
    ensures
        final(cs).deep_view() == spec_rewrite_contents(base@, old(cs).deep_view()),
{
    let n = cs.len();
    let mut i: usize = 0;
    while i < n
        invariant
            i <= n,
            n == cs@.len(),
            cs@.len() == old(cs)@.len(),
            forall|k: int|
                0 <= k < i ==> cs@[k].deep_view() == spec_rewrite_content(
                    base@,
                    old(cs)@[k].deep_view(),
                ),
            forall|k: int| i <= k < n ==> cs@[k] == old(cs)@[k],
        decreases n - i,
    {
        let c = &mut cs[i];
        c.correct_uri(base);
        i += 1;
    }
    proof {
        assert(cs.deep_view() =~= spec_rewrite_contents(base@, old(cs).deep_view()));
    }
}

impl Clone for Thumbnail {
    /// A clone carries the same view.
    fn clone(&self) -> (r: Self)
        ensures
            r.deep_view() == self.deep_view(),
    {
        Thumbnail {
            quality: match &self.quality {
                Some(q) => Some(q.clone()),
                None => None,
            },
            uri: self.uri.clone(),
            width: self.width,
            height: self.height,
        }
    }
}

fn clone_thumbnails(ts: &Vec<Thumbnail>) -> (r: Vec<Thumbnail>)
    ensures
        r.deep_view() == ts.deep_view(),
{
    let mut out: Vec<Thumbnail> = Vec::new();
    let n = ts.len();
    let mut i: usize = 0;
    while i < n
        invariant
            i <= n,
            n == ts@.len(),
            out@.len() == i,
            forall|k: int| 0 <= k < i ==> out@[k].deep_view() == ts@[k].deep_view(),
        decreases n - i,
    {
        out.push(ts[i].clone());
        i += 1;
    }
    proof {
        assert(out.deep_view() =~= ts.deep_view());
    }
    out
}

impl Clone for Video {
    /// A clone carries the same view.
    fn clone(&self) -> (r: Self)
        ensures
            r.deep_view() == self.deep_view(),
    {
        Video {
            title: self.title.clone(),
            id: self.id.clone(),
            views: self.views,
            length: self.length,
            thumbnails: clone_thumbnails(&self.thumbnails),
            author: self.author.clone(),
            author_id: self.author_id.clone(),
            published: self.published.clone(),
        }
    }
}

/// Each video summary wrapped as a content item.
pub open spec fn spec_contents_of_videos(vs: Seq<VideoV>) -> Seq<ContentV> {
    vs.map_values(|v: VideoV| ContentV::Video(v))
}

/// Wraps each video summary of a feed page as a content item.
pub fn contents_of_videos(vs: &Vec<Video>) -> (r: Vec<Content>)
    ensures
        r.deep_view() == spec_contents_of_videos(vs.deep_view()),
{
    let mut out: Vec<Content> = Vec::new();
    let n = vs.len();
    let mut i: usize = 0;
    while i < n
        invariant
            i <= n,
            n == vs@.len(),
            out@.len() == i,
            forall|k: int|
                0 <= k < i ==> out@[k].deep_view() == ContentV::Video(vs@[k].deep_view()),
        decreases n - i,
    {
        out.push(Content::Video(vs[i].clone()));
        i += 1;
    }
    proof {
        assert(out.deep_view() =~= spec_contents_of_videos(vs.deep_view()));
    }
    out
}

impl Thumbnail {
    /// Makes this thumbnail's URL absolute against the instance base.
    pub fn correct_uri(&mut self, base: &str)
        ensures
            final(self).deep_view() == spec_rewrite_thumbnail(base@, old(self).deep_view()),
    {
        let u = correct_uri(base, self.uri.as_str());
        self.uri = u;
    }
}

impl Video {
    /// Makes every thumbnail URL of this video absolute.
    pub fn correct_uri(&mut self, base: &str)
        ensures
            final(self).deep_view() == spec_rewrite_video(base@, old(self).deep_view()),
    {
        correct_thumbnails(base, &mut self.thumbnails);
    }
}

impl Playlist {
    /// Makes this playlist's thumbnail URL absolute.
    pub fn correct_uri(&mut self, base: &str)
        ensures
            final(self).deep_view() == spec_rewrite_playlist(base@, old(self).deep_view()),
    {
        let u = correct_uri(base, self.thumbnail.as_str());
        self.thumbnail = u;
    }
}

impl Channel {
    /// Makes every thumbnail URL of this channel absolute.
    pub fn correct_uri(&mut self, base: &str)
        ensures
            final(self).deep_view() == spec_rewrite_channel(base@, old(self).deep_view()),
    {
        correct_thumbnails(base, &mut self.thumbnails);
    }
}

impl Content {
    /// Makes every embedded URL of this item absolute, by its variant.
    pub fn correct_uri(&mut self, base: &str)
        ensures
            final(self).deep_view() == spec_rewrite_content(base@, old(self).deep_view()),
    {
        match self {
            Content::Video(v) => v.correct_uri(base),
            Content::Playlist(p) => p.correct_uri(base),
            Content::Channel(c) => c.correct_uri(base),
        }
    }
}

impl DetailedVideo {
    /// Makes this video's own thumbnails and its recommended list absolute.
    pub fn correct_uri(&mut self, base: &str)
        ensures
            final(self).deep_view() == spec_rewrite_detailed_video(base@, old(self).deep_view()),
    {
        correct_thumbnails(base, &mut self.thumbnails);
        correct_videos(base, &mut self.recommended);
    }
}

impl DetailedChannel {
    /// Makes this channel's thumbnails, banners, related channels and recent
    /// videos absolute.
    pub fn correct_uri(&mut self, base: &str)
        ensures
            final(self).deep_view() == spec_rewrite_detailed_channel(base@, old(self).deep_view()),
    {
        correct_thumbnails(base, &mut self.thumbnails);
        correct_thumbnails(base, &mut self.banners);
        correct_videos(base, &mut self.videos);
        correct_channels(base, &mut self.related_channels);
    }
}

impl DetailedPlaylist {
    /// Makes this playlist's thumbnail and its member videos absolute.
    pub fn correct_uri(&mut self, base: &str)
        ensures
            final(self).deep_view() == spec_rewrite_detailed_playlist(base@, old(self).deep_view()),
    {
        let u = correct_uri(base, self.thumbnail.as_str());
        self.thumbnail = u;
        correct_videos(base, &mut self.videos);
    }
}

} // verus!
