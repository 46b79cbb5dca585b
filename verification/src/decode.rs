//! Verified decoding from parsed JSON into the typed content shapes, against
//! the fixed wire vocabulary (`videoId`, `viewCount`, `lengthSeconds`, ...).
//!
//! Every decoder is specified by a spec function from [`Json`] to the
//! mathematical view of the target shape; `None` means the document does not
//! match the shape and the decoder reports `DeserializeError`.

use vstd::prelude::*;

use crate::content::{
    Caption, CaptionV, Channel, ChannelV, Content, ContentV, DetailedChannel, DetailedChannelV,
    DetailedPlaylist, DetailedPlaylistV, DetailedVideo, DetailedVideoV, FormatStream,
    FormatStreamV, Playlist, PlaylistV, Thumbnail, ThumbnailV, Video, VideoV,
};
use crate::error::Error;
use crate::json::{json_obj_get, spec_obj_get, Json};

verus! {

// ---------------------------------------------------------------------------
// Field helpers
// ---------------------------------------------------------------------------
/// A required string field.
pub open spec fn spec_str_field(fs: Seq<(String, Json)>, key: Seq<char>) -> Option<Seq<char>> {
    match spec_obj_get(fs, key) {
        Some(Json::Str(s)) => Some(s@),
        _ => None,
    }
}

/// A string field that falls back to the empty string when missing.
pub open spec fn spec_str_field_or_default(fs: Seq<(String, Json)>, key: Seq<char>) -> Option<
    Seq<char>,
> {
    match spec_obj_get(fs, key) {
        None => Some(Seq::<char>::empty()),
        Some(Json::Str(s)) => Some(s@),
        _ => None,
    }
}

/// An optional string field: missing or null is `None`.
pub open spec fn spec_opt_str_field(fs: Seq<(String, Json)>, key: Seq<char>) -> Option<
    Option<Seq<char>>,
> {
    match spec_obj_get(fs, key) {
        None => Some(None),
        Some(Json::Null) => Some(None),
        Some(Json::Str(s)) => Some(Some(s@)),
        _ => None,
    }
}

/// A required unsigned integer field.
pub open spec fn spec_u64_field(fs: Seq<(String, Json)>, key: Seq<char>) -> Option<u64> {
    match spec_obj_get(fs, key) {
        Some(Json::UInt(u)) => Some(u),
        _ => None,
    }
}

/// An unsigned integer field that falls back to zero when missing.
pub open spec fn spec_u64_field_or_default(fs: Seq<(String, Json)>, key: Seq<char>) -> Option<u64> {
    match spec_obj_get(fs, key) {
        None => Some(0u64),
        Some(Json::UInt(u)) => Some(u),
        _ => None,
    }
}

/// A required unsigned integer field that must fit in 32 bits.
pub open spec fn spec_u32_field(fs: Seq<(String, Json)>, key: Seq<char>) -> Option<u32> {
    match spec_obj_get(fs, key) {
        Some(Json::UInt(u)) => if u <= u32::MAX as u64 {
            Some(u as u32)
        } else {
            None
        },
        _ => None,
    }
}

/// A 32-bit unsigned integer field that falls back to zero when missing.
pub open spec fn spec_u32_field_or_default(fs: Seq<(String, Json)>, key: Seq<char>) -> Option<u32> {
    match spec_obj_get(fs, key) {
        None => Some(0u32),
        Some(Json::UInt(u)) => if u <= u32::MAX as u64 {
            Some(u as u32)
        } else {
            None
        },
        _ => None,
    }
}

/// A required unsigned integer field, widened to 128 bits.
pub open spec fn spec_u128_field(fs: Seq<(String, Json)>, key: Seq<char>) -> Option<u128> {
    match spec_obj_get(fs, key) {
        Some(Json::UInt(u)) => Some(u as u128),
        _ => None,
    }
}

/// A required boolean field.
pub open spec fn spec_bool_field(fs: Seq<(String, Json)>, key: Seq<char>) -> Option<bool> {
    match spec_obj_get(fs, key) {
        Some(Json::Bool(b)) => Some(b),
        _ => None,
    }
}

fn get_str_field(fs: &Vec<(String, Json)>, key: &str) -> (r: Option<String>)
    ensures
        match r {
            Some(s) => spec_str_field(fs@, key@) == Some(s@),
            None => spec_str_field(fs@, key@) is None,
        },
{
    match json_obj_get(fs, key) {
        Some(Json::Str(s)) => Some(s.clone()),
        _ => None,
    }
}

fn get_str_field_or_default(fs: &Vec<(String, Json)>, key: &str) -> (r: Option<String>)
    ensures
        match r {
            Some(s) => spec_str_field_or_default(fs@, key@) == Some(s@),
            None => spec_str_field_or_default(fs@, key@) is None,
        },
{
    match json_obj_get(fs, key) {
        None => Some(String::new()),
        Some(Json::Str(s)) => Some(s.clone()),
        Some(_) => None,
    }
}

fn get_opt_str_field(fs: &Vec<(String, Json)>, key: &str) -> (r: Option<Option<String>>)
    ensures
        match r {
            Some(None) => spec_opt_str_field(fs@, key@) == Some(None::<Seq<char>>),
            Some(Some(s)) => spec_opt_str_field(fs@, key@) == Some(Some(s@)),
            None => spec_opt_str_field(fs@, key@) is None,
        },
{
    match json_obj_get(fs, key) {
        None => Some(None),
        Some(Json::Null) => Some(None),
        Some(Json::Str(s)) => Some(Some(s.clone())),
        Some(_) => None,
    }
}

fn get_u64_field(fs: &Vec<(String, Json)>, key: &str) -> (r: Option<u64>)
    ensures
        match r {
            Some(u) => spec_u64_field(fs@, key@) == Some(u),
            None => spec_u64_field(fs@, key@) is None,
        },
{
    match json_obj_get(fs, key) {
        Some(Json::UInt(u)) => Some(*u),
        _ => None,
    }
}

fn get_u64_field_or_default(fs: &Vec<(String, Json)>, key: &str) -> (r: Option<u64>)
    ensures
        match r {
            Some(u) => spec_u64_field_or_default(fs@, key@) == Some(u),
            None => spec_u64_field_or_default(fs@, key@) is None,
        },
{
    match json_obj_get(fs, key) {
        None => Some(0),
        Some(Json::UInt(u)) => Some(*u),
        Some(_) => None,
    }
}

fn get_u32_field(fs: &Vec<(String, Json)>, key: &str) -> (r: Option<u32>)
    ensures
        match r {
            Some(u) => spec_u32_field(fs@, key@) == Some(u),
            None => spec_u32_field(fs@, key@) is None,
        },
{
    match json_obj_get(fs, key) {
        Some(Json::UInt(u)) => if *u <= u32::MAX as u64 {
            Some(*u as u32)
        } else {
            None
        },
        _ => None,
    }
}

fn get_u32_field_or_default(fs: &Vec<(String, Json)>, key: &str) -> (r: Option<u32>)
    ensures
        match r {
            Some(u) => spec_u32_field_or_default(fs@, key@) == Some(u),
            None => spec_u32_field_or_default(fs@, key@) is None,
        },
{
    match json_obj_get(fs, key) {
        None => Some(0),
        Some(Json::UInt(u)) => if *u <= u32::MAX as u64 {
            Some(*u as u32)
        } else {
            None
        },
        Some(_) => None,
    }
}

fn get_u128_field(fs: &Vec<(String, Json)>, key: &str) -> (r: Option<u128>)
    ensures
        match r {
            Some(u) => spec_u128_field(fs@, key@) == Some(u),
            None => spec_u128_field(fs@, key@) is None,
        },
{
    match json_obj_get(fs, key) {
        Some(Json::UInt(u)) => Some(*u as u128),
        _ => None,
    }
}

fn get_bool_field(fs: &Vec<(String, Json)>, key: &str) -> (r: Option<bool>)
    ensures
        match r {
            Some(b) => spec_bool_field(fs@, key@) == Some(b),
            None => spec_bool_field(fs@, key@) is None,
        },
{
    match json_obj_get(fs, key) {
        Some(Json::Bool(b)) => Some(*b),
        _ => None,
    }
}

// ---------------------------------------------------------------------------
// Decoding sequences of one shape
// ---------------------------------------------------------------------------
/// Decodes every element of `s` with `f`; fails when any element fails.
pub open spec fn spec_decode_seq<T>(s: Seq<Json>, f: spec_fn(Json) -> Option<T>) -> Option<Seq<T>>
    decreases s.len(),
{
    if s.len() == 0 {
        Some(Seq::<T>::empty())
    } else {
        match spec_decode_seq(s.drop_last(), f) {
            Some(init) => match f(s.last()) {
                Some(t) => Some(init.push(t)),
                None => None,
            },
            None => None,
        }
    }
}

/// One failing element makes the whole sequence fail to decode.
pub(crate) proof fn lemma_decode_seq_none<T>(s: Seq<Json>, f: spec_fn(Json) -> Option<T>, i: int)
    requires
        0 <= i < s.len(),
        f(s[i]) is None,
    ensures
        spec_decode_seq(s, f) is None,
    decreases s.len(),
{
    if i == s.len() - 1 {
    } else {
        lemma_decode_seq_none(s.drop_last(), f, i);
    }
}

// ---------------------------------------------------------------------------
// Thumbnails
// ---------------------------------------------------------------------------
/// The thumbnail shape: `{quality?, url, width, height}`.
pub open spec fn spec_thumbnail(j: Json) -> Option<ThumbnailV> {
    match j {
        Json::Obj(fs) => match (
            spec_opt_str_field(fs@, "quality"@),
            spec_str_field(fs@, "url"@),
            spec_u32_field(fs@, "width"@),
            spec_u32_field(fs@, "height"@),
        ) {
            (Some(q), Some(u), Some(w), Some(h)) => Some(
                ThumbnailV { quality: q, uri: u, width: w, height: h },
            ),
            _ => None,
        },
        _ => None,
    }
}

/// A sequence of thumbnails.
pub open spec fn spec_thumbnails(s: Seq<Json>) -> Option<Seq<ThumbnailV>> {
    spec_decode_seq(s, |j: Json| spec_thumbnail(j))
}

/// Decodes one thumbnail object.
pub fn decode_thumbnail(j: &Json) -> (r: Result<Thumbnail, Error>)
    ensures
        match r {
            Ok(t) => spec_thumbnail(*j) == Some(t.deep_view()),
            Err(e) => spec_thumbnail(*j) is None && e == Error::DeserializeError,
        },
{
    match j {
        Json::Obj(fs) => {
            let quality = match get_opt_str_field(fs, "quality") {
                Some(q) => q,
                None => {
                    return Err(Error::DeserializeError);
                },
            };
            let uri = match get_str_field(fs, "url") {
                Some(u) => u,
                None => {
                    return Err(Error::DeserializeError);
                },
            };
            let width = match get_u32_field(fs, "width") {
                Some(w) => w,
                None => {
                    return Err(Error::DeserializeError);
                },
            };
            let height = match get_u32_field(fs, "height") {
                Some(h) => h,
                None => {
                    return Err(Error::DeserializeError);
                },
            };
            Ok(Thumbnail { quality, uri, width, height })
        },
        _ => Err(Error::DeserializeError),
    }
}

/// Decodes an array of thumbnails.
pub fn decode_thumbnails(arr: &Vec<Json>) -> (r: Result<Vec<Thumbnail>, Error>)
    ensures
        match r {
            Ok(ts) => spec_thumbnails(arr@) == Some(ts.deep_view()),
            Err(e) => spec_thumbnails(arr@) is None && e == Error::DeserializeError,
        },
{
    let mut out: Vec<Thumbnail> = Vec::new();
    let n = arr.len();
    let mut i: usize = 0;
    while i < n
        invariant
            i <= n,
            n == arr@.len(),
            spec_thumbnails(arr@.subrange(0, i as int)) == Some(out.deep_view()),
        decreases n - i,
    {
        match decode_thumbnail(&arr[i]) {
            Ok(t) => {
                out.push(t);
            },
            Err(e) => {
                proof {
                    lemma_decode_seq_none(arr@, |j: Json| spec_thumbnail(j), i as int);
                }
                return Err(e);
            },
        }
        proof {
            assert(arr@.subrange(0, i + 1).drop_last() =~= arr@.subrange(0, i as int));
            assert(arr@.subrange(0, i + 1).last() == arr@[i as int]);
        }
        i += 1;
    }
    proof {
        assert(arr@.subrange(0, n as int) =~= arr@);
    }
    Ok(out)
}

/// An array field decoded as thumbnails; required.
pub open spec fn spec_thumbs_arr_field(fs: Seq<(String, Json)>, key: Seq<char>) -> Option<
    Seq<ThumbnailV>,
> {
    match spec_obj_get(fs, key) {
        Some(Json::Arr(v)) => spec_thumbnails(v@),
        _ => None,
    }
}

fn get_thumbs_field(fs: &Vec<(String, Json)>, key: &str) -> (r: Result<Vec<Thumbnail>, Error>)
    ensures
        match r {
            Ok(ts) => spec_thumbs_arr_field(fs@, key@) == Some(ts.deep_view()),
            Err(e) => spec_thumbs_arr_field(fs@, key@) is None && e == Error::DeserializeError,
        },
{
    match json_obj_get(fs, key) {
        Some(Json::Arr(v)) => decode_thumbnails(v),
        _ => Err(Error::DeserializeError),
    }
}

// ---------------------------------------------------------------------------
// Video summaries
// ---------------------------------------------------------------------------
/// The `videoThumbnails` field of a video summary: an absent field is an
/// empty list, like every other field of this defaulted shape.
pub open spec fn spec_video_thumbs_field(fs: Seq<(String, Json)>) -> Option<Seq<ThumbnailV>> {
    match spec_obj_get(fs, "videoThumbnails"@) {
        None => Some(Seq::<ThumbnailV>::empty()),
        Some(Json::Arr(v)) => spec_thumbnails(v@),
        _ => None,
    }
}

/// The video-summary shape; every missing field falls back to its default.
pub open spec fn spec_video(j: Json) -> Option<VideoV> {
    match j {
        Json::Obj(fs) => match (
            spec_str_field_or_default(fs@, "title"@),
            spec_str_field_or_default(fs@, "videoId"@),
            spec_u64_field_or_default(fs@, "viewCount"@),
            spec_u32_field_or_default(fs@, "lengthSeconds"@),
            spec_video_thumbs_field(fs@),
            spec_str_field_or_default(fs@, "author"@),
            spec_str_field_or_default(fs@, "authorId"@),
            spec_str_field_or_default(fs@, "publishedText"@),
        ) {
            (
                Some(title),
                Some(id),
                Some(views),
                Some(length),
                Some(thumbnails),
                Some(author),
                Some(author_id),
                Some(published),
            ) => Some(
                VideoV { title, id, views, length, thumbnails, author, author_id, published },
            ),
            _ => None,
        },
        _ => None,
    }
}

/// A sequence of video summaries.
pub open spec fn spec_videos(s: Seq<Json>) -> Option<Seq<VideoV>> {
    spec_decode_seq(s, |j: Json| spec_video(j))
}

/// Decodes one video-summary object.
pub fn decode_video(j: &Json) -> (r: Result<Video, Error>)
    ensures
        match r {
            Ok(v) => spec_video(*j) == Some(v.deep_view()),
            Err(e) => spec_video(*j) is None && e == Error::DeserializeError,
        },
{
    match j {
        Json::Obj(fs) => {
            let title = match get_str_field_or_default(fs, "title") {
                Some(s) => s,
                None => {
                    return Err(Error::DeserializeError);
                },
            };
            let id = match get_str_field_or_default(fs, "videoId") {
                Some(s) => s,
                None => {
                    return Err(Error::DeserializeError);
                },
            };
            let views = match get_u64_field_or_default(fs, "viewCount") {
                Some(u) => u,
                None => {
                    return Err(Error::DeserializeError);
                },
            };
            let length = match get_u32_field_or_default(fs, "lengthSeconds") {
                Some(u) => u,
                None => {
                    return Err(Error::DeserializeError);
                },
            };
            let thumbnails = match json_obj_get(fs, "videoThumbnails") {
                None => {
                    let ts: Vec<Thumbnail> = Vec::new();
                    proof {
                        assert(ts.deep_view() =~= Seq::<ThumbnailV>::empty());
                    }
                    ts
                },
                Some(Json::Arr(v)) => match decode_thumbnails(v) {
                    Ok(ts) => ts,
                    Err(e) => {
                        return Err(e);
                    },
                },
                Some(_) => {
                    return Err(Error::DeserializeError);
                },
            };
            let author = match get_str_field_or_default(fs, "author") {
                Some(s) => s,
                None => {
                    return Err(Error::DeserializeError);
                },
            };
            let author_id = match get_str_field_or_default(fs, "authorId") {
                Some(s) => s,
                None => {
                    return Err(Error::DeserializeError);
                },
            };
            let published = match get_str_field_or_default(fs, "publishedText") {
                Some(s) => s,
                None => {
                    return Err(Error::DeserializeError);
                },
            };
            Ok(Video { title, id, views, length, thumbnails, author, author_id, published })
        },
        _ => Err(Error::DeserializeError),
    }
}

/// Decodes an array of video summaries.
pub fn decode_videos(arr: &Vec<Json>) -> (r: Result<Vec<Video>, Error>)
    ensures
        match r {
            Ok(vs) => spec_videos(arr@) == Some(vs.deep_view()),
            Err(e) => spec_videos(arr@) is None && e == Error::DeserializeError,
        },
{
    let mut out: Vec<Video> = Vec::new();
    let n = arr.len();
    let mut i: usize = 0;
    while i < n
        invariant
            i <= n,
            n == arr@.len(),
            spec_videos(arr@.subrange(0, i as int)) == Some(out.deep_view()),
        decreases n - i,
    {
        match decode_video(&arr[i]) {
            Ok(v) => {
                out.push(v);
            },
            Err(e) => {
                proof {
                    lemma_decode_seq_none(arr@, |j: Json| spec_video(j), i as int);
                }
                return Err(e);
            },
        }
        proof {
            assert(arr@.subrange(0, i + 1).drop_last() =~= arr@.subrange(0, i as int));
            assert(arr@.subrange(0, i + 1).last() == arr@[i as int]);
        }
        i += 1;
    }
    proof {
        assert(arr@.subrange(0, n as int) =~= arr@);
    }
    Ok(out)
}

/// An array field decoded as video summaries; required.
pub open spec fn spec_videos_arr_field(fs: Seq<(String, Json)>, key: Seq<char>) -> Option<
    Seq<VideoV>,
> {
    match spec_obj_get(fs, key) {
        Some(Json::Arr(v)) => spec_videos(v@),
        _ => None,
    }
}

fn get_videos_field(fs: &Vec<(String, Json)>, key: &str) -> (r: Result<Vec<Video>, Error>)
    ensures
        match r {
            Ok(vs) => spec_videos_arr_field(fs@, key@) == Some(vs.deep_view()),
            Err(e) => spec_videos_arr_field(fs@, key@) is None && e == Error::DeserializeError,
        },
{
    match json_obj_get(fs, key) {
        Some(Json::Arr(v)) => decode_videos(v),
        _ => Err(Error::DeserializeError),
    }
}

// ---------------------------------------------------------------------------
// Playlist summaries
// ---------------------------------------------------------------------------
/// The playlist-summary shape; every field is required.
pub open spec fn spec_playlist(j: Json) -> Option<PlaylistV> {
    match j {
        Json::Obj(fs) => match (
            spec_str_field(fs@, "title"@),
            spec_str_field(fs@, "playlistId"@),
            spec_str_field(fs@, "author"@),
            spec_str_field(fs@, "authorId"@),
            spec_u64_field(fs@, "videoCount"@),
            spec_str_field(fs@, "playlistThumbnail"@),
        ) {
            (Some(title), Some(id), Some(author), Some(author_id), Some(video_count), Some(
                thumbnail,
            )) => Some(PlaylistV { title, id, author, author_id, video_count, thumbnail }),
            _ => None,
        },
        _ => None,
    }
}

/// A sequence of playlist summaries.
pub open spec fn spec_playlists(s: Seq<Json>) -> Option<Seq<PlaylistV>> {
    spec_decode_seq(s, |j: Json| spec_playlist(j))
}

/// Decodes one playlist-summary object.
pub fn decode_playlist(j: &Json) -> (r: Result<Playlist, Error>)
    ensures
        match r {
            Ok(p) => spec_playlist(*j) == Some(p.deep_view()),
            Err(e) => spec_playlist(*j) is None && e == Error::DeserializeError,
        },
{
    match j {
        Json::Obj(fs) => {
            let title = match get_str_field(fs, "title") {
                Some(s) => s,
                None => {
                    return Err(Error::DeserializeError);
                },
            };
            let id = match get_str_field(fs, "playlistId") {
                Some(s) => s,
                None => {
                    return Err(Error::DeserializeError);
                },
            };
            let author = match get_str_field(fs, "author") {
                Some(s) => s,
                None => {
                    return Err(Error::DeserializeError);
                },
            };
            let author_id = match get_str_field(fs, "authorId") {
                Some(s) => s,
                None => {
                    return Err(Error::DeserializeError);
                },
            };
            let video_count = match get_u64_field(fs, "videoCount") {
                Some(u) => u,
                None => {
                    return Err(Error::DeserializeError);
                },
            };
            let thumbnail = match get_str_field(fs, "playlistThumbnail") {
                Some(s) => s,
                None => {
                    return Err(Error::DeserializeError);
                },
            };
            Ok(Playlist { title, id, author, author_id, video_count, thumbnail })
        },
        _ => Err(Error::DeserializeError),
    }
}

/// Decodes an array of playlist summaries.
pub fn decode_playlists(arr: &Vec<Json>) -> (r: Result<Vec<Playlist>, Error>)
    ensures
        match r {
            Ok(ps) => spec_playlists(arr@) == Some(ps.deep_view()),
            Err(e) => spec_playlists(arr@) is None && e == Error::DeserializeError,
        },
{
    let mut out: Vec<Playlist> = Vec::new();
    let n = arr.len();
    let mut i: usize = 0;
    while i < n
        invariant
            i <= n,
            n == arr@.len(),
            spec_playlists(arr@.subrange(0, i as int)) == Some(out.deep_view()),
        decreases n - i,
    {
        match decode_playlist(&arr[i]) {
            Ok(p) => {
                out.push(p);
            },
            Err(e) => {
                proof {
                    lemma_decode_seq_none(arr@, |j: Json| spec_playlist(j), i as int);
                }
                return Err(e);
            },
        }
        proof {
            assert(arr@.subrange(0, i + 1).drop_last() =~= arr@.subrange(0, i as int));
            assert(arr@.subrange(0, i + 1).last() == arr@[i as int]);
        }
        i += 1;
    }
    proof {
        assert(arr@.subrange(0, n as int) =~= arr@);
    }
    Ok(out)
}

// ---------------------------------------------------------------------------
// Channel summaries
// ---------------------------------------------------------------------------
/// The channel-summary shape; every field is required.
pub open spec fn spec_channel(j: Json) -> Option<ChannelV> {
    match j {
        Json::Obj(fs) => match (
            spec_str_field(fs@, "author"@),
            spec_str_field(fs@, "authorId"@),
            spec_thumbs_arr_field(fs@, "authorThumbnails"@),
            spec_u64_field(fs@, "subCount"@),
        ) {
            (Some(title), Some(id), Some(thumbnails), Some(subscribers)) => Some(
                ChannelV { title, id, thumbnails, subscribers },
            ),
            _ => None,
        },
        _ => None,
    }
}

/// A sequence of channel summaries.
pub open spec fn spec_channels(s: Seq<Json>) -> Option<Seq<ChannelV>> {
    spec_decode_seq(s, |j: Json| spec_channel(j))
}

/// Decodes one channel-summary object.
pub fn decode_channel(j: &Json) -> (r: Result<Channel, Error>)
    ensures
        match r {
            Ok(c) => spec_channel(*j) == Some(c.deep_view()),
            Err(e) => spec_channel(*j) is None && e == Error::DeserializeError,
        },
{
    match j {
        Json::Obj(fs) => {
            let title = match get_str_field(fs, "author") {
                Some(s) => s,
                None => {
                    return Err(Error::DeserializeError);
                },
            };
            let id = match get_str_field(fs, "authorId") {
                Some(s) => s,
                None => {
                    return Err(Error::DeserializeError);
                },
            };
            let thumbnails = match get_thumbs_field(fs, "authorThumbnails") {
                Ok(ts) => ts,
                Err(e) => {
                    return Err(e);
                },
            };
            let subscribers = match get_u64_field(fs, "subCount") {
                Some(u) => u,
                None => {
                    return Err(Error::DeserializeError);
                },
            };
            Ok(Channel { title, id, thumbnails, subscribers })
        },
        _ => Err(Error::DeserializeError),
    }
}

/// Decodes an array of channel summaries.
pub fn decode_channels(arr: &Vec<Json>) -> (r: Result<Vec<Channel>, Error>)
    ensures
        match r {
            Ok(cs) => spec_channels(arr@) == Some(cs.deep_view()),
            Err(e) => spec_channels(arr@) is None && e == Error::DeserializeError,
        },
{
    let mut out: Vec<Channel> = Vec::new();
    let n = arr.len();
    let mut i: usize = 0;
    while i < n
        invariant
            i <= n,
            n == arr@.len(),
            spec_channels(arr@.subrange(0, i as int)) == Some(out.deep_view()),
        decreases n - i,
    {
        match decode_channel(&arr[i]) {
            Ok(c) => {
                out.push(c);
            },
            Err(e) => {
                proof {
                    lemma_decode_seq_none(arr@, |j: Json| spec_channel(j), i as int);
                }
                return Err(e);
            },
        }
        proof {
            assert(arr@.subrange(0, i + 1).drop_last() =~= arr@.subrange(0, i as int));
            assert(arr@.subrange(0, i + 1).last() == arr@[i as int]);
        }
        i += 1;
    }
    proof {
        assert(arr@.subrange(0, n as int) =~= arr@);
    }
    Ok(out)
}

fn get_channels_field(fs: &Vec<(String, Json)>, key: &str) -> (r: Result<Vec<Channel>, Error>)
    ensures
        match r {
            Ok(cs) => spec_channels_arr_field(fs@, key@) == Some(cs.deep_view()),
            Err(e) => spec_channels_arr_field(fs@, key@) is None && e == Error::DeserializeError,
        },
{
    match json_obj_get(fs, key) {
        Some(Json::Arr(v)) => decode_channels(v),
        _ => Err(Error::DeserializeError),
    }
}

/// An array field decoded as channel summaries; required.
pub open spec fn spec_channels_arr_field(fs: Seq<(String, Json)>, key: Seq<char>) -> Option<
    Seq<ChannelV>,
> {
    match spec_obj_get(fs, key) {
        Some(Json::Arr(v)) => spec_channels(v@),
        _ => None,
    }
}

// ---------------------------------------------------------------------------
// The tagged content union
// ---------------------------------------------------------------------------
/// The tagged union: the `type` field selects the summary shape the same
/// object decodes as.
pub open spec fn spec_content(j: Json) -> Option<ContentV> {
    match j {
        Json::Obj(fs) => match spec_str_field(fs@, "type"@) {
            Some(t) => if t == "video"@ {
                match spec_video(j) {
                    Some(v) => Some(ContentV::Video(v)),
                    None => None,
                }
            } else if t == "playlist"@ {
                match spec_playlist(j) {
                    Some(p) => Some(ContentV::Playlist(p)),
                    None => None,
                }
            } else if t == "channel"@ {
                match spec_channel(j) {
                    Some(c) => Some(ContentV::Channel(c)),
                    None => None,
                }
            } else {
                None
            },
            None => None,
        },
        _ => None,
    }
}

/// A sequence of tagged content items.
pub open spec fn spec_contents(s: Seq<Json>) -> Option<Seq<ContentV>> {
    spec_decode_seq(s, |j: Json| spec_content(j))
}

/// Decodes one tagged content object.
pub fn decode_content(j: &Json) -> (r: Result<Content, Error>)
    ensures
        match r {
            Ok(c) => spec_content(*j) == Some(c.deep_view()),
            Err(e) => spec_content(*j) is None && e == Error::DeserializeError,
        },
{
    match j {
        Json::Obj(fs) => {
            let tag = match get_str_field(fs, "type") {
                Some(s) => s,
                None => {
                    return Err(Error::DeserializeError);
                },
            };
            if crate::strutil::str_eq(tag.as_str(), "video") {
                match decode_video(j) {
                    Ok(v) => Ok(Content::Video(v)),
                    Err(e) => Err(e),
                }
            } else if crate::strutil::str_eq(tag.as_str(), "playlist") {
                match decode_playlist(j) {
                    Ok(p) => Ok(Content::Playlist(p)),
                    Err(e) => Err(e),
                }
            } else if crate::strutil::str_eq(tag.as_str(), "channel") {
                match decode_channel(j) {
                    Ok(c) => Ok(Content::Channel(c)),
                    Err(e) => Err(e),
                }
            } else {
                Err(Error::DeserializeError)
            }
        },
        _ => Err(Error::DeserializeError),
    }
}

/// Decodes an array of tagged content objects.
pub fn decode_contents(arr: &Vec<Json>) -> (r: Result<Vec<Content>, Error>)
    ensures
        match r {
            Ok(cs) => spec_contents(arr@) == Some(cs.deep_view()),
            Err(e) => spec_contents(arr@) is None && e == Error::DeserializeError,
        },
{
    let mut out: Vec<Content> = Vec::new();
    let n = arr.len();
    let mut i: usize = 0;
    while i < n
        invariant
            i <= n,
            n == arr@.len(),
            spec_contents(arr@.subrange(0, i as int)) == Some(out.deep_view()),
        decreases n - i,
    {
        match decode_content(&arr[i]) {
            Ok(c) => {
                out.push(c);
            },
            Err(e) => {
                proof {
                    lemma_decode_seq_none(arr@, |j: Json| spec_content(j), i as int);
                }
                return Err(e);
            },
        }
        proof {
            assert(arr@.subrange(0, i + 1).drop_last() =~= arr@.subrange(0, i as int));
            assert(arr@.subrange(0, i + 1).last() == arr@[i as int]);
        }
        i += 1;
    }
    proof {
        assert(arr@.subrange(0, n as int) =~= arr@);
    }
    Ok(out)
}

// ---------------------------------------------------------------------------
// Media renditions and subtitle tracks
// ---------------------------------------------------------------------------
/// The media-rendition shape; every field is required.
pub open spec fn spec_format_stream(j: Json) -> Option<FormatStreamV> {
    match j {
        Json::Obj(fs) => match (
            spec_str_field(fs@, "url"@),
            spec_str_field(fs@, "quality"@),
            spec_u32_field(fs@, "fps"@),
            spec_str_field(fs@, "resolution"@),
            spec_str_field(fs@, "size"@),
        ) {
            (Some(uri), Some(quality), Some(fps), Some(resolution), Some(size)) => Some(
                FormatStreamV { uri, quality, fps, resolution, size },
            ),
            _ => None,
        },
        _ => None,
    }
}

/// A sequence of media renditions.
pub open spec fn spec_format_streams(s: Seq<Json>) -> Option<Seq<FormatStreamV>> {
    spec_decode_seq(s, |j: Json| spec_format_stream(j))
}

/// Decodes one media-rendition object.
pub fn decode_format_stream(j: &Json) -> (r: Result<FormatStream, Error>)
    ensures
        match r {
            Ok(f) => spec_format_stream(*j) == Some(f.deep_view()),
            Err(e) => spec_format_stream(*j) is None && e == Error::DeserializeError,
        },
{
    match j {
        Json::Obj(fs) => {
            let uri = match get_str_field(fs, "url") {
                Some(s) => s,
                None => {
                    return Err(Error::DeserializeError);
                },
            };
            let quality = match get_str_field(fs, "quality") {
                Some(s) => s,
                None => {
                    return Err(Error::DeserializeError);
                },
            };
            let fps = match get_u32_field(fs, "fps") {
                Some(u) => u,
                None => {
                    return Err(Error::DeserializeError);
                },
            };
            let resolution = match get_str_field(fs, "resolution") {
                Some(s) => s,
                None => {
                    return Err(Error::DeserializeError);
                },
            };
            let size = match get_str_field(fs, "size") {
                Some(s) => s,
                None => {
                    return Err(Error::DeserializeError);
                },
            };
            Ok(FormatStream { uri, quality, fps, resolution, size })
        },
        _ => Err(Error::DeserializeError),
    }
}

/// Decodes an array of media renditions.
pub fn decode_format_streams(arr: &Vec<Json>) -> (r: Result<Vec<FormatStream>, Error>)
    ensures
        match r {
            Ok(ss) => spec_format_streams(arr@) == Some(ss.deep_view()),
            Err(e) => spec_format_streams(arr@) is None && e == Error::DeserializeError,
        },
{
    let mut out: Vec<FormatStream> = Vec::new();
    let n = arr.len();
    let mut i: usize = 0;
    while i < n
        invariant
            i <= n,
            n == arr@.len(),
            spec_format_streams(arr@.subrange(0, i as int)) == Some(out.deep_view()),
        decreases n - i,
    {
        match decode_format_stream(&arr[i]) {
            Ok(s) => {
                out.push(s);
            },
            Err(e) => {
                proof {
                    lemma_decode_seq_none(arr@, |j: Json| spec_format_stream(j), i as int);
                }
                return Err(e);
            },
        }
        proof {
            assert(arr@.subrange(0, i + 1).drop_last() =~= arr@.subrange(0, i as int));
            assert(arr@.subrange(0, i + 1).last() == arr@[i as int]);
        }
        i += 1;
    }
    proof {
        assert(arr@.subrange(0, n as int) =~= arr@);
    }
    Ok(out)
}

/// The subtitle-track shape; every field is required.
pub open spec fn spec_caption(j: Json) -> Option<CaptionV> {
    match j {
        Json::Obj(fs) => match (
            spec_str_field(fs@, "label"@),
            spec_str_field(fs@, "language_code"@),
            spec_str_field(fs@, "url"@),
        ) {
            (Some(label), Some(language_code), Some(uri)) => Some(
                CaptionV { label, language_code, uri },
            ),
            _ => None,
        },
        _ => None,
    }
}

/// A sequence of subtitle tracks.
pub open spec fn spec_captions(s: Seq<Json>) -> Option<Seq<CaptionV>> {
    spec_decode_seq(s, |j: Json| spec_caption(j))
}

/// Decodes one subtitle-track object.
pub fn decode_caption(j: &Json) -> (r: Result<Caption, Error>)
    ensures
        match r {
            Ok(c) => spec_caption(*j) == Some(c.deep_view()),
            Err(e) => spec_caption(*j) is None && e == Error::DeserializeError,
        },
{
    match j {
        Json::Obj(fs) => {
            let label = match get_str_field(fs, "label") {
                Some(s) => s,
                None => {
                    return Err(Error::DeserializeError);
                },
            };
            let language_code = match get_str_field(fs, "language_code") {
                Some(s) => s,
                None => {
                    return Err(Error::DeserializeError);
                },
            };
            let uri = match get_str_field(fs, "url") {
                Some(s) => s,
                None => {
                    return Err(Error::DeserializeError);
                },
            };
            Ok(Caption { label, language_code, uri })
        },
        _ => Err(Error::DeserializeError),
    }
}

/// Decodes an array of subtitle tracks.
pub fn decode_captions(arr: &Vec<Json>) -> (r: Result<Vec<Caption>, Error>)
    ensures
        match r {
            Ok(cs) => spec_captions(arr@) == Some(cs.deep_view()),
            Err(e) => spec_captions(arr@) is None && e == Error::DeserializeError,
        },
{
    let mut out: Vec<Caption> = Vec::new();
    let n = arr.len();
    let mut i: usize = 0;
    while i < n
        invariant
            i <= n,
            n == arr@.len(),
            spec_captions(arr@.subrange(0, i as int)) == Some(out.deep_view()),
        decreases n - i,
    {
        match decode_caption(&arr[i]) {
            Ok(c) => {
                out.push(c);
            },
            Err(e) => {
                proof {
                    lemma_decode_seq_none(arr@, |j: Json| spec_caption(j), i as int);
                }
                return Err(e);
            },
        }
        proof {
            assert(arr@.subrange(0, i + 1).drop_last() =~= arr@.subrange(0, i as int));
            assert(arr@.subrange(0, i + 1).last() == arr@[i as int]);
        }
        i += 1;
    }
    proof {
        assert(arr@.subrange(0, n as int) =~= arr@);
    }
    Ok(out)
}

/// An array field decoded as media renditions; required.
pub open spec fn spec_streams_arr_field(fs: Seq<(String, Json)>, key: Seq<char>) -> Option<
    Seq<FormatStreamV>,
> {
    match spec_obj_get(fs, key) {
        Some(Json::Arr(v)) => spec_format_streams(v@),
        _ => None,
    }
}

fn get_streams_field(fs: &Vec<(String, Json)>, key: &str) -> (r: Result<Vec<FormatStream>, Error>)
    ensures
        match r {
            Ok(ss) => spec_streams_arr_field(fs@, key@) == Some(ss.deep_view()),
            Err(e) => spec_streams_arr_field(fs@, key@) is None && e == Error::DeserializeError,
        },
{
    match json_obj_get(fs, key) {
        Some(Json::Arr(v)) => decode_format_streams(v),
        _ => Err(Error::DeserializeError),
    }
}

/// An array field decoded as subtitle tracks; required.
pub open spec fn spec_captions_arr_field(fs: Seq<(String, Json)>, key: Seq<char>) -> Option<
    Seq<CaptionV>,
> {
    match spec_obj_get(fs, key) {
        Some(Json::Arr(v)) => spec_captions(v@),
        _ => None,
    }
}

fn get_captions_field(fs: &Vec<(String, Json)>, key: &str) -> (r: Result<Vec<Caption>, Error>)
    ensures
        match r {
            Ok(cs) => spec_captions_arr_field(fs@, key@) == Some(cs.deep_view()),
            Err(e) => spec_captions_arr_field(fs@, key@) is None && e == Error::DeserializeError,
        },
{
    match json_obj_get(fs, key) {
        Some(Json::Arr(v)) => decode_captions(v),
        _ => Err(Error::DeserializeError),
    }
}

// ---------------------------------------------------------------------------
// Detail shapes
// ---------------------------------------------------------------------------
/// The single-video detail shape; every field is required.
pub open spec fn spec_detailed_video(j: Json) -> Option<DetailedVideoV> {
    match j {
        Json::Obj(fs) => match (
            spec_str_field(fs@, "title"@),
            spec_str_field(fs@, "videoId"@),
            spec_str_field(fs@, "description"@),
            spec_str_field(fs@, "descriptionHtml"@),
            spec_str_field(fs@, "publishedText"@),
            spec_u32_field(fs@, "lengthSeconds"@),
        ) {
            (Some(title), Some(id), Some(description), Some(description_html), Some(published),
            Some(length)) => match (
                spec_str_field(fs@, "author"@),
                spec_str_field(fs@, "authorId"@),
                spec_u64_field(fs@, "viewCount"@),
                spec_u32_field(fs@, "likeCount"@),
                spec_u32_field(fs@, "dislikeCount"@),
                spec_str_field(fs@, "subCountText"@),
            ) {
                (Some(author), Some(author_id), Some(views), Some(likes), Some(dislikes), Some(
                    subscribers,
                )) => match (
                    spec_thumbs_arr_field(fs@, "videoThumbnails"@),
                    spec_thumbs_arr_field(fs@, "authorThumbnails"@),
                    spec_streams_arr_field(fs@, "formatStreams"@),
                    spec_captions_arr_field(fs@, "captions"@),
                    spec_videos_arr_field(fs@, "recommendedVideos"@),
                ) {
                    (Some(thumbnails), Some(author_thumbnails), Some(format_streams), Some(
                        captions,
                    ), Some(recommended)) => Some(
                        DetailedVideoV {
                            title,
                            id,
                            description,
                            description_html,
                            published,
                            length,
                            author,
                            author_id,
                            views,
                            likes,
                            dislikes,
                            subscribers,
                            thumbnails,
                            author_thumbnails,
                            format_streams,
                            captions,
                            recommended,
                        },
                    ),
                    _ => None,
                },
                _ => None,
            },
            _ => None,
        },
        _ => None,
    }
}

/// Decodes the single-video detail object.
pub fn decode_detailed_video(j: &Json) -> (r: Result<DetailedVideo, Error>)
    ensures
        match r {
            Ok(v) => spec_detailed_video(*j) == Some(v.deep_view()),
            Err(e) => spec_detailed_video(*j) is None && e == Error::DeserializeError,
        },
{
    match j {
        Json::Obj(fs) => {
            let title = match get_str_field(fs, "title") {
                Some(s) => s,
                None => {
                    return Err(Error::DeserializeError);
                },
            };
            let id = match get_str_field(fs, "videoId") {
                Some(s) => s,
                None => {
                    return Err(Error::DeserializeError);
                },
            };
            let description = match get_str_field(fs, "description") {
                Some(s) => s,
                None => {
                    return Err(Error::DeserializeError);
                },
            };
            let description_html = match get_str_field(fs, "descriptionHtml") {
                Some(s) => s,
                None => {
                    return Err(Error::DeserializeError);
                },
            };
            let published = match get_str_field(fs, "publishedText") {
                Some(s) => s,
                None => {
                    return Err(Error::DeserializeError);
                },
            };
            let length = match get_u32_field(fs, "lengthSeconds") {
                Some(u) => u,
                None => {
                    return Err(Error::DeserializeError);
                },
            };
            let author = match get_str_field(fs, "author") {
                Some(s) => s,
                None => {
                    return Err(Error::DeserializeError);
                },
            };
            let author_id = match get_str_field(fs, "authorId") {
                Some(s) => s,
                None => {
                    return Err(Error::DeserializeError);
                },
            };
            let views = match get_u64_field(fs, "viewCount") {
                Some(u) => u,
                None => {
                    return Err(Error::DeserializeError);
                },
            };
            let likes = match get_u32_field(fs, "likeCount") {
                Some(u) => u,
                None => {
                    return Err(Error::DeserializeError);
                },
            };
            let dislikes = match get_u32_field(fs, "dislikeCount") {
                Some(u) => u,
                None => {
                    return Err(Error::DeserializeError);
                },
            };
            let subscribers = match get_str_field(fs, "subCountText") {
                Some(s) => s,
                None => {
                    return Err(Error::DeserializeError);
                },
            };
            let thumbnails = match get_thumbs_field(fs, "videoThumbnails") {
                Ok(ts) => ts,
                Err(e) => {
                    return Err(e);
                },
            };
            let author_thumbnails = match get_thumbs_field(fs, "authorThumbnails") {
                Ok(ts) => ts,
                Err(e) => {
                    return Err(e);
                },
            };
            let format_streams = match get_streams_field(fs, "formatStreams") {
                Ok(ss) => ss,
                Err(e) => {
                    return Err(e);
                },
            };
            let captions = match get_captions_field(fs, "captions") {
                Ok(cs) => cs,
                Err(e) => {
                    return Err(e);
                },
            };
            let recommended = match get_videos_field(fs, "recommendedVideos") {
                Ok(vs) => vs,
                Err(e) => {
                    return Err(e);
                },
            };
            Ok(
                DetailedVideo {
                    title,
                    id,
                    description,
                    description_html,
                    published,
                    length,
                    author,
                    author_id,
                    views,
                    likes,
                    dislikes,
                    subscribers,
                    thumbnails,
                    author_thumbnails,
                    format_streams,
                    captions,
                    recommended,
                },
            )
        },
        _ => Err(Error::DeserializeError),
    }
}

/// The single-channel detail shape; every field is required.
pub open spec fn spec_detailed_channel(j: Json) -> Option<DetailedChannelV> {
    match j {
        Json::Obj(fs) => match (
            spec_str_field(fs@, "author"@),
            spec_str_field(fs@, "authorId"@),
            spec_thumbs_arr_field(fs@, "authorThumbnails"@),
            spec_thumbs_arr_field(fs@, "authorBanners"@),
            spec_u64_field(fs@, "subCount"@),
            spec_u128_field(fs@, "totalViews"@),
        ) {
            (Some(title), Some(id), Some(thumbnails), Some(banners), Some(subscribers), Some(
                total_views,
            )) => match (
                spec_str_field(fs@, "description"@),
                spec_str_field(fs@, "descriptionHtml"@),
                spec_bool_field(fs@, "authorVerified"@),
                spec_videos_arr_field(fs@, "latestVideos"@),
                spec_channels_arr_field(fs@, "relatedChannels"@),
            ) {
                (Some(description), Some(description_html), Some(verified), Some(videos), Some(
                    related_channels,
                )) => Some(
                    DetailedChannelV {
                        title,
                        id,
                        thumbnails,
                        banners,
                        subscribers,
                        total_views,
                        description,
                        description_html,
                        verified,
                        videos,
                        related_channels,
                    },
                ),
                _ => None,
            },
            _ => None,
        },
        _ => None,
    }
}

/// Decodes the single-channel detail object.
pub fn decode_detailed_channel(j: &Json) -> (r: Result<DetailedChannel, Error>)
    ensures
        match r {
            Ok(c) => spec_detailed_channel(*j) == Some(c.deep_view()),
            Err(e) => spec_detailed_channel(*j) is None && e == Error::DeserializeError,
        },
{
    match j {
        Json::Obj(fs) => {
            let title = match get_str_field(fs, "author") {
                Some(s) => s,
                None => {
                    return Err(Error::DeserializeError);
                },
            };
            let id = match get_str_field(fs, "authorId") {
                Some(s) => s,
                None => {
                    return Err(Error::DeserializeError);
                },
            };
            let thumbnails = match get_thumbs_field(fs, "authorThumbnails") {
                Ok(ts) => ts,
                Err(e) => {
                    return Err(e);
                },
            };
            let banners = match get_thumbs_field(fs, "authorBanners") {
                Ok(ts) => ts,
                Err(e) => {
                    return Err(e);
                },
            };
            let subscribers = match get_u64_field(fs, "subCount") {
                Some(u) => u,
                None => {
                    return Err(Error::DeserializeError);
                },
            };
            let total_views = match get_u128_field(fs, "totalViews") {
                Some(u) => u,
                None => {
                    return Err(Error::DeserializeError);
                },
            };
            let description = match get_str_field(fs, "description") {
                Some(s) => s,
                None => {
                    return Err(Error::DeserializeError);
                },
            };
            let description_html = match get_str_field(fs, "descriptionHtml") {
                Some(s) => s,
                None => {
                    return Err(Error::DeserializeError);
                },
            };
            let verified = match get_bool_field(fs, "authorVerified") {
                Some(b) => b,
                None => {
                    return Err(Error::DeserializeError);
                },
            };
            let videos = match get_videos_field(fs, "latestVideos") {
                Ok(vs) => vs,
                Err(e) => {
                    return Err(e);
                },
            };
            let related_channels = match get_channels_field(fs, "relatedChannels") {
                Ok(cs) => cs,
                Err(e) => {
                    return Err(e);
                },
            };
            Ok(
                DetailedChannel {
                    title,
                    id,
                    thumbnails,
                    banners,
                    subscribers,
                    total_views,
                    description,
                    description_html,
                    verified,
                    videos,
                    related_channels,
                },
            )
        },
        _ => Err(Error::DeserializeError),
    }
}

/// The single-playlist detail shape; every field is required.
pub open spec fn spec_detailed_playlist(j: Json) -> Option<DetailedPlaylistV> {
    match j {
        Json::Obj(fs) => match (
            spec_str_field(fs@, "title"@),
            spec_str_field(fs@, "playlistId"@),
            spec_str_field(fs@, "author"@),
            spec_str_field(fs@, "authorId"@),
            spec_u64_field(fs@, "videoCount"@),
            spec_str_field(fs@, "playlistThumbnail"@),
            spec_videos_arr_field(fs@, "videos"@),
        ) {
            (Some(title), Some(id), Some(author), Some(author_id), Some(video_count), Some(
                thumbnail,
            ), Some(videos)) => Some(
                DetailedPlaylistV { title, id, author, author_id, video_count, thumbnail, videos },
            ),
            _ => None,
        },
        _ => None,
    }
}

/// Decodes the single-playlist detail object.
pub fn decode_detailed_playlist(j: &Json) -> (r: Result<DetailedPlaylist, Error>)
    ensures
        match r {
            Ok(p) => spec_detailed_playlist(*j) == Some(p.deep_view()),
            Err(e) => spec_detailed_playlist(*j) is None && e == Error::DeserializeError,
        },
{
    match j {
        Json::Obj(fs) => {
            let title = match get_str_field(fs, "title") {
                Some(s) => s,
                None => {
                    return Err(Error::DeserializeError);
                },
            };
            let id = match get_str_field(fs, "playlistId") {
                Some(s) => s,
                None => {
                    return Err(Error::DeserializeError);
                },
            };
            let author = match get_str_field(fs, "author") {
                Some(s) => s,
                None => {
                    return Err(Error::DeserializeError);
                },
            };
            let author_id = match get_str_field(fs, "authorId") {
                Some(s) => s,
                None => {
                    return Err(Error::DeserializeError);
                },
            };
            let video_count = match get_u64_field(fs, "videoCount") {
                Some(u) => u,
                None => {
                    return Err(Error::DeserializeError);
                },
            };
            let thumbnail = match get_str_field(fs, "playlistThumbnail") {
                Some(s) => s,
                None => {
                    return Err(Error::DeserializeError);
                },
            };
            let videos = match get_videos_field(fs, "videos") {
                Ok(vs) => vs,
                Err(e) => {
                    return Err(e);
                },
            };
            Ok(DetailedPlaylist { title, id, author, author_id, video_count, thumbnail, videos })
        },
        _ => Err(Error::DeserializeError),
    }
}

} // verus!
