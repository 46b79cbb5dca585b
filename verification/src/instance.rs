//! One catalog server: its identity, its probed capability snapshot, the
//! construction and probing steps, and the decoding of every per-instance
//! response into typed content.
//!
//! The HTTP requests themselves happen outside the library. Each operation
//! here builds the URL to fetch (`*_url`) and turns the fetched status code
//! and body into the typed result exactly as the wire contract demands.

use vstd::prelude::*;
use vstd::string::*;

use crate::content::{
    contents_of_videos, correct_contents, spec_contents_of_videos, spec_rewrite_contents,
    spec_rewrite_detailed_channel, spec_rewrite_detailed_playlist, spec_rewrite_detailed_video,
    Content, ContentV, DetailedChannel, DetailedChannelV, DetailedPlaylist, DetailedPlaylistV,
    DetailedVideo, DetailedVideoV, Playlist, PlaylistV,
};
use crate::decode::{
    decode_contents, decode_detailed_channel, decode_detailed_playlist, decode_detailed_video,
    decode_playlists, decode_videos, lemma_decode_seq_none, spec_bool_field, spec_contents,
    spec_decode_seq, spec_playlists, spec_str_field, spec_videos,
};
use crate::error::Error;
use crate::json::{json_obj_get, json_of, parse_json, spec_obj_get, Json};
use crate::strutil::concat_str;
use crate::uri::{format_input_uri, spec_format_input_uri};

verus! {

/// The capability and health snapshot of one instance. `None` means the
/// feature has not been probed; readers must not rely on it.
#[derive(Debug, Clone, Copy, PartialEq, Eq, Structural)]
pub struct InstanceInfo {
    pub has_trending: Option<bool>,
    pub has_popular: Option<bool>,
    pub open_registrations: bool,
}

/// One catalog server: its normalized base URL and its capability snapshot.
#[derive(Debug)]
pub struct Instance {
    pub uri: String,
    pub info: InstanceInfo,
}

/// View of [`Instance`].
pub struct InstanceV {
    pub uri: Seq<char>,
    pub info: InstanceInfo,
}

impl DeepView for Instance {
    type V = InstanceV;

    open spec fn deep_view(&self) -> InstanceV {
        InstanceV { uri: self.uri@, info: self.info }
    }
}

impl Clone for Instance {
    /// An instance clone keeps the identity and the snapshot.
    fn clone(&self) -> (r: Self)
        ensures
            r == *self,
    {
        Instance { uri: self.uri.clone(), info: self.info }
    }
}

/// What the `/api/v1/stats` endpoint reports.
#[derive(Debug)]
pub struct StatsResponse {
    pub version: String,
    pub open_registrations: bool,
}

/// View of [`StatsResponse`].
pub struct StatsResponseV {
    pub version: Seq<char>,
    pub open_registrations: bool,
}

impl DeepView for StatsResponse {
    type V = StatsResponseV;

    open spec fn deep_view(&self) -> StatsResponseV {
        StatsResponseV { version: self.version@, open_registrations: self.open_registrations }
    }
}

/// The stats shape: `{version, openRegistrations}`, both required.
pub open spec fn spec_stats_response(j: Json) -> Option<StatsResponseV> {
    match j {
        Json::Obj(fs) => match (
            spec_str_field(fs@, "version"@),
            spec_bool_field(fs@, "openRegistrations"@),
        ) {
            (Some(version), Some(open_registrations)) => Some(
                StatsResponseV { version, open_registrations },
            ),
            _ => None,
        },
        _ => None,
    }
}

/// Decodes the stats object.
pub fn decode_stats_response(j: &Json) -> (r: Result<StatsResponse, Error>)
    ensures
        match r {
            Ok(s) => spec_stats_response(*j) == Some(s.deep_view()),
            Err(e) => spec_stats_response(*j) is None && e == Error::DeserializeError,
        },
{
    match j {
        Json::Obj(fs) => {
            let version = match json_obj_get(fs, "version") {
                Some(Json::Str(s)) => s.clone(),
                _ => {
                    return Err(Error::DeserializeError);
                },
            };
            let open_registrations = match json_obj_get(fs, "openRegistrations") {
                Some(Json::Bool(b)) => *b,
                _ => {
                    return Err(Error::DeserializeError);
                },
            };
            Ok(StatsResponse { version, open_registrations })
        },
        _ => Err(Error::DeserializeError),
    }
}

// ---------------------------------------------------------------------------
// Probing
// ---------------------------------------------------------------------------
/// One feature probe counts as supported exactly when the endpoint was
/// reachable, answered with a success status, and its body is a JSON array —
/// whatever that array holds.
pub open spec fn spec_probe_supported(status: u16, parsed: Option<Json>) -> bool {
    200 <= status < 300 && (parsed matches Some(Json::Arr(_)))
}

/// The probe verdict for one fetched feed endpoint; `None` stands for a
/// transport failure, which counts as unsupported.
pub open spec fn spec_probe_outcome(fetched: Option<(u16, &str)>) -> bool {
    match fetched {
        Some((status, body)) => spec_probe_supported(status, json_of(body@)),
        None => false,
    }
}

fn probe_feature(status: u16, body: &str) -> (r: bool)
    ensures
        r == spec_probe_supported(status, json_of(body@)),
{
    if !(200 <= status && status < 300) {
        return false;
    }
    match parse_json(body) {
        Ok(j) => match j {
            Json::Arr(_) => true,
            _ => false,
        },
        Err(_) => false,
    }
}

/// What `from_uri` constructs from the entered text and the parsed stats
/// document fetched from the normalized base URL.
pub open spec fn spec_from_uri(text: Seq<char>, parsed: Option<Json>) -> Result<InstanceV, Error> {
    match parsed {
        Some(j) => match spec_stats_response(j) {
            Some(sv) => Ok(
                InstanceV {
                    uri: spec_format_input_uri(text),
                    info: InstanceInfo {
                        has_trending: None,
                        has_popular: None,
                        open_registrations: sv.open_registrations,
                    },
                },
            ),
            None => Err(Error::DeserializeError),
        },
        None => Err(Error::DeserializeError),
    }
}

impl Instance {
    /// Builds an instance from user-entered text and the body answered by
    /// `GET {format_input_uri(text)}/api/v1/stats`.
    ///
    /// A body that does not decode as a stats document means the target is
    /// reachable but probably not a compatible server; that surfaces as
    /// `DeserializeError`, distinct from a transport failure. The capability
    /// fields start unprobed; `update_info` fills them.
    pub fn from_uri(uri: &str, stats_body: &str) -> (r: Result<Instance, Error>)
        ensures
            match r {
                Ok(inst) => spec_from_uri(uri@, json_of(stats_body@)) == Ok::<InstanceV, Error>(
                    inst.deep_view(),
                ),
                Err(e) => spec_from_uri(uri@, json_of(stats_body@)) == Err::<InstanceV, Error>(e),
            },
    {
        let base = format_input_uri(uri);
        let j = match parse_json(stats_body) {
            Ok(j) => j,
            Err(e) => {
                return Err(e);
            },
        };
        let stats = match decode_stats_response(&j) {
            Ok(s) => s,
            Err(e) => {
                return Err(e);
            },
        };
        Ok(
            Instance {
                uri: base,
                info: InstanceInfo {
                    has_trending: None,
                    has_popular: None,
                    open_registrations: stats.open_registrations,
                },
            },
        )
    }

    /// Records the two feature probes in the capability snapshot.
    ///
    /// Each argument is the fetched `/api/v1/popular` or `/api/v1/trending`
    /// response, or `None` for a transport failure. A failed or malformed
    /// probe degrades to "feature unsupported": this operation itself always
    /// succeeds.
    pub fn update_info(
        &mut self,
        popular: Option<(u16, &str)>,
        trending: Option<(u16, &str)>,
    ) -> (r: Result<(), Error>)
        ensures
            r is Ok,
            final(self).uri == old(self).uri,
            final(self).info.open_registrations == old(self).info.open_registrations,
            final(self).info.has_popular == Some(spec_probe_outcome(popular)),
            final(self).info.has_trending == Some(spec_probe_outcome(trending)),
    {
        let has_popular = match popular {
            Some((status, body)) => probe_feature(status, body),
            None => false,
        };
        let has_trending = match trending {
            Some((status, body)) => probe_feature(status, body),
            None => false,
        };
        self.info.has_popular = Some(has_popular);
        self.info.has_trending = Some(has_trending);
        Ok(())
    }

    /// The latency verdict for a timed `GET {uri}{endpoint or "/"}`: the
    /// elapsed milliseconds when the answer was `200`, `BadStatusCode`
    /// otherwise.
    pub fn ping(&self, status: u16, elapsed_ms: u128) -> (r: Result<u128, Error>)
        ensures
            r == if status == 200 {
                Ok::<u128, Error>(elapsed_ms)
            } else {
                Err::<u128, Error>(Error::BadStatusCode)
            },
    {
        if status == 200 {
            Ok(elapsed_ms)
        } else {
            Err(Error::BadStatusCode)
        }
    }
}

// ---------------------------------------------------------------------------
// URL builders
// ---------------------------------------------------------------------------
/// A character the URL encoder leaves as it is.
pub open spec fn is_unreserved(c: char) -> bool {
    ('a' <= c && c <= 'z') || ('A' <= c && c <= 'Z') || ('0' <= c && c <= '9') || c == '-' || c
        == '_' || c == '.' || c == '~'
}

/// `s` consists only of unreserved characters.
pub open spec fn spec_unreserved_str(s: Seq<char>) -> bool {
    forall|i: int| 0 <= i < s.len() ==> is_unreserved(s[i])
}

/// The percent-encoding of `s`; a function of `s` alone.
pub uninterp spec fn percent_encoded(s: Seq<char>) -> Seq<char>;

/// Relies on urlencoding::encode: percent-encodes every byte except ASCII
/// alphanumerics and `-`, `_`, `.`, `~`, so a string of unreserved characters
/// comes back unchanged, and the result depends on the input alone.
#[verifier::external_body]
fn urlencode(s: &str) -> (r: String)
    ensures
        r@ == percent_encoded(s@),
        spec_unreserved_str(s@) ==> r@ == s@,
{
    urlencoding::encode(s).into_owned()
}

impl Instance {
    /// The URL of this instance's stats document.
    pub fn stats_url(&self) -> (r: String)
        ensures
            r@ == self.uri@ + "/api/v1/stats"@,
    {
        concat_str(self.uri.as_str(), "/api/v1/stats")
    }

    /// The URL of this instance's popular feed.
    pub fn popular_url(&self) -> (r: String)
        ensures
            r@ == self.uri@ + "/api/v1/popular"@,
    {
        concat_str(self.uri.as_str(), "/api/v1/popular")
    }

    /// The URL of this instance's trending feed.
    pub fn trending_url(&self) -> (r: String)
        ensures
            r@ == self.uri@ + "/api/v1/trending"@,
    {
        concat_str(self.uri.as_str(), "/api/v1/trending")
    }

    /// The URL of a search for `query`, percent-encoded.
    pub fn search_url(&self, query: &str) -> (r: String)
        ensures
            r@ == self.uri@ + "/api/v1/search?q="@ + percent_encoded(query@),
    {
        let mut out = concat_str(self.uri.as_str(), "/api/v1/search?q=");
        let enc = urlencode(query);
        out.append(enc.as_str());
        out
    }

    /// The URL of one video's detail document.
    pub fn video_url(&self, video_id: &str) -> (r: String)
        ensures
            r@ == self.uri@ + "/api/v1/videos/"@ + video_id@,
    {
        let mut out = concat_str(self.uri.as_str(), "/api/v1/videos/");
        out.append(video_id);
        out
    }

    /// The URL of one channel's detail document.
    pub fn channel_url(&self, channel_id: &str) -> (r: String)
        ensures
            r@ == self.uri@ + "/api/v1/channels/"@ + channel_id@,
    {
        let mut out = concat_str(self.uri.as_str(), "/api/v1/channels/");
        out.append(channel_id);
        out
    }

    /// The URL of one channel's playlists envelope.
    pub fn channel_playlists_url(&self, channel_id: &str) -> (r: String)
        ensures
            r@ == self.uri@ + "/api/v1/channels/"@ + channel_id@ + "/playlists"@,
    {
        let mut out = concat_str(self.uri.as_str(), "/api/v1/channels/");
        out.append(channel_id);
        out.append("/playlists");
        out
    }

    /// The URL of one playlist's detail document.
    pub fn playlist_url(&self, playlist_id: &str) -> (r: String)
        ensures
            r@ == self.uri@ + "/api/v1/playlists/"@ + playlist_id@,
    {
        let mut out = concat_str(self.uri.as_str(), "/api/v1/playlists/");
        out.append(playlist_id);
        out
    }

    /// The URL `ping` times: the given endpoint, or the root path.
    pub fn ping_url(&self, endpoint: Option<&str>) -> (r: String)
        ensures
            r@ == self.uri@ + match endpoint {
                Some(e) => e@,
                None => "/"@,
            },
    {
        match endpoint {
            Some(e) => concat_str(self.uri.as_str(), e),
            None => concat_str(self.uri.as_str(), "/"),
        }
    }
}

// ---------------------------------------------------------------------------
// Typed fetch results
// ---------------------------------------------------------------------------
/// What a feed page (`popular`, `trending`) yields from the fetched status
/// and parsed body: a non-200 answer is `BadStatusCode`; otherwise the body
/// must be an array of video summaries, each wrapped as content and rewritten
/// against the instance base.
pub open spec fn spec_video_page(base: Seq<char>, status: u16, parsed: Option<Json>) -> Result<
    Seq<ContentV>,
    Error,
> {
    if status != 200 {
        Err(Error::BadStatusCode)
    } else {
        match parsed {
            Some(Json::Arr(v)) => match spec_videos(v@) {
                Some(vs) => Ok(spec_rewrite_contents(base, spec_contents_of_videos(vs))),
                None => Err(Error::DeserializeError),
            },
            _ => Err(Error::DeserializeError),
        }
    }
}

/// What a search page yields: an array of tagged content items, rewritten.
pub open spec fn spec_search_page(base: Seq<char>, status: u16, parsed: Option<Json>) -> Result<
    Seq<ContentV>,
    Error,
> {
    if status != 200 {
        Err(Error::BadStatusCode)
    } else {
        match parsed {
            Some(Json::Arr(v)) => match spec_contents(v@) {
                Some(cs) => Ok(spec_rewrite_contents(base, cs)),
                None => Err(Error::DeserializeError),
            },
            _ => Err(Error::DeserializeError),
        }
    }
}

/// What the video detail endpoint yields, rewritten.
pub open spec fn spec_video_detail(base: Seq<char>, status: u16, parsed: Option<Json>) -> Result<
    DetailedVideoV,
    Error,
> {
    if status != 200 {
        Err(Error::BadStatusCode)
    } else {
        match parsed {
            Some(j) => match crate::decode::spec_detailed_video(j) {
                Some(dv) => Ok(spec_rewrite_detailed_video(base, dv)),
                None => Err(Error::DeserializeError),
            },
            None => Err(Error::DeserializeError),
        }
    }
}

/// What the channel detail endpoint yields, rewritten.
pub open spec fn spec_channel_detail(base: Seq<char>, status: u16, parsed: Option<Json>) -> Result<
    DetailedChannelV,
    Error,
> {
    if status != 200 {
        Err(Error::BadStatusCode)
    } else {
        match parsed {
            Some(j) => match crate::decode::spec_detailed_channel(j) {
                Some(dc) => Ok(spec_rewrite_detailed_channel(base, dc)),
                None => Err(Error::DeserializeError),
            },
            None => Err(Error::DeserializeError),
        }
    }
}

/// What the playlist detail endpoint yields, rewritten.
pub open spec fn spec_playlist_detail(base: Seq<char>, status: u16, parsed: Option<Json>) -> Result<
    DetailedPlaylistV,
    Error,
> {
    if status != 200 {
        Err(Error::BadStatusCode)
    } else {
        match parsed {
            Some(j) => match crate::decode::spec_detailed_playlist(j) {
                Some(dp) => Ok(spec_rewrite_detailed_playlist(base, dp)),
                None => Err(Error::DeserializeError),
            },
            None => Err(Error::DeserializeError),
        }
    }
}

/// What the channel playlists endpoint yields: the `playlists` array out of
/// its envelope, decoded and left unrewritten.
pub open spec fn spec_channel_playlists_page(status: u16, parsed: Option<Json>) -> Result<
    Seq<PlaylistV>,
    Error,
> {
    if status != 200 {
        Err(Error::BadStatusCode)
    } else {
        match parsed {
            Some(Json::Obj(fs)) => match spec_obj_get(fs@, "playlists"@) {
                Some(Json::Arr(v)) => match spec_playlists(v@) {
                    Some(ps) => Ok(ps),
                    None => Err(Error::DeserializeError),
                },
                _ => Err(Error::DeserializeError),
            },
            _ => Err(Error::DeserializeError),
        }
    }
}

/// What the stats endpoint yields.
pub open spec fn spec_stats_page(status: u16, parsed: Option<Json>) -> Result<
    StatsResponseV,
    Error,
> {
    if status != 200 {
        Err(Error::BadStatusCode)
    } else {
        match parsed {
            Some(j) => match spec_stats_response(j) {
                Some(s) => Ok(s),
                None => Err(Error::DeserializeError),
            },
            None => Err(Error::DeserializeError),
        }
    }
}

impl Instance {
    fn fetch_video_page(&self, status: u16, body: &str) -> (r: Result<Vec<Content>, Error>)
        ensures
            match r {
                Ok(cs) => spec_video_page(self.uri@, status, json_of(body@)) == Ok::<
                    Seq<ContentV>,
                    Error,
                >(cs.deep_view()),
                Err(e) => spec_video_page(self.uri@, status, json_of(body@)) == Err::<
                    Seq<ContentV>,
                    Error,
                >(e),
            },
    {
        if status != 200 {
            return Err(Error::BadStatusCode);
        }
        let j = match parse_json(body) {
            Ok(j) => j,
            Err(e) => {
                return Err(e);
            },
        };
        let vs = match &j {
            Json::Arr(v) => match decode_videos(v) {
                Ok(vs) => vs,
                Err(e) => {
                    return Err(e);
                },
            },
            _ => {
                return Err(Error::DeserializeError);
            },
        };
        let mut cs = contents_of_videos(&vs);
        correct_contents(self.uri.as_str(), &mut cs);
        Ok(cs)
    }

    /// Turns the fetched popular feed into content items with absolute URLs.
    pub fn popular(&self, status: u16, body: &str) -> (r: Result<Vec<Content>, Error>)
        ensures
            match r {
                Ok(cs) => spec_video_page(self.uri@, status, json_of(body@)) == Ok::<
                    Seq<ContentV>,
                    Error,
                >(cs.deep_view()),
                Err(e) => spec_video_page(self.uri@, status, json_of(body@)) == Err::<
                    Seq<ContentV>,
                    Error,
                >(e),
            },
    {
        self.fetch_video_page(status, body)
    }

    /// Turns the fetched trending feed into content items with absolute URLs.
    pub fn trending(&self, status: u16, body: &str) -> (r: Result<Vec<Content>, Error>)
        ensures
            match r {
                Ok(cs) => spec_video_page(self.uri@, status, json_of(body@)) == Ok::<
                    Seq<ContentV>,
                    Error,
                >(cs.deep_view()),
                Err(e) => spec_video_page(self.uri@, status, json_of(body@)) == Err::<
                    Seq<ContentV>,
                    Error,
                >(e),
            },
    {
        self.fetch_video_page(status, body)
    }

    /// Turns a fetched search page into content items with absolute URLs.
    pub fn search(&self, status: u16, body: &str) -> (r: Result<Vec<Content>, Error>)
        ensures
            match r {
                Ok(cs) => spec_search_page(self.uri@, status, json_of(body@)) == Ok::<
                    Seq<ContentV>,
                    Error,
                >(cs.deep_view()),
                Err(e) => spec_search_page(self.uri@, status, json_of(body@)) == Err::<
                    Seq<ContentV>,
                    Error,
                >(e),
            },
    {
        if status != 200 {
            return Err(Error::BadStatusCode);
        }
        let j = match parse_json(body) {
            Ok(j) => j,
            Err(e) => {
                return Err(e);
            },
        };
        let mut cs = match &j {
            Json::Arr(v) => match decode_contents(v) {
                Ok(cs) => cs,
                Err(e) => {
                    return Err(e);
                },
            },
            _ => {
                return Err(Error::DeserializeError);
            },
        };
        correct_contents(self.uri.as_str(), &mut cs);
        Ok(cs)
    }

    /// Turns a fetched video detail document into its typed shape, with the
    /// video's own thumbnails and its recommended list rewritten.
    pub fn video(&self, status: u16, body: &str) -> (r: Result<DetailedVideo, Error>)
        ensures
            match r {
                Ok(dv) => spec_video_detail(self.uri@, status, json_of(body@)) == Ok::<
                    DetailedVideoV,
                    Error,
                >(dv.deep_view()),
                Err(e) => spec_video_detail(self.uri@, status, json_of(body@)) == Err::<
                    DetailedVideoV,
                    Error,
                >(e),
            },
    {
        if status != 200 {
            return Err(Error::BadStatusCode);
        }
        let j = match parse_json(body) {
            Ok(j) => j,
            Err(e) => {
                return Err(e);
            },
        };
        let mut dv = match decode_detailed_video(&j) {
            Ok(dv) => dv,
            Err(e) => {
                return Err(e);
            },
        };
        dv.correct_uri(self.uri.as_str());
        Ok(dv)
    }

    /// Turns a fetched channel detail document into its typed shape, with
    /// thumbnails, banners, related channels and recent videos rewritten.
    pub fn channel(&self, status: u16, body: &str) -> (r: Result<DetailedChannel, Error>)
        ensures
            match r {
                Ok(dc) => spec_channel_detail(self.uri@, status, json_of(body@)) == Ok::<
                    DetailedChannelV,
                    Error,
                >(dc.deep_view()),
                Err(e) => spec_channel_detail(self.uri@, status, json_of(body@)) == Err::<
                    DetailedChannelV,
                    Error,
                >(e),
            },
    {
        if status != 200 {
            return Err(Error::BadStatusCode);
        }
        let j = match parse_json(body) {
            Ok(j) => j,
            Err(e) => {
                return Err(e);
            },
        };
        let mut dc = match decode_detailed_channel(&j) {
            Ok(dc) => dc,
            Err(e) => {
                return Err(e);
            },
        };
        dc.correct_uri(self.uri.as_str());
        Ok(dc)
    }

    /// Extracts and decodes the `playlists` array of a fetched channel
    /// playlists envelope.
    pub fn channel_playlists(&self, status: u16, body: &str) -> (r: Result<Vec<Playlist>, Error>)
        ensures
            match r {
                Ok(ps) => spec_channel_playlists_page(status, json_of(body@)) == Ok::<
                    Seq<PlaylistV>,
                    Error,
                >(ps.deep_view()),
                Err(e) => spec_channel_playlists_page(status, json_of(body@)) == Err::<
                    Seq<PlaylistV>,
                    Error,
                >(e),
            },
    {
        if status != 200 {
            return Err(Error::BadStatusCode);
        }
        let j = match parse_json(body) {
            Ok(j) => j,
            Err(e) => {
                return Err(e);
            },
        };
        match &j {
            Json::Obj(fs) => match json_obj_get(fs, "playlists") {
                Some(Json::Arr(v)) => decode_playlists(v),
                _ => Err(Error::DeserializeError),
            },
            _ => Err(Error::DeserializeError),
        }
    }

    /// Turns a fetched playlist detail document into its typed shape, with
    /// its thumbnail and member videos rewritten.
    pub fn playlist(&self, status: u16, body: &str) -> (r: Result<DetailedPlaylist, Error>)
        ensures
            match r {
                Ok(dp) => spec_playlist_detail(self.uri@, status, json_of(body@)) == Ok::<
                    DetailedPlaylistV,
                    Error,
                >(dp.deep_view()),
                Err(e) => spec_playlist_detail(self.uri@, status, json_of(body@)) == Err::<
                    DetailedPlaylistV,
                    Error,
                >(e),
            },
    {
        if status != 200 {
            return Err(Error::BadStatusCode);
        }
        let j = match parse_json(body) {
            Ok(j) => j,
            Err(e) => {
                return Err(e);
            },
        };
        let mut dp = match decode_detailed_playlist(&j) {
            Ok(dp) => dp,
            Err(e) => {
                return Err(e);
            },
        };
        dp.correct_uri(self.uri.as_str());
        Ok(dp)
    }

    /// Decodes a fetched stats document.
    pub fn stats(&self, status: u16, body: &str) -> (r: Result<StatsResponse, Error>)
        ensures
            match r {
                Ok(s) => spec_stats_page(status, json_of(body@)) == Ok::<StatsResponseV, Error>(
                    s.deep_view(),
                ),
                Err(e) => spec_stats_page(status, json_of(body@)) == Err::<StatsResponseV, Error>(
                    e,
                ),
            },
    {
        if status != 200 {
            return Err(Error::BadStatusCode);
        }
        let j = match parse_json(body) {
            Ok(j) => j,
            Err(e) => {
                return Err(e);
            },
        };
        decode_stats_response(&j)
    }
}

// ---------------------------------------------------------------------------
// The public directory listing
// ---------------------------------------------------------------------------
/// One directory record: a candidate instance as the public directory
/// describes it.
#[derive(Debug)]
pub struct InstanceResponse {
    pub flag: String,
    pub region: String,
    pub stats: Option<StatsResponse>,
    pub protocol: String,
    pub uri: String,
}

/// View of [`InstanceResponse`].
pub struct InstanceResponseV {
    pub flag: Seq<char>,
    pub region: Seq<char>,
    pub stats: Option<StatsResponseV>,
    pub protocol: Seq<char>,
    pub uri: Seq<char>,
}

impl DeepView for InstanceResponse {
    type V = InstanceResponseV;

    open spec fn deep_view(&self) -> InstanceResponseV {
        InstanceResponseV {
            flag: self.flag@,
            region: self.region@,
            stats: self.stats.deep_view(),
            protocol: self.protocol@,
            uri: self.uri@,
        }
    }
}

/// The optional `stats` field of a directory record: missing or null is
/// `None`; anything else must be a stats document.
pub open spec fn spec_stats_field(fs: Seq<(String, Json)>) -> Option<Option<StatsResponseV>> {
    match spec_obj_get(fs, "stats"@) {
        None => Some(None),
        Some(Json::Null) => Some(None),
        Some(j) => match spec_stats_response(j) {
            Some(s) => Some(Some(s)),
            None => None,
        },
    }
}

/// The directory record shape: `{flag, region, stats?, type, uri}`.
pub open spec fn spec_instance_response(j: Json) -> Option<InstanceResponseV> {
    match j {
        Json::Obj(fs) => match (
            spec_str_field(fs@, "flag"@),
            spec_str_field(fs@, "region"@),
            spec_stats_field(fs@),
            spec_str_field(fs@, "type"@),
            spec_str_field(fs@, "uri"@),
        ) {
            (Some(flag), Some(region), Some(stats), Some(protocol), Some(uri)) => Some(
                InstanceResponseV { flag, region, stats, protocol, uri },
            ),
            _ => None,
        },
        _ => None,
    }
}

/// Decodes one directory record object.
pub fn decode_instance_response(j: &Json) -> (r: Result<InstanceResponse, Error>)
    ensures
        match r {
            Ok(ir) => spec_instance_response(*j) == Some(ir.deep_view()),
            Err(e) => spec_instance_response(*j) is None && e == Error::DeserializeError,
        },
{
    match j {
        Json::Obj(fs) => {
            let flag = match json_obj_get(fs, "flag") {
                Some(Json::Str(s)) => s.clone(),
                _ => {
                    return Err(Error::DeserializeError);
                },
            };
            let region = match json_obj_get(fs, "region") {
                Some(Json::Str(s)) => s.clone(),
                _ => {
                    return Err(Error::DeserializeError);
                },
            };
            let stats = match json_obj_get(fs, "stats") {
                None => None,
                Some(Json::Null) => None,
                Some(sj) => match decode_stats_response(sj) {
                    Ok(s) => Some(s),
                    Err(e) => {
                        return Err(e);
                    },
                },
            };
            let protocol = match json_obj_get(fs, "type") {
                Some(Json::Str(s)) => s.clone(),
                _ => {
                    return Err(Error::DeserializeError);
                },
            };
            let uri = match json_obj_get(fs, "uri") {
                Some(Json::Str(s)) => s.clone(),
                _ => {
                    return Err(Error::DeserializeError);
                },
            };
            Ok(InstanceResponse { flag, region, stats, protocol, uri })
        },
        _ => Err(Error::DeserializeError),
    }
}

/// One directory entry: a two-element array of a region name and a record.
pub open spec fn spec_instance_entry(j: Json) -> Option<InstanceResponseV> {
    match j {
        Json::Arr(v) => if v@.len() == 2 {
            match v@[0] {
                Json::Str(_) => spec_instance_response(v@[1]),
                _ => None,
            }
        } else {
            None
        },
        _ => None,
    }
}

/// A sequence of directory entries.
pub open spec fn spec_instance_entries(s: Seq<Json>) -> Option<Seq<InstanceResponseV>> {
    spec_decode_seq(s, |j: Json| spec_instance_entry(j))
}

fn decode_instance_entry(j: &Json) -> (r: Result<InstanceResponse, Error>)
    ensures
        match r {
            Ok(ir) => spec_instance_entry(*j) == Some(ir.deep_view()),
            Err(e) => spec_instance_entry(*j) is None && e == Error::DeserializeError,
        },
{
    match j {
        Json::Arr(v) => {
            if v.len() != 2 {
                return Err(Error::DeserializeError);
            }
            match &v[0] {
                Json::Str(_) => decode_instance_response(&v[1]),
                _ => Err(Error::DeserializeError),
            }
        },
        _ => Err(Error::DeserializeError),
    }
}

fn decode_instance_entries(arr: &Vec<Json>) -> (r: Result<Vec<InstanceResponse>, Error>)
    ensures
        match r {
            Ok(es) => spec_instance_entries(arr@) == Some(es.deep_view()),
            Err(e) => spec_instance_entries(arr@) is None && e == Error::DeserializeError,
        },
{
    let mut out: Vec<InstanceResponse> = Vec::new();
    let n = arr.len();
    let mut i: usize = 0;
    while i < n
        invariant
            i <= n,
            n == arr@.len(),
            spec_instance_entries(arr@.subrange(0, i as int)) == Some(out.deep_view()),
        decreases n - i,
    {
        match decode_instance_entry(&arr[i]) {
            Ok(ir) => {
                out.push(ir);
            },
            Err(e) => {
                proof {
                    lemma_decode_seq_none(arr@, |j: Json| spec_instance_entry(j), i as int);
                }
                return Err(e);
            },
        }
        proof {
            assert(arr@.subrange(0, i + 1).drop_last() =~= arr@.subrange(0, i as int));
            assert(arr@.subrange(0, i + 1).last() == arr@[i as int]);
        }
        i += 1;
    }
    proof {
        assert(arr@.subrange(0, n as int) =~= arr@);
    }
    Ok(out)
}

/// The instances kept from a list of directory records: those served over
/// `https`, unprobed, with `open_registrations` taken from the record's
/// stats when present and `false` otherwise.
pub open spec fn spec_instances_from(entries: Seq<InstanceResponseV>) -> Seq<InstanceV>
    decreases entries.len(),
{
    if entries.len() == 0 {
        Seq::<InstanceV>::empty()
    } else {
        let init = spec_instances_from(entries.drop_last());
        let e = entries.last();
        if e.protocol == "https"@ {
            init.push(
                InstanceV {
                    uri: e.uri,
                    info: InstanceInfo {
                        has_trending: None,
                        has_popular: None,
                        open_registrations: match e.stats {
                            Some(s) => s.open_registrations,
                            None => false,
                        },
                    },
                },
            )
        } else {
            init
        }
    }
}

/// What the directory body yields: the kept instances, or `DeserializeError`
/// when the body is not a well-formed directory listing.
pub open spec fn spec_fetch_instances(parsed: Option<Json>) -> Result<Seq<InstanceV>, Error> {
    match parsed {
        Some(Json::Arr(v)) => match spec_instance_entries(v@) {
            Some(es) => Ok(spec_instances_from(es)),
            None => Err(Error::DeserializeError),
        },
        _ => Err(Error::DeserializeError),
    }
}

/// Turns the fetched public directory listing into candidate instances:
/// keeps the records served over `https` and leaves every capability
/// unprobed.
pub fn fetch_instances(body: &str) -> (r: Result<Vec<Instance>, Error>)
    ensures
        match r {
            Ok(insts) => spec_fetch_instances(json_of(body@)) == Ok::<Seq<InstanceV>, Error>(
                insts.deep_view(),
            ),
            Err(e) => spec_fetch_instances(json_of(body@)) == Err::<Seq<InstanceV>, Error>(e),
        },
{
    let j = match parse_json(body) {
        Ok(j) => j,
        Err(e) => {
            return Err(e);
        },
    };
    let entries = match &j {
        Json::Arr(v) => match decode_instance_entries(v) {
            Ok(es) => es,
            Err(e) => {
                return Err(e);
            },
        },
        _ => {
            return Err(Error::DeserializeError);
        },
    };
    let mut out: Vec<Instance> = Vec::new();
    let n = entries.len();
    let mut i: usize = 0;
    while i < n
        invariant
            i <= n,
            n == entries@.len(),
            out.deep_view() == spec_instances_from(entries.deep_view().subrange(0, i as int)),
        decreases n - i,
    {
        let e = &entries[i];
        if crate::strutil::str_eq(e.protocol.as_str(), "https") {
            let open_registrations = match &e.stats {
                Some(s) => s.open_registrations,
                None => false,
            };
            out.push(
                Instance {
                    uri: e.uri.clone(),
                    info: InstanceInfo {
                        has_trending: None,
                        has_popular: None,
                        open_registrations,
                    },
                },
            );
        }
        proof {
            assert(entries.deep_view().subrange(0, i + 1).drop_last() =~= entries.deep_view()
                .subrange(0, i as int));
            assert(entries.deep_view().subrange(0, i + 1).last() == entries@[i as int].deep_view());
            assert(out.deep_view() =~= spec_instances_from(
                entries.deep_view().subrange(0, i + 1),
            ));
        }
        i += 1;
    }
    proof {
        assert(entries.deep_view().subrange(0, n as int) =~= entries.deep_view());
    }
    Ok(out)
}

} // verus!
