use pryvid::content::Content;
use pryvid::error::Error;
use pryvid::instance::{fetch_instances, Instance, InstanceInfo};

fn bare(uri: &str) -> Instance {
    Instance {
        uri: String::from(uri),
        info: InstanceInfo {
            has_trending: None,
            has_popular: None,
            open_registrations: false,
        },
    }
}

#[test]
fn probe_degrades_on_server_error_and_never_fails() {
    let mut a = bare("https://a.example");
    let r = a.update_info(Some((500, "[]")), Some((200, "[]")));
    assert!(r.is_ok());
    assert_eq!(a.info.has_popular, Some(false));
    assert_eq!(a.info.has_trending, Some(true));
}

#[test]
fn probe_degrades_on_non_array_body() {
    let mut a = bare("https://a.example");
    let r = a.update_info(Some((200, "{\"not\":\"an array\"}")), Some((200, "plainly not json")));
    assert!(r.is_ok());
    assert_eq!(a.info.has_popular, Some(false));
    assert_eq!(a.info.has_trending, Some(false));
}

#[test]
fn probe_degrades_on_transport_failure() {
    let mut a = bare("https://a.example");
    let r = a.update_info(None, Some((200, "[{\"whatever\":1}]")));
    assert!(r.is_ok());
    assert_eq!(a.info.has_popular, Some(false));
    assert_eq!(a.info.has_trending, Some(true));
    assert!(!a.info.open_registrations);
    assert_eq!(a.uri, "https://a.example");
}

#[test]
fn end_to_end_popular_flow_yields_an_absolute_thumbnail() {
    let mut a = bare("https://a.example");
    a.update_info(Some((200, "[]")), None).unwrap();
    let client = pryvid::client::InvidiousClient::new(vec![a]);
    let chosen = client.get_popular_instance().expect("a.example supports popular");
    assert_eq!(chosen.uri, "https://a.example");

    let body = r#"[{"videoId":"v1","title":"First","viewCount":12,"lengthSeconds":34,
        "author":"Someone","authorId":"c1","publishedText":"today",
        "videoThumbnails":[{"url":"/vi/v1/default.jpg","width":1,"height":1,"quality":"default"}]}]"#;
    let items = chosen.popular(200, body).expect("the page decodes");
    assert_eq!(items.len(), 1);
    match &items[0] {
        Content::Video(v) => {
            assert_eq!(v.id, "v1");
            assert_eq!(v.title, "First");
            assert_eq!(v.views, 12);
            assert_eq!(v.length, 34);
            assert_eq!(v.thumbnails.len(), 1);
            assert_eq!(v.thumbnails[0].uri, "https://a.example/vi/v1/default.jpg");
        },
        other => panic!("expected a video, got {other:?}"),
    }
}

#[test]
fn feed_pages_reject_non_success_statuses() {
    let a = bare("https://a.example");
    assert!(matches!(a.popular(500, "[]"), Err(Error::BadStatusCode)));
    assert!(matches!(a.trending(404, "[]"), Err(Error::BadStatusCode)));
    assert!(matches!(a.search(301, "[]"), Err(Error::BadStatusCode)));
}

#[test]
fn feed_pages_reject_malformed_bodies() {
    let a = bare("https://a.example");
    assert!(matches!(a.popular(200, "{}"), Err(Error::DeserializeError)));
    assert!(matches!(a.popular(200, "not json"), Err(Error::DeserializeError)));
    assert!(matches!(a.popular(200, "[{\"viewCount\":\"12\"}]"), Err(Error::DeserializeError)));
}

#[test]
fn video_summaries_default_their_missing_fields() {
    let a = bare("https://a.example");
    let items = a.popular(200, "[{}]").expect("an empty object is a defaulted video");
    assert_eq!(items.len(), 1);
    match &items[0] {
        Content::Video(v) => {
            assert_eq!(v.title, "");
            assert_eq!(v.id, "");
            assert_eq!(v.views, 0);
            assert_eq!(v.length, 0);
            assert!(v.thumbnails.is_empty());
        },
        other => panic!("expected a video, got {other:?}"),
    }
}

#[test]
fn oversized_length_is_a_deserialize_error() {
    let a = bare("https://a.example");
    let r = a.popular(200, "[{\"lengthSeconds\":4294967296}]");
    assert!(matches!(r, Err(Error::DeserializeError)));
}

#[test]
fn negative_and_fractional_counts_are_deserialize_errors() {
    let a = bare("https://a.example");
    assert!(matches!(a.popular(200, "[{\"viewCount\":-5}]"), Err(Error::DeserializeError)));
    assert!(matches!(a.popular(200, "[{\"viewCount\":1.5}]"), Err(Error::DeserializeError)));
}

#[test]
fn thumbnail_without_a_quality_field_decodes_to_none() {
    let a = bare("https://a.example");
    let body = r#"[{"videoId":"v1","videoThumbnails":[{"url":"x","width":1,"height":1}]}]"#;
    let items = a.popular(200, body).unwrap();
    match &items[0] {
        Content::Video(v) => assert_eq!(v.thumbnails[0].quality, None),
        other => panic!("expected a video, got {other:?}"),
    }
}

#[test]
fn search_decodes_heterogeneous_content() {
    let a = bare("https://inv.example");
    let body = r#"[
        {"type":"video","videoId":"v1","videoThumbnails":[{"url":"//cdn.example/v1.jpg","width":2,"height":2,"quality":null}]},
        {"type":"playlist","title":"Mix","playlistId":"p1","author":"A","authorId":"c1","videoCount":3,"playlistThumbnail":"/vi/v1/mq.jpg"},
        {"type":"channel","author":"Chan","authorId":"c2","subCount":42,"authorThumbnails":[]}
    ]"#;
    let items = a.search(200, body).expect("the search page decodes");
    assert_eq!(items.len(), 3);
    match &items[0] {
        Content::Video(v) => {
            assert_eq!(v.thumbnails[0].uri, "https://cdn.example/v1.jpg");
            assert_eq!(v.thumbnails[0].quality, None);
        },
        other => panic!("expected a video, got {other:?}"),
    }
    match &items[1] {
        Content::Playlist(p) => {
            assert_eq!(p.thumbnail, "https://inv.example/vi/v1/mq.jpg");
            assert_eq!(p.video_count, 3);
        },
        other => panic!("expected a playlist, got {other:?}"),
    }
    match &items[2] {
        Content::Channel(c) => {
            assert_eq!(c.title, "Chan");
            assert_eq!(c.subscribers, 42);
        },
        other => panic!("expected a channel, got {other:?}"),
    }
}

#[test]
fn search_rejects_an_unknown_tag() {
    let a = bare("https://a.example");
    let r = a.search(200, "[{\"type\":\"movie\"}]");
    assert!(matches!(r, Err(Error::DeserializeError)));
    let r = a.search(200, "[{\"title\":\"untagged\"}]");
    assert!(matches!(r, Err(Error::DeserializeError)));
}

#[test]
fn video_detail_decodes_and_rewrites_recommended() {
    let a = bare("https://inv.example");
    let body = r#"{
        "title":"T","videoId":"v9","description":"d","descriptionHtml":"<p>d</p>",
        "publishedText":"now","lengthSeconds":120,"author":"A","authorId":"c1",
        "viewCount":1000,"likeCount":10,"dislikeCount":2,"subCountText":"1K",
        "videoThumbnails":[{"url":"/vi/v9/max.jpg","width":4,"height":3,"quality":"max"}],
        "authorThumbnails":[],
        "formatStreams":[{"url":"https://inv.example/stream","quality":"720p","fps":30,"resolution":"1280x720","size":"1280x720"}],
        "captions":[{"label":"English","language_code":"en","url":"/api/v1/captions/v9"}],
        "recommendedVideos":[{"videoId":"v10","videoThumbnails":[{"url":"/vi/v10/mq.jpg","width":1,"height":1,"quality":"mq"}]}]
    }"#;
    let v = a.video(200, body).expect("the detail decodes");
    assert_eq!(v.id, "v9");
    assert_eq!(v.likes, 10);
    assert_eq!(v.thumbnails[0].uri, "https://inv.example/vi/v9/max.jpg");
    assert_eq!(v.recommended.len(), 1);
    assert_eq!(v.recommended[0].thumbnails[0].uri, "https://inv.example/vi/v10/mq.jpg");
    assert_eq!(v.captions[0].language_code, "en");
    assert_eq!(v.format_streams[0].fps, 30);
}

#[test]
fn video_detail_requires_every_field() {
    let a = bare("https://a.example");
    let r = a.video(200, "{\"videoId\":\"v9\"}");
    assert!(matches!(r, Err(Error::DeserializeError)));
}

#[test]
fn channel_detail_decodes_and_rewrites_nested_items() {
    let a = bare("https://inv.example");
    let body = r#"{
        "author":"Chan","authorId":"c7",
        "authorThumbnails":[{"url":"//cdn.example/c7.jpg","width":1,"height":1,"quality":null}],
        "authorBanners":[{"url":"/vi/banner.jpg","width":9,"height":1,"quality":"max"}],
        "subCount":7,"totalViews":123456789,
        "description":"d","descriptionHtml":"<p>d</p>","authorVerified":true,
        "latestVideos":[{"videoId":"v1","videoThumbnails":[{"url":"/vi/v1/d.jpg","width":1,"height":1,"quality":"d"}]}],
        "relatedChannels":[{"author":"Other","authorId":"c8","subCount":1,
            "authorThumbnails":[{"url":"/vi/c8.jpg","width":1,"height":1,"quality":null}]}]
    }"#;
    let c = a.channel(200, body).expect("the detail decodes");
    assert_eq!(c.title, "Chan");
    assert!(c.verified);
    assert_eq!(c.total_views, 123456789);
    assert_eq!(c.thumbnails[0].uri, "https://cdn.example/c7.jpg");
    assert_eq!(c.banners[0].uri, "https://inv.example/vi/banner.jpg");
    assert_eq!(c.videos[0].thumbnails[0].uri, "https://inv.example/vi/v1/d.jpg");
    assert_eq!(c.related_channels[0].thumbnails[0].uri, "https://inv.example/vi/c8.jpg");
}

#[test]
fn channel_playlists_unwraps_the_envelope() {
    let a = bare("https://a.example");
    let body = r#"{"playlists":[
        {"title":"L","playlistId":"p1","author":"A","authorId":"c1","videoCount":2,"playlistThumbnail":"t"}
    ],"continuation":"xyz"}"#;
    let ps = a.channel_playlists(200, body).expect("the envelope decodes");
    assert_eq!(ps.len(), 1);
    assert_eq!(ps[0].id, "p1");
    assert!(matches!(
        a.channel_playlists(200, "{\"playlists\":{}}"),
        Err(Error::DeserializeError)
    ));
    assert!(matches!(a.channel_playlists(200, "[]"), Err(Error::DeserializeError)));
}

#[test]
fn playlist_detail_decodes_and_rewrites_member_videos() {
    let a = bare("https://inv.example");
    let body = r#"{
        "title":"Mix","playlistId":"p9","author":"A","authorId":"c1","videoCount":1,
        "playlistThumbnail":"/vi/p9/thumb.jpg",
        "videos":[{"videoId":"v1","videoThumbnails":[{"url":"/vi/v1/d.jpg","width":1,"height":1,"quality":"d"}]}]
    }"#;
    let p = a.playlist(200, body).expect("the detail decodes");
    assert_eq!(p.thumbnail, "https://inv.example/vi/p9/thumb.jpg");
    assert_eq!(p.videos[0].thumbnails[0].uri, "https://inv.example/vi/v1/d.jpg");
}

#[test]
fn stats_decodes_version_and_registrations() {
    let a = bare("https://a.example");
    let s = a.stats(200, "{\"version\":\"2.0\",\"openRegistrations\":true}").unwrap();
    assert_eq!(s.version, "2.0");
    assert!(s.open_registrations);
    assert!(matches!(a.stats(502, "{}"), Err(Error::BadStatusCode)));
    assert!(matches!(a.stats(200, "{\"version\":\"2.0\"}"), Err(Error::DeserializeError)));
}

#[test]
fn ping_reports_latency_only_for_ok_statuses() {
    let a = bare("https://a.example");
    assert_eq!(a.ping(200, 37), Ok(37));
    assert!(matches!(a.ping(404, 37), Err(Error::BadStatusCode)));
    assert!(matches!(a.ping(301, 5), Err(Error::BadStatusCode)));
}

#[test]
fn from_uri_normalizes_and_reads_the_stats_document() {
    let inst = Instance::from_uri(" inv.example/ ", "{\"version\":\"2.0\",\"openRegistrations\":true}")
        .expect("a stats document makes an instance");
    assert_eq!(inst.uri, "https://inv.example");
    assert!(inst.info.open_registrations);
    assert_eq!(inst.info.has_popular, None);
    assert_eq!(inst.info.has_trending, None);
}

#[test]
fn from_uri_distinguishes_incompatible_servers() {
    let r = Instance::from_uri("inv.example", "<html>not a stats document</html>");
    assert!(matches!(r, Err(Error::DeserializeError)));
    let r = Instance::from_uri("inv.example", "{\"name\":\"something else\"}");
    assert!(matches!(r, Err(Error::DeserializeError)));
}

#[test]
fn directory_listing_keeps_only_https_records() {
    let body = r#"[
        ["US",{"flag":"us","region":"US","type":"https","uri":"https://a.example",
               "stats":{"version":"2.0","openRegistrations":true}}],
        ["DE",{"flag":"de","region":"DE","type":"onion","uri":"http://x.onion","stats":null}],
        ["FR",{"flag":"fr","region":"FR","type":"https","uri":"https://b.example"}]
    ]"#;
    let instances = fetch_instances(body).expect("the listing decodes");
    assert_eq!(instances.len(), 2);
    assert_eq!(instances[0].uri, "https://a.example");
    assert!(instances[0].info.open_registrations);
    assert_eq!(instances[0].info.has_popular, None);
    assert_eq!(instances[1].uri, "https://b.example");
    assert!(!instances[1].info.open_registrations);
}

#[test]
fn directory_listing_rejects_malformed_entries() {
    assert!(matches!(fetch_instances("{}"), Err(Error::DeserializeError)));
    assert!(matches!(fetch_instances("[[\"US\"]]"), Err(Error::DeserializeError)));
    assert!(matches!(
        fetch_instances("[[\"US\",{\"flag\":\"us\",\"region\":\"US\",\"type\":\"https\"}]]"),
        Err(Error::DeserializeError)
    ));
}

#[test]
fn url_builders_compose_the_documented_paths() {
    let a = bare("https://a.example");
    assert_eq!(a.stats_url(), "https://a.example/api/v1/stats");
    assert_eq!(a.popular_url(), "https://a.example/api/v1/popular");
    assert_eq!(a.trending_url(), "https://a.example/api/v1/trending");
    assert_eq!(a.video_url("v1"), "https://a.example/api/v1/videos/v1");
    assert_eq!(a.channel_url("c1"), "https://a.example/api/v1/channels/c1");
    assert_eq!(a.channel_playlists_url("c1"), "https://a.example/api/v1/channels/c1/playlists");
    assert_eq!(a.playlist_url("p1"), "https://a.example/api/v1/playlists/p1");
    assert_eq!(a.ping_url(None), "https://a.example/");
    assert_eq!(a.ping_url(Some("/api/v1/stats")), "https://a.example/api/v1/stats");
}

#[test]
fn search_url_percent_encodes_the_query() {
    let a = bare("https://a.example");
    assert_eq!(a.search_url("abc"), "https://a.example/api/v1/search?q=abc");
    assert_eq!(a.search_url("rust tutorial"), "https://a.example/api/v1/search?q=rust%20tutorial");
    assert_eq!(a.search_url("a&b=c"), "https://a.example/api/v1/search?q=a%26b%3Dc");
}
