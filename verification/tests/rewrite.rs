use pryvid::content::Thumbnail;
use pryvid::error::Error;
use pryvid::uri::{correct_uri, format_input_uri};
use pryvid::utils::format_number_magnitude;

#[test]
fn rewriting_an_absolute_url_is_a_no_op() {
    assert_eq!(correct_uri("https://inv.example", "https://x/y"), "https://x/y");
    assert_eq!(correct_uri("https://inv.example", "http://cdn.example/img.jpg"), "http://cdn.example/img.jpg");
}

#[test]
fn rewriting_an_instance_relative_path_prepends_the_base() {
    assert_eq!(
        correct_uri("https://inv.example", "/vi/abc/default.jpg"),
        "https://inv.example/vi/abc/default.jpg"
    );
}

#[test]
fn rewriting_a_protocol_relative_path_prepends_https() {
    assert_eq!(correct_uri("https://inv.example", "//img.example/a.jpg"), "https://img.example/a.jpg");
}

#[test]
fn rewriting_twice_changes_nothing_more() {
    let base = "https://inv.example";
    for u in ["/vi/abc/d.jpg", "//img.example/a.jpg", "https://x/y", "relative/path.jpg"] {
        let once = correct_uri(base, u);
        let twice = correct_uri(base, once.as_str());
        assert_eq!(once, twice);
    }
}

#[test]
fn thumbnail_rewriting_touches_only_the_url() {
    let mut t = Thumbnail {
        quality: Some(String::from("maxres")),
        uri: String::from("/vi/abc/maxres.jpg"),
        width: 1280,
        height: 720,
    };
    t.correct_uri("https://inv.example");
    assert_eq!(t.uri, "https://inv.example/vi/abc/maxres.jpg");
    assert_eq!(t.quality.as_deref(), Some("maxres"));
    assert_eq!(t.width, 1280);
    assert_eq!(t.height, 720);
}

#[test]
fn input_uri_normalization_trims_and_prepends_a_scheme() {
    assert_eq!(format_input_uri("  https://x.example/  "), "https://x.example");
    assert_eq!(format_input_uri("x.example"), "https://x.example");
    assert_eq!(format_input_uri("http://x.example"), "http://x.example");
    assert_eq!(format_input_uri("ftp5://x.example"), "ftp5://x.example");
    assert_eq!(format_input_uri("Weird://x"), "https://Weird://x");
    assert_eq!(format_input_uri("x.example///"), "https://x.example");
    assert_eq!(format_input_uri("\thttps://y.example\n"), "https://y.example");
}

#[test]
fn input_uri_normalization_trims_all_unicode_whitespace() {
    assert_eq!(format_input_uri("\u{000B}a"), "https://a");
    assert_eq!(format_input_uri("\u{00A0}x.example\u{00A0}"), "https://x.example");
    assert_eq!(format_input_uri("\u{3000}https://y.example\u{2003}"), "https://y.example");
    assert_eq!(format_input_uri("\u{0085}\u{2028}z.example/\u{202F}"), "https://z.example");
    assert_eq!(format_input_uri(" inv.example/ ".trim()), "https://inv.example");
}

#[test]
fn number_magnitude_formatting_matches_the_thresholds() {
    assert_eq!(format_number_magnitude(0), "0");
    assert_eq!(format_number_magnitude(532), "532");
    assert_eq!(format_number_magnitude(999), "999");
    assert_eq!(format_number_magnitude(1000), "1K");
    assert_eq!(format_number_magnitude(1500), "1K");
    assert_eq!(format_number_magnitude(999999), "999K");
    assert_eq!(format_number_magnitude(1000000), "1M");
    assert_eq!(format_number_magnitude(3200000), "3M");
    assert_eq!(format_number_magnitude(999999999), "999M");
    assert_eq!(format_number_magnitude(1000000000), "1B");
    assert_eq!(format_number_magnitude(7654321098), "7B");
}

#[test]
fn error_messages_name_each_failure() {
    assert_eq!(Error::InstanceExists.message(), "Instance already exists");
    assert_eq!(Error::RequestError.message(), "Request failed");
    assert_eq!(Error::IoError.message(), "IO error");
    assert_eq!(Error::PoisonError.message(), "Thread with lock panicked");
    assert_eq!(Error::OutOfBounds.message(), "Tried to get instance at non-existent index");
    assert_eq!(Error::DeserializeError.message(), "Failed to deserialize");
    assert_eq!(Error::AtLeastOneInstance.message(), "Must have at least one instance");
    assert_eq!(Error::InstanceNotFound.message(), "Instance not found");
    assert_eq!(Error::BadStatusCode.message(), "Instance returned bad status code");
}
