use pryvid::client::InvidiousClient;
use pryvid::error::Error;
use pryvid::instance::{Instance, InstanceInfo};

fn inst(uri: &str, trending: Option<bool>, popular: Option<bool>) -> Instance {
    Instance {
        uri: String::from(uri),
        info: InstanceInfo {
            has_trending: trending,
            has_popular: popular,
            open_registrations: false,
        },
    }
}

#[test]
fn empty_pool_is_seeded_with_fallback() {
    let client = InvidiousClient::new(Vec::new());
    let pool = client.instances();
    assert_eq!(pool.len(), 1);
    assert_eq!(pool[0].uri, "https://vid.puffyan.us");
    assert_eq!(pool[0].info.has_trending, Some(true));
    assert_eq!(pool[0].info.has_popular, Some(true));
    assert!(pool[0].info.open_registrations);
    assert!(client.selected_instance().is_none());
}

#[test]
fn nonempty_pool_is_kept_as_given() {
    let client = InvidiousClient::new(vec![inst("https://a.example", None, None)]);
    let pool = client.instances();
    assert_eq!(pool.len(), 1);
    assert_eq!(pool[0].uri, "https://a.example");
}

#[test]
fn pool_never_reaches_zero() {
    let mut client = InvidiousClient::new(vec![
        inst("https://a.example", None, None),
        inst("https://b.example", None, None),
    ]);
    assert!(client.remove_instance("https://a.example").is_ok());
    assert_eq!(client.instances().len(), 1);
    let refused = client.remove_instance("https://b.example");
    assert!(matches!(refused, Err(Error::AtLeastOneInstance)));
    assert_eq!(client.instances().len(), 1);
    assert_eq!(client.instances()[0].uri, "https://b.example");
}

#[test]
fn remove_of_absent_uri_is_not_found() {
    let mut client = InvidiousClient::new(vec![
        inst("https://a.example", None, None),
        inst("https://b.example", None, None),
    ]);
    let r = client.remove_instance("https://c.example");
    assert!(matches!(r, Err(Error::InstanceNotFound)));
    assert_eq!(client.instances().len(), 2);
}

#[test]
fn duplicate_push_is_refused() {
    let mut client = InvidiousClient::new(vec![inst("https://a.example", None, None)]);
    let r = client.push_instance(inst("https://a.example", Some(true), None));
    assert!(matches!(r, Err(Error::InstanceExists)));
    assert_eq!(client.instances().len(), 1);
    assert!(client.push_instance(inst("https://b.example", None, None)).is_ok());
    assert_eq!(client.instances().len(), 2);
    assert_eq!(client.instances()[1].uri, "https://b.example");
}

#[test]
fn removing_the_selected_instance_clears_the_pin() {
    let mut client = InvidiousClient::new(vec![
        inst("https://a.example", None, None),
        inst("https://b.example", None, None),
    ]);
    let a = client.instances()[0].clone();
    assert!(client.select_instance(Some(&a)).is_ok());
    assert!(client.is_selected(&a));
    assert!(client.remove_instance("https://a.example").is_ok());
    assert!(client.selected_instance().is_none());
    assert_eq!(client.instances().len(), 1);
}

#[test]
fn removing_an_unselected_instance_keeps_the_pin() {
    let mut client = InvidiousClient::new(vec![
        inst("https://a.example", None, None),
        inst("https://b.example", None, None),
    ]);
    let b = client.instances()[1].clone();
    assert!(client.select_instance(Some(&b)).is_ok());
    assert!(client.remove_instance("https://a.example").is_ok());
    let pinned = client.selected_instance().expect("pin should survive");
    assert_eq!(pinned.uri, "https://b.example");
}

#[test]
fn capability_filtering_never_picks_ineligible_instances() {
    let client = InvidiousClient::new(vec![
        inst("https://a.example", Some(true), None),
        inst("https://b.example", Some(false), None),
        inst("https://c.example", None, None),
    ]);
    for _ in 0..200 {
        let chosen = client.get_trending_instance().expect("one instance is eligible");
        assert_eq!(chosen.uri, "https://a.example");
    }
}

#[test]
fn capability_filtering_with_no_eligible_instance_fails() {
    let client = InvidiousClient::new(vec![
        inst("https://b.example", Some(false), Some(false)),
        inst("https://c.example", None, None),
    ]);
    assert!(matches!(client.get_trending_instance(), Err(Error::InstanceNotFound)));
    assert!(matches!(client.get_popular_instance(), Err(Error::InstanceNotFound)));
}

#[test]
fn popular_filtering_follows_the_popular_flag() {
    let client = InvidiousClient::new(vec![
        inst("https://a.example", Some(false), Some(true)),
        inst("https://b.example", Some(true), Some(false)),
    ]);
    for _ in 0..50 {
        assert_eq!(client.get_popular_instance().unwrap().uri, "https://a.example");
        assert_eq!(client.get_trending_instance().unwrap().uri, "https://b.example");
    }
}

#[test]
fn pinned_instance_wins_over_random_choice() {
    let mut client = InvidiousClient::new(vec![
        inst("https://a.example", None, None),
        inst("https://b.example", None, None),
    ]);
    let b = client.instances()[1].clone();
    client.select_instance(Some(&b)).unwrap();
    for _ in 0..50 {
        assert_eq!(client.get_instance().uri, "https://b.example");
    }
    client.select_instance(None).unwrap();
    assert!(client.selected_instance().is_none());
}

#[test]
fn random_selection_visits_every_instance_roughly_evenly() {
    let client = InvidiousClient::new(vec![
        inst("https://a.example", None, None),
        inst("https://b.example", None, None),
        inst("https://c.example", None, None),
    ]);
    let mut counts = [0usize; 3];
    let draws = 3000;
    for _ in 0..draws {
        let chosen = client.get_instance();
        match chosen.uri.as_str() {
            "https://a.example" => counts[0] += 1,
            "https://b.example" => counts[1] += 1,
            "https://c.example" => counts[2] += 1,
            other => panic!("instance from outside the pool: {other}"),
        }
    }
    for &c in counts.iter() {
        assert!(c > draws / 6, "count {c} of {draws} is far below a uniform share");
        assert!(c < draws / 2, "count {c} of {draws} is far above a uniform share");
    }
}

#[test]
fn select_by_index_accepts_the_last_index_and_rejects_the_length() {
    let mut client = InvidiousClient::new(vec![
        inst("https://a.example", None, None),
        inst("https://b.example", None, None),
    ]);
    assert!(client.select_instance_by_index(1).is_ok());
    assert_eq!(client.selected_instance().unwrap().uri, "https://b.example");
    assert!(client.select_instance_by_index(0).is_ok());
    assert_eq!(client.selected_instance().unwrap().uri, "https://a.example");
    let r = client.select_instance_by_index(2);
    assert!(matches!(r, Err(Error::OutOfBounds)));
    assert_eq!(client.selected_instance().unwrap().uri, "https://a.example");
}

#[test]
fn select_by_name_pins_the_named_instance() {
    let mut client = InvidiousClient::new(vec![
        inst("https://a.example", None, None),
        inst("https://b.example", None, None),
    ]);
    assert!(client.select_instance_by_name("https://b.example").is_ok());
    assert_eq!(client.selected_instance().unwrap().uri, "https://b.example");
    let r = client.select_instance_by_name("https://missing.example");
    assert!(matches!(r, Err(Error::InstanceNotFound)));
    assert_eq!(client.selected_instance().unwrap().uri, "https://b.example");
}

#[test]
fn dedupe_keeps_the_first_occurrence_of_each_uri() {
    let deduped = pryvid::client::dedupe_instances(vec![
        inst("https://a.example", Some(true), None),
        inst("https://b.example", None, None),
        inst("https://a.example", Some(false), Some(true)),
        inst("https://b.example", None, Some(true)),
        inst("https://c.example", None, None),
    ]);
    assert_eq!(deduped.len(), 3);
    assert_eq!(deduped[0].uri, "https://a.example");
    assert_eq!(deduped[0].info.has_trending, Some(true));
    assert_eq!(deduped[1].uri, "https://b.example");
    assert_eq!(deduped[2].uri, "https://c.example");
    let client = InvidiousClient::new(deduped);
    assert_eq!(client.instances().len(), 3);
}

#[test]
fn membership_and_selection_queries() {
    let mut client = InvidiousClient::new(vec![inst("https://a.example", None, None)]);
    let a = client.instances()[0].clone();
    let stranger = inst("https://z.example", None, None);
    assert!(client.is_added(&a));
    assert!(!client.is_added(&stranger));
    assert!(!client.is_selected(&a));
    client.select_instance(Some(&a)).unwrap();
    assert!(client.is_selected(&a));
    assert!(!client.is_selected(&stranger));
}
