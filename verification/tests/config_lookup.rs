use webkitten::config::Config;
use webkitten::ui::BrowserConfiguration;

fn parse(doc: &str) -> Config {
    Config::parse(doc).expect("document should parse")
}

#[test]
fn missing_paths_are_absent() {
    let cfg = parse("");
    assert_eq!(cfg.lookup_str("window.start-page"), None);
    assert_eq!(cfg.lookup_bool("general.private-browsing"), None);
    assert_eq!(cfg.lookup_str_vec("commands.search-paths"), None);
    assert_eq!(cfg.start_page(), None);
    assert_eq!(cfg.default_command(), None);
}

#[test]
fn typed_lookups_read_the_tree() {
    let doc = "[window]\nstart-page = \"https://example.com\"\n\
               [general]\nprivate-browsing = true\n\
               [commands]\nsearch-paths = [\"/a\", \"/b\"]\n";
    let cfg = parse(doc);
    assert_eq!(cfg.start_page(), Some(String::from("https://example.com")));
    assert_eq!(cfg.lookup_bool("general.private-browsing"), Some(true));
    assert_eq!(
        cfg.lookup_str_vec("commands.search-paths"),
        Some(vec![String::from("/a"), String::from("/b")])
    );
}

#[test]
fn type_mismatch_is_absent() {
    let doc = "[general]\nprivate-browsing = \"yes\"\ncontent-filter = true\n";
    let cfg = parse(doc);
    assert_eq!(cfg.lookup_bool("general.private-browsing"), None);
    assert_eq!(cfg.lookup_str("general.content-filter"), None);
    assert_eq!(cfg.content_filter_path(), None);
}

#[test]
fn arrays_with_a_non_string_element_are_absent() {
    let cfg = parse("[commands]\nsearch-paths = [\"/a\", 3]\n");
    assert_eq!(cfg.lookup_str_vec("commands.search-paths"), None);
    assert!(cfg.command_search_paths().is_empty());
}

#[test]
fn unparseable_document_fails_parse() {
    assert!(Config::parse("not = = toml").is_none());
}

#[test]
fn substitution_round_trip() {
    let doc = "[general]\nconfig-dir = \"/home/me/cfg\"\n\
               [window]\nstart-page = \"CONFIG_DIR/start.html\"\n";
    let cfg = parse(doc);
    assert_eq!(
        cfg.lookup_str("window.start-page"),
        Some(String::from("/home/me/cfg/start.html"))
    );
    assert_eq!(
        cfg.lookup_raw_str("window.start-page"),
        Some(String::from("CONFIG_DIR/start.html"))
    );
    assert_eq!(cfg.config_dir(), Some(String::from("/home/me/cfg")));
}

#[test]
fn substitution_applies_to_each_list_element() {
    let doc = "[general]\nconfig-dir = \"/cfg\"\n\
               [commands]\nsearch-paths = [\"CONFIG_DIR/scripts\", \"/plain\"]\n";
    let cfg = parse(doc);
    assert_eq!(
        cfg.command_search_paths(),
        vec![String::from("/cfg/scripts"), String::from("/plain")]
    );
}

#[test]
fn site_override_wins_over_general() {
    let doc = "[general]\nprivate-browsing = false\nallow-plugins = false\n\
               [sites.\"example.com\"]\nprivate-browsing = true\nallow-plugins = true\n";
    let cfg = parse(doc);
    assert!(cfg.use_private_browsing("https://example.com/some/page"));
    assert!(cfg.use_plugins("https://example.com:8080/x"));
    assert!(!cfg.use_private_browsing("https://other.org/"));
    assert!(!cfg.use_plugins("https://other.org/"));
}

#[test]
fn general_value_applies_without_override() {
    let doc = "[general]\nprivate-browsing = true\n";
    let cfg = parse(doc);
    assert!(cfg.use_private_browsing("https://anything.net/"));
    assert_eq!(cfg.lookup_site_bool("https://anything.net/", "private-browsing"), None);
}

#[test]
fn site_lookups_use_the_host() {
    let doc = "[sites.\"example.com\"]\nskip-content-filter = true\nlabel = \"ex\"\n";
    let cfg = parse(doc);
    assert_eq!(
        cfg.lookup_site_bool("https://example.com/deep/path?q=1", "skip-content-filter"),
        Some(true)
    );
    assert_eq!(
        cfg.lookup_site_bool("example.com/no-scheme", "skip-content-filter"),
        Some(true)
    );
    assert_eq!(cfg.lookup_site_str("https://example.com/", "label"), Some(String::from("ex")));
    assert_eq!(cfg.lookup_site_bool("https://example.org/", "skip-content-filter"), None);
}

#[test]
fn content_filter_gates_skipping() {
    let unfiltered = parse("");
    assert!(unfiltered.skip_content_filter("https://example.com/"));
    let doc = "[general]\ncontent-filter = \"/filter.json\"\n\
               [sites.\"example.com\"]\nskip-content-filter = true\n";
    let cfg = parse(doc);
    assert!(cfg.skip_content_filter("https://example.com/"));
    assert!(!cfg.skip_content_filter("https://other.org/"));
}

#[test]
fn aliases_and_disabled_names() {
    let doc = "[commands]\ndisabled = [\"open\"]\n[commands.aliases]\no = \"open\"\ng = \"go\"\n";
    let cfg = parse(doc);
    assert!(cfg.command_disabled("open"));
    assert!(!cfg.command_disabled("go"));
    assert_eq!(cfg.resolved_command_name("g"), Some(String::from("go")));
    assert_eq!(cfg.resolved_command_name("o"), None);
    assert_eq!(cfg.resolved_command_name("open"), None);
    assert_eq!(cfg.resolved_command_name("other"), Some(String::from("other")));
}

#[test]
fn command_matching_prefix_completes_the_text() {
    let doc = "[commands.on-text-change]\n\"/\" = \"find\"\n";
    let cfg = parse(doc);
    assert_eq!(cfg.command_matching_prefix("/needle"), Some(String::from("find needle")));
    assert_eq!(cfg.command_matching_prefix("needle"), None);
    assert_eq!(cfg.command_matching_prefix(""), None);
}

#[test]
fn uri_event_commands_per_event() {
    let doc = "[commands]\non-load-uri = [\"loaded\"]\non-request-uri = [\"requested\"]\n";
    let cfg = parse(doc);
    assert_eq!(
        cfg.on_uri_event_commands(webkitten::ui::URIEvent::Load),
        vec![String::from("loaded")]
    );
    assert_eq!(
        cfg.on_uri_event_commands(webkitten::ui::URIEvent::Request),
        vec![String::from("requested")]
    );
    assert!(cfg.on_uri_event_commands(webkitten::ui::URIEvent::Fail).is_empty());
}

#[test]
fn load_swaps_only_on_success() {
    let mut cfg = parse("[window]\nstart-page = \"a\"\n");
    assert!(cfg.load("[window]\nstart-page = \"b\"\n"));
    assert_eq!(cfg.start_page(), Some(String::from("b")));
    assert!(!cfg.load("not = = toml"));
    assert_eq!(cfg.start_page(), Some(String::from("b")));
}

#[test]
fn quoted_key_segments_keep_their_dots() {
    let segs = webkitten::text::split_segments("sites.\"example.com\".private-browsing");
    assert_eq!(
        segs,
        vec![
            String::from("sites"),
            String::from("example.com"),
            String::from("private-browsing")
        ]
    );
    assert_eq!(webkitten::text::split_segments("a.b"), vec![String::from("a"), String::from("b")]);
}

#[test]
fn host_extraction() {
    assert_eq!(webkitten::text::host_of_uri("https://example.com:8080/p?q#f"), "example.com");
    assert_eq!(webkitten::text::host_of_uri("example.com/p"), "example.com");
    assert_eq!(webkitten::text::host_of_uri("https://example.com"), "example.com");
}
