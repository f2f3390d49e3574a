use webkitten::command::Command;

fn no_strings() -> Vec<String> {
    Vec::new()
}

fn alias_o_open() -> Vec<(String, String)> {
    vec![(String::from("o"), String::from("open"))]
}

#[test]
fn alias_and_first_present_directory_resolve() {
    let paths = vec![String::from("/scripts")];
    let present = vec![true];
    let c = Command::resolve_in(
        "o https://example.com",
        &paths,
        &no_strings(),
        &alias_o_open(),
        "lua",
        &present,
    )
    .expect("should resolve");
    assert_eq!(c.path, "/scripts/open.lua");
    assert_eq!(c.arguments, "https://example.com");
}

#[test]
fn earlier_directory_wins() {
    let paths = vec![String::from("/a"), String::from("/b")];
    let present = vec![true, true];
    let c = Command::resolve_in("open x", &paths, &no_strings(), &Vec::new(), "lua", &present)
        .expect("should resolve");
    assert_eq!(c.path, "/a/open.lua");
    let later_only = vec![false, true];
    let c2 = Command::resolve_in("open x", &paths, &no_strings(), &Vec::new(), "lua", &later_only)
        .expect("should resolve");
    assert_eq!(c2.path, "/b/open.lua");
}

#[test]
fn disabled_commands_never_resolve() {
    let paths = vec![String::from("/scripts")];
    let present = vec![true];
    let disabled = vec![String::from("open")];
    let r = Command::resolve_in(
        "o anything",
        &paths,
        &disabled,
        &alias_o_open(),
        "lua",
        &present,
    );
    assert!(r.is_none());
    let direct = Command::resolve_in("open x", &paths, &disabled, &Vec::new(), "lua", &present);
    assert!(direct.is_none());
}

#[test]
fn empty_name_never_resolves() {
    let paths = vec![String::from("/scripts")];
    let present = vec![true];
    assert!(Command::resolve_in("", &paths, &no_strings(), &Vec::new(), "lua", &present).is_none());
    assert!(
        Command::resolve_in(" rest", &paths, &no_strings(), &Vec::new(), "lua", &present).is_none()
    );
}

#[test]
fn absent_everywhere_never_resolves() {
    let paths = vec![String::from("/a"), String::from("/b")];
    let present = vec![false, false];
    assert!(
        Command::resolve_in("open x", &paths, &no_strings(), &Vec::new(), "lua", &present)
            .is_none()
    );
}

#[test]
fn arguments_pass_through_verbatim() {
    let paths = vec![String::from("/s")];
    let present = vec![true];
    let c = Command::resolve_in(
        "go  two  spaces ",
        &paths,
        &no_strings(),
        &Vec::new(),
        "lua",
        &present,
    )
    .expect("should resolve");
    assert_eq!(c.path, "/s/go.lua");
    assert_eq!(c.arguments, " two  spaces ");
}

#[test]
fn missing_directories_resolve_nothing_on_disk() {
    let paths = vec![String::from("/nonexistent-webkitten-test-dir")];
    let r = Command::parse("open x", &paths, &no_strings(), &Vec::new(), "lua");
    assert!(r.is_none());
}

#[test]
fn a_vanished_file_is_not_available() {
    let c = Command {
        path: String::from("/nonexistent-webkitten-test-dir/open.lua"),
        arguments: String::new(),
    };
    assert!(!c.file_available());
}
