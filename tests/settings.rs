use birdlestein::config::{Project, Settings};

fn project(path: &str) -> Project {
    Project { path: String::from(path) }
}

#[test]
fn default_settings_are_empty() {
    let s = Settings::default();
    assert_eq!(s.last_project, "");
    assert!(s.projects.is_empty());
}

#[test]
fn failed_parse_gives_defaults() {
    let parsed: Result<Settings, String> = Err(String::from("expected `=`"));
    let s = Settings::from_parsed(parsed);
    assert_eq!(s.last_project, "");
    assert!(s.projects.is_empty());
}

#[test]
fn successful_parse_is_kept() {
    let mut given = Settings::default();
    given.last_project = String::from("editor");
    given.insert_project(String::from("editor"), project("/src/editor"));
    let parsed: Result<Settings, String> = Ok(given);
    let s = Settings::from_parsed(parsed);
    assert_eq!(s.last_project, "editor");
    assert_eq!(s.project_path(&String::from("editor")), Some(String::from("/src/editor")));
}

#[test]
fn insert_then_look_up() {
    let mut s = Settings::default();
    s.insert_project(String::from("a"), project("/p/a"));
    s.insert_project(String::from("b"), project("/p/b"));
    assert!(s.contains_project(&String::from("a")));
    assert!(s.contains_project(&String::from("b")));
    assert!(!s.contains_project(&String::from("c")));
    assert_eq!(s.project_path(&String::from("a")), Some(String::from("/p/a")));
    assert_eq!(s.project_path(&String::from("b")), Some(String::from("/p/b")));
    assert_eq!(s.project_path(&String::from("c")), None);
}

#[test]
fn insert_replaces_same_name() {
    let mut s = Settings::default();
    s.insert_project(String::from("a"), project("/old"));
    s.insert_project(String::from("b"), project("/p/b"));
    s.insert_project(String::from("a"), project("/new"));
    assert_eq!(s.projects.len(), 2);
    assert_eq!(s.project_path(&String::from("a")), Some(String::from("/new")));
    assert_eq!(s.project_path(&String::from("b")), Some(String::from("/p/b")));
}

#[test]
fn project_names_in_order() {
    let mut s = Settings::default();
    s.insert_project(String::from("one"), project("/1"));
    s.insert_project(String::from("two"), project("/2"));
    assert_eq!(s.project_names(), vec![String::from("one"), String::from("two")]);
}

#[test]
fn default_project_has_empty_path() {
    assert_eq!(Project::default().path, "");
}
