use birdlestein::path::file_name;
use birdlestein::state::get_title;

fn name(p: &str) -> Option<String> {
    file_name(p)
}

#[test]
fn file_name_of_plain_name() {
    assert_eq!(name("main.rs"), Some(String::from("main.rs")));
}

#[test]
fn file_name_of_nested_path() {
    assert_eq!(name("./src/main.rs"), Some(String::from("main.rs")));
    assert_eq!(name("/home/user/notes.txt"), Some(String::from("notes.txt")));
}

#[test]
fn file_name_ignores_trailing_and_repeated_separators() {
    assert_eq!(name("a/b/"), Some(String::from("b")));
    assert_eq!(name("a//b"), Some(String::from("b")));
    assert_eq!(name("a/b//"), Some(String::from("b")));
}

#[test]
fn file_name_ignores_current_dir_components() {
    assert_eq!(name("a/b/."), Some(String::from("b")));
    assert_eq!(name("a/./"), Some(String::from("a")));
    assert_eq!(name("./x"), Some(String::from("x")));
}

#[test]
fn file_name_none_where_path_names_no_file() {
    assert_eq!(name(""), None);
    assert_eq!(name("/"), None);
    assert_eq!(name("."), None);
    assert_eq!(name("./"), None);
    assert_eq!(name(".."), None);
    assert_eq!(name("a/.."), None);
    assert_eq!(name("a/../"), None);
}

#[test]
fn file_name_keeps_dotted_names() {
    assert_eq!(name("a/.hidden"), Some(String::from(".hidden")));
    assert_eq!(name("a/..."), Some(String::from("...")));
    assert_eq!(name("dir/ünïcode.txt"), Some(String::from("ünïcode.txt")));
}

#[test]
fn get_title_is_file_name() {
    assert_eq!(get_title(&String::from("/tmp/project/Cargo.toml")), "Cargo.toml");
    assert_eq!(get_title(&String::from("README")), "README");
}
