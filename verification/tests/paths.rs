use rdev::paths::{dirname, file_name, join};
use std::path::Path;

fn std_file_name(path: &str) -> Option<String> {
    Path::new(path).file_name().map(|name| name.to_str().unwrap().to_owned())
}

fn std_dirname(path: &str) -> String {
    match Path::new(path).parent() {
        Some(parent) if parent != Path::new("") => parent.to_str().unwrap().to_owned(),
        _ => ".".to_owned(),
    }
}

fn words_over(alphabet: &[char], longest: usize) -> Vec<String> {
    let mut all = vec![String::new()];
    let mut last = vec![String::new()];
    for _ in 0..longest {
        let mut next = Vec::new();
        for word in &last {
            for letter in alphabet {
                let mut longer = word.clone();
                longer.push(*letter);
                next.push(longer);
            }
        }
        all.extend(next.iter().cloned());
        last = next;
    }
    all
}

#[test]
fn file_name_of_plain_paths() {
    assert_eq!(file_name("artifact"), Some("artifact".to_owned()));
    assert_eq!(file_name("target/release/artifact"), Some("artifact".to_owned()));
    assert_eq!(file_name("/usr/bin/strip"), Some("strip".to_owned()));
    assert_eq!(file_name("./artifact"), Some("artifact".to_owned()));
    assert_eq!(file_name(".hidden"), Some(".hidden".to_owned()));
    assert_eq!(file_name("a.b.c"), Some("a.b.c".to_owned()));
    assert_eq!(file_name("..."), Some("...".to_owned()));
}

#[test]
fn file_name_skips_trailing_separators_and_dots() {
    assert_eq!(file_name("/usr/bin/"), Some("bin".to_owned()));
    assert_eq!(file_name("foo.txt/."), Some("foo.txt".to_owned()));
    assert_eq!(file_name("foo.txt/.//"), Some("foo.txt".to_owned()));
    assert_eq!(file_name("a//b///"), Some("b".to_owned()));
}

#[test]
fn file_name_is_missing_where_the_path_names_no_file() {
    assert_eq!(file_name(""), None);
    assert_eq!(file_name("/"), None);
    assert_eq!(file_name("//"), None);
    assert_eq!(file_name("."), None);
    assert_eq!(file_name("./"), None);
    assert_eq!(file_name("./."), None);
    assert_eq!(file_name(".."), None);
    assert_eq!(file_name("foo.txt/.."), None);
    assert_eq!(file_name("a/../"), None);
    assert_eq!(file_name("/.."), None);
}

#[test]
fn dirname_of_plain_paths() {
    assert_eq!(dirname("target/release/artifact"), "target/release");
    assert_eq!(dirname("/usr/bin/strip"), "/usr/bin");
    assert_eq!(dirname("/artifact"), "/");
    assert_eq!(dirname("./artifact"), ".");
    assert_eq!(dirname("../artifact"), "..");
    assert_eq!(dirname("a/b/"), "a");
    assert_eq!(dirname("a//b"), "a");
    assert_eq!(dirname("a/./b"), "a");
    assert_eq!(dirname("//a/b"), "//a");
    assert_eq!(dirname("a/.."), "a");
}

#[test]
fn dirname_is_the_current_directory_where_there_is_none() {
    assert_eq!(dirname("artifact"), ".");
    assert_eq!(dirname("artifact/"), ".");
    assert_eq!(dirname(""), ".");
    assert_eq!(dirname("/"), ".");
    assert_eq!(dirname("."), ".");
    assert_eq!(dirname(".."), ".");
    assert_eq!(dirname("./"), ".");
}

#[test]
fn paths_count_characters_not_bytes() {
    assert_eq!(file_name("größe/Ünïcode.bin"), Some("Ünïcode.bin".to_owned()));
    assert_eq!(dirname("größe/Ünïcode.bin"), "größe");
    assert_eq!(dirname("日本/語/файл"), "日本/語");
    assert_eq!(file_name("日本/語/файл/"), Some("файл".to_owned()));
}

#[test]
fn file_name_agrees_with_the_standard_library() {
    for path in words_over(&['/', '.', 'a'], 8) {
        assert_eq!(file_name(&path), std_file_name(&path), "file name of {:?}", path);
    }
}

#[test]
fn dirname_agrees_with_the_standard_library() {
    for path in words_over(&['/', '.', 'a'], 8) {
        assert_eq!(dirname(&path), std_dirname(&path), "directory of {:?}", path);
    }
}

#[test]
fn join_agrees_with_the_standard_library() {
    let words = words_over(&['/', '.', 'a'], 4);
    for directory in &words {
        for name in &words {
            let expected = Path::new(directory).join(name).to_str().unwrap().to_owned();
            assert_eq!(join(directory, name), expected, "{:?} joined with {:?}", directory, name);
        }
    }
}

#[test]
fn join_puts_one_separator_between() {
    assert_eq!(join(".", "artifact"), "./artifact");
    assert_eq!(join("/tmp/", "artifact"), "/tmp/artifact");
    assert_eq!(join("/tmp", "artifact"), "/tmp/artifact");
    assert_eq!(join("", "artifact"), "artifact");
    assert_eq!(join("a/b", "c"), "a/b/c");
    assert_eq!(join("a", ""), "a/");
}

#[test]
fn join_lets_an_absolute_name_stand() {
    assert_eq!(join("/tmp", "/bin/true"), "/bin/true");
    assert_eq!(join("", "/"), "/");
}

#[test]
fn directory_and_name_lead_back_to_the_file() {
    for path in ["artifact", "a/b", "/a", "./a", "x/y/z.bin", "a//b/."] {
        let name = file_name(path).unwrap();
        let rebuilt = join(&dirname(path), &name);
        assert_eq!(file_name(&rebuilt), Some(name));
        assert_eq!(dirname(&rebuilt), dirname(path));
    }
}
