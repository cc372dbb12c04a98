use diary::path::{absolute, file_name, join};
use std::path::{Path, PathBuf};

fn name(path: &str) -> Option<String> {
    file_name(path)
}

fn some(text: &str) -> Option<String> {
    Some(text.to_string())
}

/// Every text of up to `len` characters over `alphabet`.
fn texts(alphabet: &[char], len: usize) -> Vec<String> {
    let mut all = vec![String::new()];
    let mut last = vec![String::new()];
    for _ in 0..len {
        let mut next = Vec::new();
        for text in &last {
            for c in alphabet {
                let mut longer = text.clone();
                longer.push(*c);
                next.push(longer);
            }
        }
        all.extend(next.iter().cloned());
        last = next;
    }
    all
}

#[test]
fn a_path_ends_in_the_name_of_its_file() {
    assert_eq!(name("/tmp/work/notes.md"), some("notes.md"));
    assert_eq!(name("tmp/foo.txt"), some("foo.txt"));
    assert_eq!(name("report.txt"), some("report.txt"));
    assert_eq!(name("/report.txt"), some("report.txt"));
    assert_eq!(name("a//b"), some("b"));
    assert_eq!(name(".hidden"), some(".hidden"));
    assert_eq!(name("dir/..."), some("..."));
    assert_eq!(name("dir/name."), some("name."));
}

#[test]
fn separators_and_dots_at_the_end_say_nothing() {
    assert_eq!(name("/usr/bin/"), some("bin"));
    assert_eq!(name("foo.txt/."), some("foo.txt"));
    assert_eq!(name("foo.txt/.//"), some("foo.txt"));
    assert_eq!(name("a/././/./"), some("a"));
}

#[test]
fn some_paths_end_in_no_name() {
    assert_eq!(name(""), None);
    assert_eq!(name("/"), None);
    assert_eq!(name("//"), None);
    assert_eq!(name("."), None);
    assert_eq!(name("./"), None);
    assert_eq!(name("./."), None);
    assert_eq!(name("/."), None);
    assert_eq!(name(".."), None);
    assert_eq!(name("foo.txt/.."), None);
    assert_eq!(name("a/../"), None);
    assert_eq!(name("/.."), None);
}

#[test]
fn names_may_hold_any_character_but_the_separator() {
    assert_eq!(name("/home/zoë/été 2024.txt"), some("été 2024.txt"));
    assert_eq!(name("日記/一月.md"), some("一月.md"));
    assert_eq!(name("a\\b"), some("a\\b"));
}

#[test]
fn file_name_agrees_with_std_on_every_short_path() {
    for path in texts(&['/', '.', 'a'], 7) {
        let theirs = Path::new(&path).file_name().and_then(|n| n.to_str()).map(String::from);
        assert_eq!(name(&path), theirs, "for {:?}", path);
    }
}

#[test]
fn a_name_follows_its_directory() {
    assert_eq!(join("/home/u/.diary/2024-01-05/", "report.txt"), "/home/u/.diary/2024-01-05/report.txt");
    assert_eq!(join("/tmp/work", "notes.md"), "/tmp/work/notes.md");
    assert_eq!(join("/", "x"), "/x");
    assert_eq!(join("", "x"), "x");
    assert_eq!(join("a", ""), "a/");
    assert_eq!(join("a/", ""), "a/");
    assert_eq!(join("", ""), "");
}

#[test]
fn an_absolute_tail_stands_for_itself() {
    assert_eq!(join("/tmp/work", "/etc/hosts"), "/etc/hosts");
    assert_eq!(join("", "/"), "/");
}

#[test]
fn join_agrees_with_std_on_every_short_pair() {
    let all = texts(&['/', '.', 'a'], 4);
    for base in &all {
        for tail in &all {
            let mut theirs = PathBuf::from(base);
            theirs.push(tail);
            assert_eq!(join(base, tail), theirs.to_str().unwrap(), "for {:?} and {:?}", base, tail);
        }
    }
}

#[test]
fn a_relative_path_is_seen_from_the_working_directory() {
    assert_eq!(absolute("/tmp/work", "./notes.md"), "/tmp/work/notes.md");
    assert_eq!(absolute("/tmp/work", "notes.md"), "/tmp/work/notes.md");
    assert_eq!(absolute("/tmp/work/", "notes.md"), "/tmp/work/notes.md");
    assert_eq!(absolute("/tmp/work", "sub/notes.md"), "/tmp/work/sub/notes.md");
    assert_eq!(absolute("/tmp/work", "../notes.md"), "/tmp/work/../notes.md");
    assert_eq!(absolute("/", "notes.md"), "/notes.md");
}

#[test]
fn the_dot_in_front_is_dropped_however_often_it_comes() {
    assert_eq!(absolute("/tmp/work", "././notes.md"), "/tmp/work/notes.md");
    assert_eq!(absolute("/tmp/work", ".//notes.md"), "/tmp/work/notes.md");
    assert_eq!(absolute("/tmp/work", ".///.//notes.md"), "/tmp/work/notes.md");
    assert_eq!(absolute("/tmp/work", "./"), "/tmp/work/");
    assert_eq!(absolute("/tmp/work", "."), "/tmp/work/.");
    assert_eq!(absolute("/tmp/work", ".hidden"), "/tmp/work/.hidden");
    assert_eq!(absolute("/tmp/work", "a/./b"), "/tmp/work/a/./b");
}

#[test]
fn an_absolute_path_is_left_as_it_is() {
    assert_eq!(absolute("/tmp/work", "/var/log/x.log"), "/var/log/x.log");
    assert_eq!(absolute("/tmp/work", "/./x"), "/./x");
    assert_eq!(absolute("/tmp/work", "//x"), "//x");
}

#[test]
fn an_absolute_path_names_the_file_that_std_sees() {
    for path in texts(&['/', '.', 'a'], 6) {
        let mut theirs = PathBuf::from("/tmp/work");
        theirs.push(&path);
        let ours = absolute("/tmp/work", &path);
        assert_eq!(
            Path::new(&ours).components().collect::<Vec<_>>(),
            theirs.components().collect::<Vec<_>>(),
            "for {:?}",
            path
        );
    }
}
