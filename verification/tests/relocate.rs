use diary::path::file_name;
use diary::relocate::{plan_relocation, Relocation, RelocationError};

#[test]
fn a_file_goes_into_the_directory_under_its_name() {
    assert_eq!(
        plan_relocation("/watched/report.txt", "/home/u/.diary/2024-01-05/"),
        Ok(Relocation {
            source: "/watched/report.txt".to_string(),
            destination: "/home/u/.diary/2024-01-05/report.txt".to_string(),
        })
    );
    assert_eq!(
        plan_relocation("notes.md", "/dest"),
        Ok(Relocation { source: "notes.md".to_string(), destination: "/dest/notes.md".to_string() })
    );
    assert_eq!(
        plan_relocation("/watched/dir/", "./"),
        Ok(Relocation { source: "/watched/dir/".to_string(), destination: "./dir".to_string() })
    );
}

#[test]
fn the_name_is_kept() {
    let sources = ["/a/b.txt", "b.txt", "/a/b/", "a/./b/.", "/a/.b", "x/y z", "/été/日記.md"];
    let dirs = ["/dest/", "/dest", "", "/", "./", "rel/dir"];
    for source in sources {
        for dir in dirs {
            let plan = plan_relocation(source, dir).unwrap();
            assert_eq!(plan.source, source);
            assert_eq!(file_name(&plan.destination), file_name(source));
        }
    }
}

#[test]
fn a_path_without_a_name_is_not_moved() {
    for source in ["", "/", "//", ".", "..", "/..", "a/..", "./"] {
        assert_eq!(plan_relocation(source, "/dest/"), Err(RelocationError::NoFileName));
    }
}
