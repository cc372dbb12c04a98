use diary::date::CalendarDate;
use diary::folder::{generate_date_folder_path, generate_date_folder_path_on, resolve, FolderError, HomeDir};
use diary::path::file_name;

fn day(year: i32, month: u32, day: u32) -> CalendarDate {
    CalendarDate::new(year, month, day).unwrap()
}

fn home(path: &str) -> HomeDir {
    HomeDir::Path(path.to_string())
}

#[test]
fn a_day_has_its_folder_under_the_home_directory() {
    assert_eq!(resolve(&home("/home/u"), &day(2024, 1, 5)), Ok("/home/u/.diary/2024-01-05/".to_string()));
    assert_eq!(resolve(&home("/home/u/"), &day(2024, 1, 5)), Ok("/home/u/.diary/2024-01-05/".to_string()));
    assert_eq!(resolve(&home("/"), &day(1999, 12, 31)), Ok("/.diary/1999-12-31/".to_string()));
    assert_eq!(resolve(&home(""), &day(1999, 12, 31)), Ok(".diary/1999-12-31/".to_string()));
}

#[test]
fn the_last_directory_is_named_for_the_day() {
    let homes = ["/home/u", "/home/u/", "/", "", "relative/home", "/home/./u/.", "/home/été"];
    for h in homes {
        for year in [-262143, -1, 0, 812, 1970, 2024, 9999, 10000, 262142] {
            for month in 1..=12 {
                for dom in [1, 9, 10, 28] {
                    let date = day(year, month, dom);
                    let folder = resolve(&home(h), &date).unwrap();
                    assert_eq!(file_name(&folder), Some(date.text()));
                    assert!(folder.ends_with('/'));
                }
            }
        }
    }
}

#[test]
fn resolving_twice_gives_the_same_folder() {
    let date = day(2024, 1, 5);
    assert_eq!(resolve(&home("/home/u"), &date), resolve(&home("/home/u"), &date));
}

#[test]
fn without_a_home_directory_there_is_no_folder() {
    assert_eq!(resolve(&HomeDir::Unavailable, &day(2024, 1, 5)), Err(FolderError::HomeDirUnavailable));
    assert_eq!(
        generate_date_folder_path_on(&HomeDir::Unavailable, &day(2024, 1, 5)),
        Err(FolderError::HomeDirUnavailable)
    );
    assert_eq!(generate_date_folder_path(&HomeDir::Unavailable), Err(FolderError::HomeDirUnavailable));
}

#[test]
fn a_home_directory_that_is_no_text_has_no_folder_in_text() {
    assert_eq!(resolve(&HomeDir::NotText, &day(2024, 1, 5)), Err(FolderError::PathNotText));
}

#[test]
fn files_go_to_the_working_directory_where_the_folder_is_no_text() {
    assert_eq!(generate_date_folder_path_on(&HomeDir::NotText, &day(2024, 1, 5)), Ok("./".to_string()));
    assert_eq!(generate_date_folder_path(&HomeDir::NotText), Ok("./".to_string()));
}

#[test]
fn files_go_to_the_folder_of_the_day() {
    assert_eq!(
        generate_date_folder_path_on(&home("/home/u"), &day(2024, 1, 5)),
        Ok("/home/u/.diary/2024-01-05/".to_string())
    );
}

#[test]
fn today_has_a_folder() {
    let before = diary::date::today();
    let folder = generate_date_folder_path(&home("/home/u")).unwrap();
    let after = diary::date::today();
    let from = resolve(&home("/home/u"), &before).unwrap();
    let to = resolve(&home("/home/u"), &after).unwrap();
    assert!(folder == from || folder == to);
}
