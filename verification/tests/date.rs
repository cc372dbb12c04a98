use diary::date::CalendarDate;

fn day(year: i32, month: u32, day: u32) -> CalendarDate {
    CalendarDate::new(year, month, day).unwrap()
}

#[test]
fn a_day_is_written_with_zeros_in_front() {
    assert_eq!(day(2024, 1, 5).text(), "2024-01-05");
    assert_eq!(day(1999, 12, 31).text(), "1999-12-31");
    assert_eq!(day(812, 3, 9).text(), "0812-03-09");
    assert_eq!(day(0, 1, 1).text(), "0000-01-01");
}

#[test]
fn years_beyond_four_digits_carry_a_sign() {
    assert_eq!(day(10000, 1, 1).text(), "+10000-01-01");
    assert_eq!(day(262142, 12, 31).text(), "+262142-12-31");
    assert_eq!(day(-1, 6, 15).text(), "-0001-06-15");
    assert_eq!(day(-262143, 1, 1).text(), "-262143-01-01");
}

#[test]
fn only_days_of_the_calendar_are_dates() {
    assert!(CalendarDate::new(2024, 2, 29).is_some());
    assert!(CalendarDate::new(2023, 2, 29).is_none());
    assert!(CalendarDate::new(1900, 2, 29).is_none());
    assert!(CalendarDate::new(2000, 2, 29).is_some());
    assert!(CalendarDate::new(-4, 2, 29).is_some());
    assert!(CalendarDate::new(2023, 4, 31).is_none());
    assert!(CalendarDate::new(2023, 0, 1).is_none());
    assert!(CalendarDate::new(2023, 13, 1).is_none());
    assert!(CalendarDate::new(2023, 1, 0).is_none());
    assert!(CalendarDate::new(2023, 1, 32).is_none());
    assert!(CalendarDate::new(262143, 1, 1).is_none());
    assert!(CalendarDate::new(-262144, 12, 31).is_none());
}

#[test]
fn the_parts_of_a_day_are_kept() {
    let d = day(2024, 1, 5);
    assert_eq!(d.year(), 2024);
    assert_eq!(d.month(), 1);
    assert_eq!(d.day(), 5);
}

#[test]
fn the_calendar_agrees_with_chrono_over_many_years() {
    let years = [-262143, -401, -400, -100, -4, -1, 0, 1, 4, 100, 400, 1900, 2000, 2023, 2024, 9999, 10000, 262142];
    for year in years {
        for month in 0..14u32 {
            for dom in 0..33u32 {
                let ours = CalendarDate::new(year, month, dom);
                let theirs = chrono::NaiveDate::from_ymd_opt(year, month, dom);
                assert_eq!(ours.is_some(), theirs.is_some());
                if let (Some(ours), Some(theirs)) = (ours, theirs) {
                    assert_eq!(ours.text(), theirs.format("%Y-%m-%d").to_string());
                }
            }
        }
    }
}

#[test]
fn today_is_a_day_of_the_calendar() {
    let now = diary::date::today();
    assert!(CalendarDate::new(now.year(), now.month(), now.day()).is_some());
    assert!(now.text().len() >= 10);
}

#[test]
fn days_apart_have_texts_apart() {
    let days = [
        day(2024, 1, 5),
        day(2024, 1, 6),
        day(2024, 5, 1),
        day(2024, 11, 1),
        day(2024, 1, 11),
        day(-2024, 1, 5),
        day(12024, 1, 5),
        day(202, 4, 15),
        day(20, 2, 4),
    ];
    for (i, a) in days.iter().enumerate() {
        for (j, b) in days.iter().enumerate() {
            assert_eq!(a.text() == b.text(), i == j);
        }
    }
}

#[test]
fn texts_sort_as_days_do() {
    let mut days = Vec::new();
    for year in [0, 1, 9, 10, 99, 100, 999, 1000, 1999, 2000, 2023, 2024, 9999] {
        for month in [1, 2, 9, 10, 12] {
            for dom in [1, 2, 9, 10, 19, 20, 28] {
                days.push((year, month, dom));
            }
        }
    }
    for a in &days {
        for b in &days {
            let earlier = a < b;
            let before = day(a.0, a.1, a.2).text() < day(b.0, b.1, b.2).text();
            assert_eq!(before, earlier, "for {:?} and {:?}", a, b);
        }
    }
}

#[test]
fn texts_of_longer_years_do_not_sort_as_days_do() {
    assert!(day(10000, 1, 1).text() < day(9999, 1, 1).text());
}
