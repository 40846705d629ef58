use chrono::Datelike;
use scheduality::calendar::CalendarDate;
use scheduality::modals::{
    NoAlbum, NoArtist, NoReleaseDate, ReleaseSubmissionBuilder, SubmissionError,
};

type EmptyBuilder = ReleaseSubmissionBuilder<NoArtist, NoAlbum, NoReleaseDate>;

fn ymd(date: &CalendarDate) -> (i32, u32, u32) {
    (date.year(), date.month(), date.day())
}

#[test]
fn from_ymd_opt_accepts_existing_days() {
    let date = CalendarDate::from_ymd_opt(2024, 2, 29).unwrap();
    assert_eq!(ymd(&date), (2024, 2, 29));
    assert_eq!(ymd(&CalendarDate::from_ymd_opt(0, 1, 1).unwrap()), (0, 1, 1));
    assert!(CalendarDate::from_ymd_opt(-262143, 1, 1).is_some());
    assert!(CalendarDate::from_ymd_opt(262142, 12, 31).is_some());
}

#[test]
fn from_ymd_opt_refuses_missing_days() {
    assert!(CalendarDate::from_ymd_opt(2023, 2, 29).is_none());
    assert!(CalendarDate::from_ymd_opt(1900, 2, 29).is_none());
    assert!(CalendarDate::from_ymd_opt(2000, 2, 30).is_none());
    assert!(CalendarDate::from_ymd_opt(2024, 4, 31).is_none());
    assert!(CalendarDate::from_ymd_opt(2024, 13, 1).is_none());
    assert!(CalendarDate::from_ymd_opt(2024, 0, 1).is_none());
    assert!(CalendarDate::from_ymd_opt(2024, 1, 0).is_none());
    assert!(CalendarDate::from_ymd_opt(262143, 1, 1).is_none());
    assert!(CalendarDate::from_ymd_opt(-262144, 1, 1).is_none());
}

#[test]
fn from_ymd_opt_matches_chrono_over_a_leap_cycle() {
    for year in [-401, -400, -100, -4, -1, 0, 1, 100, 1900, 2000, 2023, 2024, 9999, 10000] {
        for month in 0..=13u32 {
            for day in 0..=32u32 {
                let ours = CalendarDate::from_ymd_opt(year, month, day).map(|d| ymd(&d));
                let theirs = chrono::NaiveDate::from_ymd_opt(year, month, day)
                    .map(|d| (d.year(), d.month(), d.day()));
                assert_eq!(ours, theirs, "{year}-{month}-{day}");
            }
        }
    }
}

#[test]
fn to_string_writes_iso_dates() {
    let date = CalendarDate::from_ymd_opt(2024, 3, 7).unwrap();
    assert_eq!(date.to_string(), "2024-03-07");
    assert_eq!(CalendarDate::from_ymd_opt(0, 1, 1).unwrap().to_string(), "0000-01-01");
    assert_eq!(CalendarDate::from_ymd_opt(42, 12, 31).unwrap().to_string(), "0042-12-31");
    assert_eq!(CalendarDate::from_ymd_opt(-1, 1, 1).unwrap().to_string(), "-0001-01-01");
    assert_eq!(CalendarDate::from_ymd_opt(12345, 6, 5).unwrap().to_string(), "+12345-06-05");
    assert_eq!(CalendarDate::from_ymd_opt(-262143, 1, 1).unwrap().to_string(), "-262143-01-01");
}

#[test]
fn format_ymd_agrees_with_to_string() {
    for (y, m, d) in [(2024, 3, 7), (0, 1, 1), (999, 9, 9), (-5, 2, 28), (10000, 1, 1)] {
        let date = CalendarDate::from_ymd_opt(y, m, d).unwrap();
        assert_eq!(date.format_ymd(), date.to_string());
    }
    assert_eq!(CalendarDate::from_ymd_opt(999, 9, 9).unwrap().format_ymd(), "0999-09-09");
}

#[test]
fn parse_compact_reads_chrono_dates() {
    let date = CalendarDate::parse_compact("20240131").unwrap();
    assert_eq!(ymd(&date), (2024, 1, 31));
    assert!(CalendarDate::parse_compact("20241301").is_none());
    assert!(CalendarDate::parse_compact("2024-01-31").is_none());
    assert!(CalendarDate::parse_compact("hello").is_none());
}

#[test]
fn string_to_date_reads_yyyymmdd() {
    let date = EmptyBuilder::string_to_date("20240229").unwrap();
    assert_eq!(ymd(&date), (2024, 2, 29));
    let date = EmptyBuilder::string_to_date("00000101").unwrap();
    assert_eq!(ymd(&date), (0, 1, 1));
}

#[test]
fn string_to_date_takes_signs_like_str_parse() {
    assert_eq!(ymd(&EmptyBuilder::string_to_date("+0241231").unwrap()), (24, 12, 31));
    assert_eq!(ymd(&EmptyBuilder::string_to_date("-0010101").unwrap()), (-1, 1, 1));
    assert_eq!(ymd(&EmptyBuilder::string_to_date("2024+1+1").unwrap()), (2024, 1, 1));
    assert_eq!(
        EmptyBuilder::string_to_date("2024-1-1").unwrap_err(),
        SubmissionError::InvalidDate
    );
    assert_eq!(
        EmptyBuilder::string_to_date("-+000101").unwrap_err(),
        SubmissionError::InvalidDate
    );
}

#[test]
fn string_to_date_refuses_other_texts() {
    for text in ["2024022", "202402290", "", "2024-02-29", "abcd0101", "20230229", "20241301",
        "20240100", "2024 101", " 2024010"]
    {
        assert_eq!(
            EmptyBuilder::string_to_date(text).unwrap_err(),
            SubmissionError::InvalidDate,
            "{text}"
        );
    }
}

#[test]
fn string_to_date_counts_bytes_not_characters() {
    // Eight characters, more than eight bytes.
    assert_eq!(
        EmptyBuilder::string_to_date("2024010é").unwrap_err(),
        SubmissionError::InvalidDate
    );
    // Eight bytes whose month part is not ASCII.
    assert_eq!(
        EmptyBuilder::string_to_date("2024éé").unwrap_err(),
        SubmissionError::InvalidDate
    );
}

#[test]
fn every_day_written_yyyymmdd_reads_back() {
    let mut day = chrono::NaiveDate::from_ymd_opt(2023, 12, 25).unwrap();
    let end = chrono::NaiveDate::from_ymd_opt(2025, 1, 5).unwrap();
    while day <= end {
        let text = day.format("%Y%m%d").to_string();
        let read = EmptyBuilder::string_to_date(&text).unwrap();
        assert_eq!(ymd(&read), (day.year(), day.month(), day.day()));
        day = day.succ_opt().unwrap();
    }
}

#[test]
fn confirmed_date_shows_the_typed_digits() {
    for text in ["20240229", "00000101", "19991231", "00420707"] {
        let date = EmptyBuilder::string_to_date(text).unwrap();
        let dashed = format!("{}-{}-{}", &text[..4], &text[4..6], &text[6..]);
        assert_eq!(date.to_string(), dashed);
    }
}
