use ngx_radar::daily::{daily_reply_rows, daily_rows, DailyReply, DailyRowText, ReplyEntry, ReplyError};

fn notice(r: Result<Vec<DailyRowText>, ReplyError>) -> Option<String> {
    match r {
        Err(ReplyError::Notice(t)) => Some(t),
        _ => None,
    }
}

fn dates_and_volumes(rows: &[DailyRowText]) -> Vec<(i32, u32, u32, u64)> {
    rows.iter().map(|r| (r.year, r.month, r.day, r.volume)).collect()
}

fn fields(volume: &str) -> Option<Vec<(String, Option<String>)>> {
    Some(vec![
        ("1. open".to_string(), Some("1.5".to_string())),
        ("2. high".to_string(), Some("2.5".to_string())),
        ("3. low".to_string(), Some("1.0".to_string())),
        ("4. close".to_string(), Some("2.0".to_string())),
        ("5. volume".to_string(), Some(volume.to_string())),
    ])
}

fn entry(key: &str, volume: &str) -> ReplyEntry {
    ReplyEntry { key: key.to_string(), fields: fields(volume) }
}

#[test]
fn notes_are_reported() {
    let body = r#"{"Note": "Thank you for using Alpha Vantage! Our standard API rate limit is 25 requests per day."}"#;
    assert_eq!(
        notice(daily_reply_rows(body)).as_deref(),
        Some("Thank you for using Alpha Vantage! Our standard API rate limit is 25 requests per day.")
    );
    let body = r#"{"Information": "The demo API key is for demo purposes only.", "Time Series (Daily)": {}}"#;
    assert_eq!(
        notice(daily_reply_rows(body)).as_deref(),
        Some("The demo API key is for demo purposes only.")
    );
}

#[test]
fn a_note_that_is_not_text_gets_the_default_message() {
    let body = r#"{"Note": 5, "Information": "ignored"}"#;
    assert_eq!(notice(daily_reply_rows(body)).as_deref(), Some("API limit or key error"));
}

#[test]
fn missing_series_and_unreadable_bodies() {
    assert!(matches!(daily_reply_rows(r#"{"Meta Data": {}}"#), Err(ReplyError::MissingSeries)));
    assert!(matches!(daily_reply_rows(r#"{"Time Series (Daily)": [1, 2]}"#), Err(ReplyError::MissingSeries)));
    assert!(matches!(daily_reply_rows("[1, 2]"), Err(ReplyError::MissingSeries)));
    assert!(matches!(daily_reply_rows("not json"), Err(ReplyError::Unreadable)));
    assert!(matches!(daily_reply_rows(""), Err(ReplyError::Unreadable)));
}

#[test]
fn days_are_kept_oldest_first() {
    let body = r#"{
        "Meta Data": {"2. Symbol": "GTCO.LG"},
        "Time Series (Daily)": {
            "2024-03-05": {"1. open": "10.5", "2. high": "11.0", "3. low": "10.0", "4. close": "10.8", "5. volume": "1200"},
            "2024-03-01": {"1. open": "9.5", "2. high": "10.0", "3. low": "9.0", "4. close": "9.9", "5. volume": "+900"},
            "2024-02-30": {"1. open": "1", "2. high": "1", "3. low": "1", "4. close": "1", "5. volume": "1"},
            "2024-03-04": {"1. open": 10.5, "2. high": "1", "3. low": "1", "4. close": "1", "5. volume": "1"},
            "2024-03-06": {"1. open": "1", "2. high": "1", "3. low": "1", "4. close": "1", "5. volume": "-5"},
            "2024-03-07": "no prices",
            "2024-03-08": {"1. open": "1", "2. high": "1", "3. low": "1", "4. close": "1"},
            "2024-3-2": {"1. open": "1", "2. high": "1", "3. low": "1", "4. close": "1.25", "5. volume": "7"}
        }
    }"#;
    let rows = match daily_reply_rows(body) {
        Ok(rows) => rows,
        Err(_) => panic!("the reply has a series"),
    };
    assert_eq!(
        dates_and_volumes(&rows),
        vec![(2024, 3, 1, 900), (2024, 3, 2, 7), (2024, 3, 5, 1200)]
    );
    assert_eq!(rows[0].close, "9.9");
    assert_eq!(rows[1].close, "1.25");
    assert_eq!(rows[2].open, "10.5");
    assert_eq!(rows[2].high, "11.0");
    assert_eq!(rows[2].low, "10.0");
}

#[test]
fn at_most_sixty_three_entries_are_read() {
    let start = chrono::NaiveDate::from_ymd_opt(2023, 12, 20).unwrap();
    let entries: Vec<String> = (0..70)
        .map(|i| {
            let d = start + chrono::Duration::days(i);
            format!(
                r#""{}": {{"1. open": "1", "2. high": "1", "3. low": "1", "4. close": "1", "5. volume": "{}"}}"#,
                d.format("%Y-%m-%d"),
                i
            )
        })
        .collect();
    let body = format!(r#"{{"Time Series (Daily)": {{{}}}}}"#, entries.join(","));
    let rows = match daily_reply_rows(&body) {
        Ok(rows) => rows,
        Err(_) => panic!("the reply has a series"),
    };
    assert_eq!(rows.len(), 63);
    assert_eq!((rows[0].year, rows[0].month, rows[0].day, rows[0].volume), (2023, 12, 20, 0));
    assert_eq!((rows[62].year, rows[62].month, rows[62].day, rows[62].volume), (2024, 2, 20, 62));
}

#[test]
fn equal_dates_keep_their_order() {
    let reply = DailyReply {
        note: None,
        information: None,
        series: Some(vec![
            entry("2024-1-5", "1"),
            entry("2024-01-05", "2"),
            ReplyEntry { key: "2024-01-03".to_string(), fields: None },
            entry("2024-01-04", "3"),
            entry("2023-12-31", "4"),
        ]),
    };
    let rows = match daily_rows(&reply) {
        Ok(rows) => rows,
        Err(_) => panic!("the reply has a series"),
    };
    assert_eq!(
        dates_and_volumes(&rows),
        vec![(2023, 12, 31, 4), (2024, 1, 4, 3), (2024, 1, 5, 1), (2024, 1, 5, 2)]
    );
}

#[test]
fn only_the_first_sixty_three_entries_count() {
    let mut series: Vec<ReplyEntry> = (0..63).map(|i| entry("2024-05-01", &i.to_string())).collect();
    series.push(entry("2020-01-01", "99"));
    let reply = DailyReply { note: None, information: None, series: Some(series) };
    let rows = match daily_rows(&reply) {
        Ok(rows) => rows,
        Err(_) => panic!("the reply has a series"),
    };
    assert_eq!(rows.len(), 63);
    assert!(rows.iter().all(|r| (r.year, r.month, r.day) == (2024, 5, 1)));
    assert_eq!(rows.iter().map(|r| r.volume).collect::<Vec<_>>(), (0..63).collect::<Vec<u64>>());
}

#[test]
fn a_note_wins_over_the_series() {
    let reply = DailyReply {
        note: Some(None),
        information: Some(Some("info".to_string())),
        series: Some(vec![entry("2024-01-04", "3")]),
    };
    assert_eq!(notice(daily_rows(&reply)).as_deref(), Some("API limit or key error"));
    let reply = DailyReply { note: None, information: None, series: None };
    assert!(matches!(daily_rows(&reply), Err(ReplyError::MissingSeries)));
}
