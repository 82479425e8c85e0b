//! The daily series reply of the Alpha Vantage service: reading the JSON body, the service
//! notices, and which days of the series are kept and in what order.
use vstd::prelude::*;
use chrono::Datelike;
use crate::screener::{is_ranking, lemma_ranking_unique, rank_by_key};
use crate::text::{parse_u64, str_equal, u64_text_value};

verus! {

broadcast use vstd::string::group_string_axioms;

/// One entry of the daily series: its key (the date text) and, when the entry is a JSON
/// object, its members with their text (`None` for a member that is not a JSON string).
pub struct ReplyEntry {
    pub key: String,
    pub fields: Option<Vec<(String, Option<String>)>>,
}

/// What the logic reads of a reply: the `Note` and `Information` members (present or not,
/// and their text when they are JSON strings), and the entries of the
/// `Time Series (Daily)` member when it is a JSON object, in the order the parsed object
/// yields them.
pub struct DailyReply {
    pub note: Option<Option<String>>,
    pub information: Option<Option<String>>,
    pub series: Option<Vec<ReplyEntry>>,
}

/// The mathematical value of an entry.
pub struct ReplyEntryModel {
    pub key: Seq<char>,
    pub fields: Option<Seq<(Seq<char>, Option<Seq<char>>)>>,
}

/// The mathematical value of a reply.
pub struct DailyReplyModel {
    pub note: Option<Option<Seq<char>>>,
    pub information: Option<Option<Seq<char>>>,
    pub series: Option<Seq<ReplyEntryModel>>,
}

/// The characters of an optional text.
pub open spec fn text_model(t: Option<String>) -> Option<Seq<char>> {
    match t {
        Some(s) => Some(s@),
        None => None,
    }
}

/// The value of an optional member.
pub open spec fn member_model(m: Option<Option<String>>) -> Option<Option<Seq<char>>> {
    match m {
        Some(t) => Some(text_model(t)),
        None => None,
    }
}

/// The values of the members of an entry.
pub open spec fn fields_model(
    f: Option<Vec<(String, Option<String>)>>,
) -> Option<Seq<(Seq<char>, Option<Seq<char>>)>> {
    match f {
        Some(v) => Some(v@.map_values(|p: (String, Option<String>)| (p.0@, text_model(p.1)))),
        None => None,
    }
}

impl View for ReplyEntry {
    type V = ReplyEntryModel;

    open spec fn view(&self) -> ReplyEntryModel {
        ReplyEntryModel { key: self.key@, fields: fields_model(self.fields) }
    }
}

impl View for DailyReply {
    type V = DailyReplyModel;

    open spec fn view(&self) -> DailyReplyModel {
        DailyReplyModel {
            note: member_model(self.note),
            information: member_model(self.information),
            series: match self.series {
                Some(v) => Some(v@.map_values(|e: ReplyEntry| e@)),
                None => None,
            },
        }
    }
}

/// The value of an optional reply.
pub open spec fn reply_model(r: Option<DailyReply>) -> Option<DailyReplyModel> {
    match r {
        Some(x) => Some(x@),
        None => None,
    }
}

/// What `serde_json::from_str` makes of a body, read as a `DailyReply`; `None` when the
/// body is not JSON.
pub uninterp spec fn daily_reply_of(body: Seq<char>) -> Option<DailyReplyModel>;

/// Parses the body with `serde_json::from_str` into a `serde_json::Value` and reads from it
/// `get("Note")`, `get("Information")` and `["Time Series (Daily)"].as_object()`, each
/// member's text taken with `as_str`. The result is a function of the body alone.
#[verifier::external_body]
fn parse_daily_reply(body: &str) -> (r: Option<DailyReply>)
    ensures
        reply_model(r) == daily_reply_of(body@),
{
    let v: serde_json::Value = serde_json::from_str(body).ok()?;
    let text = |x: &serde_json::Value| x.as_str().map(str::to_owned);
    Some(DailyReply {
        note: v.get("Note").map(text),
        information: v.get("Information").map(text),
        series: v["Time Series (Daily)"].as_object().map(|m| m.iter().map(|(k, x)| ReplyEntry {
            key: k.clone(),
            fields: x.as_object().map(|f| f.iter().map(|(n, y)| (n.clone(), text(y))).collect()),
        }).collect()),
    })
}

/// The (year, month, day) that `chrono::NaiveDate::parse_from_str` reads from `text` with
/// `format`; `None` when it refuses the text.
pub uninterp spec fn date_of(text: Seq<char>, format: Seq<char>) -> Option<(i32, u32, u32)>;

/// `chrono::NaiveDate::parse_from_str`, the date given as (year, month, day); chrono's
/// `month` lies in 1 to 12 and its `day` in 1 to 31.
#[verifier::external_body]
fn parse_date(text: &str, format: &str) -> (r: Option<(i32, u32, u32)>)
    ensures
        r == date_of(text@, format@),
        r matches Some(d) ==> 1 <= d.1 <= 12 && 1 <= d.2 <= 31,
{
    chrono::NaiveDate::parse_from_str(text, format).ok().map(|d| (d.year(), d.month(), d.day()))
}

/// At most this many entries of the series, taken from its start, are read.
pub const MAX_SERIES_DAYS: usize = 63;

/// The format of the date keys of the series.
pub open spec fn date_format() -> Seq<char> {
    "%Y-%m-%d"@
}

/// The message reported for a notice that is not a JSON string.
pub open spec fn default_notice() -> Seq<char> {
    "API limit or key error"@
}

/// A day of the series as the library hands it on: the date as (year, month, day), the
/// four prices as the service wrote them, and the traded volume.
pub struct DailyRowText {
    pub year: i32,
    pub month: u32,
    pub day: u32,
    pub open: String,
    pub high: String,
    pub low: String,
    pub close: String,
    pub volume: u64,
}

/// The mathematical value of a day.
pub struct DailyRowModel {
    pub date: (i32, u32, u32),
    pub open: Seq<char>,
    pub high: Seq<char>,
    pub low: Seq<char>,
    pub close: Seq<char>,
    pub volume: u64,
}

impl View for DailyRowText {
    type V = DailyRowModel;

    open spec fn view(&self) -> DailyRowModel {
        DailyRowModel {
            date: (self.year, self.month, self.day),
            open: self.open@,
            high: self.high@,
            low: self.low@,
            close: self.close@,
            volume: self.volume,
        }
    }
}

/// The values of a sequence of days.
pub open spec fn rows_model(s: Seq<DailyRowText>) -> Seq<DailyRowModel> {
    s.map_values(|x: DailyRowText| x@)
}

/// Why a reply gives no days.
pub enum ReplyError {
    /// The body is not JSON.
    Unreadable,
    /// The service sent a notice (a rate limit or a key problem) instead of data.
    Notice(String),
    /// The reply has no daily series: the symbol may not exist at the service.
    MissingSeries,
}

/// The mathematical value of a reply error.
pub enum ReplyErrorModel {
    Unreadable,
    Notice(Seq<char>),
    MissingSeries,
}

impl View for ReplyError {
    type V = ReplyErrorModel;

    open spec fn view(&self) -> ReplyErrorModel {
        match self {
            ReplyError::Unreadable => ReplyErrorModel::Unreadable,
            ReplyError::Notice(t) => ReplyErrorModel::Notice(t@),
            ReplyError::MissingSeries => ReplyErrorModel::MissingSeries,
        }
    }
}

/// The value of the outcome of reading a reply.
pub open spec fn outcome_model(
    r: Result<Vec<DailyRowText>, ReplyError>,
) -> Result<Seq<DailyRowModel>, ReplyErrorModel> {
    match r {
        Ok(v) => Ok(rows_model(v@)),
        Err(e) => Err(e@),
    }
}

/// The notice of a reply, if it has one: the `Note` member when present, else the
/// `Information` member; its text, or the default message when it is not a string.
pub open spec fn notice_message(m: DailyReplyModel) -> Option<Seq<char>> {
    let n = if m.note is Some {
        m.note
    } else {
        m.information
    };
    match n {
        Some(Some(t)) => Some(t),
        Some(None) => Some(default_notice()),
        None => None,
    }
}

/// The text of the first member named `name`.
pub open spec fn first_field(fs: Seq<(Seq<char>, Option<Seq<char>>)>, name: Seq<char>) -> Option<
    Seq<char>,
>
    decreases fs.len(),
{
    if fs.len() == 0 {
        None
    } else if fs[0].0 == name {
        fs[0].1
    } else {
        first_field(fs.drop_first(), name)
    }
}

/// The text of the member `name` of an entry; none when the entry is not an object.
pub open spec fn field_text(fields: Option<Seq<(Seq<char>, Option<Seq<char>>)>>, name: Seq<char>) -> Option<
    Seq<char>,
> {
    match fields {
        Some(fs) => first_field(fs, name),
        None => None,
    }
}

/// The day an entry gives: present when its key reads as a date and its five members are
/// strings, the volume one a `u64`.
pub open spec fn entry_row(e: ReplyEntryModel) -> Option<DailyRowModel> {
    let date = date_of(e.key, date_format());
    let open = field_text(e.fields, "1. open"@);
    let high = field_text(e.fields, "2. high"@);
    let low = field_text(e.fields, "3. low"@);
    let close = field_text(e.fields, "4. close"@);
    let volume = field_text(e.fields, "5. volume"@);
    if date is Some && open is Some && high is Some && low is Some && close is Some
        && volume is Some && u64_text_value(volume.unwrap()) is Some {
        Some(
            DailyRowModel {
                date: date.unwrap(),
                open: open.unwrap(),
                high: high.unwrap(),
                low: low.unwrap(),
                close: close.unwrap(),
                volume: u64_text_value(volume.unwrap()).unwrap(),
            },
        )
    } else {
        None
    }
}

/// The days given by the entries, in the entries' order.
pub open spec fn entries_rows(es: Seq<ReplyEntryModel>) -> Seq<DailyRowModel>
    decreases es.len(),
{
    if es.len() == 0 {
        Seq::empty()
    } else {
        match entry_row(es.last()) {
            Some(r) => entries_rows(es.drop_last()).push(r),
            None => entries_rows(es.drop_last()),
        }
    }
}

/// The entries that are read: the first `MAX_SERIES_DAYS` of the series.
pub open spec fn first_entries(es: Seq<ReplyEntryModel>) -> Seq<ReplyEntryModel> {
    if es.len() <= MAX_SERIES_DAYS {
        es
    } else {
        es.take(MAX_SERIES_DAYS as int)
    }
}

/// A date as one number, whose order is the order of (year, month, day) for months up to
/// 12 and days up to 31.
pub open spec fn date_number(d: (i32, u32, u32)) -> int {
    d.0 * 10000 + d.1 * 100 + d.2
}

/// A key that is larger for older days.
pub open spec fn age_key(r: DailyRowModel) -> i64 {
    (-date_number(r.date)) as i64
}

/// The age keys of a sequence of days.
pub open spec fn age_keys(rows: Seq<DailyRowModel>) -> Seq<i64> {
    rows.map_values(|r: DailyRowModel| age_key(r))
}

/// The dates of the days never decrease: they run from the oldest to the newest.
pub open spec fn runs_forward(rows: Seq<DailyRowModel>) -> bool {
    forall|p: int, q: int|
        0 <= p < q < rows.len() ==> date_number(#[trigger] rows[p].date) <= date_number(
            #[trigger] rows[q].date,
        )
}

/// The days ordered oldest first; days of the same date keep their order (a stable sort
/// by date).
pub open spec fn oldest_first(rows: Seq<DailyRowModel>) -> Seq<DailyRowModel> {
    let order = choose|order: Seq<usize>| is_ranking(age_keys(rows), order);
    order.map_values(|i: usize| rows[i as int])
}

/// What a parsed reply gives: its notice as an error, else the missing-series error when it
/// has no series, else the days of the first `MAX_SERIES_DAYS` entries, oldest first.
pub open spec fn daily_rows_spec(m: DailyReplyModel) -> Result<Seq<DailyRowModel>, ReplyErrorModel> {
    match notice_message(m) {
        Some(t) => Err(ReplyErrorModel::Notice(t)),
        None => match m.series {
            None => Err(ReplyErrorModel::MissingSeries),
            Some(es) => Ok(oldest_first(entries_rows(first_entries(es)))),
        },
    }
}

/// What a reply body gives: the unreadable error when it is not JSON, else as
/// `daily_rows_spec`.
pub open spec fn daily_reply_spec(body: Seq<char>) -> Result<Seq<DailyRowModel>, ReplyErrorModel> {
    match daily_reply_of(body) {
        Some(m) => daily_rows_spec(m),
        None => Err(ReplyErrorModel::Unreadable),
    }
}

fn notice_of(reply: &DailyReply) -> (r: Option<String>)
    ensures
        text_model(r) == notice_message(reply@),
{
    let n = if reply.note.is_some() {
        &reply.note
    } else {
        &reply.information
    };
    match n {
        Some(Some(t)) => Some(t.clone()),
        Some(None) => Some("API limit or key error".to_owned()),
        None => None,
    }
}

fn find_field(fields: &Vec<(String, Option<String>)>, name: &str) -> (r: Option<String>)
    ensures
        text_model(r) == field_text(fields_model(Some(*fields)), name@),
{
    let ghost fs = fields@.map_values(|p: (String, Option<String>)| (p.0@, text_model(p.1)));
    let mut j: usize = 0;
    assert(fs.skip(0) =~= fs);
    while j < fields.len()
        invariant
            j <= fields.len(),
            fs == fields@.map_values(|p: (String, Option<String>)| (p.0@, text_model(p.1))),
            first_field(fs, name@) == first_field(fs.skip(j as int), name@),
        decreases fields.len() - j,
    {
        let ghost rest = fs.skip(j as int);
        assert(rest[0] == (fields@[j as int].0@, text_model(fields@[j as int].1)));
        assert(rest.drop_first() =~= fs.skip(j + 1));
        if str_equal(fields[j].0.as_str(), name) {
            return match &fields[j].1 {
                Some(t) => Some(t.clone()),
                None => None,
            };
        }
        j = j + 1;
    }
    None
}

fn entry_row_of(e: &ReplyEntry) -> (r: Option<DailyRowText>)
    ensures
        match r {
            Some(x) => entry_row(e@) == Some(x@),
            None => entry_row(e@) is None,
        },
{
    let date = match parse_date(e.key.as_str(), "%Y-%m-%d") {
        Some(d) => d,
        None => return None,
    };
    let fields = match &e.fields {
        Some(f) => f,
        None => return None,
    };
    let open = match find_field(fields, "1. open") {
        Some(t) => t,
        None => return None,
    };
    let high = match find_field(fields, "2. high") {
        Some(t) => t,
        None => return None,
    };
    let low = match find_field(fields, "3. low") {
        Some(t) => t,
        None => return None,
    };
    let close = match find_field(fields, "4. close") {
        Some(t) => t,
        None => return None,
    };
    let volume_text = match find_field(fields, "5. volume") {
        Some(t) => t,
        None => return None,
    };
    let volume = match parse_u64(volume_text.as_str()) {
        Some(v) => v,
        None => return None,
    };
    Some(DailyRowText { year: date.0, month: date.1, day: date.2, open, high, low, close, volume })
}

/// The days given by the first `MAX_SERIES_DAYS` entries, in the entries' order.
fn series_rows(es: &Vec<ReplyEntry>) -> (r: Vec<DailyRowText>)
    ensures
        rows_model(r@) == entries_rows(first_entries(es@.map_values(|e: ReplyEntry| e@))),
{
    let ghost all = es@.map_values(|e: ReplyEntry| e@);
    let n: usize = if es.len() <= MAX_SERIES_DAYS {
        es.len()
    } else {
        MAX_SERIES_DAYS
    };
    let mut r: Vec<DailyRowText> = Vec::new();
    let mut i: usize = 0;
    while i < n
        invariant
            i <= n,
            n <= es.len(),
            n == first_entries(all).len(),
            all == es@.map_values(|e: ReplyEntry| e@),
            rows_model(r@) == entries_rows(all.take(i as int)),
        decreases n - i,
    {
        proof {
            assert(all.take(i + 1).drop_last() =~= all.take(i as int));
            assert(all.take(i + 1).last() == es@[i as int]@);
        }
        match entry_row_of(&es[i]) {
            Some(x) => {
                r.push(x);
                assert(rows_model(r@) =~= entries_rows(all.take(i as int)).push(x@));
            },
            None => {},
        }
        i = i + 1;
    }
    assert(all.take(n as int) =~= first_entries(all));
    r
}

fn copy_row(x: &DailyRowText) -> (c: DailyRowText)
    ensures
        c@ == x@,
{
    DailyRowText {
        year: x.year,
        month: x.month,
        day: x.day,
        open: x.open.clone(),
        high: x.high.clone(),
        low: x.low.clone(),
        close: x.close.clone(),
        volume: x.volume,
    }
}

/// The days ordered oldest first, days of the same date in their given order.
fn oldest_first_rows(rows: &Vec<DailyRowText>) -> (r: Vec<DailyRowText>)
    ensures
        rows_model(r@) == oldest_first(rows_model(rows@)),
        runs_forward(rows_model(r@)),
{
    let ghost m = rows_model(rows@);
    let mut keys: Vec<i64> = Vec::new();
    let mut i: usize = 0;
    while i < rows.len()
        invariant
            i <= rows.len(),
            m == rows_model(rows@),
            keys@ == age_keys(m).take(i as int),
        decreases rows.len() - i,
    {
        let x = &rows[i];
        let k: i64 = -(x.year as i64 * 10000 + x.month as i64 * 100 + x.day as i64);
        assert(k == age_key(m[i as int]));
        keys.push(k);
        assert(keys@ =~= age_keys(m).take(i + 1));
        i = i + 1;
    }
    assert(keys@ =~= age_keys(m));
    let order = rank_by_key(&keys);
    let mut r: Vec<DailyRowText> = Vec::new();
    let mut j: usize = 0;
    while j < order.len()
        invariant
            j <= order.len(),
            order.len() == rows.len(),
            m == rows_model(rows@),
            is_ranking(keys@, order@),
            r.len() == j,
            forall|p: int| 0 <= p < j ==> #[trigger] r@[p]@ == m[order@[p] as int],
        decreases order.len() - j,
    {
        assert(order@[j as int] < rows.len());
        r.push(copy_row(&rows[order[j]]));
        j = j + 1;
    }
    proof {
        let chosen = choose|o: Seq<usize>| is_ranking(age_keys(m), o);
        assert(is_ranking(age_keys(m), order@));
        lemma_ranking_unique(age_keys(m), chosen, order@);
        assert(rows_model(r@) =~= order@.map_values(|i: usize| m[i as int]));
        assert forall|p: int, q: int| 0 <= p < q < r@.len() implies date_number(
            #[trigger] rows_model(r@)[p].date,
        ) <= date_number(#[trigger] rows_model(r@)[q].date) by {
            assert(crate::screener::ranks_before(keys@, order@[p] as int, order@[q] as int));
        }
    }
    r
}

/// At most 63 entries are read (about three months of trading days); dates are read as
/// `%Y-%m-%d`; a notice that is not text is reported as "API limit or key error".
pub proof fn lemma_reply_reading_constants()
    ensures
        MAX_SERIES_DAYS == 63,
        date_format() == "%Y-%m-%d"@,
        default_notice() == "API limit or key error"@,
{
}

/// A day read from an entry takes its date from the entry's key, read as `%Y-%m-%d`, its
/// prices from the members "1. open", "2. high", "3. low" and "4. close", and its volume from
/// "5. volume"; an entry whose key is no date, or that lacks one of these members, gives no
/// day.
pub proof fn lemma_entry_row_members(e: ReplyEntryModel)
    ensures
        entry_row(e) matches Some(r) ==> {
            &&& date_of(e.key, "%Y-%m-%d"@) == Some(r.date)
            &&& field_text(e.fields, "1. open"@) == Some(r.open)
            &&& field_text(e.fields, "2. high"@) == Some(r.high)
            &&& field_text(e.fields, "3. low"@) == Some(r.low)
            &&& field_text(e.fields, "4. close"@) == Some(r.close)
            &&& field_text(e.fields, "5. volume"@) matches Some(t) && u64_text_value(t) == Some(
                r.volume,
            )
        },
        date_of(e.key, "%Y-%m-%d"@) is None || field_text(e.fields, "1. open"@) is None
            || field_text(e.fields, "2. high"@) is None || field_text(e.fields, "3. low"@) is None
            || field_text(e.fields, "4. close"@) is None || field_text(e.fields, "5. volume"@)
            is None ==> entry_row(e) is None,
{
}

/// The days of a parsed reply: its notice as an error, else the missing-series error, else
/// the days of the first `MAX_SERIES_DAYS` entries whose date reads and whose five members
/// are strings (the volume a `u64`), oldest first.
pub fn daily_rows(reply: &DailyReply) -> (r: Result<Vec<DailyRowText>, ReplyError>)
    ensures
        outcome_model(r) == daily_rows_spec(reply@),
        r matches Ok(v) ==> runs_forward(rows_model(v@)),
{
    match notice_of(reply) {
        Some(t) => {
            return Err(ReplyError::Notice(t));
        },
        None => {},
    }
    match &reply.series {
        None => Err(ReplyError::MissingSeries),
        Some(es) => {
            let kept = series_rows(es);
            Ok(oldest_first_rows(&kept))
        },
    }
}

/// The days of a reply body of the daily series request.
pub fn daily_reply_rows(body: &str) -> (r: Result<Vec<DailyRowText>, ReplyError>)
    ensures
        outcome_model(r) == daily_reply_spec(body@),
        r matches Ok(v) ==> runs_forward(rows_model(v@)),
{
    match parse_daily_reply(body) {
        Some(reply) => daily_rows(&reply),
        None => Err(ReplyError::Unreadable),
    }
}

} // verus!
