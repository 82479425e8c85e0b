//! Decisions of the data fetch: which source to try next, how listings are named at the
//! Alpha Vantage service, which rows of the NGX price list are kept, and volume totals.
use vstd::prelude::*;
use vstd::string::StringSliceAdditionalSpecFns;
use vstd::utf8::is_char_boundary;
use crate::sector::{Sector, SectorModel, is_target_sector};
use crate::text::{
    chars_of, remove_chars, str_equal, string_from_chars, to_uppercase, trim, trimmed,
    uppercase_of, without_chars,
};
use crate::universe::{Listing, ListingModel, listings_model};

verus! {

broadcast use vstd::string::group_string_axioms;

/// The sources of stock data, in order of preference.
#[derive(Debug, Clone, Copy, PartialEq, Eq, Structural)]
pub enum DataSource {
    AlphaVantage,
    NgxScrape,
    Mock,
}

/// What an attempt on a source produced: a number of stocks, or a failure.
#[derive(Debug, Clone, Copy, PartialEq, Eq, Structural)]
pub enum SourceOutcome {
    Loaded(usize),
    Failed,
}

/// What to do after an attempt: keep its stocks, or try the next source.
#[derive(Debug, Clone, Copy, PartialEq, Eq, Structural)]
pub enum FetchDecision {
    Accept,
    FallBackTo(DataSource),
}

/// A live source is trusted only when it returns at least this many stocks.
pub const MIN_LIVE_STOCKS: usize = 5;

/// A series from Alpha Vantage is used only when it has at least this many days.
pub const MIN_HISTORY_DAYS: usize = 2;

/// The place of a source in the order of preference.
pub open spec fn preference(s: DataSource) -> int {
    match s {
        DataSource::AlphaVantage => 0,
        DataSource::NgxScrape => 1,
        DataSource::Mock => 2,
    }
}

/// The placeholder that stands for a missing Alpha Vantage key in example settings.
pub open spec fn placeholder_key() -> Seq<char> {
    "YOUR_KEY_HERE"@
}

/// Whether a configured Alpha Vantage key may be used: present, non-empty, and not the
/// placeholder.
pub fn alpha_vantage_key_usable(key: Option<&str>) -> (r: bool)
    ensures
        r == (key matches Some(k) && k@.len() > 0 && k@ != placeholder_key()),
        r == (key matches Some(k) && k@.len() > 0 && k@ != "YOUR_KEY_HERE"@),
{
    match key {
        Some(k) => !k.is_empty() && !str_equal(k, "YOUR_KEY_HERE"),
        None => false,
    }
}

/// The first source to try: Alpha Vantage when its key is usable, else the NGX price list.
pub fn first_source(key_usable: bool) -> (s: DataSource)
    ensures
        s == (if key_usable { DataSource::AlphaVantage } else { DataSource::NgxScrape }),
{
    if key_usable {
        DataSource::AlphaVantage
    } else {
        DataSource::NgxScrape
    }
}

/// What follows an attempt on `source` with `outcome`: synthetic data is always kept; a
/// live source is kept when it loaded at least `MIN_LIVE_STOCKS` stocks; otherwise the next
/// source in order of preference is tried.
pub open spec fn fetch_decision(source: DataSource, outcome: SourceOutcome) -> FetchDecision {
    match source {
        DataSource::Mock => FetchDecision::Accept,
        _ => if outcome matches SourceOutcome::Loaded(n) && n >= MIN_LIVE_STOCKS {
            FetchDecision::Accept
        } else if source == DataSource::AlphaVantage {
            FetchDecision::FallBackTo(DataSource::NgxScrape)
        } else {
            FetchDecision::FallBackTo(DataSource::Mock)
        },
    }
}

/// Each fallback moves one step down the order of preference, and synthetic data, the last
/// source, is always kept: a fetch makes at most three attempts and always ends with data.
pub proof fn lemma_fetch_ends_within_three_attempts(source: DataSource, outcome: SourceOutcome)
    ensures
        0 <= preference(source) <= 2,
        fetch_decision(source, outcome) matches FetchDecision::FallBackTo(next) ==> preference(next)
            == preference(source) + 1,
        fetch_decision(DataSource::Mock, outcome) == FetchDecision::Accept,
{
}

/// A live source is kept exactly when it loaded at least `MIN_LIVE_STOCKS` stocks: a
/// failure or fewer stocks moves on, and loading more never turns an accepted result into
/// a fallback.
pub proof fn lemma_live_source_accepted_iff_enough(source: DataSource, n: usize, m: usize)
    requires
        source != DataSource::Mock,
    ensures
        (fetch_decision(source, SourceOutcome::Loaded(n)) == FetchDecision::Accept) <==> n
            >= 5,
        fetch_decision(source, SourceOutcome::Failed) != FetchDecision::Accept,
        fetch_decision(source, SourceOutcome::Loaded(n)) == FetchDecision::Accept && n <= m
            ==> fetch_decision(source, SourceOutcome::Loaded(m)) == FetchDecision::Accept,
{
}

/// The decision after an attempt on `source` with `outcome`.
pub fn after_attempt(source: DataSource, outcome: SourceOutcome) -> (d: FetchDecision)
    ensures
        d == fetch_decision(source, outcome),
        source == DataSource::Mock ==> d == FetchDecision::Accept,
        outcome matches SourceOutcome::Loaded(n) && n >= MIN_LIVE_STOCKS ==> d
            == FetchDecision::Accept,
        source == DataSource::AlphaVantage && !(outcome matches SourceOutcome::Loaded(n) && n
            >= MIN_LIVE_STOCKS) ==> d == FetchDecision::FallBackTo(DataSource::NgxScrape),
        source == DataSource::NgxScrape && !(outcome matches SourceOutcome::Loaded(n) && n
            >= MIN_LIVE_STOCKS) ==> d == FetchDecision::FallBackTo(DataSource::Mock),
{
    match source {
        DataSource::Mock => FetchDecision::Accept,
        _ => {
            let enough = match outcome {
                SourceOutcome::Loaded(n) => n >= MIN_LIVE_STOCKS,
                SourceOutcome::Failed => false,
            };
            if enough {
                FetchDecision::Accept
            } else {
                match source {
                    DataSource::AlphaVantage => FetchDecision::FallBackTo(DataSource::NgxScrape),
                    _ => FetchDecision::FallBackTo(DataSource::Mock),
                }
            }
        },
    }
}

/// Whether a daily series from Alpha Vantage is long enough to be used in place of
/// synthetic data.
pub fn history_usable(days: usize) -> (r: bool)
    ensures
        r == (days >= MIN_HISTORY_DAYS),
        r == (days >= 2),
{
    days >= MIN_HISTORY_DAYS
}

/// The Alpha Vantage symbol of an NGX ticker: the ticker with the Lagos suffix `.LG`.
pub fn alpha_vantage_symbol(ticker: &str) -> (s: String)
    ensures
        s@ == ticker@ + ".LG"@,
{
    let mut v = chars_of(ticker);
    let mut suffix = chars_of(".LG");
    v.append(&mut suffix);
    string_from_chars(v.as_slice())
}

/// The number of bytes of a service message that are reported: at most 120.
pub open spec fn excerpt_len(msg: &str) -> int {
    if msg.spec_bytes().len() < 120 {
        msg.spec_bytes().len() as int
    } else {
        120
    }
}

/// The leading bytes of a service message that are reported, at most 120. The cut must
/// fall on a character boundary.
pub fn api_message_excerpt(msg: &str) -> (r: &str)
    requires
        msg.spec_bytes().len() <= usize::MAX,
        is_char_boundary(msg.spec_bytes(), excerpt_len(msg)),
    ensures
        r.spec_bytes() == msg.spec_bytes().subrange(0, excerpt_len(msg)),
{
    let n: usize = if msg.len() < 120 {
        msg.len()
    } else {
        120
    };
    let (head, _) = msg.split_at(n);
    head
}

/// The sum of a sequence of volumes.
pub open spec fn volume_sum(s: Seq<u64>) -> int
    decreases s.len(),
{
    if s.len() == 0 {
        0
    } else {
        volume_sum(s.drop_last()) + s.last()
    }
}

proof fn lemma_volume_sum_monotone(s: Seq<u64>, i: int)
    requires
        0 <= i <= s.len(),
    ensures
        volume_sum(s.take(i)) <= volume_sum(s),
    decreases s.len() - i,
{
    if i < s.len() {
        lemma_volume_sum_monotone(s, i + 1);
        assert(s.take(i + 1).drop_last() =~= s.take(i));
    } else {
        assert(s.take(i) =~= s);
    }
}

/// The total of the daily volumes, or `None` when it does not fit in a `u64`.
pub fn total_volume(volumes: &Vec<u64>) -> (r: Option<u64>)
    ensures
        r matches Some(t) ==> t == volume_sum(volumes@),
        r is None <==> volume_sum(volumes@) > u64::MAX,
{
    let mut total: u64 = 0;
    let mut i: usize = 0;
    while i < volumes.len()
        invariant
            i <= volumes.len(),
            total == volume_sum(volumes@.take(i as int)),
        decreases volumes.len() - i,
    {
        assert(volumes@.take(i + 1).drop_last() =~= volumes@.take(i as int));
        match total.checked_add(volumes[i]) {
            Some(t) => {
                total = t;
            },
            None => {
                proof {
                    lemma_volume_sum_monotone(volumes@, i + 1);
                }
                return None;
            },
        }
        i = i + 1;
    }
    assert(volumes@.take(volumes.len() as int) =~= volumes@);
    Some(total)
}

/// The text of the cells of a table in a page: for each element that scraper's
/// `Html::select` yields for `row_selector`, in the order it yields them, the concatenated
/// text of each element that `cell_selector` selects inside it; `None` when a selector does
/// not parse.
pub uninterp spec fn price_table_cells(
    html: Seq<char>,
    row_selector: Seq<char>,
    cell_selector: Seq<char>,
) -> Option<Seq<Seq<Seq<char>>>>;

/// The characters of a table given as rows of cells.
pub open spec fn cells_model(rows: Seq<Vec<String>>) -> Seq<Seq<Seq<char>>> {
    rows.map_values(|r: Vec<String>| r@.map_values(|c: String| c@))
}

/// Parses the page with `scraper::Html::parse_document` and the two selectors with
/// `scraper::Selector::parse` (`None` when one is refused), then collects, for each element
/// that `Html::select` yields for the row selector, the `text` of the elements that
/// `ElementRef::select` yields for the cell selector inside it. The result is a function of
/// the three texts alone.
#[verifier::external_body]
fn price_table_rows(html: &str, row_selector: &str, cell_selector: &str) -> (rows: Option<
    Vec<Vec<String>>,
>)
    ensures
        match rows {
            Some(r) => price_table_cells(html@, row_selector@, cell_selector@) == Some(
                cells_model(r@),
            ),
            None => price_table_cells(html@, row_selector@, cell_selector@) is None,
        },
{
    let row_sel = scraper::Selector::parse(row_selector).ok()?;
    let cell_sel = scraper::Selector::parse(cell_selector).ok()?;
    let document = scraper::Html::parse_document(html);
    let mut rows = Vec::new();
    for row in document.select(&row_sel) {
        let mut cells = Vec::new();
        for cell in row.select(&cell_sel) {
            cells.push(cell.text().collect::<String>());
        }
        rows.push(cells);
    }
    Some(rows)
}

/// A row of the NGX price list that names a targeted listing: its ticker, the listing's
/// company and sector, and the closing price as text (commas removed, trimmed).
#[derive(Debug)]
pub struct ListedQuote {
    pub ticker: String,
    pub company_name: String,
    pub sector: Sector,
    pub close_text: String,
}

/// The mathematical value of a quote.
pub struct ListedQuoteModel {
    pub ticker: Seq<char>,
    pub company_name: Seq<char>,
    pub sector: SectorModel,
    pub close_text: Seq<char>,
}

impl View for ListedQuote {
    type V = ListedQuoteModel;

    open spec fn view(&self) -> ListedQuoteModel {
        ListedQuoteModel {
            ticker: self.ticker@,
            company_name: self.company_name@,
            sector: self.sector@,
            close_text: self.close_text@,
        }
    }
}

/// The values of a sequence of quotes.
pub open spec fn quotes_model(s: Seq<ListedQuote>) -> Seq<ListedQuoteModel> {
    s.map_values(|q: ListedQuote| q@)
}

/// The position of the last listing with ticker `t`: a table keyed by ticker keeps the last
/// listing inserted under a ticker.
pub open spec fn last_listing(u: Seq<ListingModel>, t: Seq<char>) -> Option<int>
    decreases u.len(),
{
    if u.len() == 0 {
        None
    } else if u.last().0 == t {
        Some(u.len() - 1)
    } else {
        last_listing(u.drop_last(), t)
    }
}

/// The quote for a row whose upper-cased ticker and (trimmed) closing-price cell are given:
/// present when the ticker is listed in a targeted sector.
pub open spec fn quote_for(
    ticker_upper: Seq<char>,
    close_cell: Seq<char>,
    u: Seq<ListingModel>,
) -> Option<ListedQuoteModel> {
    match last_listing(u, ticker_upper) {
        Some(j) => if is_target_sector(u[j].2) {
            Some(
                ListedQuoteModel {
                    ticker: ticker_upper,
                    company_name: u[j].1,
                    sector: u[j].2,
                    close_text: trimmed(without_chars(close_cell, seq![','])),
                },
            )
        } else {
            None
        },
        None => None,
    }
}

/// The quote for a row of raw cell texts: rows with fewer than four cells are skipped; the
/// ticker is the first cell trimmed and upper-cased, the price the fourth cell.
pub open spec fn row_quote(row: Seq<Seq<char>>, u: Seq<ListingModel>) -> Option<ListedQuoteModel> {
    if row.len() < 4 {
        None
    } else {
        quote_for(uppercase_of(trimmed(trimmed(row[0]))), trimmed(row[3]), u)
    }
}

/// The quotes of a table, in row order.
pub open spec fn page_quotes(rows: Seq<Seq<Seq<char>>>, u: Seq<ListingModel>) -> Seq<ListedQuoteModel>
    decreases rows.len(),
{
    if rows.len() == 0 {
        Seq::empty()
    } else {
        match row_quote(rows.last(), u) {
            Some(q) => page_quotes(rows.drop_last(), u).push(q),
            None => page_quotes(rows.drop_last(), u),
        }
    }
}

proof fn lemma_last_listing_found(u: Seq<ListingModel>, t: Seq<char>)
    ensures
        last_listing(u, t) matches Some(j) ==> 0 <= j < u.len() && u[j].0 == t,
    decreases u.len(),
{
    if u.len() > 0 && u.last().0 != t {
        lemma_last_listing_found(u.drop_last(), t);
    }
}

fn find_listing(u: &Vec<Listing>, ticker: &str) -> (r: Option<usize>)
    ensures
        match r {
            Some(j) => j < u@.len() && last_listing(listings_model(u@), ticker@) == Some(j as int),
            None => last_listing(listings_model(u@), ticker@) is None,
        },
{
    let mut i: usize = u.len();
    assert(u@.take(i as int) =~= u@);
    while i > 0
        invariant
            i <= u.len(),
            last_listing(listings_model(u@), ticker@) == last_listing(listings_model(u@.take(i as int)), ticker@),
        decreases i,
    {
        let ghost m = listings_model(u@.take(i as int));
        assert(m.last() == (u@[i - 1].0@, u@[i - 1].1@, u@[i - 1].2@));
        assert(m.drop_last() =~= listings_model(u@.take(i - 1)));
        if str_equal(u[i - 1].0.as_str(), ticker) {
            return Some(i - 1);
        }
        i = i - 1;
    }
    None
}

/// The quote for a row, given its ticker already upper-cased and its fourth cell.
pub fn quote_for_ticker(ticker_upper: &str, close_cell: &str, universe: &Vec<Listing>) -> (r: Option<ListedQuote>)
    ensures
        match r {
            Some(q) => quote_for(ticker_upper@, close_cell@, listings_model(universe@)) == Some(q@),
            None => quote_for(ticker_upper@, close_cell@, listings_model(universe@)) is None,
        },
{
    proof {
        lemma_last_listing_found(listings_model(universe@), ticker_upper@);
    }
    match find_listing(universe, ticker_upper) {
        Some(j) => {
            let e = &universe[j];
            assert(listings_model(universe@)[j as int] == (e.0@, e.1@, e.2@));
            if e.2.is_target() {
                let commas: Vec<char> = vec![','];
                let raw = chars_of(close_cell);
                let cleaned = remove_chars(&raw, &commas);
                let cleaned_text = string_from_chars(cleaned.as_slice());
                let close = trim(cleaned_text.as_str());
                assert(commas@ =~= seq![',']);
                Some(
                    ListedQuote {
                        ticker: ticker_upper.to_owned(),
                        company_name: e.1.clone(),
                        sector: e.2.clone(),
                        close_text: close.to_owned(),
                    },
                )
            } else {
                None
            }
        },
        None => None,
    }
}

/// The quotes of a table of raw cell texts, in row order.
pub fn quotes_from_rows(rows: &Vec<Vec<String>>, universe: &Vec<Listing>) -> (r: Vec<ListedQuote>)
    ensures
        quotes_model(r@) == page_quotes(cells_model(rows@), listings_model(universe@)),
{
    let ghost u = listings_model(universe@);
    let mut r: Vec<ListedQuote> = Vec::new();
    let mut i: usize = 0;
    while i < rows.len()
        invariant
            i <= rows.len(),
            u == listings_model(universe@),
            quotes_model(r@) == page_quotes(cells_model(rows@.take(i as int)), u),
        decreases rows.len() - i,
    {
        let row = &rows[i];
        proof {
            let m = cells_model(rows@.take(i + 1));
            assert(m.drop_last() =~= cells_model(rows@.take(i as int)));
            assert(m.last() == row@.map_values(|c: String| c@));
        }
        if row.len() >= 4 {
            let first = trim(row[0].as_str());
            let ticker = to_uppercase(trim(first));
            let close_cell = trim(row[3].as_str());
            assert(row@.map_values(|c: String| c@)[0] == row@[0]@);
            assert(row@.map_values(|c: String| c@)[3] == row@[3]@);
            match quote_for_ticker(ticker.as_str(), close_cell, universe) {
                Some(q) => {
                    r.push(q);
                    assert(quotes_model(r@) =~= page_quotes(cells_model(rows@.take(i as int)), u).push(q@));
                },
                None => {},
            }
        }
        i = i + 1;
    }
    assert(rows@.take(rows.len() as int) =~= rows@);
    r
}

/// The quotes of the NGX price list in a page, for the listings of `universe` in targeted
/// sectors: the rows are the elements selected by `table tbody tr`, their cells the `td`
/// elements inside them. Were a selector refused, no row would be selected.
pub fn listed_quotes_in_page(html: &str, universe: &Vec<Listing>) -> (r: Vec<ListedQuote>)
    ensures
        match price_table_cells(html@, "table tbody tr"@, "td"@) {
            Some(cells) => quotes_model(r@) == page_quotes(cells, listings_model(universe@)),
            None => r@.len() == 0,
        },
{
    match price_table_rows(html, "table tbody tr", "td") {
        Some(rows) => quotes_from_rows(&rows, universe),
        None => Vec::new(),
    }
}

} // verus!
