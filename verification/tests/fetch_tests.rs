use ngx_radar::fetch::{
    after_attempt, alpha_vantage_key_usable, alpha_vantage_symbol, api_message_excerpt,
    first_source, history_usable, listed_quotes_in_page, quotes_from_rows, total_volume,
    DataSource, FetchDecision, SourceOutcome,
};
use ngx_radar::sector::Sector;
use ngx_radar::universe::get_ngx_universe;

#[test]
fn key_usability() {
    assert!(alpha_vantage_key_usable(Some("ABC123")));
    assert!(!alpha_vantage_key_usable(Some("")));
    assert!(!alpha_vantage_key_usable(Some("YOUR_KEY_HERE")));
    assert!(!alpha_vantage_key_usable(None));
}

#[test]
fn source_order() {
    assert_eq!(first_source(true), DataSource::AlphaVantage);
    assert_eq!(first_source(false), DataSource::NgxScrape);
    assert_eq!(after_attempt(DataSource::AlphaVantage, SourceOutcome::Loaded(5)), FetchDecision::Accept);
    assert_eq!(
        after_attempt(DataSource::AlphaVantage, SourceOutcome::Loaded(4)),
        FetchDecision::FallBackTo(DataSource::NgxScrape)
    );
    assert_eq!(
        after_attempt(DataSource::AlphaVantage, SourceOutcome::Failed),
        FetchDecision::FallBackTo(DataSource::NgxScrape)
    );
    assert_eq!(after_attempt(DataSource::NgxScrape, SourceOutcome::Loaded(30)), FetchDecision::Accept);
    assert_eq!(
        after_attempt(DataSource::NgxScrape, SourceOutcome::Loaded(0)),
        FetchDecision::FallBackTo(DataSource::Mock)
    );
    assert_eq!(after_attempt(DataSource::Mock, SourceOutcome::Failed), FetchDecision::Accept);
}

#[test]
fn history_length() {
    assert!(!history_usable(0));
    assert!(!history_usable(1));
    assert!(history_usable(2));
}

#[test]
fn symbols_carry_the_lagos_suffix() {
    assert_eq!(alpha_vantage_symbol("GTCO"), "GTCO.LG");
    assert_eq!(alpha_vantage_symbol(""), ".LG");
}

#[test]
fn message_excerpt() {
    assert_eq!(api_message_excerpt("short"), "short");
    let long = "x".repeat(200);
    assert_eq!(api_message_excerpt(&long).len(), 120);
}

#[test]
fn volume_totals() {
    assert_eq!(total_volume(&vec![1, 2, 3]), Some(6));
    assert_eq!(total_volume(&Vec::new()), Some(0));
    assert_eq!(total_volume(&vec![u64::MAX, 1]), None);
    assert_eq!(total_volume(&vec![u64::MAX - 1, 1]), Some(u64::MAX));
}

fn row(cells: &[&str]) -> Vec<String> {
    cells.iter().map(|s| s.to_string()).collect()
}

#[test]
fn rows_become_quotes() {
    let u = get_ngx_universe();
    let rows = vec![
        row(&[" gtco ", "x", "y", " 45,500.00 "]),
        row(&["ZENITHBANK", "x", "y"]),
        row(&["UNKNOWN", "x", "y", "1"]),
        row(&["Seplat", "a", "b", "3,200.50", "extra"]),
    ];
    let q = quotes_from_rows(&rows, &u);
    assert_eq!(q.len(), 2);
    assert_eq!(q[0].ticker, "GTCO");
    assert_eq!(q[0].company_name, "Guaranty Trust Holding Co");
    assert!(q[0].sector == Sector::Finance);
    assert_eq!(q[0].close_text, "45500.00");
    assert_eq!(q[1].ticker, "SEPLAT");
    assert!(q[1].sector == Sector::Energy);
    assert_eq!(q[1].close_text, "3200.50");
}

#[test]
fn untargeted_listings_are_skipped() {
    let u = vec![("ABC".to_string(), "Abc".to_string(), Sector::Other("misc".to_string()))];
    let q = quotes_from_rows(&vec![row(&["ABC", "", "", "1"])], &u);
    assert!(q.is_empty());
}

#[test]
fn quotes_from_a_page() {
    let html = "<html><body><table><thead><tr><td>Symbol</td></tr></thead><tbody>\
        <tr><td>MTNN</td><td>MTN</td><td>x</td><td>220.50</td></tr>\
        <tr><td>FOO</td><td>Foo</td><td>x</td><td>1.00</td></tr>\
        <tr><td>OANDO</td><td>Oando</td></tr>\
        </tbody></table></body></html>";
    let q = listed_quotes_in_page(html, &get_ngx_universe());
    assert_eq!(q.len(), 1);
    assert_eq!(q[0].ticker, "MTNN");
    assert_eq!(q[0].close_text, "220.50");
    assert!(q[0].sector == Sector::Fintech);
}
