use ngx_radar::sector::Sector;
use ngx_radar::universe::{get_base_price, get_ngx_universe, target_entries};

#[test]
fn universe_has_every_listing() {
    let u = get_ngx_universe();
    assert_eq!(u.len(), 34);
    assert_eq!(u[0].0, "GTCO");
    assert_eq!(u[0].1, "Guaranty Trust Holding Co");
    assert!(u[0].2 == Sector::Finance);
    assert_eq!(u[10].0, "MTNN");
    assert!(u[10].2 == Sector::Fintech);
    assert_eq!(u[15].0, "SEPLAT");
    assert!(u[15].2 == Sector::Energy);
    assert_eq!(u[22].0, "PRESCO");
    assert!(u[22].2 == Sector::Agriculture);
    assert_eq!(u[33].0, "UNION");
    assert_eq!(u[33].1, "Union Diagnostic and Clinical Services");
    assert!(u[33].2 == Sector::Healthcare);
}

#[test]
fn universe_tickers_are_distinct_and_targeted() {
    let u = get_ngx_universe();
    for i in 0..u.len() {
        assert!(u[i].2.is_target());
        for j in (i + 1)..u.len() {
            assert_ne!(u[i].0, u[j].0);
        }
    }
}

#[test]
fn target_entries_keeps_targeted_listings_in_order() {
    let u = get_ngx_universe();
    let t = target_entries(&u);
    assert_eq!(t.len(), u.len());
    let mut mixed = vec![
        ("A".to_string(), "a".to_string(), Sector::Energy),
        ("B".to_string(), "b".to_string(), Sector::Other("x".to_string())),
        ("C".to_string(), "c".to_string(), Sector::Healthcare),
    ];
    let kept = target_entries(&mixed);
    assert_eq!(kept.len(), 2);
    assert_eq!(kept[0].0, "A");
    assert_eq!(kept[1].0, "C");
    mixed.clear();
    assert_eq!(target_entries(&mixed).len(), 0);
}

#[test]
fn base_prices_in_kobo() {
    assert_eq!(get_base_price("GTCO"), 4550);
    assert_eq!(get_base_price("ZENITHBANK"), 3720);
    assert_eq!(get_base_price("FCMB"), 875);
    assert_eq!(get_base_price("OMATEK"), 85);
    assert_eq!(get_base_price("AIRTELAFRI"), 185000);
    assert_eq!(get_base_price("SEPLAT"), 320000);
    assert_eq!(get_base_price("UNION"), 190);
    assert_eq!(get_base_price("gtco"), 1000);
    assert_eq!(get_base_price("DANGCEM"), 1000);
}
