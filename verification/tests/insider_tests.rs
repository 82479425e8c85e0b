use ngx_radar::insider::{
    alerts_or_known, calculate_signal_score, get_known_insider_transactions,
    keywords_in_lowercase, matched_disclosure_keywords, signal_score_from_fields, InsiderAlert,
};

fn alert(strength: &str, director: &str, value: &str) -> InsiderAlert {
    InsiderAlert {
        company: "Co".to_string(),
        ticker: "CO".to_string(),
        director: director.to_string(),
        transaction_type: "BUY".to_string(),
        date: "2025".to_string(),
        units: "1 share".to_string(),
        value_ngn: value.to_string(),
        signal_strength: strength.to_string(),
        notes: String::new(),
    }
}

#[test]
fn known_transactions_are_listed() {
    let v = get_known_insider_transactions();
    assert_eq!(v.len(), 6);
    assert_eq!(v[0].ticker, "ZENITHBANK");
    assert_eq!(v[0].director, "Adaora Umeoji (Group MD/CEO)");
    assert_eq!(v[0].value_ngn, "~₦3.3 billion");
    assert_eq!(v[0].signal_strength, "STRONG BUY");
    assert_eq!(v[1].ticker, "NGXGROUP");
    assert_eq!(v[1].date, "March 27, 2026");
    assert_eq!(v[2].ticker, "GTCO");
    assert_eq!(v[3].ticker, "BUAFOODS");
    assert_eq!(v[4].ticker, "DANGCEM");
    assert_eq!(v[5].ticker, "UBA");
    assert_eq!(v[5].signal_strength, "ACCUMULATING");
    assert!(v[2].notes.starts_with("CEO holds 32M shares"));
}

#[test]
fn scores_of_known_transactions() {
    let v = get_known_insider_transactions();
    let scores: Vec<u8> = v.iter().map(calculate_signal_score).collect();
    assert_eq!(scores, vec![100, 50, 75, 65, 65, 75]);
}

#[test]
fn strength_points() {
    assert_eq!(calculate_signal_score(&alert("STRONG BUY", "x", "1")), 40 + 10 + 5);
    assert_eq!(calculate_signal_score(&alert("BUY", "x", "1")), 30 + 10 + 5);
    assert_eq!(calculate_signal_score(&alert("FOUNDER ALIGNED", "x", "1")), 45);
    assert_eq!(calculate_signal_score(&alert("ACCUMULATING", "x", "1")), 45);
    assert_eq!(calculate_signal_score(&alert("WATCH", "x", "1")), 15 + 10 + 5);
    assert_eq!(calculate_signal_score(&alert("SELL", "x", "1")), 10 + 5);
    assert_eq!(calculate_signal_score(&alert("STRONG SELL", "x", "1")), 10 + 5);
    assert_eq!(calculate_signal_score(&alert("strong buy", "x", "1")), 10 + 5);
}

#[test]
fn seniority_points() {
    assert_eq!(calculate_signal_score(&alert("", "Jane (CEO)", "1")), 30 + 5);
    assert_eq!(calculate_signal_score(&alert("", "FOUNDER", "1")), 35);
    assert_eq!(calculate_signal_score(&alert("", "Chairman", "1")), 35);
    assert_eq!(calculate_signal_score(&alert("", "Group MD", "1")), 25 + 5);
    assert_eq!(calculate_signal_score(&alert("", "Managing Director", "1")), 30);
    assert_eq!(calculate_signal_score(&alert("", "NED", "1")), 15 + 5);
    assert_eq!(calculate_signal_score(&alert("", "Non-Executive Director", "1")), 20);
    assert_eq!(calculate_signal_score(&alert("", "Director", "1")), 10 + 5);
}

#[test]
fn value_points() {
    assert_eq!(signal_score_from_fields("", "", "~₦2 bn"), 10 + 30);
    assert_eq!(signal_score_from_fields("", "", "b i l l i o n"), 10 + 30);
    assert_eq!(signal_score_from_fields("", "", "₦5 million"), 10 + 15);
    assert_eq!(signal_score_from_fields("", "", "₦5M"), 10 + 15);
    assert_eq!(signal_score_from_fields("", "", "5m"), 10 + 5);
    assert_eq!(signal_score_from_fields("", "", "b,n"), 10 + 30);
}

#[test]
fn score_from_fields_takes_director_as_given() {
    assert_eq!(signal_score_from_fields("BUY", "CEO", "1"), 30 + 10 + 5);
    assert_eq!(signal_score_from_fields("BUY", "ceo", "1"), 30 + 30 + 5);
}

#[test]
fn score_never_exceeds_hundred() {
    assert_eq!(signal_score_from_fields("STRONG BUY", "ceo", "billion"), 100);
}

#[test]
fn fallback_to_known_when_nothing_fetched() {
    let known = alerts_or_known(Vec::new());
    assert_eq!(known.len(), 6);
    assert_eq!(known[0].ticker, "ZENITHBANK");
    let fetched = alerts_or_known(vec![alert("BUY", "x", "1")]);
    assert_eq!(fetched.len(), 1);
    assert_eq!(fetched[0].ticker, "CO");
}

#[test]
fn disclosure_keywords() {
    let found = matched_disclosure_keywords("<h1>Director Dealing</h1><p>INSIDER notice</p>");
    assert_eq!(found, vec!["director dealing".to_string(), "insider".to_string()]);
    let found = matched_disclosure_keywords("Substantial Shareholder; director sale; Director Purchase");
    assert_eq!(
        found,
        vec![
            "substantial shareholder".to_string(),
            "director purchase".to_string(),
            "director sale".to_string()
        ]
    );
    assert!(matched_disclosure_keywords("nothing here").is_empty());
    assert!(keywords_in_lowercase("INSIDER").is_empty());
}
