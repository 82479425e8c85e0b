//! Director dealings and large-holder transactions: the curated list, the fallback when
//! nothing is fetched, disclosure keyword detection, and the signal score.
use vstd::prelude::*;
use vstd::utf8::is_ascii_chars;
use crate::text::{ascii_lower, chars_of, contains_str, has_infix, lowercase_of, remove_chars, str_equal, to_lowercase, without_chars};

verus! {

broadcast use vstd::string::group_string_axioms;

/// A director dealing or large-holder transaction.
#[derive(Debug, Clone)]
pub struct InsiderAlert {
    pub company: String,
    pub ticker: String,
    pub director: String,
    pub transaction_type: String,
    pub date: String,
    pub units: String,
    pub value_ngn: String,
    pub signal_strength: String,
    pub notes: String,
}

/// The mathematical value of an alert: each field as characters.
pub struct InsiderAlertModel {
    pub company: Seq<char>,
    pub ticker: Seq<char>,
    pub director: Seq<char>,
    pub transaction_type: Seq<char>,
    pub date: Seq<char>,
    pub units: Seq<char>,
    pub value_ngn: Seq<char>,
    pub signal_strength: Seq<char>,
    pub notes: Seq<char>,
}

impl View for InsiderAlert {
    type V = InsiderAlertModel;

    open spec fn view(&self) -> InsiderAlertModel {
        InsiderAlertModel {
            company: self.company@,
            ticker: self.ticker@,
            director: self.director@,
            transaction_type: self.transaction_type@,
            date: self.date@,
            units: self.units@,
            value_ngn: self.value_ngn@,
            signal_strength: self.signal_strength@,
            notes: self.notes@,
        }
    }
}

/// The values of a sequence of alerts, in order.
pub open spec fn alerts_model(s: Seq<InsiderAlert>) -> Seq<InsiderAlertModel> {
    s.map_values(|a: InsiderAlert| a@)
}

/// The curated transactions, verified by hand from public filings.
pub open spec fn known_insider_transactions() -> Seq<InsiderAlertModel> {
    seq![
        InsiderAlertModel {
            company: "Zenith Bank Plc"@,
            ticker: "ZENITHBANK"@,
            director: "Adaora Umeoji (Group MD/CEO)"@,
            transaction_type: "BUY"@,
            date: "June 2025"@,
            units: "68,750,000 shares"@,
            value_ngn: "~₦3.3 billion"@,
            signal_strength: "STRONG BUY"@,
            notes: "CEO bought during sector selloff. Stake grew from 91.8M to 275.9M shares — a 300% increase in 6 months. Classic conviction buy: she runs the bank and bought with her own money at a low."@,
        },
        InsiderAlertModel {
            company: "NGX Group Plc"@,
            ticker: "NGXGROUP"@,
            director: "Ademola Babarinde (Non-Executive Director)"@,
            transaction_type: "BUY"@,
            date: "March 27, 2026"@,
            units: "20,000 shares"@,
            value_ngn: "₦3,376,000"@,
            signal_strength: "BUY"@,
            notes: "NED bought 3 days before the ₦3.00 dividend + 1-for-3 bonus issue announcement (April 29). Buying ahead of corporate action = informed accumulation."@,
        },
        InsiderAlertModel {
            company: "GTCO Plc"@,
            ticker: "GTCO"@,
            director: "Segun Agbaje (Group CEO)"@,
            transaction_type: "BUY"@,
            date: "2024-2025"@,
            units: "32,000,000 shares (held)"@,
            value_ngn: "~₦1.46 billion at current prices"@,
            signal_strength: "WATCH"@,
            notes: "CEO holds 32M shares — small relative to his 15-year tenure (0.088% of company). Collects ₦410M on the record ₦12.76 dividend. Stake is modest but dividend policy signals confidence in earnings quality."@,
        },
        InsiderAlertModel {
            company: "BUA Foods Plc"@,
            ticker: "BUAFOODS"@,
            director: "Abdul Samad Rabiu (Chairman/Founder)"@,
            transaction_type: "BUY"@,
            date: "Ongoing"@,
            units: "Majority stake"@,
            value_ngn: "Controlling interest"@,
            signal_strength: "FOUNDER ALIGNED"@,
            notes: "Founder holds controlling stake. Proposed ₦28/share dividend — 115% increase vs 2024. Founder alignment with dividend growth is the strongest long-term signal possible."@,
        },
        InsiderAlertModel {
            company: "Dangote Cement Plc"@,
            ticker: "DANGCEM"@,
            director: "Aliko Dangote (Founder/Chairman)"@,
            transaction_type: "BUY"@,
            date: "Ongoing"@,
            units: "Majority stake"@,
            value_ngn: "Controlling interest"@,
            signal_strength: "FOUNDER ALIGNED"@,
            notes: "Founder holds majority. ₦45/share dividend declared — highest single NGX dividend in 2026. Africa's largest cement producer. Founder alignment + record dividend = strong hold signal."@,
        },
        InsiderAlertModel {
            company: "United Bank for Africa"@,
            ticker: "UBA"@,
            director: "Tony Elumelu (Chairman/Founder)"@,
            transaction_type: "BUY"@,
            date: "2025"@,
            units: "Stake increased"@,
            value_ngn: "Material"@,
            signal_strength: "ACCUMULATING"@,
            notes: "Founder grew personal stake in 2025. UBA operates across 20 African countries — diversification hedge. 7.9% dividend yield with 48.6% analyst upside target."@,
        }
    ]
}

/// The curated transactions: the fallback when no live disclosure is available.
pub fn get_known_insider_transactions() -> (v: Vec<InsiderAlert>)
    ensures
        alerts_model(v@) == known_insider_transactions(),
{
    let mut v: Vec<InsiderAlert> = Vec::new();
    v.push(InsiderAlert {
        company: "Zenith Bank Plc".to_owned(),
        ticker: "ZENITHBANK".to_owned(),
        director: "Adaora Umeoji (Group MD/CEO)".to_owned(),
        transaction_type: "BUY".to_owned(),
        date: "June 2025".to_owned(),
        units: "68,750,000 shares".to_owned(),
        value_ngn: "~₦3.3 billion".to_owned(),
        signal_strength: "STRONG BUY".to_owned(),
        notes: "CEO bought during sector selloff. Stake grew from 91.8M to 275.9M shares — a 300% increase in 6 months. Classic conviction buy: she runs the bank and bought with her own money at a low.".to_owned(),
    });
    v.push(InsiderAlert {
        company: "NGX Group Plc".to_owned(),
        ticker: "NGXGROUP".to_owned(),
        director: "Ademola Babarinde (Non-Executive Director)".to_owned(),
        transaction_type: "BUY".to_owned(),
        date: "March 27, 2026".to_owned(),
        units: "20,000 shares".to_owned(),
        value_ngn: "₦3,376,000".to_owned(),
        signal_strength: "BUY".to_owned(),
        notes: "NED bought 3 days before the ₦3.00 dividend + 1-for-3 bonus issue announcement (April 29). Buying ahead of corporate action = informed accumulation.".to_owned(),
    });
    v.push(InsiderAlert {
        company: "GTCO Plc".to_owned(),
        ticker: "GTCO".to_owned(),
        director: "Segun Agbaje (Group CEO)".to_owned(),
        transaction_type: "BUY".to_owned(),
        date: "2024-2025".to_owned(),
        units: "32,000,000 shares (held)".to_owned(),
        value_ngn: "~₦1.46 billion at current prices".to_owned(),
        signal_strength: "WATCH".to_owned(),
        notes: "CEO holds 32M shares — small relative to his 15-year tenure (0.088% of company). Collects ₦410M on the record ₦12.76 dividend. Stake is modest but dividend policy signals confidence in earnings quality.".to_owned(),
    });
    v.push(InsiderAlert {
        company: "BUA Foods Plc".to_owned(),
        ticker: "BUAFOODS".to_owned(),
        director: "Abdul Samad Rabiu (Chairman/Founder)".to_owned(),
        transaction_type: "BUY".to_owned(),
        date: "Ongoing".to_owned(),
        units: "Majority stake".to_owned(),
        value_ngn: "Controlling interest".to_owned(),
        signal_strength: "FOUNDER ALIGNED".to_owned(),
        notes: "Founder holds controlling stake. Proposed ₦28/share dividend — 115% increase vs 2024. Founder alignment with dividend growth is the strongest long-term signal possible.".to_owned(),
    });
    v.push(InsiderAlert {
        company: "Dangote Cement Plc".to_owned(),
        ticker: "DANGCEM".to_owned(),
        director: "Aliko Dangote (Founder/Chairman)".to_owned(),
        transaction_type: "BUY".to_owned(),
        date: "Ongoing".to_owned(),
        units: "Majority stake".to_owned(),
        value_ngn: "Controlling interest".to_owned(),
        signal_strength: "FOUNDER ALIGNED".to_owned(),
        notes: "Founder holds majority. ₦45/share dividend declared — highest single NGX dividend in 2026. Africa's largest cement producer. Founder alignment + record dividend = strong hold signal.".to_owned(),
    });
    v.push(InsiderAlert {
        company: "United Bank for Africa".to_owned(),
        ticker: "UBA".to_owned(),
        director: "Tony Elumelu (Chairman/Founder)".to_owned(),
        transaction_type: "BUY".to_owned(),
        date: "2025".to_owned(),
        units: "Stake increased".to_owned(),
        value_ngn: "Material".to_owned(),
        signal_strength: "ACCUMULATING".to_owned(),
        notes: "Founder grew personal stake in 2025. UBA operates across 20 African countries — diversification hedge. 7.9% dividend yield with 48.6% analyst upside target.".to_owned(),
    });
    assert(alerts_model(v@) =~= known_insider_transactions());
    v
}

/// Points for the stated strength of the signal. A sale scores nothing: the score starts at
/// zero and a sale takes points away, saturating at zero.
pub open spec fn strength_points(strength: Seq<char>) -> int {
    if strength == "STRONG BUY"@ {
        40
    } else if strength == "BUY"@ || strength == "FOUNDER ALIGNED"@ || strength
        == "ACCUMULATING"@ {
        30
    } else if strength == "WATCH"@ {
        15
    } else {
        0
    }
}

/// Points for the seniority of the director, read from the lower-cased director text:
/// chief executive, founder or chairman before managing director, before non-executive
/// director, before anyone else.
pub open spec fn seniority_points(director_lower: Seq<char>) -> int {
    if has_infix(director_lower, "ceo"@) || has_infix(director_lower, "founder"@) || has_infix(
        director_lower,
        "chairman"@,
    ) {
        30
    } else if has_infix(director_lower, "md"@) || has_infix(director_lower, "managing"@) {
        25
    } else if has_infix(director_lower, "ned"@) || has_infix(director_lower, "non-executive"@) {
        15
    } else {
        10
    }
}

/// The characters removed from a value before its size is read: the naira sign, comma,
/// tilde and space.
pub open spec fn value_marks() -> Seq<char> {
    seq!['₦', ',', '~', ' ']
}

/// Points for the size of the transaction, read from the value text with its marks removed:
/// billions before millions before anything else.
pub open spec fn value_points(value: Seq<char>) -> int {
    let v = without_chars(value, value_marks());
    if has_infix(v, "billion"@) || has_infix(v, "bn"@) {
        30
    } else if has_infix(v, "million"@) || has_infix(v, "M"@) {
        15
    } else {
        5
    }
}

/// The signal score of a transaction, from its strength, its lower-cased director text and
/// its value text, capped at 100.
pub open spec fn signal_score_spec(
    strength: Seq<char>,
    director_lower: Seq<char>,
    value: Seq<char>,
) -> int {
    let total = strength_points(strength) + seniority_points(director_lower) + value_points(value);
    if total > 100 {
        100
    } else {
        total
    }
}

/// The signal score from the alert's fields, with the director text already lower-cased.
pub fn signal_score_from_fields(strength: &str, director_lower: &str, value_ngn: &str) -> (score: u8)
    ensures
        score == signal_score_spec(strength@, director_lower@, value_ngn@),
        score <= 100,
{
    let mut score: u8 = 0;
    if str_equal(strength, "STRONG BUY") {
        score = score + 40;
    } else if str_equal(strength, "BUY") || str_equal(strength, "FOUNDER ALIGNED") || str_equal(
        strength,
        "ACCUMULATING",
    ) {
        score = score + 30;
    } else if str_equal(strength, "WATCH") {
        score = score + 15;
    } else if str_equal(strength, "SELL") {
        score = score.saturating_sub(20);
    } else if str_equal(strength, "STRONG SELL") {
        score = score.saturating_sub(40);
    }
    let director = chars_of(director_lower);
    if contains_str(&director, "ceo") || contains_str(&director, "founder") || contains_str(
        &director,
        "chairman",
    ) {
        score = score + 30;
    } else if contains_str(&director, "md") || contains_str(&director, "managing") {
        score = score + 25;
    } else if contains_str(&director, "ned") || contains_str(&director, "non-executive") {
        score = score + 15;
    } else {
        score = score + 10;
    }
    let marks: Vec<char> = vec!['₦', ',', '~', ' '];
    let raw = chars_of(value_ngn);
    let value = remove_chars(&raw, &marks);
    assert(marks@ == value_marks());
    if contains_str(&value, "billion") || contains_str(&value, "bn") {
        score = score + 30;
    } else if contains_str(&value, "million") || contains_str(&value, "M") {
        score = score + 15;
    } else {
        score = score + 5;
    }
    if score > 100 {
        100
    } else {
        score
    }
}

/// The signal score of a transaction, 0 to 100, higher meaning a stronger signal.
pub fn calculate_signal_score(alert: &InsiderAlert) -> (score: u8)
    ensures
        score == signal_score_spec(
            alert.signal_strength@,
            lowercase_of(alert.director@),
            alert.value_ngn@,
        ),
        is_ascii_chars(alert.director@) ==> score == signal_score_spec(
            alert.signal_strength@,
            alert.director@.map_values(|c: char| ascii_lower(c)),
            alert.value_ngn@,
        ),
        score <= 100,
{
    let director_lower = to_lowercase(alert.director.as_str());
    signal_score_from_fields(alert.signal_strength.as_str(), director_lower.as_str(), alert.value_ngn.as_str())
}

/// The fetched alerts when there are any, else the curated transactions.
pub fn alerts_or_known(fetched: Vec<InsiderAlert>) -> (r: Vec<InsiderAlert>)
    ensures
        fetched@.len() > 0 ==> r@ == fetched@,
        fetched@.len() == 0 ==> alerts_model(r@) == known_insider_transactions(),
{
    if fetched.len() == 0 {
        get_known_insider_transactions()
    } else {
        fetched
    }
}

/// The phrases that mark a director-dealing disclosure, in the order they are looked for.
pub open spec fn disclosure_keywords() -> Seq<Seq<char>> {
    seq![
        "director dealing"@,
        "insider"@,
        "substantial shareholder"@,
        "director purchase"@,
        "director sale"@,
    ]
}

/// The disclosure phrases that occur in the lower-cased page text, in the order they are
/// looked for.
pub open spec fn keywords_found(lower: Seq<char>) -> Seq<Seq<char>> {
    disclosure_keywords().filter(|k: Seq<char>| has_infix(lower, k))
}

/// The disclosure phrases found in a page whose text is already lower-cased.
pub fn keywords_in_lowercase(lower: &str) -> (found: Vec<String>)
    ensures
        found@.map_values(|s: String| s@) == keywords_found(lower@),
{
    let text = chars_of(lower);
    let keywords: Vec<&str> = vec![
        "director dealing",
        "insider",
        "substantial shareholder",
        "director purchase",
        "director sale",
    ];
    assert(keywords@.map_values(|k: &str| k@) =~= disclosure_keywords());
    let mut found: Vec<String> = Vec::new();
    let mut i: usize = 0;
    while i < keywords.len()
        invariant
            i <= keywords.len(),
            keywords@.map_values(|k: &str| k@) == disclosure_keywords(),
            text@ == lower@,
            found@.map_values(|s: String| s@) == disclosure_keywords().take(i as int).filter(
                |k: Seq<char>| has_infix(lower@, k),
            ),
        decreases keywords.len() - i,
    {
        let k = keywords[i];
        proof {
            assert(disclosure_keywords().take(i + 1).drop_last() =~= disclosure_keywords().take(i as int));
            assert(disclosure_keywords()[i as int] == keywords@.map_values(|k: &str| k@)[i as int]);
            reveal_with_fuel(Seq::filter, 1);
        }
        if contains_str(&text, k) {
            found.push(k.to_owned());
            assert(found@.map_values(|s: String| s@) =~= disclosure_keywords().take(i as int).filter(
                |k: Seq<char>| has_infix(lower@, k),
            ).push(k@));
        }
        i = i + 1;
    }
    assert(disclosure_keywords().take(5) =~= disclosure_keywords());
    found
}

/// The disclosure phrases found in a page, matched without regard to case.
pub fn matched_disclosure_keywords(html: &str) -> (found: Vec<String>)
    ensures
        found@.map_values(|s: String| s@) == keywords_found(lowercase_of(html@)),
        is_ascii_chars(html@) ==> found@.map_values(|s: String| s@) == keywords_found(
            html@.map_values(|c: char| ascii_lower(c)),
        ),
{
    let lower = to_lowercase(html);
    keywords_in_lowercase(lower.as_str())
}

/// Every curated transaction is a purchase, and its signal strength is one of the buy-side
/// strengths: STRONG BUY, BUY, WATCH, FOUNDER ALIGNED or ACCUMULATING.
pub proof fn lemma_known_transactions_are_buys()
    ensures
        known_insider_transactions().len() == 6,
        forall|i: int|
            0 <= i < known_insider_transactions().len()
                ==> #[trigger] known_insider_transactions()[i].transaction_type == "BUY"@,
        forall|i: int|
            0 <= i < known_insider_transactions().len() ==> {
                let s = #[trigger] known_insider_transactions()[i].signal_strength;
                s == "STRONG BUY"@ || s == "BUY"@ || s == "WATCH"@ || s == "FOUNDER ALIGNED"@
                    || s == "ACCUMULATING"@
            },
{
}

/// The points of each signal strength: 40 for STRONG BUY; 30 for BUY, FOUNDER ALIGNED and
/// ACCUMULATING; 15 for WATCH; none for SELL and STRONG SELL, since the score cannot fall
/// below zero.
pub proof fn lemma_strength_points()
    ensures
        strength_points("STRONG BUY"@) == 40,
        strength_points("BUY"@) == 30,
        strength_points("FOUNDER ALIGNED"@) == 30,
        strength_points("ACCUMULATING"@) == 30,
        strength_points("WATCH"@) == 15,
        strength_points("SELL"@) == 0,
        strength_points("STRONG SELL"@) == 0,
        forall|s: Seq<char>| 0 <= #[trigger] strength_points(s) <= 40,
{
    reveal_strlit("STRONG BUY");
    assert("STRONG BUY"@.len() == 10);
    reveal_strlit("BUY");
    assert("BUY"@.len() == 3);
    reveal_strlit("FOUNDER ALIGNED");
    assert("FOUNDER ALIGNED"@.len() == 15);
    reveal_strlit("ACCUMULATING");
    assert("ACCUMULATING"@.len() == 12);
    reveal_strlit("WATCH");
    assert("WATCH"@.len() == 5);
    reveal_strlit("SELL");
    assert("SELL"@.len() == 4);
    reveal_strlit("STRONG SELL");
    assert("STRONG SELL"@.len() == 11);
}

/// The seniority tiers, read from the lower-cased director text: one that names a chief
/// executive, a founder or a chairman earns 30; otherwise one that names a managing
/// director (`md` or `managing`) earns 25; otherwise one that names a non-executive
/// director (`ned` or `non-executive`) earns 15; a text naming none of these earns 10,
/// whatever else it says (an "executive director" among them).
pub proof fn lemma_seniority_tiers(d: Seq<char>)
    ensures
        has_infix(d, "ceo"@) || has_infix(d, "founder"@) || has_infix(d, "chairman"@)
            ==> seniority_points(d) == 30,
        !has_infix(d, "ceo"@) && !has_infix(d, "founder"@) && !has_infix(d, "chairman"@) && (
        has_infix(d, "md"@) || has_infix(d, "managing"@)) ==> seniority_points(d) == 25,
        !has_infix(d, "ceo"@) && !has_infix(d, "founder"@) && !has_infix(d, "chairman"@)
            && !has_infix(d, "md"@) && !has_infix(d, "managing"@) && (has_infix(d, "ned"@)
            || has_infix(d, "non-executive"@)) ==> seniority_points(d) == 15,
        !has_infix(d, "ceo"@) && !has_infix(d, "founder"@) && !has_infix(d, "chairman"@)
            && !has_infix(d, "md"@) && !has_infix(d, "managing"@) && !has_infix(d, "ned"@)
            && !has_infix(d, "non-executive"@) ==> seniority_points(d) == 10,
{
}

/// The size tiers, read from the value text with the naira sign, commas, tildes and spaces
/// removed: billions (`billion` or `bn`) earn 30; otherwise millions (`million` or `M`)
/// earn 15; anything else earns 5.
pub proof fn lemma_value_tiers(v: Seq<char>)
    ensures
        ({
            let w = without_chars(v, seq!['₦', ',', '~', ' ']);
            &&& has_infix(w, "billion"@) || has_infix(w, "bn"@) ==> value_points(v) == 30
            &&& !has_infix(w, "billion"@) && !has_infix(w, "bn"@) && (has_infix(w, "million"@)
                || has_infix(w, "M"@)) ==> value_points(v) == 15
            &&& !has_infix(w, "billion"@) && !has_infix(w, "bn"@) && !has_infix(w, "million"@)
                && !has_infix(w, "M"@) ==> value_points(v) == 5
        }),
{
}

/// The score adds the strength, seniority and size points and caps the sum at 100; it is
/// never below 15, the points of an unknown strength, an unnamed director and a small deal.
pub proof fn lemma_score_composition(strength: Seq<char>, director_lower: Seq<char>, value: Seq<char>)
    ensures
        ({
            let total = strength_points(strength) + seniority_points(director_lower)
                + value_points(value);
            signal_score_spec(strength, director_lower, value) == if total < 100 {
                total
            } else {
                100
            }
        }),
        15 <= signal_score_spec(strength, director_lower, value) <= 100,
{
}

/// A disclosure is recognised by five phrases: "director dealing", "insider", "substantial
/// shareholder", "director purchase" and "director sale".
pub proof fn lemma_disclosure_phrases()
    ensures
        disclosure_keywords().len() == 5,
        disclosure_keywords().contains("director dealing"@),
        disclosure_keywords().contains("insider"@),
        disclosure_keywords().contains("substantial shareholder"@),
        disclosure_keywords().contains("director purchase"@),
        disclosure_keywords().contains("director sale"@),
{
    assert(disclosure_keywords()[0] == "director dealing"@);
    assert(disclosure_keywords()[1] == "insider"@);
    assert(disclosure_keywords()[2] == "substantial shareholder"@);
    assert(disclosure_keywords()[3] == "director purchase"@);
    assert(disclosure_keywords()[4] == "director sale"@);
}

} // verus!
