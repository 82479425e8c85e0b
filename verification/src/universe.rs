//! The NGX listing the screener covers, and the reference prices used for synthetic data.
use vstd::prelude::*;
use crate::sector::{Sector, SectorModel, is_target_sector};
use crate::text::str_equal;

verus! {

broadcast use vstd::string::group_string_axioms;

/// A listing as (ticker, company name, sector).
pub type Listing = (String, String, Sector);

/// The mathematical value of a listing.
pub type ListingModel = (Seq<char>, Seq<char>, SectorModel);

/// The value of one listing.
pub open spec fn listing_model(e: Listing) -> ListingModel {
    (e.0@, e.1@, e.2@)
}

/// The values of a sequence of listings, in order.
pub open spec fn listings_model(s: Seq<Listing>) -> Seq<ListingModel> {
    s.map_values(|e: Listing| listing_model(e))
}

/// The NGX listings the screener covers, in the order in which they are screened.
pub open spec fn ngx_universe() -> Seq<ListingModel> {
    seq![
        ("GTCO"@, "Guaranty Trust Holding Co"@, SectorModel::Finance),
        ("ZENITHBANK"@, "Zenith Bank Plc"@, SectorModel::Finance),
        ("ACCESS"@, "Access Holdings Plc"@, SectorModel::Finance),
        ("UBA"@, "United Bank for Africa"@, SectorModel::Finance),
        ("FBNH"@, "FBN Holdings Plc"@, SectorModel::Finance),
        ("STANBIC"@, "Stanbic IBTC Holdings"@, SectorModel::Finance),
        ("FCMB"@, "FCMB Group Plc"@, SectorModel::Finance),
        ("FIDELITYBK"@, "Fidelity Bank Plc"@, SectorModel::Finance),
        ("WEMABANK"@, "Wema Bank Plc"@, SectorModel::Finance),
        ("ETI"@, "Ecobank Transnational Inc"@, SectorModel::Finance),
        ("MTNN"@, "MTN Nigeria Communications"@, SectorModel::Fintech),
        ("AIRTELAFRI"@, "Airtel Africa Plc"@, SectorModel::Fintech),
        ("TRANSCORP"@, "Transnational Corporation"@, SectorModel::Fintech),
        ("CHAMS"@, "Chams Holding Company"@, SectorModel::Fintech),
        ("OMATEK"@, "Omatek Ventures Plc"@, SectorModel::Fintech),
        ("SEPLAT"@, "Seplat Energy Plc"@, SectorModel::Energy),
        ("CONOIL"@, "Conoil Plc"@, SectorModel::Energy),
        ("ETERNA"@, "Eterna Plc"@, SectorModel::Energy),
        ("OANDO"@, "Oando Plc"@, SectorModel::Energy),
        ("TOTAL"@, "TotalEnergies Marketing Nigeria"@, SectorModel::Energy),
        ("MRS"@, "MRS Oil Nigeria Plc"@, SectorModel::Energy),
        ("ARDOVA"@, "Ardova Plc"@, SectorModel::Energy),
        ("PRESCO"@, "Presco Plc"@, SectorModel::Agriculture),
        ("OKOMUOIL"@, "Okomu Oil Palm Co Plc"@, SectorModel::Agriculture),
        ("LIVESTOCK"@, "Livestock Feeds Plc"@, SectorModel::Agriculture),
        ("FLOURMILL"@, "Flour Mills of Nigeria"@, SectorModel::Agriculture),
        ("DANGSUGAR"@, "Dangote Sugar Refinery"@, SectorModel::Agriculture),
        ("NASCON"@, "NASCON Allied Industries"@, SectorModel::Agriculture),
        ("MAYBAKER"@, "May and Baker Nigeria Plc"@, SectorModel::Healthcare),
        ("GLAXOSMITH"@, "GlaxoSmithKline Consumer Nigeria"@, SectorModel::Healthcare),
        ("NEIMETH"@, "Neimeth International Pharmaceuticals"@, SectorModel::Healthcare),
        ("FIDSON"@, "Fidson Healthcare Plc"@, SectorModel::Healthcare),
        ("PHARMDEKO"@, "Pharma-Deko Plc"@, SectorModel::Healthcare),
        ("UNION"@, "Union Diagnostic and Clinical Services"@, SectorModel::Healthcare)
    ]
}

fn entry(t: &str, n: &str, s: Sector) -> (e: Listing)
    ensures
        listing_model(e) == (t@, n@, s@),
{
    (t.to_owned(), n.to_owned(), s)
}

/// The NGX listings the screener covers.
pub fn get_ngx_universe() -> (u: Vec<Listing>)
    ensures
        listings_model(u@) == ngx_universe(),
{
    let mut u: Vec<Listing> = Vec::new();
    u.push(entry("GTCO", "Guaranty Trust Holding Co", Sector::Finance));
    u.push(entry("ZENITHBANK", "Zenith Bank Plc", Sector::Finance));
    u.push(entry("ACCESS", "Access Holdings Plc", Sector::Finance));
    u.push(entry("UBA", "United Bank for Africa", Sector::Finance));
    u.push(entry("FBNH", "FBN Holdings Plc", Sector::Finance));
    u.push(entry("STANBIC", "Stanbic IBTC Holdings", Sector::Finance));
    u.push(entry("FCMB", "FCMB Group Plc", Sector::Finance));
    u.push(entry("FIDELITYBK", "Fidelity Bank Plc", Sector::Finance));
    u.push(entry("WEMABANK", "Wema Bank Plc", Sector::Finance));
    u.push(entry("ETI", "Ecobank Transnational Inc", Sector::Finance));
    u.push(entry("MTNN", "MTN Nigeria Communications", Sector::Fintech));
    u.push(entry("AIRTELAFRI", "Airtel Africa Plc", Sector::Fintech));
    u.push(entry("TRANSCORP", "Transnational Corporation", Sector::Fintech));
    u.push(entry("CHAMS", "Chams Holding Company", Sector::Fintech));
    u.push(entry("OMATEK", "Omatek Ventures Plc", Sector::Fintech));
    u.push(entry("SEPLAT", "Seplat Energy Plc", Sector::Energy));
    u.push(entry("CONOIL", "Conoil Plc", Sector::Energy));
    u.push(entry("ETERNA", "Eterna Plc", Sector::Energy));
    u.push(entry("OANDO", "Oando Plc", Sector::Energy));
    u.push(entry("TOTAL", "TotalEnergies Marketing Nigeria", Sector::Energy));
    u.push(entry("MRS", "MRS Oil Nigeria Plc", Sector::Energy));
    u.push(entry("ARDOVA", "Ardova Plc", Sector::Energy));
    u.push(entry("PRESCO", "Presco Plc", Sector::Agriculture));
    u.push(entry("OKOMUOIL", "Okomu Oil Palm Co Plc", Sector::Agriculture));
    u.push(entry("LIVESTOCK", "Livestock Feeds Plc", Sector::Agriculture));
    u.push(entry("FLOURMILL", "Flour Mills of Nigeria", Sector::Agriculture));
    u.push(entry("DANGSUGAR", "Dangote Sugar Refinery", Sector::Agriculture));
    u.push(entry("NASCON", "NASCON Allied Industries", Sector::Agriculture));
    u.push(entry("MAYBAKER", "May and Baker Nigeria Plc", Sector::Healthcare));
    u.push(entry("GLAXOSMITH", "GlaxoSmithKline Consumer Nigeria", Sector::Healthcare));
    u.push(entry("NEIMETH", "Neimeth International Pharmaceuticals", Sector::Healthcare));
    u.push(entry("FIDSON", "Fidson Healthcare Plc", Sector::Healthcare));
    u.push(entry("PHARMDEKO", "Pharma-Deko Plc", Sector::Healthcare));
    u.push(entry("UNION", "Union Diagnostic and Clinical Services", Sector::Healthcare));
    assert(listings_model(u@) =~= ngx_universe());
    u
}

/// Every listing of the universe belongs to a targeted sector.
pub proof fn lemma_universe_all_targets()
    ensures
        forall|i: int| 0 <= i < ngx_universe().len() ==> is_target_sector(#[trigger] ngx_universe()[i].2),
{
}


/// The universe holds 34 listings: the ten banks and holding companies of Finance, five
/// Fintech listings, seven Energy, six Agriculture and six Healthcare, each ticker with
/// its company's name.
pub proof fn lemma_universe_listings()
    ensures
        ngx_universe().len() == 34,
        ngx_universe().contains(("GTCO"@, "Guaranty Trust Holding Co"@, SectorModel::Finance)),
        ngx_universe().contains(("ZENITHBANK"@, "Zenith Bank Plc"@, SectorModel::Finance)),
        ngx_universe().contains(("ACCESS"@, "Access Holdings Plc"@, SectorModel::Finance)),
        ngx_universe().contains(("UBA"@, "United Bank for Africa"@, SectorModel::Finance)),
        ngx_universe().contains(("FBNH"@, "FBN Holdings Plc"@, SectorModel::Finance)),
        ngx_universe().contains(("STANBIC"@, "Stanbic IBTC Holdings"@, SectorModel::Finance)),
        ngx_universe().contains(("FCMB"@, "FCMB Group Plc"@, SectorModel::Finance)),
        ngx_universe().contains(("FIDELITYBK"@, "Fidelity Bank Plc"@, SectorModel::Finance)),
        ngx_universe().contains(("WEMABANK"@, "Wema Bank Plc"@, SectorModel::Finance)),
        ngx_universe().contains(("ETI"@, "Ecobank Transnational Inc"@, SectorModel::Finance)),
        ngx_universe().contains(("MTNN"@, "MTN Nigeria Communications"@, SectorModel::Fintech)),
        ngx_universe().contains(("AIRTELAFRI"@, "Airtel Africa Plc"@, SectorModel::Fintech)),
        ngx_universe().contains(("TRANSCORP"@, "Transnational Corporation"@, SectorModel::Fintech)),
        ngx_universe().contains(("CHAMS"@, "Chams Holding Company"@, SectorModel::Fintech)),
        ngx_universe().contains(("OMATEK"@, "Omatek Ventures Plc"@, SectorModel::Fintech)),
        ngx_universe().contains(("SEPLAT"@, "Seplat Energy Plc"@, SectorModel::Energy)),
        ngx_universe().contains(("CONOIL"@, "Conoil Plc"@, SectorModel::Energy)),
        ngx_universe().contains(("ETERNA"@, "Eterna Plc"@, SectorModel::Energy)),
        ngx_universe().contains(("OANDO"@, "Oando Plc"@, SectorModel::Energy)),
        ngx_universe().contains(("TOTAL"@, "TotalEnergies Marketing Nigeria"@, SectorModel::Energy)),
        ngx_universe().contains(("MRS"@, "MRS Oil Nigeria Plc"@, SectorModel::Energy)),
        ngx_universe().contains(("ARDOVA"@, "Ardova Plc"@, SectorModel::Energy)),
        ngx_universe().contains(("PRESCO"@, "Presco Plc"@, SectorModel::Agriculture)),
        ngx_universe().contains(("OKOMUOIL"@, "Okomu Oil Palm Co Plc"@, SectorModel::Agriculture)),
        ngx_universe().contains(("LIVESTOCK"@, "Livestock Feeds Plc"@, SectorModel::Agriculture)),
        ngx_universe().contains(("FLOURMILL"@, "Flour Mills of Nigeria"@, SectorModel::Agriculture)),
        ngx_universe().contains(("DANGSUGAR"@, "Dangote Sugar Refinery"@, SectorModel::Agriculture)),
        ngx_universe().contains(("NASCON"@, "NASCON Allied Industries"@, SectorModel::Agriculture)),
        ngx_universe().contains(("MAYBAKER"@, "May and Baker Nigeria Plc"@, SectorModel::Healthcare)),
        ngx_universe().contains(("GLAXOSMITH"@, "GlaxoSmithKline Consumer Nigeria"@, SectorModel::Healthcare)),
        ngx_universe().contains(("NEIMETH"@, "Neimeth International Pharmaceuticals"@, SectorModel::Healthcare)),
        ngx_universe().contains(("FIDSON"@, "Fidson Healthcare Plc"@, SectorModel::Healthcare)),
        ngx_universe().contains(("PHARMDEKO"@, "Pharma-Deko Plc"@, SectorModel::Healthcare)),
        ngx_universe().contains(("UNION"@, "Union Diagnostic and Clinical Services"@, SectorModel::Healthcare)),
{
    assert(ngx_universe()[0] == ("GTCO"@, "Guaranty Trust Holding Co"@, SectorModel::Finance));
    assert(ngx_universe()[1] == ("ZENITHBANK"@, "Zenith Bank Plc"@, SectorModel::Finance));
    assert(ngx_universe()[2] == ("ACCESS"@, "Access Holdings Plc"@, SectorModel::Finance));
    assert(ngx_universe()[3] == ("UBA"@, "United Bank for Africa"@, SectorModel::Finance));
    assert(ngx_universe()[4] == ("FBNH"@, "FBN Holdings Plc"@, SectorModel::Finance));
    assert(ngx_universe()[5] == ("STANBIC"@, "Stanbic IBTC Holdings"@, SectorModel::Finance));
    assert(ngx_universe()[6] == ("FCMB"@, "FCMB Group Plc"@, SectorModel::Finance));
    assert(ngx_universe()[7] == ("FIDELITYBK"@, "Fidelity Bank Plc"@, SectorModel::Finance));
    assert(ngx_universe()[8] == ("WEMABANK"@, "Wema Bank Plc"@, SectorModel::Finance));
    assert(ngx_universe()[9] == ("ETI"@, "Ecobank Transnational Inc"@, SectorModel::Finance));
    assert(ngx_universe()[10] == ("MTNN"@, "MTN Nigeria Communications"@, SectorModel::Fintech));
    assert(ngx_universe()[11] == ("AIRTELAFRI"@, "Airtel Africa Plc"@, SectorModel::Fintech));
    assert(ngx_universe()[12] == ("TRANSCORP"@, "Transnational Corporation"@, SectorModel::Fintech));
    assert(ngx_universe()[13] == ("CHAMS"@, "Chams Holding Company"@, SectorModel::Fintech));
    assert(ngx_universe()[14] == ("OMATEK"@, "Omatek Ventures Plc"@, SectorModel::Fintech));
    assert(ngx_universe()[15] == ("SEPLAT"@, "Seplat Energy Plc"@, SectorModel::Energy));
    assert(ngx_universe()[16] == ("CONOIL"@, "Conoil Plc"@, SectorModel::Energy));
    assert(ngx_universe()[17] == ("ETERNA"@, "Eterna Plc"@, SectorModel::Energy));
    assert(ngx_universe()[18] == ("OANDO"@, "Oando Plc"@, SectorModel::Energy));
    assert(ngx_universe()[19] == ("TOTAL"@, "TotalEnergies Marketing Nigeria"@, SectorModel::Energy));
    assert(ngx_universe()[20] == ("MRS"@, "MRS Oil Nigeria Plc"@, SectorModel::Energy));
    assert(ngx_universe()[21] == ("ARDOVA"@, "Ardova Plc"@, SectorModel::Energy));
    assert(ngx_universe()[22] == ("PRESCO"@, "Presco Plc"@, SectorModel::Agriculture));
    assert(ngx_universe()[23] == ("OKOMUOIL"@, "Okomu Oil Palm Co Plc"@, SectorModel::Agriculture));
    assert(ngx_universe()[24] == ("LIVESTOCK"@, "Livestock Feeds Plc"@, SectorModel::Agriculture));
    assert(ngx_universe()[25] == ("FLOURMILL"@, "Flour Mills of Nigeria"@, SectorModel::Agriculture));
    assert(ngx_universe()[26] == ("DANGSUGAR"@, "Dangote Sugar Refinery"@, SectorModel::Agriculture));
    assert(ngx_universe()[27] == ("NASCON"@, "NASCON Allied Industries"@, SectorModel::Agriculture));
    assert(ngx_universe()[28] == ("MAYBAKER"@, "May and Baker Nigeria Plc"@, SectorModel::Healthcare));
    assert(ngx_universe()[29] == ("GLAXOSMITH"@, "GlaxoSmithKline Consumer Nigeria"@, SectorModel::Healthcare));
    assert(ngx_universe()[30] == ("NEIMETH"@, "Neimeth International Pharmaceuticals"@, SectorModel::Healthcare));
    assert(ngx_universe()[31] == ("FIDSON"@, "Fidson Healthcare Plc"@, SectorModel::Healthcare));
    assert(ngx_universe()[32] == ("PHARMDEKO"@, "Pharma-Deko Plc"@, SectorModel::Healthcare));
    assert(ngx_universe()[33] == ("UNION"@, "Union Diagnostic and Clinical Services"@, SectorModel::Healthcare));
}

/// The universe lists its sectors in blocks: Finance first (ten listings), then Fintech
/// (five), Energy (seven), Agriculture (six) and Healthcare (six).
pub proof fn lemma_universe_sector_blocks()
    ensures
        forall|i: int| 0 <= i < 10 ==> #[trigger] ngx_universe()[i].2 == SectorModel::Finance,
        forall|i: int| 10 <= i < 15 ==> #[trigger] ngx_universe()[i].2 == SectorModel::Fintech,
        forall|i: int| 15 <= i < 22 ==> #[trigger] ngx_universe()[i].2 == SectorModel::Energy,
        forall|i: int| 22 <= i < 28 ==> #[trigger] ngx_universe()[i].2 == SectorModel::Agriculture,
        forall|i: int| 28 <= i < 34 ==> #[trigger] ngx_universe()[i].2 == SectorModel::Healthcare,
{
}

/// A ticker's length and first two characters, which tell the universe's tickers apart.
spec fn ticker_key(t: Seq<char>) -> (nat, char, char) {
    (t.len(), t[0], t[1])
}

/// The key of the ticker at each position of the universe.
spec fn universe_ticker_key(i: int) -> (nat, char, char) {
    if i == 0 {
        (4, 'G', 'T')
    } else if i == 1 {
        (10, 'Z', 'E')
    } else if i == 2 {
        (6, 'A', 'C')
    } else if i == 3 {
        (3, 'U', 'B')
    } else if i == 4 {
        (4, 'F', 'B')
    } else if i == 5 {
        (7, 'S', 'T')
    } else if i == 6 {
        (4, 'F', 'C')
    } else if i == 7 {
        (10, 'F', 'I')
    } else if i == 8 {
        (8, 'W', 'E')
    } else if i == 9 {
        (3, 'E', 'T')
    } else if i == 10 {
        (4, 'M', 'T')
    } else if i == 11 {
        (10, 'A', 'I')
    } else if i == 12 {
        (9, 'T', 'R')
    } else if i == 13 {
        (5, 'C', 'H')
    } else if i == 14 {
        (6, 'O', 'M')
    } else if i == 15 {
        (6, 'S', 'E')
    } else if i == 16 {
        (6, 'C', 'O')
    } else if i == 17 {
        (6, 'E', 'T')
    } else if i == 18 {
        (5, 'O', 'A')
    } else if i == 19 {
        (5, 'T', 'O')
    } else if i == 20 {
        (3, 'M', 'R')
    } else if i == 21 {
        (6, 'A', 'R')
    } else if i == 22 {
        (6, 'P', 'R')
    } else if i == 23 {
        (8, 'O', 'K')
    } else if i == 24 {
        (9, 'L', 'I')
    } else if i == 25 {
        (9, 'F', 'L')
    } else if i == 26 {
        (9, 'D', 'A')
    } else if i == 27 {
        (6, 'N', 'A')
    } else if i == 28 {
        (8, 'M', 'A')
    } else if i == 29 {
        (10, 'G', 'L')
    } else if i == 30 {
        (7, 'N', 'E')
    } else if i == 31 {
        (6, 'F', 'I')
    } else if i == 32 {
        (9, 'P', 'H')
    } else {
        (5, 'U', 'N')
    }
}

proof fn lemma_universe_ticker_keys()
    ensures
        forall|i: int|
            0 <= i < ngx_universe().len() ==> ticker_key(#[trigger] ngx_universe()[i].0)
                == universe_ticker_key(i),
{
    assert forall|i: int| 0 <= i < ngx_universe().len() implies ticker_key(
        #[trigger] ngx_universe()[i].0,
    ) == universe_ticker_key(i) by {
        if i == 0 {
            reveal_strlit("GTCO");
        } else if i == 1 {
            reveal_strlit("ZENITHBANK");
        } else if i == 2 {
            reveal_strlit("ACCESS");
        } else if i == 3 {
            reveal_strlit("UBA");
        } else if i == 4 {
            reveal_strlit("FBNH");
        } else if i == 5 {
            reveal_strlit("STANBIC");
        } else if i == 6 {
            reveal_strlit("FCMB");
        } else if i == 7 {
            reveal_strlit("FIDELITYBK");
        } else if i == 8 {
            reveal_strlit("WEMABANK");
        } else if i == 9 {
            reveal_strlit("ETI");
        } else if i == 10 {
            reveal_strlit("MTNN");
        } else if i == 11 {
            reveal_strlit("AIRTELAFRI");
        } else if i == 12 {
            reveal_strlit("TRANSCORP");
        } else if i == 13 {
            reveal_strlit("CHAMS");
        } else if i == 14 {
            reveal_strlit("OMATEK");
        } else if i == 15 {
            reveal_strlit("SEPLAT");
        } else if i == 16 {
            reveal_strlit("CONOIL");
        } else if i == 17 {
            reveal_strlit("ETERNA");
        } else if i == 18 {
            reveal_strlit("OANDO");
        } else if i == 19 {
            reveal_strlit("TOTAL");
        } else if i == 20 {
            reveal_strlit("MRS");
        } else if i == 21 {
            reveal_strlit("ARDOVA");
        } else if i == 22 {
            reveal_strlit("PRESCO");
        } else if i == 23 {
            reveal_strlit("OKOMUOIL");
        } else if i == 24 {
            reveal_strlit("LIVESTOCK");
        } else if i == 25 {
            reveal_strlit("FLOURMILL");
        } else if i == 26 {
            reveal_strlit("DANGSUGAR");
        } else if i == 27 {
            reveal_strlit("NASCON");
        } else if i == 28 {
            reveal_strlit("MAYBAKER");
        } else if i == 29 {
            reveal_strlit("GLAXOSMITH");
        } else if i == 30 {
            reveal_strlit("NEIMETH");
        } else if i == 31 {
            reveal_strlit("FIDSON");
        } else if i == 32 {
            reveal_strlit("PHARMDEKO");
        } else {
            reveal_strlit("UNION");
        }
    }
}

/// No two listings of the universe share a ticker, so a ticker names one listing.
pub proof fn lemma_universe_tickers_distinct()
    ensures
        forall|i: int, j: int|
            0 <= i < j < ngx_universe().len() ==> #[trigger] ngx_universe()[i].0 != #[trigger] ngx_universe()[j].0,
{
    lemma_universe_ticker_keys();
    assert(forall|i: int, j: int|
        0 <= i < j < 34 ==> #[trigger] universe_ticker_key(i) != #[trigger] universe_ticker_key(j));
}

/// The listings of `u` whose sector is targeted, in their order.
pub open spec fn target_listings(u: Seq<ListingModel>) -> Seq<ListingModel> {
    u.filter(|e: ListingModel| is_target_sector(e.2))
}

/// The listings of `u` whose sector the screener targets, in their order.
pub fn target_entries(u: &Vec<Listing>) -> (r: Vec<Listing>)
    ensures
        listings_model(r@) == target_listings(listings_model(u@)),
{
    let mut r: Vec<Listing> = Vec::new();
    let mut i: usize = 0;
    while i < u.len()
        invariant
            i <= u.len(),
            listings_model(r@) == target_listings(listings_model(u@.take(i as int))),
        decreases u.len() - i,
    {
        let e = &u[i];
        proof {
            let m = listings_model(u@.take(i + 1));
            assert(m.drop_last() =~= listings_model(u@.take(i as int)));
            assert(m.last() == listing_model(u@[i as int]));
            reveal_with_fuel(Seq::filter, 1);
        }
        if e.2.is_target() {
            r.push((e.0.clone(), e.1.clone(), e.2.clone()));
            assert(listings_model(r@) =~= target_listings(listings_model(u@.take(i as int))).push(listing_model(u@[i as int])));
        }
        i = i + 1;
    }
    assert(u@.take(u.len() as int) =~= u@);
    r
}

/// Filtering out the untargeted listings of the universe leaves it unchanged.
pub proof fn lemma_target_universe_is_universe()
    ensures
        target_listings(ngx_universe()) == ngx_universe(),
{
    lemma_universe_all_targets();
    lemma_filter_all_targets(ngx_universe());
}

proof fn lemma_filter_all_targets(u: Seq<ListingModel>)
    requires
        forall|i: int| 0 <= i < u.len() ==> is_target_sector(#[trigger] u[i].2),
    ensures
        target_listings(u) == u,
    decreases u.len(),
{
    reveal_with_fuel(Seq::filter, 1);
    if u.len() > 0 {
        let d = u.drop_last();
        assert forall|i: int| 0 <= i < d.len() implies is_target_sector(#[trigger] d[i].2) by {
            assert(d[i] == u[i]);
        }
        lemma_filter_all_targets(d);
        assert(is_target_sector(u[u.len() - 1].2));
        assert(d.push(u.last()) =~= u);
    } else {
        assert(target_listings(u) =~= u);
    }
}

/// The reference price, in kobo (hundredths of a naira), used to synthesise data for a
/// ticker; 10 naira for a ticker without one.
pub open spec fn base_price_kobo(t: Seq<char>) -> u64 {
    if t == "GTCO"@ {
        4550
    } else if t == "ZENITHBANK"@ {
        3720
    } else if t == "ACCESS"@ {
        2280
    } else if t == "UBA"@ {
        1850
    } else if t == "FBNH"@ {
        1420
    } else if t == "STANBIC"@ {
        5800
    } else if t == "FCMB"@ {
        875
    } else if t == "FIDELITYBK"@ {
        1240
    } else if t == "WEMABANK"@ {
        560
    } else if t == "ETI"@ {
        1530
    } else if t == "MTNN"@ {
        22050
    } else if t == "AIRTELAFRI"@ {
        185000
    } else if t == "TRANSCORP"@ {
        420
    } else if t == "CHAMS"@ {
        215
    } else if t == "OMATEK"@ {
        85
    } else if t == "SEPLAT"@ {
        320000
    } else if t == "CONOIL"@ {
        8850
    } else if t == "ETERNA"@ {
        1820
    } else if t == "OANDO"@ {
        1560
    } else if t == "TOTAL"@ {
        42500
    } else if t == "MRS"@ {
        7800
    } else if t == "ARDOVA"@ {
        3450
    } else if t == "PRESCO"@ {
        48500
    } else if t == "OKOMUOIL"@ {
        29500
    } else if t == "LIVESTOCK"@ {
        320
    } else if t == "FLOURMILL"@ {
        4200
    } else if t == "DANGSUGAR"@ {
        3850
    } else if t == "NASCON"@ {
        5200
    } else if t == "MAYBAKER"@ {
        780
    } else if t == "GLAXOSMITH"@ {
        1250
    } else if t == "NEIMETH"@ {
        240
    } else if t == "FIDSON"@ {
        1520
    } else if t == "PHARMDEKO"@ {
        385
    } else if t == "UNION"@ {
        190
    } else {
        1000
    }
}


/// The reference prices in kobo of the covered tickers: GTCO at 45.50 naira, ZENITHBANK at
/// 37.20, and so on for each ticker; a ticker outside the table is priced at 10 naira.
pub proof fn lemma_base_prices()
    ensures
        base_price_kobo("GTCO"@) == 4550,
        base_price_kobo("ZENITHBANK"@) == 3720,
        base_price_kobo("ACCESS"@) == 2280,
        base_price_kobo("UBA"@) == 1850,
        base_price_kobo("FBNH"@) == 1420,
        base_price_kobo("STANBIC"@) == 5800,
        base_price_kobo("FCMB"@) == 875,
        base_price_kobo("FIDELITYBK"@) == 1240,
        base_price_kobo("WEMABANK"@) == 560,
        base_price_kobo("ETI"@) == 1530,
        base_price_kobo("MTNN"@) == 22050,
        base_price_kobo("AIRTELAFRI"@) == 185000,
        base_price_kobo("TRANSCORP"@) == 420,
        base_price_kobo("CHAMS"@) == 215,
        base_price_kobo("OMATEK"@) == 85,
        base_price_kobo("SEPLAT"@) == 320000,
        base_price_kobo("CONOIL"@) == 8850,
        base_price_kobo("ETERNA"@) == 1820,
        base_price_kobo("OANDO"@) == 1560,
        base_price_kobo("TOTAL"@) == 42500,
        base_price_kobo("MRS"@) == 7800,
        base_price_kobo("ARDOVA"@) == 3450,
        base_price_kobo("PRESCO"@) == 48500,
        base_price_kobo("OKOMUOIL"@) == 29500,
        base_price_kobo("LIVESTOCK"@) == 320,
        base_price_kobo("FLOURMILL"@) == 4200,
        base_price_kobo("DANGSUGAR"@) == 3850,
        base_price_kobo("NASCON"@) == 5200,
        base_price_kobo("MAYBAKER"@) == 780,
        base_price_kobo("GLAXOSMITH"@) == 1250,
        base_price_kobo("NEIMETH"@) == 240,
        base_price_kobo("FIDSON"@) == 1520,
        base_price_kobo("PHARMDEKO"@) == 385,
        base_price_kobo("UNION"@) == 190,
        base_price_kobo("NGXGROUP"@) == 1000,
{
    reveal_strlit("GTCO");
    assert(ticker_key("GTCO"@) == (4nat, 'G', 'T'));
    reveal_strlit("ZENITHBANK");
    assert(ticker_key("ZENITHBANK"@) == (10nat, 'Z', 'E'));
    reveal_strlit("ACCESS");
    assert(ticker_key("ACCESS"@) == (6nat, 'A', 'C'));
    reveal_strlit("UBA");
    assert(ticker_key("UBA"@) == (3nat, 'U', 'B'));
    reveal_strlit("FBNH");
    assert(ticker_key("FBNH"@) == (4nat, 'F', 'B'));
    reveal_strlit("STANBIC");
    assert(ticker_key("STANBIC"@) == (7nat, 'S', 'T'));
    reveal_strlit("FCMB");
    assert(ticker_key("FCMB"@) == (4nat, 'F', 'C'));
    reveal_strlit("FIDELITYBK");
    assert(ticker_key("FIDELITYBK"@) == (10nat, 'F', 'I'));
    reveal_strlit("WEMABANK");
    assert(ticker_key("WEMABANK"@) == (8nat, 'W', 'E'));
    reveal_strlit("ETI");
    assert(ticker_key("ETI"@) == (3nat, 'E', 'T'));
    reveal_strlit("MTNN");
    assert(ticker_key("MTNN"@) == (4nat, 'M', 'T'));
    reveal_strlit("AIRTELAFRI");
    assert(ticker_key("AIRTELAFRI"@) == (10nat, 'A', 'I'));
    reveal_strlit("TRANSCORP");
    assert(ticker_key("TRANSCORP"@) == (9nat, 'T', 'R'));
    reveal_strlit("CHAMS");
    assert(ticker_key("CHAMS"@) == (5nat, 'C', 'H'));
    reveal_strlit("OMATEK");
    assert(ticker_key("OMATEK"@) == (6nat, 'O', 'M'));
    reveal_strlit("SEPLAT");
    assert(ticker_key("SEPLAT"@) == (6nat, 'S', 'E'));
    reveal_strlit("CONOIL");
    assert(ticker_key("CONOIL"@) == (6nat, 'C', 'O'));
    reveal_strlit("ETERNA");
    assert(ticker_key("ETERNA"@) == (6nat, 'E', 'T'));
    reveal_strlit("OANDO");
    assert(ticker_key("OANDO"@) == (5nat, 'O', 'A'));
    reveal_strlit("TOTAL");
    assert(ticker_key("TOTAL"@) == (5nat, 'T', 'O'));
    reveal_strlit("MRS");
    assert(ticker_key("MRS"@) == (3nat, 'M', 'R'));
    reveal_strlit("ARDOVA");
    assert(ticker_key("ARDOVA"@) == (6nat, 'A', 'R'));
    reveal_strlit("PRESCO");
    assert(ticker_key("PRESCO"@) == (6nat, 'P', 'R'));
    reveal_strlit("OKOMUOIL");
    assert(ticker_key("OKOMUOIL"@) == (8nat, 'O', 'K'));
    reveal_strlit("LIVESTOCK");
    assert(ticker_key("LIVESTOCK"@) == (9nat, 'L', 'I'));
    reveal_strlit("FLOURMILL");
    assert(ticker_key("FLOURMILL"@) == (9nat, 'F', 'L'));
    reveal_strlit("DANGSUGAR");
    assert(ticker_key("DANGSUGAR"@) == (9nat, 'D', 'A'));
    reveal_strlit("NASCON");
    assert(ticker_key("NASCON"@) == (6nat, 'N', 'A'));
    reveal_strlit("MAYBAKER");
    assert(ticker_key("MAYBAKER"@) == (8nat, 'M', 'A'));
    reveal_strlit("GLAXOSMITH");
    assert(ticker_key("GLAXOSMITH"@) == (10nat, 'G', 'L'));
    reveal_strlit("NEIMETH");
    assert(ticker_key("NEIMETH"@) == (7nat, 'N', 'E'));
    reveal_strlit("FIDSON");
    assert(ticker_key("FIDSON"@) == (6nat, 'F', 'I'));
    reveal_strlit("PHARMDEKO");
    assert(ticker_key("PHARMDEKO"@) == (9nat, 'P', 'H'));
    reveal_strlit("UNION");
    assert(ticker_key("UNION"@) == (5nat, 'U', 'N'));
    reveal_strlit("NGXGROUP");
    assert(ticker_key("NGXGROUP"@) == (8nat, 'N', 'G'));
}

/// The reference price of `ticker`, in kobo.
pub fn get_base_price(ticker: &str) -> (p: u64)
    ensures
        p == base_price_kobo(ticker@),
{
    if str_equal(ticker, "GTCO") {
        4550
    } else if str_equal(ticker, "ZENITHBANK") {
        3720
    } else if str_equal(ticker, "ACCESS") {
        2280
    } else if str_equal(ticker, "UBA") {
        1850
    } else if str_equal(ticker, "FBNH") {
        1420
    } else if str_equal(ticker, "STANBIC") {
        5800
    } else if str_equal(ticker, "FCMB") {
        875
    } else if str_equal(ticker, "FIDELITYBK") {
        1240
    } else if str_equal(ticker, "WEMABANK") {
        560
    } else if str_equal(ticker, "ETI") {
        1530
    } else if str_equal(ticker, "MTNN") {
        22050
    } else if str_equal(ticker, "AIRTELAFRI") {
        185000
    } else if str_equal(ticker, "TRANSCORP") {
        420
    } else if str_equal(ticker, "CHAMS") {
        215
    } else if str_equal(ticker, "OMATEK") {
        85
    } else if str_equal(ticker, "SEPLAT") {
        320000
    } else if str_equal(ticker, "CONOIL") {
        8850
    } else if str_equal(ticker, "ETERNA") {
        1820
    } else if str_equal(ticker, "OANDO") {
        1560
    } else if str_equal(ticker, "TOTAL") {
        42500
    } else if str_equal(ticker, "MRS") {
        7800
    } else if str_equal(ticker, "ARDOVA") {
        3450
    } else if str_equal(ticker, "PRESCO") {
        48500
    } else if str_equal(ticker, "OKOMUOIL") {
        29500
    } else if str_equal(ticker, "LIVESTOCK") {
        320
    } else if str_equal(ticker, "FLOURMILL") {
        4200
    } else if str_equal(ticker, "DANGSUGAR") {
        3850
    } else if str_equal(ticker, "NASCON") {
        5200
    } else if str_equal(ticker, "MAYBAKER") {
        780
    } else if str_equal(ticker, "GLAXOSMITH") {
        1250
    } else if str_equal(ticker, "NEIMETH") {
        240
    } else if str_equal(ticker, "FIDSON") {
        1520
    } else if str_equal(ticker, "PHARMDEKO") {
        385
    } else if str_equal(ticker, "UNION") {
        190
    } else {
        1000
    }
}

} // verus!
