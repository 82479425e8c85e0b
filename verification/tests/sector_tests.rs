use ngx_radar::sector::{color_for_sector_name, Sector, SectorColor};

fn is_other(s: &Sector, text: &str) -> bool {
    match s {
        Sector::Other(t) => t == text,
        _ => false,
    }
}

#[test]
fn from_str_reads_each_spelling() {
    assert!(matches!(Sector::from_str("energy"), Sector::Energy));
    assert!(matches!(Sector::from_str("Oil & Gas"), Sector::Energy));
    assert!(matches!(Sector::from_str("  PETROLEUM  "), Sector::Energy));
    assert!(matches!(Sector::from_str("Fintech"), Sector::Fintech));
    assert!(matches!(Sector::from_str("financial technology"), Sector::Fintech));
    assert!(matches!(Sector::from_str("Technology"), Sector::Fintech));
    assert!(matches!(Sector::from_str("AGRICULTURE"), Sector::Agriculture));
    assert!(matches!(Sector::from_str("agric"), Sector::Agriculture));
    assert!(matches!(Sector::from_str("Agro"), Sector::Agriculture));
    assert!(matches!(Sector::from_str("finance"), Sector::Finance));
    assert!(matches!(Sector::from_str("Banking"), Sector::Finance));
    assert!(matches!(Sector::from_str("insurance"), Sector::Finance));
    assert!(matches!(Sector::from_str("Financial Services"), Sector::Finance));
    assert!(matches!(Sector::from_str("healthcare"), Sector::Healthcare));
    assert!(matches!(Sector::from_str("Health"), Sector::Healthcare));
    assert!(matches!(Sector::from_str("pharmaceutical"), Sector::Healthcare));
    assert!(matches!(Sector::from_str("\tPharma\n"), Sector::Healthcare));
}

#[test]
fn from_str_keeps_unknown_names_normalised() {
    assert!(is_other(&Sector::from_str("  Real Estate "), "real estate"));
    assert!(is_other(&Sector::from_str(""), ""));
    assert!(is_other(&Sector::from_str("oil&gas"), "oil&gas"));
}

#[test]
fn from_lowercase_does_not_lower() {
    assert!(matches!(Sector::from_lowercase(" energy "), Sector::Energy));
    assert!(is_other(&Sector::from_lowercase("Energy"), "Energy"));
}

#[test]
fn display_names() {
    assert_eq!(Sector::Energy.display(), "Energy");
    assert_eq!(Sector::Fintech.display(), "Fintech");
    assert_eq!(Sector::Agriculture.display(), "Agriculture");
    assert_eq!(Sector::Finance.display(), "Finance");
    assert_eq!(Sector::Healthcare.display(), "Healthcare");
    assert_eq!(Sector::Other("mining".to_string()).display(), "mining");
}

#[test]
fn display_name_parses_back() {
    for s in [Sector::Energy, Sector::Fintech, Sector::Agriculture, Sector::Finance, Sector::Healthcare] {
        assert!(Sector::from_str(s.display()) == s);
    }
}

#[test]
fn targets_are_the_named_sectors() {
    assert!(Sector::Energy.is_target());
    assert!(Sector::Fintech.is_target());
    assert!(Sector::Agriculture.is_target());
    assert!(Sector::Finance.is_target());
    assert!(Sector::Healthcare.is_target());
    assert!(!Sector::Other("energy".to_string()).is_target());
}

#[test]
fn equality_and_clone() {
    assert!(Sector::Energy == Sector::Energy);
    assert!(Sector::Energy != Sector::Finance);
    assert!(Sector::Other("a".to_string()) == Sector::Other("a".to_string()));
    assert!(Sector::Other("a".to_string()) != Sector::Other("b".to_string()));
    let s = Sector::Other("x y".to_string());
    assert!(s.clone() == s);
}

#[test]
fn sector_colours() {
    assert_eq!(color_for_sector_name("Energy"), SectorColor::Yellow);
    assert_eq!(color_for_sector_name("Fintech"), SectorColor::Magenta);
    assert_eq!(color_for_sector_name("Agriculture"), SectorColor::Green);
    assert_eq!(color_for_sector_name("Finance"), SectorColor::Blue);
    assert_eq!(color_for_sector_name("Healthcare"), SectorColor::Cyan);
    assert_eq!(color_for_sector_name("energy"), SectorColor::White);
    assert_eq!(color_for_sector_name("Mining"), SectorColor::White);
}

#[test]
fn parsing_the_display_name_again_changes_nothing() {
    for text in ["  Real Estate ", "OIL & GAS", "\tConglomerates\n", "", "Pharma", "x"] {
        let first = Sector::from_str(text);
        let again = Sector::from_str(first.display());
        assert!(again == first, "{:?}", text);
    }
}
