//! Market sectors: naming, parsing of user input, and which sectors the screener targets.
use vstd::prelude::*;
use vstd::utf8::is_ascii_chars;
use crate::text::{ascii_lower, is_white_space, lemma_lowered_trimmed_fixed, lowercase_of, str_equal, to_lowercase, trim, trim_end_spec, trim_start_spec, trimmed};

verus! {

broadcast use vstd::string::group_string_axioms;

/// A market sector. The five named sectors are the ones the screener targets.
#[derive(Debug)]
pub enum Sector {
    Energy,
    Fintech,
    Agriculture,
    Finance,
    Healthcare,
    Other(String),
}

/// The mathematical value of a sector: the variant, with the text of `Other` as characters.
pub enum SectorModel {
    Energy,
    Fintech,
    Agriculture,
    Finance,
    Healthcare,
    Other(Seq<char>),
}

impl View for Sector {
    type V = SectorModel;

    open spec fn view(&self) -> SectorModel {
        match self {
            Sector::Energy => SectorModel::Energy,
            Sector::Fintech => SectorModel::Fintech,
            Sector::Agriculture => SectorModel::Agriculture,
            Sector::Finance => SectorModel::Finance,
            Sector::Healthcare => SectorModel::Healthcare,
            Sector::Other(s) => SectorModel::Other(s@),
        }
    }
}

/// The sector that a normalised (lower-cased, trimmed) name stands for.
pub open spec fn sector_named(n: Seq<char>) -> SectorModel {
    if n == "energy"@ || n == "oil & gas"@ || n == "petroleum"@ {
        SectorModel::Energy
    } else if n == "fintech"@ || n == "financial technology"@ || n == "technology"@ {
        SectorModel::Fintech
    } else if n == "agriculture"@ || n == "agric"@ || n == "agro"@ {
        SectorModel::Agriculture
    } else if n == "finance"@ || n == "banking"@ || n == "insurance"@ || n
        == "financial services"@ {
        SectorModel::Finance
    } else if n == "healthcare"@ || n == "health"@ || n == "pharmaceutical"@ || n == "pharma"@ {
        SectorModel::Healthcare
    } else {
        SectorModel::Other(n)
    }
}

/// The name under which a sector is shown.
pub open spec fn display_name(s: SectorModel) -> Seq<char> {
    match s {
        SectorModel::Energy => "Energy"@,
        SectorModel::Fintech => "Fintech"@,
        SectorModel::Agriculture => "Agriculture"@,
        SectorModel::Finance => "Finance"@,
        SectorModel::Healthcare => "Healthcare"@,
        SectorModel::Other(t) => t,
    }
}

/// Whether the screener targets the sector: every named sector, and no `Other`.
pub open spec fn is_target_sector(s: SectorModel) -> bool {
    !(s is Other)
}

/// The display name of a named sector is ASCII text, and, lowered as `str::to_lowercase`
/// lowers ASCII text, it reads back as the same sector.
pub proof fn lemma_display_name_parses_back(s: SectorModel)
    requires
        is_target_sector(s),
    ensures
        is_ascii_chars(display_name(s)),
        sector_named(trimmed(display_name(s).map_values(|c: char| ascii_lower(c)))) == s,
{
    let n = display_name(s);
    let l = n.map_values(|c: char| ascii_lower(c));
    reveal_strlit("energy");
    reveal_strlit("oil & gas");
    reveal_strlit("petroleum");
    reveal_strlit("fintech");
    reveal_strlit("financial technology");
    reveal_strlit("technology");
    reveal_strlit("agriculture");
    reveal_strlit("agric");
    reveal_strlit("agro");
    reveal_strlit("finance");
    reveal_strlit("banking");
    reveal_strlit("insurance");
    reveal_strlit("financial services");
    reveal_strlit("healthcare");
    reveal_strlit("health");
    reveal_strlit("pharmaceutical");
    reveal_strlit("pharma");
    match s {
        SectorModel::Energy => {
            reveal_strlit("Energy");
            reveal_strlit("energy");
            assert(l =~= "energy"@);
        },
        SectorModel::Fintech => {
            reveal_strlit("Fintech");
            reveal_strlit("fintech");
            assert(l =~= "fintech"@);
        },
        SectorModel::Agriculture => {
            reveal_strlit("Agriculture");
            reveal_strlit("agriculture");
            assert(l =~= "agriculture"@);
        },
        SectorModel::Finance => {
            reveal_strlit("Finance");
            reveal_strlit("finance");
            assert(l =~= "finance"@);
        },
        SectorModel::Healthcare => {
            reveal_strlit("Healthcare");
            reveal_strlit("healthcare");
            assert(l =~= "healthcare"@);
        },
        SectorModel::Other(_) => {},
    }
    assert(!is_white_space(l[0]));
    assert(trim_start_spec(l) == l);
    assert(!is_white_space(l.last()));
    assert(trim_end_spec(l) == l);
}

/// The sector that ASCII text names, as `from_str` reads it: lowered, trimmed, then matched.
pub open spec fn ascii_sector(s: Seq<char>) -> SectorModel {
    sector_named(trimmed(s.map_values(|c: char| ascii_lower(c))))
}

/// For ASCII text, the display name of the sector it parses to is ASCII and parses to the
/// same sector: a named sector shows its own name, and any other text is kept lowered and
/// trimmed, which reads back unchanged.
pub proof fn lemma_parse_display_parse(s: Seq<char>)
    requires
        is_ascii_chars(s),
    ensures
        is_ascii_chars(display_name(ascii_sector(s))),
        ascii_sector(display_name(ascii_sector(s))) == ascii_sector(s),
{
    let p = ascii_sector(s);
    if is_target_sector(p) {
        lemma_display_name_parses_back(p);
    } else {
        lemma_lowered_trimmed_fixed(s);
    }
}

impl Clone for Sector {
    fn clone(&self) -> (r: Sector)
        ensures
            r@ == self@,
    {
        match self {
            Sector::Energy => Sector::Energy,
            Sector::Fintech => Sector::Fintech,
            Sector::Agriculture => Sector::Agriculture,
            Sector::Finance => Sector::Finance,
            Sector::Healthcare => Sector::Healthcare,
            Sector::Other(s) => Sector::Other(s.clone()),
        }
    }
}

impl PartialEq for Sector {
    fn eq(&self, other: &Sector) -> (r: bool) {
        match (self, other) {
            (Sector::Energy, Sector::Energy) => true,
            (Sector::Fintech, Sector::Fintech) => true,
            (Sector::Agriculture, Sector::Agriculture) => true,
            (Sector::Finance, Sector::Finance) => true,
            (Sector::Healthcare, Sector::Healthcare) => true,
            (Sector::Other(a), Sector::Other(b)) => str_equal(a.as_str(), b.as_str()),
            _ => false,
        }
    }
}

impl vstd::std_specs::cmp::PartialEqSpecImpl for Sector {
    open spec fn obeys_eq_spec() -> bool {
        true
    }

    open spec fn eq_spec(&self, other: &Sector) -> bool {
        self@ == other@
    }
}

impl Sector {
    /// The sector for a name that is already lower-cased: the name is trimmed and matched
    /// against the known spellings of each sector; any other name is kept as `Other`.
    pub fn from_lowercase(lower: &str) -> (r: Sector)
        ensures
            r@ == sector_named(trimmed(lower@)),
    {
        let t = trim(lower);
        if str_equal(t, "energy") || str_equal(t, "oil & gas") || str_equal(t, "petroleum") {
            Sector::Energy
        } else if str_equal(t, "fintech") || str_equal(t, "financial technology") || str_equal(
            t,
            "technology",
        ) {
            Sector::Fintech
        } else if str_equal(t, "agriculture") || str_equal(t, "agric") || str_equal(t, "agro") {
            Sector::Agriculture
        } else if str_equal(t, "finance") || str_equal(t, "banking") || str_equal(t, "insurance")
            || str_equal(t, "financial services") {
            Sector::Finance
        } else if str_equal(t, "healthcare") || str_equal(t, "health") || str_equal(
            t,
            "pharmaceutical",
        ) || str_equal(t, "pharma") {
            Sector::Healthcare
        } else {
            Sector::Other(t.to_owned())
        }
    }

    /// Parses a sector from free text: lower-cased, trimmed, then matched as in
    /// `from_lowercase`.
    pub fn from_str(s: &str) -> (r: Sector)
        ensures
            r@ == sector_named(trimmed(lowercase_of(s@))),
            is_ascii_chars(s@) ==> r@ == ascii_sector(s@),
    {
        let lower = to_lowercase(s);
        Sector::from_lowercase(lower.as_str())
    }

    /// The name under which the sector is shown.
    pub fn display(&self) -> (r: &str)
        ensures
            r@ == display_name(self@),
    {
        match self {
            Sector::Energy => "Energy",
            Sector::Fintech => "Fintech",
            Sector::Agriculture => "Agriculture",
            Sector::Finance => "Finance",
            Sector::Healthcare => "Healthcare",
            Sector::Other(s) => s.as_str(),
        }
    }

    /// Whether the screener covers this sector.
    pub fn is_target(&self) -> (r: bool)
        ensures
            r == is_target_sector(self@),
    {
        match self {
            Sector::Other(_) => false,
            _ => true,
        }
    }
}

/// The colour in which a sector's name is shown.
#[derive(Debug, Clone, Copy, PartialEq, Eq, Structural)]
pub enum SectorColor {
    Yellow,
    Magenta,
    Green,
    Blue,
    Cyan,
    White,
}

/// The colour of a sector given by its display name; names of no targeted sector are white.
pub open spec fn sector_color_spec(name: Seq<char>) -> SectorColor {
    if name == "Energy"@ {
        SectorColor::Yellow
    } else if name == "Fintech"@ {
        SectorColor::Magenta
    } else if name == "Agriculture"@ {
        SectorColor::Green
    } else if name == "Finance"@ {
        SectorColor::Blue
    } else if name == "Healthcare"@ {
        SectorColor::Cyan
    } else {
        SectorColor::White
    }
}

/// The colour in which a sector with the given display name is shown.
pub fn color_for_sector_name(name: &str) -> (c: SectorColor)
    ensures
        c == sector_color_spec(name@),
{
    if str_equal(name, "Energy") {
        SectorColor::Yellow
    } else if str_equal(name, "Fintech") {
        SectorColor::Magenta
    } else if str_equal(name, "Agriculture") {
        SectorColor::Green
    } else if str_equal(name, "Finance") {
        SectorColor::Blue
    } else if str_equal(name, "Healthcare") {
        SectorColor::Cyan
    } else {
        SectorColor::White
    }
}

/// Each spelling the parser knows names its sector: "energy", "oil & gas" and "petroleum"
/// are Energy; "fintech", "financial technology" and "technology" are Fintech;
/// "agriculture", "agric" and "agro" are Agriculture; "finance", "banking", "insurance" and
/// "financial services" are Finance; "healthcare", "health", "pharmaceutical" and "pharma"
/// are Healthcare. Any other normalised name stands for itself.
pub proof fn lemma_sector_spellings(other: Seq<char>)
    ensures
        sector_named("energy"@) == SectorModel::Energy,
        sector_named("oil & gas"@) == SectorModel::Energy,
        sector_named("petroleum"@) == SectorModel::Energy,
        sector_named("fintech"@) == SectorModel::Fintech,
        sector_named("financial technology"@) == SectorModel::Fintech,
        sector_named("technology"@) == SectorModel::Fintech,
        sector_named("agriculture"@) == SectorModel::Agriculture,
        sector_named("agric"@) == SectorModel::Agriculture,
        sector_named("agro"@) == SectorModel::Agriculture,
        sector_named("finance"@) == SectorModel::Finance,
        sector_named("banking"@) == SectorModel::Finance,
        sector_named("insurance"@) == SectorModel::Finance,
        sector_named("financial services"@) == SectorModel::Finance,
        sector_named("healthcare"@) == SectorModel::Healthcare,
        sector_named("health"@) == SectorModel::Healthcare,
        sector_named("pharmaceutical"@) == SectorModel::Healthcare,
        sector_named("pharma"@) == SectorModel::Healthcare,
        other != "energy"@ && other != "oil & gas"@ && other != "petroleum"@ && other != "fintech"@ && other != "financial technology"@ && other != "technology"@ && other != "agriculture"@ && other != "agric"@ && other != "agro"@ && other != "finance"@ && other != "banking"@ && other != "insurance"@ && other != "financial services"@ && other != "healthcare"@ && other != "health"@ && other != "pharmaceutical"@ && other != "pharma"@ ==> sector_named(other) == SectorModel::Other(other),
{
    reveal_strlit("energy");
    assert("energy"@.len() == 6);
    reveal_strlit("oil & gas");
    assert("oil & gas"@.len() == 9);
    reveal_strlit("petroleum");
    assert("petroleum"@.len() == 9);
    reveal_strlit("fintech");
    assert("fintech"@.len() == 7);
    reveal_strlit("financial technology");
    assert("financial technology"@.len() == 20);
    reveal_strlit("technology");
    assert("technology"@.len() == 10);
    reveal_strlit("agriculture");
    assert("agriculture"@.len() == 11);
    reveal_strlit("agric");
    assert("agric"@.len() == 5);
    reveal_strlit("agro");
    assert("agro"@.len() == 4);
    reveal_strlit("finance");
    assert("finance"@.len() == 7);
    reveal_strlit("banking");
    assert("banking"@.len() == 7);
    reveal_strlit("insurance");
    assert("insurance"@.len() == 9);
    reveal_strlit("financial services");
    assert("financial services"@.len() == 18);
    reveal_strlit("healthcare");
    assert("healthcare"@.len() == 10);
    reveal_strlit("health");
    assert("health"@.len() == 6);
    reveal_strlit("pharmaceutical");
    assert("pharmaceutical"@.len() == 14);
    reveal_strlit("pharma");
    assert("pharma"@.len() == 6);
    assert("energy"@[0] != "health"@[0]);
    assert("energy"@[0] != "pharma"@[0]);
    assert("oil & gas"@[0] != "petroleum"@[0]);
    assert("oil & gas"@[0] != "insurance"@[0]);
    assert("petroleum"@[0] != "insurance"@[0]);
    assert("fintech"@[3] != "finance"@[3]);
    assert("fintech"@[0] != "banking"@[0]);
    assert("technology"@[0] != "healthcare"@[0]);
    assert("finance"@[0] != "banking"@[0]);
    assert("health"@[0] != "pharma"@[0]);
}

/// Each targeted sector's name has its own colour: Energy yellow, Fintech magenta,
/// Agriculture green, Finance blue, Healthcare cyan; any other name is white.
pub proof fn lemma_sector_colors(other: Seq<char>)
    ensures
        sector_color_spec("Energy"@) == SectorColor::Yellow,
        sector_color_spec("Fintech"@) == SectorColor::Magenta,
        sector_color_spec("Agriculture"@) == SectorColor::Green,
        sector_color_spec("Finance"@) == SectorColor::Blue,
        sector_color_spec("Healthcare"@) == SectorColor::Cyan,
        other != "Energy"@ && other != "Fintech"@ && other != "Agriculture"@ && other != "Finance"@ && other != "Healthcare"@ ==> sector_color_spec(other) == SectorColor::White,
{
    reveal_strlit("Energy");
    assert("Energy"@.len() == 6);
    reveal_strlit("Fintech");
    assert("Fintech"@.len() == 7);
    reveal_strlit("Agriculture");
    assert("Agriculture"@.len() == 11);
    reveal_strlit("Finance");
    assert("Finance"@.len() == 7);
    reveal_strlit("Healthcare");
    assert("Healthcare"@.len() == 10);
    assert("Fintech"@[3] != "Finance"@[3]);
}

} // verus!
