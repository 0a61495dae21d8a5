//! Identification of the stage chapter a map belongs to.

use vstd::prelude::*;
use vstd::string::StringSliceAdditionalSpecFns;

use crate::text::{decode_lossy, lossy_decode, owned, same_text, to_lowercase, to_uppercase, lower_text, upper_text, ascii_upper,
    lemma_case_round_trip, lemma_upper_unchanged};
use vstd::utf8::is_ascii_chars;

verus! {

/// Identifies one of the game's stage chapters.
///
/// The engine encodes the chapter in a map's filename prefix, but addresses the
/// same map numerically elsewhere. This sits between the two schemes.
#[derive(Debug, Clone, PartialEq, Eq, Hash)]
pub enum Category {
    /// The Stories of Legend chapter.
    StoriesOfLegend,
    /// The recurring event stage chapter.
    EventStages,
    /// The collaboration event chapter.
    CollabStages,
    /// The Empire of Cats main story chapter.
    EmpireOfCats,
    /// The Into the Future main story chapter.
    IntoTheFuture,
    /// The Cats of the Cosmos main story chapter.
    CatsOfTheCosmos,
    /// The limited-time event chapter.
    ExtraStages,
    /// The Catclaw Dojo Hall of Initiates chapter.
    DojoHallOfInitiates,
    /// The Towers and Citadels chapter.
    TowersAndCitadels,
    /// The ranked Catclaw Dojo event chapter.
    DojoRankingEvents,
    /// The Challenge Battle chapter.
    ChallengeBattle,
    /// The Uncanny Legends chapter.
    UncannyLegends,
    /// The Catamin stage chapter.
    CataminStages,
    /// The Legend Quest chapter.
    LegendQuest,
    /// The Zombie Outbreak chapter overlaid on the main story maps.
    ZombieOutbreaks,
    /// The Gauntlet chapter.
    GauntletStages,
    /// The Enigma chapter.
    EnigmaStages,
    /// The collaboration Gauntlet chapter.
    CollabGauntletStages,
    /// The Aku Realms chapter.
    AkuRealms,
    /// The Behemoth Culling chapter.
    BehemothCulling,
    /// The Labyrinth chapter.
    Labyrinth,
    /// The Zero Legends chapter.
    ZeroLegends,
    /// The Otherworld Colosseum chapter.
    OtherworldColosseum,
    /// The Catclaw Championships chapter.
    CatclawChampionships,
    /// A chapter prefix this parser does not recognize, carrying the raw prefix.
    Unknown(String),
}

impl Default for Category {
    fn default() -> (r: Self)
        ensures
            r matches Category::Unknown(p) && p@.len() == 0,
    {
        Category::Unknown(String::new())
    }
}

/// The filename prefix the engine gives a chapter's map files.
pub open spec fn map_prefix_spec(c: Category) -> Seq<char> {
    match c {
        Category::StoriesOfLegend => "N"@,
        Category::EventStages => "S"@,
        Category::CollabStages => "C"@,
        Category::EmpireOfCats => ""@,
        Category::IntoTheFuture => "W"@,
        Category::CatsOfTheCosmos => "Space"@,
        Category::ExtraStages => "RE"@,
        Category::DojoHallOfInitiates => "T"@,
        Category::TowersAndCitadels => "V"@,
        Category::DojoRankingEvents => "R"@,
        Category::ChallengeBattle => "M"@,
        Category::UncannyLegends => "NA"@,
        Category::CataminStages => "B"@,
        Category::LegendQuest => "D"@,
        Category::ZombieOutbreaks => "Z"@,
        Category::GauntletStages => "A"@,
        Category::EnigmaStages => "H"@,
        Category::CollabGauntletStages => "CA"@,
        Category::AkuRealms => "DM"@,
        Category::BehemothCulling => "Q"@,
        Category::Labyrinth => "L"@,
        Category::ZeroLegends => "ND"@,
        Category::OtherworldColosseum => "SR"@,
        Category::CatclawChampionships => "G"@,
        Category::Unknown(p) => p@,
    }
}

/// The extra stage file prefix a known chapter accepts, and where it goes:
/// `Some((prefix, true))` puts it before the map prefix, `Some((prefix, false))` after.
pub open spec fn extra_stage_prefix(c: Category) -> Option<(Seq<char>, bool)> {
    match c {
        Category::StoriesOfLegend => Some(("RN"@, false)),
        Category::EventStages => Some(("RS"@, false)),
        Category::CollabStages => Some(("RC"@, false)),
        Category::EmpireOfCats => Some(("EC"@, true)),
        Category::ExtraStages => Some(("EX"@, true)),
        Category::DojoHallOfInitiates => Some(("RT"@, false)),
        Category::TowersAndCitadels => Some(("RV"@, false)),
        Category::DojoRankingEvents => Some(("RR"@, false)),
        Category::ChallengeBattle => Some(("RM"@, false)),
        Category::UncannyLegends => Some(("RNA"@, false)),
        Category::CataminStages => Some(("RB"@, false)),
        Category::GauntletStages => Some(("RA"@, false)),
        Category::EnigmaStages => Some(("RH"@, false)),
        Category::CollabGauntletStages => Some(("RCA"@, false)),
        Category::AkuRealms => Some(("DM"@, false)),
        Category::BehemothCulling => Some(("RQ"@, false)),
        Category::ZeroLegends => Some(("RND"@, false)),
        Category::OtherworldColosseum => Some(("RSR"@, false)),
        _ => None,
    }
}

/// The stage file prefixes of a known chapter, most specific first: its map
/// prefix, with its extra prefix before or after it where it has one.
pub open spec fn known_stage_prefixes(c: Category) -> Seq<Seq<char>> {
    match extra_stage_prefix(c) {
        Some((extra, true)) => seq![extra, map_prefix_spec(c)],
        Some((extra, false)) => seq![map_prefix_spec(c), extra],
        None => seq![map_prefix_spec(c)],
    }
}

/// The chapter an uppercased prefix names, or `None` when it names none.
pub open spec fn chapter_of_upper(u: Seq<char>) -> Option<Category> {
    if u == "N"@ || u == "RN"@ { Some(Category::StoriesOfLegend) }
    else if u == "S"@ || u == "RS"@ { Some(Category::EventStages) }
    else if u == "C"@ || u == "RC"@ { Some(Category::CollabStages) }
    else if u == "EC"@ || u == ""@ { Some(Category::EmpireOfCats) }
    else if u == "W"@ { Some(Category::IntoTheFuture) }
    else if u == "SPACE"@ { Some(Category::CatsOfTheCosmos) }
    else if u == "RE"@ || u == "EX"@ { Some(Category::ExtraStages) }
    else if u == "T"@ || u == "RT"@ { Some(Category::DojoHallOfInitiates) }
    else if u == "V"@ || u == "RV"@ { Some(Category::TowersAndCitadels) }
    else if u == "R"@ || u == "RR"@ { Some(Category::DojoRankingEvents) }
    else if u == "M"@ || u == "RM"@ { Some(Category::ChallengeBattle) }
    else if u == "NA"@ || u == "RNA"@ { Some(Category::UncannyLegends) }
    else if u == "B"@ || u == "RB"@ { Some(Category::CataminStages) }
    else if u == "D"@ { Some(Category::LegendQuest) }
    else if u == "Z"@ { Some(Category::ZombieOutbreaks) }
    else if u == "A"@ || u == "RA"@ { Some(Category::GauntletStages) }
    else if u == "H"@ || u == "RH"@ { Some(Category::EnigmaStages) }
    else if u == "CA"@ || u == "RCA"@ { Some(Category::CollabGauntletStages) }
    else if u == "DM"@ { Some(Category::AkuRealms) }
    else if u == "Q"@ || u == "RQ"@ { Some(Category::BehemothCulling) }
    else if u == "L"@ { Some(Category::Labyrinth) }
    else if u == "ND"@ || u == "RND"@ { Some(Category::ZeroLegends) }
    else if u == "SR"@ || u == "RSR"@ { Some(Category::OtherworldColosseum) }
    else if u == "G"@ { Some(Category::CatclawChampionships) }
    else { None }
}

/// The numeric base a chapter's map identifiers are offset from.
pub open spec fn base_id_spec(c: Category) -> Option<u32> {
    match c {
        Category::StoriesOfLegend => Some(0),
        Category::EventStages => Some(1),
        Category::CollabStages => Some(2),
        Category::ExtraStages => Some(4),
        Category::DojoHallOfInitiates => Some(6),
        Category::TowersAndCitadels => Some(7),
        Category::DojoRankingEvents => Some(11),
        Category::ChallengeBattle => Some(12),
        Category::UncannyLegends => Some(13),
        Category::CataminStages => Some(14),
        Category::LegendQuest => Some(16),
        Category::GauntletStages => Some(24),
        Category::EnigmaStages => Some(25),
        Category::CollabGauntletStages => Some(27),
        Category::AkuRealms => Some(30),
        Category::BehemothCulling => Some(31),
        Category::Labyrinth => Some(33),
        Category::ZeroLegends => Some(34),
        Category::OtherworldColosseum => Some(36),
        Category::CatclawChampionships => Some(37),
        _ => None,
    }
}

fn lit(s: &str) -> (r: String)
    ensures
        r@ == s@,
{
    owned(s)
}


/// The prefix texts of the known chapters are plain ASCII, and each one but
/// that of the cosmos chapter holds no lowercase letter.
proof fn lemma_prefix_texts(c: Category)
    requires
        !(c is Unknown),
    ensures
        is_ascii_chars(map_prefix_spec(c)),
        c != Category::CatsOfTheCosmos ==> upper_text(map_prefix_spec(c)) == map_prefix_spec(c),
        c == Category::CatsOfTheCosmos ==> upper_text(map_prefix_spec(c)) == "SPACE"@,
        extra_stage_prefix(c) matches Some((e, _)) ==> upper_text(e) == e,
        chapter_of_upper(map_prefix_spec(c)) == Some(c) || c == Category::CatsOfTheCosmos,
        c == Category::CatsOfTheCosmos ==> chapter_of_upper("SPACE"@) == Some(c),
        extra_stage_prefix(c) matches Some((e, _)) ==> chapter_of_upper(e) == Some(c),
{
    reveal_strlit("N");
    reveal_strlit("RN");
    reveal_strlit("S");
    reveal_strlit("RS");
    reveal_strlit("C");
    reveal_strlit("RC");
    reveal_strlit("EC");
    reveal_strlit("");
    reveal_strlit("W");
    reveal_strlit("SPACE");
    reveal_strlit("Space");
    reveal_strlit("RE");
    reveal_strlit("EX");
    reveal_strlit("T");
    reveal_strlit("RT");
    reveal_strlit("V");
    reveal_strlit("RV");
    reveal_strlit("R");
    reveal_strlit("RR");
    reveal_strlit("M");
    reveal_strlit("RM");
    reveal_strlit("NA");
    reveal_strlit("RNA");
    reveal_strlit("B");
    reveal_strlit("RB");
    reveal_strlit("D");
    reveal_strlit("Z");
    reveal_strlit("A");
    reveal_strlit("RA");
    reveal_strlit("H");
    reveal_strlit("RH");
    reveal_strlit("CA");
    reveal_strlit("RCA");
    reveal_strlit("DM");
    reveal_strlit("Q");
    reveal_strlit("RQ");
    reveal_strlit("L");
    reveal_strlit("ND");
    reveal_strlit("RND");
    reveal_strlit("SR");
    reveal_strlit("RSR");
    reveal_strlit("G");
    let m = map_prefix_spec(c);
    assert("N"@[0] == 'N');
    assert("RN"@[0] == 'R' && "RN"@[1] == 'N');
    assert("S"@[0] == 'S');
    assert("RS"@[0] == 'R' && "RS"@[1] == 'S');
    assert("C"@[0] == 'C');
    assert("RC"@[0] == 'R' && "RC"@[1] == 'C');
    assert("EC"@[0] == 'E' && "EC"@[1] == 'C');
    assert("W"@[0] == 'W');
    assert("SPACE"@[0] == 'S' && "SPACE"@[1] == 'P' && "SPACE"@[2] == 'A' && "SPACE"@[3] == 'C' && "SPACE"@[4] == 'E');
    assert("RE"@[0] == 'R' && "RE"@[1] == 'E');
    assert("EX"@[0] == 'E' && "EX"@[1] == 'X');
    assert("T"@[0] == 'T');
    assert("RT"@[0] == 'R' && "RT"@[1] == 'T');
    assert("V"@[0] == 'V');
    assert("RV"@[0] == 'R' && "RV"@[1] == 'V');
    assert("R"@[0] == 'R');
    assert("RR"@[0] == 'R' && "RR"@[1] == 'R');
    assert("M"@[0] == 'M');
    assert("RM"@[0] == 'R' && "RM"@[1] == 'M');
    assert("NA"@[0] == 'N' && "NA"@[1] == 'A');
    assert("RNA"@[0] == 'R' && "RNA"@[1] == 'N' && "RNA"@[2] == 'A');
    assert("B"@[0] == 'B');
    assert("RB"@[0] == 'R' && "RB"@[1] == 'B');
    assert("D"@[0] == 'D');
    assert("Z"@[0] == 'Z');
    assert("A"@[0] == 'A');
    assert("RA"@[0] == 'R' && "RA"@[1] == 'A');
    assert("H"@[0] == 'H');
    assert("RH"@[0] == 'R' && "RH"@[1] == 'H');
    assert("CA"@[0] == 'C' && "CA"@[1] == 'A');
    assert("RCA"@[0] == 'R' && "RCA"@[1] == 'C' && "RCA"@[2] == 'A');
    assert("DM"@[0] == 'D' && "DM"@[1] == 'M');
    assert("Q"@[0] == 'Q');
    assert("RQ"@[0] == 'R' && "RQ"@[1] == 'Q');
    assert("L"@[0] == 'L');
    assert("ND"@[0] == 'N' && "ND"@[1] == 'D');
    assert("RND"@[0] == 'R' && "RND"@[1] == 'N' && "RND"@[2] == 'D');
    assert("SR"@[0] == 'S' && "SR"@[1] == 'R');
    assert("RSR"@[0] == 'R' && "RSR"@[1] == 'S' && "RSR"@[2] == 'R');
    assert("G"@[0] == 'G');
    if c == Category::CatsOfTheCosmos {
        assert(m.map_values(|ch: char| ascii_upper(ch)) =~= "SPACE"@);
    } else {
        lemma_upper_unchanged(m);
    }
    if let Some((e, _)) = extra_stage_prefix(c) {
        lemma_upper_unchanged(e);
    }
    match c {
        Category::StoriesOfLegend => { assert(chapter_of_upper("N"@) == Some(c)); assert(chapter_of_upper("RN"@) == Some(c)); },
        Category::EventStages => { assert(chapter_of_upper("S"@) == Some(c)); assert(chapter_of_upper("RS"@) == Some(c)); },
        Category::CollabStages => { assert(chapter_of_upper("C"@) == Some(c)); assert(chapter_of_upper("RC"@) == Some(c)); },
        Category::EmpireOfCats => { assert(chapter_of_upper(""@) == Some(c)); assert(chapter_of_upper("EC"@) == Some(c)); },
        Category::IntoTheFuture => { assert(chapter_of_upper("W"@) == Some(c)); },
        Category::CatsOfTheCosmos => { assert(chapter_of_upper("SPACE"@) == Some(c)); },
        Category::ExtraStages => { assert(chapter_of_upper("RE"@) == Some(c)); assert(chapter_of_upper("EX"@) == Some(c)); },
        Category::DojoHallOfInitiates => { assert(chapter_of_upper("T"@) == Some(c)); assert(chapter_of_upper("RT"@) == Some(c)); },
        Category::TowersAndCitadels => { assert(chapter_of_upper("V"@) == Some(c)); assert(chapter_of_upper("RV"@) == Some(c)); },
        Category::DojoRankingEvents => { assert(chapter_of_upper("R"@) == Some(c)); assert(chapter_of_upper("RR"@) == Some(c)); },
        Category::ChallengeBattle => { assert(chapter_of_upper("M"@) == Some(c)); assert(chapter_of_upper("RM"@) == Some(c)); },
        Category::UncannyLegends => { assert(chapter_of_upper("NA"@) == Some(c)); assert(chapter_of_upper("RNA"@) == Some(c)); },
        Category::CataminStages => { assert(chapter_of_upper("B"@) == Some(c)); assert(chapter_of_upper("RB"@) == Some(c)); },
        Category::LegendQuest => { assert(chapter_of_upper("D"@) == Some(c)); },
        Category::ZombieOutbreaks => { assert(chapter_of_upper("Z"@) == Some(c)); },
        Category::GauntletStages => { assert(chapter_of_upper("A"@) == Some(c)); assert(chapter_of_upper("RA"@) == Some(c)); },
        Category::EnigmaStages => { assert(chapter_of_upper("H"@) == Some(c)); assert(chapter_of_upper("RH"@) == Some(c)); },
        Category::CollabGauntletStages => { assert(chapter_of_upper("CA"@) == Some(c)); assert(chapter_of_upper("RCA"@) == Some(c)); },
        Category::AkuRealms => { assert(chapter_of_upper("DM"@) == Some(c)); },
        Category::BehemothCulling => { assert(chapter_of_upper("Q"@) == Some(c)); assert(chapter_of_upper("RQ"@) == Some(c)); },
        Category::Labyrinth => { assert(chapter_of_upper("L"@) == Some(c)); },
        Category::ZeroLegends => { assert(chapter_of_upper("ND"@) == Some(c)); assert(chapter_of_upper("RND"@) == Some(c)); },
        Category::OtherworldColosseum => { assert(chapter_of_upper("SR"@) == Some(c)); assert(chapter_of_upper("RSR"@) == Some(c)); },
        Category::CatclawChampionships => { assert(chapter_of_upper("G"@) == Some(c)); },
        Category::Unknown(_) => {},
    }
}

/// Every known chapter's map prefix resolves back to that chapter, whether
/// written as the chapter gives it or in lowercase.
pub proof fn lemma_map_prefix_resolves(c: Category)
    requires
        !(c is Unknown),
    ensures
        chapter_of_upper(upper_text(map_prefix_spec(c))) == Some(c),
        chapter_of_upper(upper_text(lower_text(map_prefix_spec(c)))) == Some(c),
{
    lemma_prefix_texts(c);
    lemma_case_round_trip(map_prefix_spec(c));
}

/// Two different known chapters never share a map prefix, whatever its case.
pub proof fn lemma_map_prefixes_distinct(a: Category, b: Category)
    requires
        !(a is Unknown),
        !(b is Unknown),
        a != b,
    ensures
        upper_text(map_prefix_spec(a)) != upper_text(map_prefix_spec(b)),
{
    lemma_map_prefix_resolves(a);
    lemma_map_prefix_resolves(b);
}

/// A known chapter lists one or two stage prefixes, among them its map prefix,
/// which comes first except where the extra prefix goes before it, and every
/// one of them resolves back to that chapter.
pub proof fn lemma_stage_prefixes_resolve(c: Category)
    requires
        !(c is Unknown),
    ensures
        1 <= known_stage_prefixes(c).len() <= 2,
        known_stage_prefixes(c).contains(map_prefix_spec(c)),
        c != Category::ExtraStages && c != Category::EmpireOfCats
            ==> known_stage_prefixes(c)[0] == map_prefix_spec(c),
        forall|i: int| 0 <= i < known_stage_prefixes(c).len()
            ==> chapter_of_upper(upper_text(#[trigger] known_stage_prefixes(c)[i])) == Some(c),
{
    lemma_prefix_texts(c);
    lemma_map_prefix_resolves(c);
    let v = known_stage_prefixes(c);
    match extra_stage_prefix(c) {
        Some((e, true)) => { assert(v[1] == map_prefix_spec(c)); },
        Some((e, false)) => { assert(v[0] == map_prefix_spec(c)); },
        None => { assert(v[0] == map_prefix_spec(c)); },
    }
}

/// The empty prefix resolves to the first main story chapter, whose files carry none.
pub proof fn lemma_empty_prefix_resolves()
    ensures
        chapter_of_upper(upper_text(Seq::<char>::empty())) == Some(Category::EmpireOfCats),
        map_prefix_spec(Category::EmpireOfCats) == Seq::<char>::empty(),
{
    reveal_strlit("");
    assert(""@ =~= Seq::<char>::empty());
    lemma_map_prefix_resolves(Category::EmpireOfCats);
}

impl Category {
    /// Returns the filename prefix the engine uses for this chapter's map files,
    /// which is empty for chapters whose files carry no prefix at all.
    pub fn map_prefix(&self) -> (r: String)
        ensures
            r@ == map_prefix_spec(*self),
    {
        match self {
            Category::StoriesOfLegend => lit("N"),
            Category::EventStages => lit("S"),
            Category::CollabStages => lit("C"),
            Category::EmpireOfCats => lit(""),
            Category::IntoTheFuture => lit("W"),
            Category::CatsOfTheCosmos => lit("Space"),
            Category::ExtraStages => lit("RE"),
            Category::DojoHallOfInitiates => lit("T"),
            Category::TowersAndCitadels => lit("V"),
            Category::DojoRankingEvents => lit("R"),
            Category::ChallengeBattle => lit("M"),
            Category::UncannyLegends => lit("NA"),
            Category::CataminStages => lit("B"),
            Category::LegendQuest => lit("D"),
            Category::ZombieOutbreaks => lit("Z"),
            Category::GauntletStages => lit("A"),
            Category::EnigmaStages => lit("H"),
            Category::CollabGauntletStages => lit("CA"),
            Category::AkuRealms => lit("DM"),
            Category::BehemothCulling => lit("Q"),
            Category::Labyrinth => lit("L"),
            Category::ZeroLegends => lit("ND"),
            Category::OtherworldColosseum => lit("SR"),
            Category::CatclawChampionships => lit("G"),
            Category::Unknown(prefix) => prefix.clone(),
        }
    }

    /// Returns the filename prefix the engine uses for this chapter's artwork:
    /// the map prefix, lowercased.
    pub fn image_prefix(&self) -> (r: String)
        ensures
            r@ == lower_text(map_prefix_spec(*self)),
    {
        let p = self.map_prefix();
        to_lowercase(p.as_str())
    }

    /// Returns every filename prefix this chapter's stage files may carry,
    /// most specific first.
    ///
    /// A known chapter adds its extra prefix before or after the map prefix.
    /// An unrecognized chapter whose uppercased prefix starts with `R` and is
    /// longer than that letter adds the uppercased prefix without its `R`.
    pub fn stage_prefix(&self) -> (r: Vec<String>)
        ensures
            match *self {
                Category::Unknown(p) => {
                    let u = upper_text(p@);
                    let bytes = vstd::utf8::encode_utf8(u);
                    if u.len() > 0 && u[0] == 'R' && bytes.len() > 1 {
                        r@.len() == 2 && r@[0]@ == p@ && r@[1]@ == lossy_decode(bytes.skip(1))
                    } else {
                        r@.len() == 1 && r@[0]@ == p@
                    }
                },
                _ => r@.len() == known_stage_prefixes(*self).len() && forall|i: int|
                    0 <= i < r@.len() ==> #[trigger] r@[i]@ == known_stage_prefixes(*self)[i],
            },
    {
        let base = self.map_prefix();
        let mut prefixes: Vec<String> = Vec::new();
        match self {
            Category::StoriesOfLegend => { prefixes.push(base); prefixes.push(lit("RN")); },
            Category::EventStages => { prefixes.push(base); prefixes.push(lit("RS")); },
            Category::CollabStages => { prefixes.push(base); prefixes.push(lit("RC")); },
            Category::EmpireOfCats => { prefixes.push(lit("EC")); prefixes.push(base); },
            Category::ExtraStages => { prefixes.push(lit("EX")); prefixes.push(base); },
            Category::DojoHallOfInitiates => { prefixes.push(base); prefixes.push(lit("RT")); },
            Category::TowersAndCitadels => { prefixes.push(base); prefixes.push(lit("RV")); },
            Category::DojoRankingEvents => { prefixes.push(base); prefixes.push(lit("RR")); },
            Category::ChallengeBattle => { prefixes.push(base); prefixes.push(lit("RM")); },
            Category::UncannyLegends => { prefixes.push(base); prefixes.push(lit("RNA")); },
            Category::CataminStages => { prefixes.push(base); prefixes.push(lit("RB")); },
            Category::GauntletStages => { prefixes.push(base); prefixes.push(lit("RA")); },
            Category::EnigmaStages => { prefixes.push(base); prefixes.push(lit("RH")); },
            Category::CollabGauntletStages => { prefixes.push(base); prefixes.push(lit("RCA")); },
            Category::AkuRealms => { prefixes.push(base); prefixes.push(lit("DM")); },
            Category::BehemothCulling => { prefixes.push(base); prefixes.push(lit("RQ")); },
            Category::ZeroLegends => { prefixes.push(base); prefixes.push(lit("RND")); },
            Category::OtherworldColosseum => { prefixes.push(base); prefixes.push(lit("RSR")); },
            Category::Unknown(prefix) => {
                prefixes.push(base);
                let upper = to_uppercase(prefix.as_str());
                let bytes: &[u8] = upper.as_str().as_bytes();
                if starts_with_r(&upper) && bytes.len() > 1 {
                    let rest = &bytes[1..bytes.len()];
                    assert(rest@ =~= bytes@.skip(1));
                    prefixes.push(decode_lossy(rest));
                }
            },
            _ => { prefixes.push(base); },
        }
        prefixes
    }

    /// Resolves a chapter from the filename prefix its files carry.
    ///
    /// Matching is case-insensitive and accepts the restricted-variant prefixes
    /// the engine uses alongside the ordinary ones. The empty prefix resolves to
    /// the first main story chapter, whose files carry none.
    ///
    /// # Returns
    /// The matching `Category`, or `Category::Unknown` carrying the supplied
    /// prefix when it matches no known chapter.
    pub fn from_prefix(prefix: &str) -> (r: Self)
        ensures
            match chapter_of_upper(upper_text(prefix@)) {
                Some(c) => r == c,
                None => r matches Category::Unknown(p) && p@ == prefix@,
            },
    {
        let upper = to_uppercase(prefix);
        let u = upper.as_str();
        if same_text(u, "N") || same_text(u, "RN") { Category::StoriesOfLegend }
        else if same_text(u, "S") || same_text(u, "RS") { Category::EventStages }
        else if same_text(u, "C") || same_text(u, "RC") { Category::CollabStages }
        else if same_text(u, "EC") || same_text(u, "") { Category::EmpireOfCats }
        else if same_text(u, "W") { Category::IntoTheFuture }
        else if same_text(u, "SPACE") { Category::CatsOfTheCosmos }
        else if same_text(u, "RE") || same_text(u, "EX") { Category::ExtraStages }
        else if same_text(u, "T") || same_text(u, "RT") { Category::DojoHallOfInitiates }
        else if same_text(u, "V") || same_text(u, "RV") { Category::TowersAndCitadels }
        else if same_text(u, "R") || same_text(u, "RR") { Category::DojoRankingEvents }
        else if same_text(u, "M") || same_text(u, "RM") { Category::ChallengeBattle }
        else if same_text(u, "NA") || same_text(u, "RNA") { Category::UncannyLegends }
        else if same_text(u, "B") || same_text(u, "RB") { Category::CataminStages }
        else if same_text(u, "D") { Category::LegendQuest }
        else if same_text(u, "Z") { Category::ZombieOutbreaks }
        else if same_text(u, "A") || same_text(u, "RA") { Category::GauntletStages }
        else if same_text(u, "H") || same_text(u, "RH") { Category::EnigmaStages }
        else if same_text(u, "CA") || same_text(u, "RCA") { Category::CollabGauntletStages }
        else if same_text(u, "DM") { Category::AkuRealms }
        else if same_text(u, "Q") || same_text(u, "RQ") { Category::BehemothCulling }
        else if same_text(u, "L") { Category::Labyrinth }
        else if same_text(u, "ND") || same_text(u, "RND") { Category::ZeroLegends }
        else if same_text(u, "SR") || same_text(u, "RSR") { Category::OtherworldColosseum }
        else if same_text(u, "G") { Category::CatclawChampionships }
        else { Category::Unknown(owned(prefix)) }
    }

    /// Returns the numeric base this chapter's map identifiers are offset from,
    /// or `None` for the main story chapters and unrecognized chapters, which
    /// are not addressed through this scheme.
    pub fn base_id(&self) -> (r: Option<u32>)
        ensures
            r == base_id_spec(*self),
    {
        match self {
            Category::StoriesOfLegend => Some(0),
            Category::EventStages => Some(1),
            Category::CollabStages => Some(2),
            Category::EmpireOfCats => None,
            Category::IntoTheFuture => None,
            Category::CatsOfTheCosmos => None,
            Category::ExtraStages => Some(4),
            Category::DojoHallOfInitiates => Some(6),
            Category::TowersAndCitadels => Some(7),
            Category::DojoRankingEvents => Some(11),
            Category::ChallengeBattle => Some(12),
            Category::UncannyLegends => Some(13),
            Category::CataminStages => Some(14),
            Category::LegendQuest => Some(16),
            Category::ZombieOutbreaks => None,
            Category::GauntletStages => Some(24),
            Category::EnigmaStages => Some(25),
            Category::CollabGauntletStages => Some(27),
            Category::AkuRealms => Some(30),
            Category::BehemothCulling => Some(31),
            Category::Labyrinth => Some(33),
            Category::ZeroLegends => Some(34),
            Category::OtherworldColosseum => Some(36),
            Category::CatclawChampionships => Some(37),
            Category::Unknown(_) => None,
        }
    }

    /// Converts a map's chapter-local identifier into its global identifier:
    /// the chapter's base times one thousand plus the local number.
    ///
    /// # Returns
    /// The global identifier, or `None` when the chapter is not addressed
    /// through this scheme.
    pub fn global_map_id(&self, local_map_id: u32) -> (r: Option<u32>)
        requires
            base_id_spec(*self) matches Some(b) ==> b * 1000 + local_map_id <= u32::MAX,
        ensures
            r == match base_id_spec(*self) {
                Some(b) => Some((b * 1000 + local_map_id) as u32),
                None => None,
            },
    {
        match self.base_id() {
            Some(base) => Some(base * 1000 + local_map_id),
            None => None,
        }
    }
}

fn starts_with_r(s: &String) -> (r: bool)
    ensures
        r == (s@.len() > 0 && s@[0] == 'R'),
{
    let t: &str = s.as_str();
    let mut it = t.chars();
    match it.next() {
        Some(c) => c == 'R',
        None => false,
    }
}

} // verus!
