//! The music catalog and the ambiance moods, their canonical texts, and the
//! addresses of the tracks they name.

use vstd::prelude::*;

use crate::clock::{hour_label, Hour};
use crate::text::same_text;

verus! {

/// Where every track is served from.
pub const ORIGIN: &'static str = "https://d17orwheorv96d.cloudfront.net/";

/// The seasonal variant of a catalog entry.
#[derive(Clone, Copy, Debug, PartialEq, Eq, Structural)]
pub enum Climate {
    Cherry,
    Rainy,
    Snowy,
    /// No seasonal variant.
    Plain,
}

/// A music catalog entry: a title with its seasonal variant.
#[derive(Clone, Copy, Debug, PartialEq, Eq, Structural)]
pub enum Game {
    PopulationGrowing(Climate),
    NewHorizons(Climate),
    PocketCamp(Climate),
    WildWorld(Climate),
    NewLeaf(Climate),
}

/// An ambiance mood: rain without thunder, ordinary rain, or the rain of
/// the games.
#[derive(Clone, Copy, Debug, PartialEq, Eq, Structural)]
pub enum Rain {
    NoThunder,
    Normal,
    Game,
}

/// The canonical text of a variant; the plain variant has none.
pub open spec fn climate_label(c: Climate) -> Seq<char> {
    match c {
        Climate::Cherry => "cherry"@,
        Climate::Rainy => "rainy"@,
        Climate::Snowy => "snowy"@,
        Climate::Plain => Seq::empty(),
    }
}

/// A title followed by `-` and its variant, unless the variant is plain.
pub open spec fn with_variant(title: Seq<char>, c: Climate) -> Seq<char> {
    if c == Climate::Plain {
        title
    } else {
        title + "-"@ + climate_label(c)
    }
}

/// The canonical text of a catalog entry. The pocket-camp title has no
/// variants: its text ignores the one attached.
pub open spec fn game_label(g: Game) -> Seq<char> {
    match g {
        Game::PopulationGrowing(c) => with_variant("population-growing"@, c),
        Game::NewHorizons(c) => with_variant("new-horizons"@, c),
        Game::PocketCamp(_) => "pocket-camp"@,
        Game::WildWorld(c) => with_variant("wild-world"@, c),
        Game::NewLeaf(c) => with_variant("new-leaf"@, c),
    }
}

/// The entries of the catalog: every variant of population-growing; the
/// rainy, snowy and plain variants of new-horizons, wild-world and
/// new-leaf; and plain pocket-camp.
pub open spec fn game_listed(g: Game) -> bool {
    match g {
        Game::PopulationGrowing(_) => true,
        Game::NewHorizons(c) => c != Climate::Cherry,
        Game::PocketCamp(c) => c == Climate::Plain,
        Game::WildWorld(c) => c != Climate::Cherry,
        Game::NewLeaf(c) => c != Climate::Cherry,
    }
}

/// The name by which an ambiance mood is selected.
pub open spec fn rain_name(r: Rain) -> Seq<char> {
    match r {
        Rain::NoThunder => "no-thunder"@,
        Rain::Normal => "normal"@,
        Rain::Game => "game"@,
    }
}

/// The canonical text of an ambiance mood, which names its track.
pub open spec fn rain_label(r: Rain) -> Seq<char> {
    match r {
        Rain::NoThunder => "no-thunder-rain"@,
        Rain::Normal => "rain"@,
        Rain::Game => "game-rain"@,
    }
}

/// The file suffix of every track.
pub open spec fn track_suffix() -> Seq<char> {
    seq!['.', 'a', 'u', 'd', 'i', 'o']
}

/// The address of a catalog entry's track for an hour slot.
pub open spec fn track_url(base: Seq<char>, g: Game, h: Hour) -> Seq<char> {
    base + game_label(g) + seq!['/'] + hour_label(h) + track_suffix()
}

/// The address of an ambiance mood's track; it has no hour.
pub open spec fn ambiance_url(base: Seq<char>, r: Rain) -> Seq<char> {
    base + seq!['r', 'a', 'i', 'n', '/'] + rain_label(r) + track_suffix()
}

/// The text of each catalog entry, spelled out.
proof fn lemma_listed_labels()
    ensures
        game_label(Game::PopulationGrowing(Climate::Snowy)) == "population-growing-snowy"@,
        game_label(Game::PopulationGrowing(Climate::Cherry)) == "population-growing-cherry"@,
        game_label(Game::PopulationGrowing(Climate::Rainy)) == "population-growing-rainy"@,
        game_label(Game::PopulationGrowing(Climate::Plain)) == "population-growing"@,
        game_label(Game::NewHorizons(Climate::Rainy)) == "new-horizons-rainy"@,
        game_label(Game::NewHorizons(Climate::Snowy)) == "new-horizons-snowy"@,
        game_label(Game::WildWorld(Climate::Rainy)) == "wild-world-rainy"@,
        game_label(Game::WildWorld(Climate::Snowy)) == "wild-world-snowy"@,
        game_label(Game::NewHorizons(Climate::Plain)) == "new-horizons"@,
        game_label(Game::NewLeaf(Climate::Rainy)) == "new-leaf-rainy"@,
        game_label(Game::NewLeaf(Climate::Snowy)) == "new-leaf-snowy"@,
        game_label(Game::PocketCamp(Climate::Plain)) == "pocket-camp"@,
        game_label(Game::WildWorld(Climate::Plain)) == "wild-world"@,
        game_label(Game::NewLeaf(Climate::Plain)) == "new-leaf"@,
{
    reveal_strlit("population-growing");
    reveal_strlit("new-horizons");
    reveal_strlit("wild-world");
    reveal_strlit("new-leaf");
    reveal_strlit("pocket-camp");
    reveal_strlit("cherry");
    reveal_strlit("rainy");
    reveal_strlit("snowy");
    reveal_strlit("-");
    reveal_strlit("population-growing-snowy");
    reveal_strlit("population-growing-cherry");
    reveal_strlit("population-growing-rainy");
    reveal_strlit("new-horizons-rainy");
    reveal_strlit("new-horizons-snowy");
    reveal_strlit("wild-world-rainy");
    reveal_strlit("wild-world-snowy");
    reveal_strlit("new-leaf-rainy");
    reveal_strlit("new-leaf-snowy");
    assert(game_label(Game::PopulationGrowing(Climate::Snowy)) =~= "population-growing-snowy"@);
    assert(game_label(Game::PopulationGrowing(Climate::Cherry)) =~= "population-growing-cherry"@);
    assert(game_label(Game::PopulationGrowing(Climate::Rainy)) =~= "population-growing-rainy"@);
    assert(game_label(Game::PopulationGrowing(Climate::Plain)) =~= "population-growing"@);
    assert(game_label(Game::NewHorizons(Climate::Rainy)) =~= "new-horizons-rainy"@);
    assert(game_label(Game::NewHorizons(Climate::Snowy)) =~= "new-horizons-snowy"@);
    assert(game_label(Game::WildWorld(Climate::Rainy)) =~= "wild-world-rainy"@);
    assert(game_label(Game::WildWorld(Climate::Snowy)) =~= "wild-world-snowy"@);
    assert(game_label(Game::NewHorizons(Climate::Plain)) =~= "new-horizons"@);
    assert(game_label(Game::NewLeaf(Climate::Rainy)) =~= "new-leaf-rainy"@);
    assert(game_label(Game::NewLeaf(Climate::Snowy)) =~= "new-leaf-snowy"@);
    assert(game_label(Game::PocketCamp(Climate::Plain)) =~= "pocket-camp"@);
    assert(game_label(Game::WildWorld(Climate::Plain)) =~= "wild-world"@);
    assert(game_label(Game::NewLeaf(Climate::Plain)) =~= "new-leaf"@);
}

/// The texts of the catalog's entries are pairwise distinct.
proof fn lemma_catalog_texts_distinct()
    ensures
        "population-growing-snowy"@ != "population-growing-cherry"@,
        "population-growing-snowy"@ != "population-growing-rainy"@,
        "population-growing-snowy"@ != "population-growing"@,
        "population-growing-snowy"@ != "new-horizons-rainy"@,
        "population-growing-snowy"@ != "new-horizons-snowy"@,
        "population-growing-snowy"@ != "wild-world-rainy"@,
        "population-growing-snowy"@ != "wild-world-snowy"@,
        "population-growing-snowy"@ != "new-horizons"@,
        "population-growing-snowy"@ != "new-leaf-rainy"@,
        "population-growing-snowy"@ != "new-leaf-snowy"@,
        "population-growing-snowy"@ != "pocket-camp"@,
        "population-growing-snowy"@ != "wild-world"@,
        "population-growing-snowy"@ != "new-leaf"@,
        "population-growing-cherry"@ != "population-growing-rainy"@,
        "population-growing-cherry"@ != "population-growing"@,
        "population-growing-cherry"@ != "new-horizons-rainy"@,
        "population-growing-cherry"@ != "new-horizons-snowy"@,
        "population-growing-cherry"@ != "wild-world-rainy"@,
        "population-growing-cherry"@ != "wild-world-snowy"@,
        "population-growing-cherry"@ != "new-horizons"@,
        "population-growing-cherry"@ != "new-leaf-rainy"@,
        "population-growing-cherry"@ != "new-leaf-snowy"@,
        "population-growing-cherry"@ != "pocket-camp"@,
        "population-growing-cherry"@ != "wild-world"@,
        "population-growing-cherry"@ != "new-leaf"@,
        "population-growing-rainy"@ != "population-growing"@,
        "population-growing-rainy"@ != "new-horizons-rainy"@,
        "population-growing-rainy"@ != "new-horizons-snowy"@,
        "population-growing-rainy"@ != "wild-world-rainy"@,
        "population-growing-rainy"@ != "wild-world-snowy"@,
        "population-growing-rainy"@ != "new-horizons"@,
        "population-growing-rainy"@ != "new-leaf-rainy"@,
        "population-growing-rainy"@ != "new-leaf-snowy"@,
        "population-growing-rainy"@ != "pocket-camp"@,
        "population-growing-rainy"@ != "wild-world"@,
        "population-growing-rainy"@ != "new-leaf"@,
        "population-growing"@ != "new-horizons-rainy"@,
        "population-growing"@ != "new-horizons-snowy"@,
        "population-growing"@ != "wild-world-rainy"@,
        "population-growing"@ != "wild-world-snowy"@,
        "population-growing"@ != "new-horizons"@,
        "population-growing"@ != "new-leaf-rainy"@,
        "population-growing"@ != "new-leaf-snowy"@,
        "population-growing"@ != "pocket-camp"@,
        "population-growing"@ != "wild-world"@,
        "population-growing"@ != "new-leaf"@,
        "new-horizons-rainy"@ != "new-horizons-snowy"@,
        "new-horizons-rainy"@ != "wild-world-rainy"@,
        "new-horizons-rainy"@ != "wild-world-snowy"@,
        "new-horizons-rainy"@ != "new-horizons"@,
        "new-horizons-rainy"@ != "new-leaf-rainy"@,
        "new-horizons-rainy"@ != "new-leaf-snowy"@,
        "new-horizons-rainy"@ != "pocket-camp"@,
        "new-horizons-rainy"@ != "wild-world"@,
        "new-horizons-rainy"@ != "new-leaf"@,
        "new-horizons-snowy"@ != "wild-world-rainy"@,
        "new-horizons-snowy"@ != "wild-world-snowy"@,
        "new-horizons-snowy"@ != "new-horizons"@,
        "new-horizons-snowy"@ != "new-leaf-rainy"@,
        "new-horizons-snowy"@ != "new-leaf-snowy"@,
        "new-horizons-snowy"@ != "pocket-camp"@,
        "new-horizons-snowy"@ != "wild-world"@,
        "new-horizons-snowy"@ != "new-leaf"@,
        "wild-world-rainy"@ != "wild-world-snowy"@,
        "wild-world-rainy"@ != "new-horizons"@,
        "wild-world-rainy"@ != "new-leaf-rainy"@,
        "wild-world-rainy"@ != "new-leaf-snowy"@,
        "wild-world-rainy"@ != "pocket-camp"@,
        "wild-world-rainy"@ != "wild-world"@,
        "wild-world-rainy"@ != "new-leaf"@,
        "wild-world-snowy"@ != "new-horizons"@,
        "wild-world-snowy"@ != "new-leaf-rainy"@,
        "wild-world-snowy"@ != "new-leaf-snowy"@,
        "wild-world-snowy"@ != "pocket-camp"@,
        "wild-world-snowy"@ != "wild-world"@,
        "wild-world-snowy"@ != "new-leaf"@,
        "new-horizons"@ != "new-leaf-rainy"@,
        "new-horizons"@ != "new-leaf-snowy"@,
        "new-horizons"@ != "pocket-camp"@,
        "new-horizons"@ != "wild-world"@,
        "new-horizons"@ != "new-leaf"@,
        "new-leaf-rainy"@ != "new-leaf-snowy"@,
        "new-leaf-rainy"@ != "pocket-camp"@,
        "new-leaf-rainy"@ != "wild-world"@,
        "new-leaf-rainy"@ != "new-leaf"@,
        "new-leaf-snowy"@ != "pocket-camp"@,
        "new-leaf-snowy"@ != "wild-world"@,
        "new-leaf-snowy"@ != "new-leaf"@,
        "pocket-camp"@ != "wild-world"@,
        "pocket-camp"@ != "new-leaf"@,
        "wild-world"@ != "new-leaf"@,
{
    reveal_strlit("population-growing-snowy");
    reveal_strlit("population-growing-cherry");
    reveal_strlit("population-growing-rainy");
    reveal_strlit("population-growing");
    reveal_strlit("new-horizons-rainy");
    reveal_strlit("new-horizons-snowy");
    reveal_strlit("wild-world-rainy");
    reveal_strlit("wild-world-snowy");
    reveal_strlit("new-horizons");
    reveal_strlit("new-leaf-rainy");
    reveal_strlit("new-leaf-snowy");
    reveal_strlit("pocket-camp");
    reveal_strlit("wild-world");
    reveal_strlit("new-leaf");
    assert("population-growing-snowy"@.len() != "population-growing-cherry"@.len());
    assert("population-growing-snowy"@[19] != "population-growing-rainy"@[19]);
    assert("population-growing-snowy"@.len() != "population-growing"@.len());
    assert("population-growing-snowy"@.len() != "new-horizons-rainy"@.len());
    assert("population-growing-snowy"@.len() != "new-horizons-snowy"@.len());
    assert("population-growing-snowy"@.len() != "wild-world-rainy"@.len());
    assert("population-growing-snowy"@.len() != "wild-world-snowy"@.len());
    assert("population-growing-snowy"@.len() != "new-horizons"@.len());
    assert("population-growing-snowy"@.len() != "new-leaf-rainy"@.len());
    assert("population-growing-snowy"@.len() != "new-leaf-snowy"@.len());
    assert("population-growing-snowy"@.len() != "pocket-camp"@.len());
    assert("population-growing-snowy"@.len() != "wild-world"@.len());
    assert("population-growing-snowy"@.len() != "new-leaf"@.len());
    assert("population-growing-cherry"@.len() != "population-growing-rainy"@.len());
    assert("population-growing-cherry"@.len() != "population-growing"@.len());
    assert("population-growing-cherry"@.len() != "new-horizons-rainy"@.len());
    assert("population-growing-cherry"@.len() != "new-horizons-snowy"@.len());
    assert("population-growing-cherry"@.len() != "wild-world-rainy"@.len());
    assert("population-growing-cherry"@.len() != "wild-world-snowy"@.len());
    assert("population-growing-cherry"@.len() != "new-horizons"@.len());
    assert("population-growing-cherry"@.len() != "new-leaf-rainy"@.len());
    assert("population-growing-cherry"@.len() != "new-leaf-snowy"@.len());
    assert("population-growing-cherry"@.len() != "pocket-camp"@.len());
    assert("population-growing-cherry"@.len() != "wild-world"@.len());
    assert("population-growing-cherry"@.len() != "new-leaf"@.len());
    assert("population-growing-rainy"@.len() != "population-growing"@.len());
    assert("population-growing-rainy"@.len() != "new-horizons-rainy"@.len());
    assert("population-growing-rainy"@.len() != "new-horizons-snowy"@.len());
    assert("population-growing-rainy"@.len() != "wild-world-rainy"@.len());
    assert("population-growing-rainy"@.len() != "wild-world-snowy"@.len());
    assert("population-growing-rainy"@.len() != "new-horizons"@.len());
    assert("population-growing-rainy"@.len() != "new-leaf-rainy"@.len());
    assert("population-growing-rainy"@.len() != "new-leaf-snowy"@.len());
    assert("population-growing-rainy"@.len() != "pocket-camp"@.len());
    assert("population-growing-rainy"@.len() != "wild-world"@.len());
    assert("population-growing-rainy"@.len() != "new-leaf"@.len());
    assert("population-growing"@[0] != "new-horizons-rainy"@[0]);
    assert("population-growing"@[0] != "new-horizons-snowy"@[0]);
    assert("population-growing"@.len() != "wild-world-rainy"@.len());
    assert("population-growing"@.len() != "wild-world-snowy"@.len());
    assert("population-growing"@.len() != "new-horizons"@.len());
    assert("population-growing"@.len() != "new-leaf-rainy"@.len());
    assert("population-growing"@.len() != "new-leaf-snowy"@.len());
    assert("population-growing"@.len() != "pocket-camp"@.len());
    assert("population-growing"@.len() != "wild-world"@.len());
    assert("population-growing"@.len() != "new-leaf"@.len());
    assert("new-horizons-rainy"@[13] != "new-horizons-snowy"@[13]);
    assert("new-horizons-rainy"@.len() != "wild-world-rainy"@.len());
    assert("new-horizons-rainy"@.len() != "wild-world-snowy"@.len());
    assert("new-horizons-rainy"@.len() != "new-horizons"@.len());
    assert("new-horizons-rainy"@.len() != "new-leaf-rainy"@.len());
    assert("new-horizons-rainy"@.len() != "new-leaf-snowy"@.len());
    assert("new-horizons-rainy"@.len() != "pocket-camp"@.len());
    assert("new-horizons-rainy"@.len() != "wild-world"@.len());
    assert("new-horizons-rainy"@.len() != "new-leaf"@.len());
    assert("new-horizons-snowy"@.len() != "wild-world-rainy"@.len());
    assert("new-horizons-snowy"@.len() != "wild-world-snowy"@.len());
    assert("new-horizons-snowy"@.len() != "new-horizons"@.len());
    assert("new-horizons-snowy"@.len() != "new-leaf-rainy"@.len());
    assert("new-horizons-snowy"@.len() != "new-leaf-snowy"@.len());
    assert("new-horizons-snowy"@.len() != "pocket-camp"@.len());
    assert("new-horizons-snowy"@.len() != "wild-world"@.len());
    assert("new-horizons-snowy"@.len() != "new-leaf"@.len());
    assert("wild-world-rainy"@[11] != "wild-world-snowy"@[11]);
    assert("wild-world-rainy"@.len() != "new-horizons"@.len());
    assert("wild-world-rainy"@.len() != "new-leaf-rainy"@.len());
    assert("wild-world-rainy"@.len() != "new-leaf-snowy"@.len());
    assert("wild-world-rainy"@.len() != "pocket-camp"@.len());
    assert("wild-world-rainy"@.len() != "wild-world"@.len());
    assert("wild-world-rainy"@.len() != "new-leaf"@.len());
    assert("wild-world-snowy"@.len() != "new-horizons"@.len());
    assert("wild-world-snowy"@.len() != "new-leaf-rainy"@.len());
    assert("wild-world-snowy"@.len() != "new-leaf-snowy"@.len());
    assert("wild-world-snowy"@.len() != "pocket-camp"@.len());
    assert("wild-world-snowy"@.len() != "wild-world"@.len());
    assert("wild-world-snowy"@.len() != "new-leaf"@.len());
    assert("new-horizons"@.len() != "new-leaf-rainy"@.len());
    assert("new-horizons"@.len() != "new-leaf-snowy"@.len());
    assert("new-horizons"@.len() != "pocket-camp"@.len());
    assert("new-horizons"@.len() != "wild-world"@.len());
    assert("new-horizons"@.len() != "new-leaf"@.len());
    assert("new-leaf-rainy"@[9] != "new-leaf-snowy"@[9]);
    assert("new-leaf-rainy"@.len() != "pocket-camp"@.len());
    assert("new-leaf-rainy"@.len() != "wild-world"@.len());
    assert("new-leaf-rainy"@.len() != "new-leaf"@.len());
    assert("new-leaf-snowy"@.len() != "pocket-camp"@.len());
    assert("new-leaf-snowy"@.len() != "wild-world"@.len());
    assert("new-leaf-snowy"@.len() != "new-leaf"@.len());
    assert("pocket-camp"@.len() != "wild-world"@.len());
    assert("pocket-camp"@.len() != "new-leaf"@.len());
    assert("wild-world"@.len() != "new-leaf"@.len());
}

/// Two catalog entries with one text are the same entry.
proof fn lemma_listed_labels_distinct(a: Game, b: Game)
    requires
        game_listed(a),
        game_listed(b),
        game_label(a) == game_label(b),
    ensures
        a == b,
{
    lemma_listed_labels();
    lemma_catalog_texts_distinct();
}

/// Each text of the catalog names one entry: the entry read from a catalog
/// text is the only listed entry with that text, so writing it again gives
/// the text back, and a text that no listed entry has is refused.
pub proof fn law_catalog_round_trip(s: Seq<char>, g: Game)
    requires
        game_listed(g),
        game_label(g) == s,
    ensures
        forall|h: Game| game_listed(h) && #[trigger] game_label(h) == s ==> h == g,
{
    assert forall|h: Game| game_listed(h) && #[trigger] game_label(h) == s implies h == g by {
        lemma_listed_labels_distinct(h, g);
    }
}

impl Climate {
    /// The canonical text of this variant.
    pub fn as_str(&self) -> (r: &'static str)
        ensures
            r@ == climate_label(*self),
    {
        match self {
            Climate::Cherry => "cherry",
            Climate::Rainy => "rainy",
            Climate::Snowy => "snowy",
            Climate::Plain => {
                proof {
                    reveal_strlit("");
                }
                let r = "";
                assert(r@ =~= Seq::<char>::empty());
                r
            },
        }
    }

    /// The canonical text of this variant, as an owned string.
    pub fn to_string(&self) -> (r: String)
        ensures
            r@ == climate_label(*self),
    {
        String::from_str(self.as_str())
    }
}

impl Game {
    /// The canonical text of this entry: the title, then `-` and the
    /// variant unless the variant is plain; pocket-camp is always written
    /// without its variant.
    pub fn to_string(&self) -> (r: String)
        ensures
            r@ == game_label(*self),
    {
        let (title, c) = match self {
            Game::PocketCamp(_) => {
                return String::from_str("pocket-camp");
            },
            Game::PopulationGrowing(c) => ("population-growing", c),
            Game::NewHorizons(c) => ("new-horizons", c),
            Game::WildWorld(c) => ("wild-world", c),
            Game::NewLeaf(c) => ("new-leaf", c),
        };
        let mut r = String::from_str(title);
        match c {
            Climate::Plain => {},
            _ => {
                r.append("-");
                r.append(c.as_str());
            },
        }
        r
    }

    /// Reads a catalog entry from its text. Only the texts of the entries
    /// of the catalog are accepted.
    pub fn from_str(s: &str) -> (r: Result<Game, ()>)
        ensures
            match r {
                Ok(g) => game_listed(g) && game_label(g) == s@,
                Err(_) => forall|g: Game| game_listed(g) ==> game_label(g) != s@,
            },
    {
        proof {
            lemma_listed_labels();
        }
        if same_text(s, "population-growing-snowy") {
            return Ok(Game::PopulationGrowing(Climate::Snowy));
        }
        if same_text(s, "population-growing-cherry") {
            return Ok(Game::PopulationGrowing(Climate::Cherry));
        }
        if same_text(s, "population-growing-rainy") {
            return Ok(Game::PopulationGrowing(Climate::Rainy));
        }
        if same_text(s, "population-growing") {
            return Ok(Game::PopulationGrowing(Climate::Plain));
        }
        if same_text(s, "new-horizons-rainy") {
            return Ok(Game::NewHorizons(Climate::Rainy));
        }
        if same_text(s, "new-horizons-snowy") {
            return Ok(Game::NewHorizons(Climate::Snowy));
        }
        if same_text(s, "wild-world-rainy") {
            return Ok(Game::WildWorld(Climate::Rainy));
        }
        if same_text(s, "wild-world-snowy") {
            return Ok(Game::WildWorld(Climate::Snowy));
        }
        if same_text(s, "new-horizons") {
            return Ok(Game::NewHorizons(Climate::Plain));
        }
        if same_text(s, "new-leaf-rainy") {
            return Ok(Game::NewLeaf(Climate::Rainy));
        }
        if same_text(s, "new-leaf-snowy") {
            return Ok(Game::NewLeaf(Climate::Snowy));
        }
        if same_text(s, "pocket-camp") {
            return Ok(Game::PocketCamp(Climate::Plain));
        }
        if same_text(s, "wild-world") {
            return Ok(Game::WildWorld(Climate::Plain));
        }
        if same_text(s, "new-leaf") {
            return Ok(Game::NewLeaf(Climate::Plain));
        }
        Err(())
    }

    /// The address of this entry's track for an hour slot: `base`, this
    /// entry's text, `/`, the slot's text and the track suffix.
    pub fn url(&self, base: &str, hour: Hour) -> (r: String)
        ensures
            r@ == track_url(base@, *self, hour),
    {
        proof {
            reveal_strlit("/");
            reveal_strlit(".audio");
        }
        let mut r = String::from_str(base);
        let g = self.to_string();
        r.append(g.as_str());
        r.append("/");
        r.append(hour.as_str());
        r.append(".audio");
        assert(r@ =~= track_url(base@, *self, hour));
        r
    }
}

impl Rain {
    /// The canonical text of this mood.
    pub fn as_str(&self) -> (r: &'static str)
        ensures
            r@ == rain_label(*self),
    {
        match self {
            Rain::NoThunder => "no-thunder-rain",
            Rain::Game => "game-rain",
            Rain::Normal => "rain",
        }
    }

    /// The canonical text of this mood, as an owned string.
    pub fn to_string(&self) -> (r: String)
        ensures
            r@ == rain_label(*self),
    {
        String::from_str(self.as_str())
    }

    /// Reads a mood from the name it is selected by; any other text is
    /// refused.
    pub fn from_str(s: &str) -> (r: Result<Rain, ()>)
        ensures
            match r {
                Ok(x) => rain_name(x) == s@,
                Err(_) => forall|x: Rain| rain_name(x) != s@,
            },
    {
        if same_text(s, "no-thunder") {
            Ok(Rain::NoThunder)
        } else if same_text(s, "normal") {
            Ok(Rain::Normal)
        } else if same_text(s, "game") {
            Ok(Rain::Game)
        } else {
            Err(())
        }
    }

    /// The address of this mood's track: `base`, `rain/`, this mood's text
    /// and the track suffix.
    pub fn url(&self, base: &str) -> (r: String)
        ensures
            r@ == ambiance_url(base@, *self),
    {
        proof {
            reveal_strlit("rain/");
            reveal_strlit(".audio");
        }
        let mut r = String::from_str(base);
        r.append("rain/");
        r.append(self.as_str());
        r.append(".audio");
        assert(r@ =~= ambiance_url(base@, *self));
        r
    }
}

} // verus!
