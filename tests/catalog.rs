use nookd::{Climate, Game, Hour, Rain, ORIGIN};

const CATALOG: [&str; 14] = [
    "population-growing-cherry",
    "population-growing-rainy",
    "population-growing-snowy",
    "population-growing",
    "new-horizons-rainy",
    "new-horizons-snowy",
    "wild-world-rainy",
    "wild-world-snowy",
    "new-leaf-rainy",
    "new-leaf-snowy",
    "new-horizons",
    "pocket-camp",
    "wild-world",
    "new-leaf",
];

#[test]
fn catalog_texts_round_trip() {
    for text in CATALOG.iter() {
        let g = Game::from_str(text).unwrap();
        assert_eq!(g.to_string(), *text);
        assert_eq!(Game::from_str(&g.to_string()), Ok(g));
    }
}

#[test]
fn texts_outside_the_catalog_are_refused() {
    for text in [
        "new-horizons-cherry",
        "wild-world-cherry",
        "new-leaf-cherry",
        "pocket-camp-rainy",
        "population-growing-",
        "population",
        "New-Leaf",
        "new-leaf ",
        "",
    ] {
        assert_eq!(Game::from_str(text), Err(()));
    }
}

#[test]
fn parsed_entries_carry_their_variant() {
    assert_eq!(Game::from_str("population-growing-cherry"), Ok(Game::PopulationGrowing(Climate::Cherry)));
    assert_eq!(Game::from_str("new-leaf"), Ok(Game::NewLeaf(Climate::Plain)));
    assert_eq!(Game::from_str("wild-world-snowy"), Ok(Game::WildWorld(Climate::Snowy)));
}

#[test]
fn pocket_camp_ignores_its_variant() {
    for c in [Climate::Cherry, Climate::Rainy, Climate::Snowy, Climate::Plain] {
        assert_eq!(Game::PocketCamp(c).to_string(), "pocket-camp");
    }
}

#[test]
fn variant_texts() {
    assert_eq!(Climate::Cherry.to_string(), "cherry");
    assert_eq!(Climate::Rainy.to_string(), "rainy");
    assert_eq!(Climate::Snowy.to_string(), "snowy");
    assert_eq!(Climate::Plain.to_string(), "");
    assert_eq!(Game::NewHorizons(Climate::Cherry).to_string(), "new-horizons-cherry");
}

#[test]
fn new_horizons_at_three_pm() {
    let g = Game::from_str("new-horizons").unwrap();
    assert_eq!(g.url(ORIGIN, Hour::ThreePm), format!("{}new-horizons/03pm.audio", ORIGIN));
}

#[test]
fn population_growing_cherry_url() {
    let g = Game::from_str("population-growing-cherry").unwrap();
    assert_eq!(
        g.url(ORIGIN, Hour::NineAm),
        "https://d17orwheorv96d.cloudfront.net/population-growing-cherry/09am.audio"
    );
}

#[test]
fn pocket_camp_url_has_no_variant() {
    for c in [Climate::Cherry, Climate::Rainy, Climate::Snowy, Climate::Plain] {
        assert_eq!(
            Game::PocketCamp(c).url(ORIGIN, Hour::TwelveAm),
            format!("{}pocket-camp/12am.audio", ORIGIN)
        );
    }
}

#[test]
fn url_keeps_the_given_base() {
    assert_eq!(Game::WildWorld(Climate::Rainy).url("base/", Hour::ElevenPm), "base/wild-world-rainy/11pm.audio");
}

#[test]
fn rain_names() {
    assert_eq!(Rain::from_str("no-thunder"), Ok(Rain::NoThunder));
    assert_eq!(Rain::from_str("normal"), Ok(Rain::Normal));
    assert_eq!(Rain::from_str("game"), Ok(Rain::Game));
    for text in ["none", "rain", "no-thunder-rain", "Normal", ""] {
        assert_eq!(Rain::from_str(text), Err(()));
    }
}

#[test]
fn rain_urls_have_no_hour() {
    assert_eq!(Rain::NoThunder.url(ORIGIN), format!("{}rain/no-thunder-rain.audio", ORIGIN));
    assert_eq!(Rain::Normal.url(ORIGIN), format!("{}rain/rain.audio", ORIGIN));
    assert_eq!(Rain::Game.url(ORIGIN), format!("{}rain/game-rain.audio", ORIGIN));
    assert_eq!(Rain::Game.to_string(), "game-rain");
}
