use libquark::category::AppCategory;

#[test]
fn classify_exact_simple() {
    assert_eq!(AppCategory::from_str("business"), Ok(AppCategory::Business));
    assert_eq!(AppCategory::from_str("game"), Ok(AppCategory::Game));
    assert_eq!(AppCategory::from_str("games"), Ok(AppCategory::Game));
    assert_eq!(AppCategory::from_str("rpg"), Ok(AppCategory::RolePlayingGame));
    assert_eq!(AppCategory::from_str("utilities"), Ok(AppCategory::Utility));
}

#[test]
fn classify_is_case_insensitive() {
    assert_eq!(AppCategory::from_str("Business"), Ok(AppCategory::Business));
    assert_eq!(AppCategory::from_str("RPG"), Ok(AppCategory::RolePlayingGame));
    assert_eq!(AppCategory::from_str("WEATHER"), Ok(AppCategory::Weather));
}

#[test]
fn classify_strips_spaces_and_hyphens() {
    assert_eq!(
        AppCategory::from_str("Role-Playing Game"),
        Ok(AppCategory::RolePlayingGame)
    );
    assert_eq!(
        AppCategory::from_str("Graphics and Design"),
        Ok(AppCategory::GraphicsAndDesign)
    );
    assert_eq!(
        AppCategory::from_str("Healthcare and Fitness"),
        Ok(AppCategory::HealthcareAndFitness)
    );
}

#[test]
fn classify_strips_platform_prefix() {
    assert_eq!(
        AppCategory::from_str("public.app-category.developer-tools"),
        Ok(AppCategory::DeveloperTool)
    );
    assert_eq!(
        AppCategory::from_str("Public.App-Category.Board-Games"),
        Ok(AppCategory::BoardGame)
    );
}

#[test]
fn classify_every_canonical_name() {
    for c in all_categories() {
        assert_eq!(AppCategory::from_str(c.canonical()), Ok(c), "{:?}", c);
    }
}

#[test]
fn classify_close_typo_gets_suggestion() {
    assert_eq!(AppCategory::from_str("gaame"), Err(Some("Game")));
    assert_eq!(AppCategory::from_str("busines"), Err(Some("Business")));
    assert_eq!(AppCategory::from_str("weathers"), Err(Some("Weather")));
}

#[test]
fn classify_prefers_the_most_similar_token() {
    // Both "developertool" (one edit away) and "developertools" (two
    // edits away) come close enough; the closer one wins.
    assert_eq!(
        AppCategory::from_str("developertoo"),
        Err(Some("Developer Tool"))
    );
}

#[test]
fn classify_gibberish_gets_no_suggestion() {
    assert_eq!(AppCategory::from_str("qqqqqqqqqq"), Err(None));
    assert_eq!(AppCategory::from_str("zzzzzzzzzzzzzzzz"), Err(None));
}

#[test]
fn classify_empty_input() {
    // The empty string is no token, and it clears no threshold.
    assert_eq!(AppCategory::from_str(""), Err(None));
}

#[test]
fn canonical_names_exact_values() {
    assert_eq!(AppCategory::Business.canonical(), "Business");
    assert_eq!(AppCategory::DeveloperTool.canonical(), "Developer Tool");
    assert_eq!(AppCategory::RolePlayingGame.canonical(), "Role-Playing Game");
    assert_eq!(AppCategory::GraphicsAndDesign.canonical(), "Graphics and Design");
}

#[test]
fn gnome_categories_exact_values() {
    assert_eq!(AppCategory::Business.gnome_desktop_categories(), "Office;");
    assert_eq!(
        AppCategory::Music.gnome_desktop_categories(),
        "AudioVideo;Audio;Music;"
    );
    assert_eq!(
        AppCategory::PuzzleGame.gnome_desktop_categories(),
        "Game;LogicGame;"
    );
}

#[test]
fn osx_category_types_exact_values() {
    assert_eq!(
        AppCategory::Business.osx_application_category_type(),
        "public.app-category.business"
    );
    assert_eq!(
        AppCategory::DeveloperTool.osx_application_category_type(),
        "public.app-category.developer-tools"
    );
    assert_eq!(
        AppCategory::RolePlayingGame.osx_application_category_type(),
        "public.app-category.role-playing-games"
    );
}

#[test]
fn category_mappings_are_total() {
    for c in all_categories() {
        assert!(!c.canonical().is_empty(), "{:?}", c);
        assert!(!c.gnome_desktop_categories().is_empty(), "{:?}", c);
        assert!(!c.osx_application_category_type().is_empty(), "{:?}", c);
    }
}

fn all_categories() -> Vec<AppCategory> {
    vec![
        AppCategory::Business,
        AppCategory::DeveloperTool,
        AppCategory::Education,
        AppCategory::Entertainment,
        AppCategory::Finance,
        AppCategory::Game,
        AppCategory::ActionGame,
        AppCategory::AdventureGame,
        AppCategory::ArcadeGame,
        AppCategory::BoardGame,
        AppCategory::CardGame,
        AppCategory::CasinoGame,
        AppCategory::DiceGame,
        AppCategory::EducationalGame,
        AppCategory::FamilyGame,
        AppCategory::KidsGame,
        AppCategory::MusicGame,
        AppCategory::PuzzleGame,
        AppCategory::RacingGame,
        AppCategory::RolePlayingGame,
        AppCategory::SimulationGame,
        AppCategory::SportsGame,
        AppCategory::StrategyGame,
        AppCategory::TriviaGame,
        AppCategory::WordGame,
        AppCategory::GraphicsAndDesign,
        AppCategory::HealthcareAndFitness,
        AppCategory::Lifestyle,
        AppCategory::Medical,
        AppCategory::Music,
        AppCategory::News,
        AppCategory::Photography,
        AppCategory::Productivity,
        AppCategory::Reference,
        AppCategory::SocialNetworking,
        AppCategory::Sports,
        AppCategory::Travel,
        AppCategory::Utility,
        AppCategory::Video,
        AppCategory::Weather,
    ]
}
