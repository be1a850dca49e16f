//! The closed set of application categories, with its three total string
//! mappings and the typo-tolerant classifier over a static token table.

use vstd::prelude::*;
use crate::strutil::{chars_of, string_from_chars, str_eq_chars, starts_with_str};
use vstd::string::StrSliceExecFns;

verus! {

/// An application category: a closed, enumerated vocabulary.  Every
/// variant has exactly one canonical display string, one GNOME desktop
/// category string and one macOS application category string.
#[derive(Clone, Copy, Debug, Eq, PartialEq, Structural)]
pub enum AppCategory {
    Business,
    DeveloperTool,
    Education,
    Entertainment,
    Finance,
    Game,
    ActionGame,
    AdventureGame,
    ArcadeGame,
    BoardGame,
    CardGame,
    CasinoGame,
    DiceGame,
    EducationalGame,
    FamilyGame,
    KidsGame,
    MusicGame,
    PuzzleGame,
    RacingGame,
    RolePlayingGame,
    SimulationGame,
    SportsGame,
    StrategyGame,
    TriviaGame,
    WordGame,
    GraphicsAndDesign,
    HealthcareAndFitness,
    Lifestyle,
    Medical,
    Music,
    News,
    Photography,
    Productivity,
    Reference,
    SocialNetworking,
    Sports,
    Travel,
    Utility,
    Video,
    Weather,
}

/// The canonical display string of a category, as a character sequence.
pub open spec fn spec_canonical(c: AppCategory) -> Seq<char> {
    match c {
        AppCategory::Business => "Business"@,
        AppCategory::DeveloperTool => "Developer Tool"@,
        AppCategory::Education => "Education"@,
        AppCategory::Entertainment => "Entertainment"@,
        AppCategory::Finance => "Finance"@,
        AppCategory::Game => "Game"@,
        AppCategory::ActionGame => "Action Game"@,
        AppCategory::AdventureGame => "Adventure Game"@,
        AppCategory::ArcadeGame => "Arcade Game"@,
        AppCategory::BoardGame => "Board Game"@,
        AppCategory::CardGame => "Card Game"@,
        AppCategory::CasinoGame => "Casino Game"@,
        AppCategory::DiceGame => "Dice Game"@,
        AppCategory::EducationalGame => "Educational Game"@,
        AppCategory::FamilyGame => "Family Game"@,
        AppCategory::KidsGame => "Kids Game"@,
        AppCategory::MusicGame => "Music Game"@,
        AppCategory::PuzzleGame => "Puzzle Game"@,
        AppCategory::RacingGame => "Racing Game"@,
        AppCategory::RolePlayingGame => "Role-Playing Game"@,
        AppCategory::SimulationGame => "Simulation Game"@,
        AppCategory::SportsGame => "Sports Game"@,
        AppCategory::StrategyGame => "Strategy Game"@,
        AppCategory::TriviaGame => "Trivia Game"@,
        AppCategory::WordGame => "Word Game"@,
        AppCategory::GraphicsAndDesign => "Graphics and Design"@,
        AppCategory::HealthcareAndFitness => "Healthcare and Fitness"@,
        AppCategory::Lifestyle => "Lifestyle"@,
        AppCategory::Medical => "Medical"@,
        AppCategory::Music => "Music"@,
        AppCategory::News => "News"@,
        AppCategory::Photography => "Photography"@,
        AppCategory::Productivity => "Productivity"@,
        AppCategory::Reference => "Reference"@,
        AppCategory::SocialNetworking => "Social Networking"@,
        AppCategory::Sports => "Sports"@,
        AppCategory::Travel => "Travel"@,
        AppCategory::Utility => "Utility"@,
        AppCategory::Video => "Video"@,
        AppCategory::Weather => "Weather"@,
    }
}

/// The GNOME desktop category string of a category.
pub open spec fn spec_gnome_desktop_categories(c: AppCategory) -> Seq<char> {
    match c {
        AppCategory::Business => "Office;"@,
        AppCategory::DeveloperTool => "Development;"@,
        AppCategory::Education => "Education;"@,
        AppCategory::Entertainment => "Network;"@,
        AppCategory::Finance => "Office;Finance;"@,
        AppCategory::Game => "Game;"@,
        AppCategory::ActionGame => "Game;ActionGame;"@,
        AppCategory::AdventureGame => "Game;AdventureGame;"@,
        AppCategory::ArcadeGame => "Game;ArcadeGame;"@,
        AppCategory::BoardGame => "Game;BoardGame;"@,
        AppCategory::CardGame => "Game;CardGame;"@,
        AppCategory::CasinoGame => "Game;"@,
        AppCategory::DiceGame => "Game;"@,
        AppCategory::EducationalGame => "Game;Education;"@,
        AppCategory::FamilyGame => "Game;"@,
        AppCategory::KidsGame => "Game;KidsGame;"@,
        AppCategory::MusicGame => "Game;"@,
        AppCategory::PuzzleGame => "Game;LogicGame;"@,
        AppCategory::RacingGame => "Game;"@,
        AppCategory::RolePlayingGame => "Game;RolePlaying;"@,
        AppCategory::SimulationGame => "Game;Simulation;"@,
        AppCategory::SportsGame => "Game;SportsGame;"@,
        AppCategory::StrategyGame => "Game;StrategyGame;"@,
        AppCategory::TriviaGame => "Game;"@,
        AppCategory::WordGame => "Game;"@,
        AppCategory::GraphicsAndDesign => "Graphics;"@,
        AppCategory::HealthcareAndFitness => "Science;"@,
        AppCategory::Lifestyle => "Education;"@,
        AppCategory::Medical => "Science;MedicalSoftware;"@,
        AppCategory::Music => "AudioVideo;Audio;Music;"@,
        AppCategory::News => "Network;News;"@,
        AppCategory::Photography => "Graphics;Photography;"@,
        AppCategory::Productivity => "Office;"@,
        AppCategory::Reference => "Education;"@,
        AppCategory::SocialNetworking => "Network;"@,
        AppCategory::Sports => "Education;Sports;"@,
        AppCategory::Travel => "Education;"@,
        AppCategory::Utility => "Utility;"@,
        AppCategory::Video => "AudioVideo;Video;"@,
        AppCategory::Weather => "Science;"@,
    }
}

/// The macOS application category string of a category.
pub open spec fn spec_osx_application_category_type(c: AppCategory) -> Seq<char> {
    match c {
        AppCategory::Business => "public.app-category.business"@,
        AppCategory::DeveloperTool => "public.app-category.developer-tools"@,
        AppCategory::Education => "public.app-category.education"@,
        AppCategory::Entertainment => "public.app-category.entertainment"@,
        AppCategory::Finance => "public.app-category.finance"@,
        AppCategory::Game => "public.app-category.games"@,
        AppCategory::ActionGame => "public.app-category.action-games"@,
        AppCategory::AdventureGame => "public.app-category.adventure-games"@,
        AppCategory::ArcadeGame => "public.app-category.arcade-games"@,
        AppCategory::BoardGame => "public.app-category.board-games"@,
        AppCategory::CardGame => "public.app-category.card-games"@,
        AppCategory::CasinoGame => "public.app-category.casino-games"@,
        AppCategory::DiceGame => "public.app-category.dice-games"@,
        AppCategory::EducationalGame => "public.app-category.educational-games"@,
        AppCategory::FamilyGame => "public.app-category.family-games"@,
        AppCategory::KidsGame => "public.app-category.kids-games"@,
        AppCategory::MusicGame => "public.app-category.music-games"@,
        AppCategory::PuzzleGame => "public.app-category.puzzle-games"@,
        AppCategory::RacingGame => "public.app-category.racing-games"@,
        AppCategory::RolePlayingGame => "public.app-category.role-playing-games"@,
        AppCategory::SimulationGame => "public.app-category.simulation-games"@,
        AppCategory::SportsGame => "public.app-category.sports-games"@,
        AppCategory::StrategyGame => "public.app-category.strategy-games"@,
        AppCategory::TriviaGame => "public.app-category.trivia-games"@,
        AppCategory::WordGame => "public.app-category.word-games"@,
        AppCategory::GraphicsAndDesign => "public.app-category.graphics-design"@,
        AppCategory::HealthcareAndFitness => "public.app-category.healthcare-fitness"@,
        AppCategory::Lifestyle => "public.app-category.lifestyle"@,
        AppCategory::Medical => "public.app-category.medical"@,
        AppCategory::Music => "public.app-category.music"@,
        AppCategory::News => "public.app-category.news"@,
        AppCategory::Photography => "public.app-category.photography"@,
        AppCategory::Productivity => "public.app-category.productivity"@,
        AppCategory::Reference => "public.app-category.reference"@,
        AppCategory::SocialNetworking => "public.app-category.social-networking"@,
        AppCategory::Sports => "public.app-category.sports"@,
        AppCategory::Travel => "public.app-category.travel"@,
        AppCategory::Utility => "public.app-category.utilities"@,
        AppCategory::Video => "public.app-category.video"@,
        AppCategory::Weather => "public.app-category.weather"@,
    }
}

/// The canonical display string is never empty.
pub proof fn lemma_canonical_nonempty(c: AppCategory)
    ensures
        spec_canonical(c).len() > 0,
{
    match c {
        AppCategory::Business => reveal_strlit("Business"),
        AppCategory::DeveloperTool => reveal_strlit("Developer Tool"),
        AppCategory::Education => reveal_strlit("Education"),
        AppCategory::Entertainment => reveal_strlit("Entertainment"),
        AppCategory::Finance => reveal_strlit("Finance"),
        AppCategory::Game => reveal_strlit("Game"),
        AppCategory::ActionGame => reveal_strlit("Action Game"),
        AppCategory::AdventureGame => reveal_strlit("Adventure Game"),
        AppCategory::ArcadeGame => reveal_strlit("Arcade Game"),
        AppCategory::BoardGame => reveal_strlit("Board Game"),
        AppCategory::CardGame => reveal_strlit("Card Game"),
        AppCategory::CasinoGame => reveal_strlit("Casino Game"),
        AppCategory::DiceGame => reveal_strlit("Dice Game"),
        AppCategory::EducationalGame => reveal_strlit("Educational Game"),
        AppCategory::FamilyGame => reveal_strlit("Family Game"),
        AppCategory::KidsGame => reveal_strlit("Kids Game"),
        AppCategory::MusicGame => reveal_strlit("Music Game"),
        AppCategory::PuzzleGame => reveal_strlit("Puzzle Game"),
        AppCategory::RacingGame => reveal_strlit("Racing Game"),
        AppCategory::RolePlayingGame => reveal_strlit("Role-Playing Game"),
        AppCategory::SimulationGame => reveal_strlit("Simulation Game"),
        AppCategory::SportsGame => reveal_strlit("Sports Game"),
        AppCategory::StrategyGame => reveal_strlit("Strategy Game"),
        AppCategory::TriviaGame => reveal_strlit("Trivia Game"),
        AppCategory::WordGame => reveal_strlit("Word Game"),
        AppCategory::GraphicsAndDesign => reveal_strlit("Graphics and Design"),
        AppCategory::HealthcareAndFitness => reveal_strlit("Healthcare and Fitness"),
        AppCategory::Lifestyle => reveal_strlit("Lifestyle"),
        AppCategory::Medical => reveal_strlit("Medical"),
        AppCategory::Music => reveal_strlit("Music"),
        AppCategory::News => reveal_strlit("News"),
        AppCategory::Photography => reveal_strlit("Photography"),
        AppCategory::Productivity => reveal_strlit("Productivity"),
        AppCategory::Reference => reveal_strlit("Reference"),
        AppCategory::SocialNetworking => reveal_strlit("Social Networking"),
        AppCategory::Sports => reveal_strlit("Sports"),
        AppCategory::Travel => reveal_strlit("Travel"),
        AppCategory::Utility => reveal_strlit("Utility"),
        AppCategory::Video => reveal_strlit("Video"),
        AppCategory::Weather => reveal_strlit("Weather"),
    }
}

/// The GNOME desktop category string is never empty.
pub proof fn lemma_gnome_nonempty(c: AppCategory)
    ensures
        spec_gnome_desktop_categories(c).len() > 0,
{
    match c {
        AppCategory::Business => reveal_strlit("Office;"),
        AppCategory::DeveloperTool => reveal_strlit("Development;"),
        AppCategory::Education => reveal_strlit("Education;"),
        AppCategory::Entertainment => reveal_strlit("Network;"),
        AppCategory::Finance => reveal_strlit("Office;Finance;"),
        AppCategory::Game => reveal_strlit("Game;"),
        AppCategory::ActionGame => reveal_strlit("Game;ActionGame;"),
        AppCategory::AdventureGame => reveal_strlit("Game;AdventureGame;"),
        AppCategory::ArcadeGame => reveal_strlit("Game;ArcadeGame;"),
        AppCategory::BoardGame => reveal_strlit("Game;BoardGame;"),
        AppCategory::CardGame => reveal_strlit("Game;CardGame;"),
        AppCategory::CasinoGame => reveal_strlit("Game;"),
        AppCategory::DiceGame => reveal_strlit("Game;"),
        AppCategory::EducationalGame => reveal_strlit("Game;Education;"),
        AppCategory::FamilyGame => reveal_strlit("Game;"),
        AppCategory::KidsGame => reveal_strlit("Game;KidsGame;"),
        AppCategory::MusicGame => reveal_strlit("Game;"),
        AppCategory::PuzzleGame => reveal_strlit("Game;LogicGame;"),
        AppCategory::RacingGame => reveal_strlit("Game;"),
        AppCategory::RolePlayingGame => reveal_strlit("Game;RolePlaying;"),
        AppCategory::SimulationGame => reveal_strlit("Game;Simulation;"),
        AppCategory::SportsGame => reveal_strlit("Game;SportsGame;"),
        AppCategory::StrategyGame => reveal_strlit("Game;StrategyGame;"),
        AppCategory::TriviaGame => reveal_strlit("Game;"),
        AppCategory::WordGame => reveal_strlit("Game;"),
        AppCategory::GraphicsAndDesign => reveal_strlit("Graphics;"),
        AppCategory::HealthcareAndFitness => reveal_strlit("Science;"),
        AppCategory::Lifestyle => reveal_strlit("Education;"),
        AppCategory::Medical => reveal_strlit("Science;MedicalSoftware;"),
        AppCategory::Music => reveal_strlit("AudioVideo;Audio;Music;"),
        AppCategory::News => reveal_strlit("Network;News;"),
        AppCategory::Photography => reveal_strlit("Graphics;Photography;"),
        AppCategory::Productivity => reveal_strlit("Office;"),
        AppCategory::Reference => reveal_strlit("Education;"),
        AppCategory::SocialNetworking => reveal_strlit("Network;"),
        AppCategory::Sports => reveal_strlit("Education;Sports;"),
        AppCategory::Travel => reveal_strlit("Education;"),
        AppCategory::Utility => reveal_strlit("Utility;"),
        AppCategory::Video => reveal_strlit("AudioVideo;Video;"),
        AppCategory::Weather => reveal_strlit("Science;"),
    }
}

/// The macOS application category string is never empty.
pub proof fn lemma_osx_nonempty(c: AppCategory)
    ensures
        spec_osx_application_category_type(c).len() > 0,
{
    match c {
        AppCategory::Business => reveal_strlit("public.app-category.business"),
        AppCategory::DeveloperTool => reveal_strlit("public.app-category.developer-tools"),
        AppCategory::Education => reveal_strlit("public.app-category.education"),
        AppCategory::Entertainment => reveal_strlit("public.app-category.entertainment"),
        AppCategory::Finance => reveal_strlit("public.app-category.finance"),
        AppCategory::Game => reveal_strlit("public.app-category.games"),
        AppCategory::ActionGame => reveal_strlit("public.app-category.action-games"),
        AppCategory::AdventureGame => reveal_strlit("public.app-category.adventure-games"),
        AppCategory::ArcadeGame => reveal_strlit("public.app-category.arcade-games"),
        AppCategory::BoardGame => reveal_strlit("public.app-category.board-games"),
        AppCategory::CardGame => reveal_strlit("public.app-category.card-games"),
        AppCategory::CasinoGame => reveal_strlit("public.app-category.casino-games"),
        AppCategory::DiceGame => reveal_strlit("public.app-category.dice-games"),
        AppCategory::EducationalGame => reveal_strlit("public.app-category.educational-games"),
        AppCategory::FamilyGame => reveal_strlit("public.app-category.family-games"),
        AppCategory::KidsGame => reveal_strlit("public.app-category.kids-games"),
        AppCategory::MusicGame => reveal_strlit("public.app-category.music-games"),
        AppCategory::PuzzleGame => reveal_strlit("public.app-category.puzzle-games"),
        AppCategory::RacingGame => reveal_strlit("public.app-category.racing-games"),
        AppCategory::RolePlayingGame => reveal_strlit("public.app-category.role-playing-games"),
        AppCategory::SimulationGame => reveal_strlit("public.app-category.simulation-games"),
        AppCategory::SportsGame => reveal_strlit("public.app-category.sports-games"),
        AppCategory::StrategyGame => reveal_strlit("public.app-category.strategy-games"),
        AppCategory::TriviaGame => reveal_strlit("public.app-category.trivia-games"),
        AppCategory::WordGame => reveal_strlit("public.app-category.word-games"),
        AppCategory::GraphicsAndDesign => reveal_strlit("public.app-category.graphics-design"),
        AppCategory::HealthcareAndFitness => reveal_strlit("public.app-category.healthcare-fitness"),
        AppCategory::Lifestyle => reveal_strlit("public.app-category.lifestyle"),
        AppCategory::Medical => reveal_strlit("public.app-category.medical"),
        AppCategory::Music => reveal_strlit("public.app-category.music"),
        AppCategory::News => reveal_strlit("public.app-category.news"),
        AppCategory::Photography => reveal_strlit("public.app-category.photography"),
        AppCategory::Productivity => reveal_strlit("public.app-category.productivity"),
        AppCategory::Reference => reveal_strlit("public.app-category.reference"),
        AppCategory::SocialNetworking => reveal_strlit("public.app-category.social-networking"),
        AppCategory::Sports => reveal_strlit("public.app-category.sports"),
        AppCategory::Travel => reveal_strlit("public.app-category.travel"),
        AppCategory::Utility => reveal_strlit("public.app-category.utilities"),
        AppCategory::Video => reveal_strlit("public.app-category.video"),
        AppCategory::Weather => reveal_strlit("public.app-category.weather"),
    }
}

/// Totality of the three mapping tables: every category carries a
/// non-empty canonical name, a non-empty GNOME desktop category string
/// and a non-empty macOS application category string.
pub proof fn lemma_category_mappings_total(c: AppCategory)
    ensures
        spec_canonical(c).len() > 0,
        spec_gnome_desktop_categories(c).len() > 0,
        spec_osx_application_category_type(c).len() > 0,
{
    lemma_canonical_nonempty(c);
    lemma_gnome_nonempty(c);
    lemma_osx_nonempty(c);
}

/// The static token table: each entry pairs a canonicalized token with
/// the category it names.  Tokens include plural and synonym forms, and
/// the scan returns the first entry whose token matches.
pub open spec fn spec_table() -> Seq<(Seq<char>, AppCategory)> {
    seq![
        ("actiongame"@, AppCategory::ActionGame),
        ("actiongames"@, AppCategory::ActionGame),
        ("adventuregame"@, AppCategory::AdventureGame),
        ("adventuregames"@, AppCategory::AdventureGame),
        ("arcadegame"@, AppCategory::ArcadeGame),
        ("arcadegames"@, AppCategory::ArcadeGame),
        ("boardgame"@, AppCategory::BoardGame),
        ("boardgames"@, AppCategory::BoardGame),
        ("business"@, AppCategory::Business),
        ("cardgame"@, AppCategory::CardGame),
        ("cardgames"@, AppCategory::CardGame),
        ("casinogame"@, AppCategory::CasinoGame),
        ("casinogames"@, AppCategory::CasinoGame),
        ("developer"@, AppCategory::DeveloperTool),
        ("developertool"@, AppCategory::DeveloperTool),
        ("developertools"@, AppCategory::DeveloperTool),
        ("development"@, AppCategory::DeveloperTool),
        ("dicegame"@, AppCategory::DiceGame),
        ("dicegames"@, AppCategory::DiceGame),
        ("education"@, AppCategory::Education),
        ("educationalgame"@, AppCategory::EducationalGame),
        ("educationalgames"@, AppCategory::EducationalGame),
        ("entertainment"@, AppCategory::Entertainment),
        ("familygame"@, AppCategory::FamilyGame),
        ("familygames"@, AppCategory::FamilyGame),
        ("finance"@, AppCategory::Finance),
        ("fitness"@, AppCategory::HealthcareAndFitness),
        ("game"@, AppCategory::Game),
        ("games"@, AppCategory::Game),
        ("graphicdesign"@, AppCategory::GraphicsAndDesign),
        ("graphicsanddesign"@, AppCategory::GraphicsAndDesign),
        ("graphicsdesign"@, AppCategory::GraphicsAndDesign),
        ("healthcareandfitness"@, AppCategory::HealthcareAndFitness),
        ("healthcarefitness"@, AppCategory::HealthcareAndFitness),
        ("kidsgame"@, AppCategory::KidsGame),
        ("kidsgames"@, AppCategory::KidsGame),
        ("lifestyle"@, AppCategory::Lifestyle),
        ("logicgame"@, AppCategory::PuzzleGame),
        ("medical"@, AppCategory::Medical),
        ("medicalsoftware"@, AppCategory::Medical),
        ("music"@, AppCategory::Music),
        ("musicgame"@, AppCategory::MusicGame),
        ("musicgames"@, AppCategory::MusicGame),
        ("news"@, AppCategory::News),
        ("photography"@, AppCategory::Photography),
        ("productivity"@, AppCategory::Productivity),
        ("puzzlegame"@, AppCategory::PuzzleGame),
        ("puzzlegames"@, AppCategory::PuzzleGame),
        ("racinggame"@, AppCategory::RacingGame),
        ("racinggames"@, AppCategory::RacingGame),
        ("reference"@, AppCategory::Reference),
        ("roleplaying"@, AppCategory::RolePlayingGame),
        ("roleplayinggame"@, AppCategory::RolePlayingGame),
        ("roleplayinggames"@, AppCategory::RolePlayingGame),
        ("rpg"@, AppCategory::RolePlayingGame),
        ("simulationgame"@, AppCategory::SimulationGame),
        ("simulationgames"@, AppCategory::SimulationGame),
        ("socialnetwork"@, AppCategory::SocialNetworking),
        ("socialnetworking"@, AppCategory::SocialNetworking),
        ("sports"@, AppCategory::Sports),
        ("sportsgame"@, AppCategory::SportsGame),
        ("sportsgames"@, AppCategory::SportsGame),
        ("strategygame"@, AppCategory::StrategyGame),
        ("strategygames"@, AppCategory::StrategyGame),
        ("travel"@, AppCategory::Travel),
        ("triviagame"@, AppCategory::TriviaGame),
        ("triviagames"@, AppCategory::TriviaGame),
        ("utilities"@, AppCategory::Utility),
        ("utility"@, AppCategory::Utility),
        ("video"@, AppCategory::Video),
        ("weather"@, AppCategory::Weather),
        ("wordgame"@, AppCategory::WordGame),
        ("wordgames"@, AppCategory::WordGame),
    ]
}

/// One entry of the executable token table.
#[verifier::rlimit(100)]
fn table_entry(i: usize) -> (r: (&'static str, AppCategory))
    requires
        i < 73,
    ensures
        r.0@ == spec_table()[i as int].0,
        r.1 == spec_table()[i as int].1,
{
    match i {
        0 => ("actiongame", AppCategory::ActionGame),
        1 => ("actiongames", AppCategory::ActionGame),
        2 => ("adventuregame", AppCategory::AdventureGame),
        3 => ("adventuregames", AppCategory::AdventureGame),
        4 => ("arcadegame", AppCategory::ArcadeGame),
        5 => ("arcadegames", AppCategory::ArcadeGame),
        6 => ("boardgame", AppCategory::BoardGame),
        7 => ("boardgames", AppCategory::BoardGame),
        8 => ("business", AppCategory::Business),
        9 => ("cardgame", AppCategory::CardGame),
        10 => ("cardgames", AppCategory::CardGame),
        11 => ("casinogame", AppCategory::CasinoGame),
        12 => ("casinogames", AppCategory::CasinoGame),
        13 => ("developer", AppCategory::DeveloperTool),
        14 => ("developertool", AppCategory::DeveloperTool),
        15 => ("developertools", AppCategory::DeveloperTool),
        16 => ("development", AppCategory::DeveloperTool),
        17 => ("dicegame", AppCategory::DiceGame),
        18 => ("dicegames", AppCategory::DiceGame),
        19 => ("education", AppCategory::Education),
        20 => ("educationalgame", AppCategory::EducationalGame),
        21 => ("educationalgames", AppCategory::EducationalGame),
        22 => ("entertainment", AppCategory::Entertainment),
        23 => ("familygame", AppCategory::FamilyGame),
        24 => ("familygames", AppCategory::FamilyGame),
        25 => ("finance", AppCategory::Finance),
        26 => ("fitness", AppCategory::HealthcareAndFitness),
        27 => ("game", AppCategory::Game),
        28 => ("games", AppCategory::Game),
        29 => ("graphicdesign", AppCategory::GraphicsAndDesign),
        30 => ("graphicsanddesign", AppCategory::GraphicsAndDesign),
        31 => ("graphicsdesign", AppCategory::GraphicsAndDesign),
        32 => ("healthcareandfitness", AppCategory::HealthcareAndFitness),
        33 => ("healthcarefitness", AppCategory::HealthcareAndFitness),
        34 => ("kidsgame", AppCategory::KidsGame),
        35 => ("kidsgames", AppCategory::KidsGame),
        36 => ("lifestyle", AppCategory::Lifestyle),
        37 => ("logicgame", AppCategory::PuzzleGame),
        38 => ("medical", AppCategory::Medical),
        39 => ("medicalsoftware", AppCategory::Medical),
        40 => ("music", AppCategory::Music),
        41 => ("musicgame", AppCategory::MusicGame),
        42 => ("musicgames", AppCategory::MusicGame),
        43 => ("news", AppCategory::News),
        44 => ("photography", AppCategory::Photography),
        45 => ("productivity", AppCategory::Productivity),
        46 => ("puzzlegame", AppCategory::PuzzleGame),
        47 => ("puzzlegames", AppCategory::PuzzleGame),
        48 => ("racinggame", AppCategory::RacingGame),
        49 => ("racinggames", AppCategory::RacingGame),
        50 => ("reference", AppCategory::Reference),
        51 => ("roleplaying", AppCategory::RolePlayingGame),
        52 => ("roleplayinggame", AppCategory::RolePlayingGame),
        53 => ("roleplayinggames", AppCategory::RolePlayingGame),
        54 => ("rpg", AppCategory::RolePlayingGame),
        55 => ("simulationgame", AppCategory::SimulationGame),
        56 => ("simulationgames", AppCategory::SimulationGame),
        57 => ("socialnetwork", AppCategory::SocialNetworking),
        58 => ("socialnetworking", AppCategory::SocialNetworking),
        59 => ("sports", AppCategory::Sports),
        60 => ("sportsgame", AppCategory::SportsGame),
        61 => ("sportsgames", AppCategory::SportsGame),
        62 => ("strategygame", AppCategory::StrategyGame),
        63 => ("strategygames", AppCategory::StrategyGame),
        64 => ("travel", AppCategory::Travel),
        65 => ("triviagame", AppCategory::TriviaGame),
        66 => ("triviagames", AppCategory::TriviaGame),
        67 => ("utilities", AppCategory::Utility),
        68 => ("utility", AppCategory::Utility),
        69 => ("video", AppCategory::Video),
        70 => ("weather", AppCategory::Weather),
        71 => ("wordgame", AppCategory::WordGame),
        _ => ("wordgames", AppCategory::WordGame),
    }
}

/// ASCII lowercasing of one character; other characters pass through.
pub open spec fn spec_lower_char(c: char) -> char {
    match c {
        'A' => 'a',
        'B' => 'b',
        'C' => 'c',
        'D' => 'd',
        'E' => 'e',
        'F' => 'f',
        'G' => 'g',
        'H' => 'h',
        'I' => 'i',
        'J' => 'j',
        'K' => 'k',
        'L' => 'l',
        'M' => 'm',
        'N' => 'n',
        'O' => 'o',
        'P' => 'p',
        'Q' => 'q',
        'R' => 'r',
        'S' => 's',
        'T' => 't',
        'U' => 'u',
        'V' => 'v',
        'W' => 'w',
        'X' => 'x',
        'Y' => 'y',
        'Z' => 'z',
        _ => c,
    }
}

/// Executable ASCII lowercasing of one character.
pub fn lower_char(c: char) -> (r: char)
    ensures
        r == spec_lower_char(c),
{
    match c {
        'A' => 'a',
        'B' => 'b',
        'C' => 'c',
        'D' => 'd',
        'E' => 'e',
        'F' => 'f',
        'G' => 'g',
        'H' => 'h',
        'I' => 'i',
        'J' => 'j',
        'K' => 'k',
        'L' => 'l',
        'M' => 'm',
        'N' => 'n',
        'O' => 'o',
        'P' => 'p',
        'Q' => 'q',
        'R' => 'r',
        'S' => 's',
        'T' => 't',
        'U' => 'u',
        'V' => 'v',
        'W' => 'w',
        'X' => 'x',
        'Y' => 'y',
        'Z' => 'z',
        _ => c,
    }
}

impl AppCategory {
    /// The canonical display string of this category: the spelling
    /// recommended to a user who misspelled the category name.
    pub fn canonical(self) -> (r: &'static str)
        ensures
            r@ == spec_canonical(self),
    {
        match self {
            AppCategory::Business => "Business",
            AppCategory::DeveloperTool => "Developer Tool",
            AppCategory::Education => "Education",
            AppCategory::Entertainment => "Entertainment",
            AppCategory::Finance => "Finance",
            AppCategory::Game => "Game",
            AppCategory::ActionGame => "Action Game",
            AppCategory::AdventureGame => "Adventure Game",
            AppCategory::ArcadeGame => "Arcade Game",
            AppCategory::BoardGame => "Board Game",
            AppCategory::CardGame => "Card Game",
            AppCategory::CasinoGame => "Casino Game",
            AppCategory::DiceGame => "Dice Game",
            AppCategory::EducationalGame => "Educational Game",
            AppCategory::FamilyGame => "Family Game",
            AppCategory::KidsGame => "Kids Game",
            AppCategory::MusicGame => "Music Game",
            AppCategory::PuzzleGame => "Puzzle Game",
            AppCategory::RacingGame => "Racing Game",
            AppCategory::RolePlayingGame => "Role-Playing Game",
            AppCategory::SimulationGame => "Simulation Game",
            AppCategory::SportsGame => "Sports Game",
            AppCategory::StrategyGame => "Strategy Game",
            AppCategory::TriviaGame => "Trivia Game",
            AppCategory::WordGame => "Word Game",
            AppCategory::GraphicsAndDesign => "Graphics and Design",
            AppCategory::HealthcareAndFitness => "Healthcare and Fitness",
            AppCategory::Lifestyle => "Lifestyle",
            AppCategory::Medical => "Medical",
            AppCategory::Music => "Music",
            AppCategory::News => "News",
            AppCategory::Photography => "Photography",
            AppCategory::Productivity => "Productivity",
            AppCategory::Reference => "Reference",
            AppCategory::SocialNetworking => "Social Networking",
            AppCategory::Sports => "Sports",
            AppCategory::Travel => "Travel",
            AppCategory::Utility => "Utility",
            AppCategory::Video => "Video",
            AppCategory::Weather => "Weather",
        }
    }

    /// The closest set of GNOME desktop registered categories.
    pub fn gnome_desktop_categories(&self) -> (r: &'static str)
        ensures
            r@ == spec_gnome_desktop_categories(*self),
    {
        match *self {
            AppCategory::Business => "Office;",
            AppCategory::DeveloperTool => "Development;",
            AppCategory::Education => "Education;",
            AppCategory::Entertainment => "Network;",
            AppCategory::Finance => "Office;Finance;",
            AppCategory::Game => "Game;",
            AppCategory::ActionGame => "Game;ActionGame;",
            AppCategory::AdventureGame => "Game;AdventureGame;",
            AppCategory::ArcadeGame => "Game;ArcadeGame;",
            AppCategory::BoardGame => "Game;BoardGame;",
            AppCategory::CardGame => "Game;CardGame;",
            AppCategory::CasinoGame => "Game;",
            AppCategory::DiceGame => "Game;",
            AppCategory::EducationalGame => "Game;Education;",
            AppCategory::FamilyGame => "Game;",
            AppCategory::KidsGame => "Game;KidsGame;",
            AppCategory::MusicGame => "Game;",
            AppCategory::PuzzleGame => "Game;LogicGame;",
            AppCategory::RacingGame => "Game;",
            AppCategory::RolePlayingGame => "Game;RolePlaying;",
            AppCategory::SimulationGame => "Game;Simulation;",
            AppCategory::SportsGame => "Game;SportsGame;",
            AppCategory::StrategyGame => "Game;StrategyGame;",
            AppCategory::TriviaGame => "Game;",
            AppCategory::WordGame => "Game;",
            AppCategory::GraphicsAndDesign => "Graphics;",
            AppCategory::HealthcareAndFitness => "Science;",
            AppCategory::Lifestyle => "Education;",
            AppCategory::Medical => "Science;MedicalSoftware;",
            AppCategory::Music => "AudioVideo;Audio;Music;",
            AppCategory::News => "Network;News;",
            AppCategory::Photography => "Graphics;Photography;",
            AppCategory::Productivity => "Office;",
            AppCategory::Reference => "Education;",
            AppCategory::SocialNetworking => "Network;",
            AppCategory::Sports => "Education;Sports;",
            AppCategory::Travel => "Education;",
            AppCategory::Utility => "Utility;",
            AppCategory::Video => "AudioVideo;Video;",
            AppCategory::Weather => "Science;",
        }
    }

    /// The closest macOS application category type value.
    pub fn osx_application_category_type(&self) -> (r: &'static str)
        ensures
            r@ == spec_osx_application_category_type(*self),
    {
        match *self {
            AppCategory::Business => "public.app-category.business",
            AppCategory::DeveloperTool => "public.app-category.developer-tools",
            AppCategory::Education => "public.app-category.education",
            AppCategory::Entertainment => "public.app-category.entertainment",
            AppCategory::Finance => "public.app-category.finance",
            AppCategory::Game => "public.app-category.games",
            AppCategory::ActionGame => "public.app-category.action-games",
            AppCategory::AdventureGame => "public.app-category.adventure-games",
            AppCategory::ArcadeGame => "public.app-category.arcade-games",
            AppCategory::BoardGame => "public.app-category.board-games",
            AppCategory::CardGame => "public.app-category.card-games",
            AppCategory::CasinoGame => "public.app-category.casino-games",
            AppCategory::DiceGame => "public.app-category.dice-games",
            AppCategory::EducationalGame => "public.app-category.educational-games",
            AppCategory::FamilyGame => "public.app-category.family-games",
            AppCategory::KidsGame => "public.app-category.kids-games",
            AppCategory::MusicGame => "public.app-category.music-games",
            AppCategory::PuzzleGame => "public.app-category.puzzle-games",
            AppCategory::RacingGame => "public.app-category.racing-games",
            AppCategory::RolePlayingGame => "public.app-category.role-playing-games",
            AppCategory::SimulationGame => "public.app-category.simulation-games",
            AppCategory::SportsGame => "public.app-category.sports-games",
            AppCategory::StrategyGame => "public.app-category.strategy-games",
            AppCategory::TriviaGame => "public.app-category.trivia-games",
            AppCategory::WordGame => "public.app-category.word-games",
            AppCategory::GraphicsAndDesign => "public.app-category.graphics-design",
            AppCategory::HealthcareAndFitness => "public.app-category.healthcare-fitness",
            AppCategory::Lifestyle => "public.app-category.lifestyle",
            AppCategory::Medical => "public.app-category.medical",
            AppCategory::Music => "public.app-category.music",
            AppCategory::News => "public.app-category.news",
            AppCategory::Photography => "public.app-category.photography",
            AppCategory::Productivity => "public.app-category.productivity",
            AppCategory::Reference => "public.app-category.reference",
            AppCategory::SocialNetworking => "public.app-category.social-networking",
            AppCategory::Sports => "public.app-category.sports",
            AppCategory::Travel => "public.app-category.travel",
            AppCategory::Utility => "public.app-category.utilities",
            AppCategory::Video => "public.app-category.video",
            AppCategory::Weather => "public.app-category.weather",
        }
    }
}


/// The reverse-DNS macOS category prefix that canonicalization strips.
pub open spec fn spec_prefix() -> Seq<char> {
    "public.app-category."@
}

/// A separator character removed by canonicalization.
pub open spec fn spec_is_sep(c: char) -> bool {
    c == ' ' || c == '-'
}

/// ASCII lowercasing of a whole character sequence.
pub open spec fn spec_lower(s: Seq<char>) -> Seq<char> {
    Seq::new(s.len(), |i: int| spec_lower_char(s[i]))
}

/// Strips the macOS category prefix when the sequence begins with it.
pub open spec fn spec_strip_prefix(s: Seq<char>) -> Seq<char> {
    if s.len() >= spec_prefix().len() && s.subrange(0, spec_prefix().len() as int)
        == spec_prefix() {
        s.subrange(spec_prefix().len() as int, s.len() as int)
    } else {
        s
    }
}

/// Removes every space and hyphen from a character sequence.
pub open spec fn spec_strip_seps(s: Seq<char>) -> Seq<char>
    decreases s.len(),
{
    if s.len() == 0 {
        Seq::empty()
    } else {
        spec_strip_seps(s.drop_last()) + (if spec_is_sep(s.last()) {
            Seq::<char>::empty()
        } else {
            seq![s.last()]
        })
    }
}

/// Canonicalization of a user-supplied category string: lowercase,
/// strip the macOS category prefix if present, then remove spaces and
/// hyphens.
pub open spec fn spec_canonicalize(s: Seq<char>) -> Seq<char> {
    spec_strip_seps(spec_strip_prefix(spec_lower(s)))
}

/// The character-level edit distance: the minimum number of insertions,
/// deletions and substitutions that turn `a` into `b`.
pub open spec fn edit_dist(a: Seq<char>, b: Seq<char>) -> nat
    decreases a.len(), b.len(),
{
    if a.len() == 0 {
        b.len()
    } else if b.len() == 0 {
        a.len()
    } else {
        let del = edit_dist(a.drop_last(), b) + 1;
        let ins = edit_dist(a, b.drop_last()) + 1;
        let sub = edit_dist(a.drop_last(), b.drop_last()) + (if a.last() == b.last() {
            0nat
        } else {
            1nat
        });
        min_nat(del, min_nat(ins, sub))
    }
}

/// The smaller of two natural numbers.
pub open spec fn min_nat(x: nat, y: nat) -> nat {
    if x <= y {
        x
    } else {
        y
    }
}

/// The larger of the two sequence lengths.
pub open spec fn spec_max_len(a: Seq<char>, b: Seq<char>) -> nat {
    if a.len() >= b.len() {
        a.len()
    } else {
        b.len()
    }
}

/// Relies on `strsim::levenshtein`: the classic character-level edit
/// distance between the two strings (dynamic program over insertions,
/// deletions and substitutions), a function of its arguments alone.
pub assume_specification [ strsim::levenshtein ](a: &str, b: &str) -> (r: usize)
    ensures
        r == edit_dist(a@, b@),
;

/// Whether a token is close enough to the canonicalized input to be
/// offered as a suggestion: the normalized similarity
/// `1 - dist/max_len` reaches the acceptance threshold of four fifths.
pub open spec fn spec_clears(c: Seq<char>, t: Seq<char>) -> bool {
    5 * edit_dist(c, t) <= spec_max_len(c, t)
}

/// Whether token `tn` is strictly more similar to `c` than token `to`:
/// `1 - dn/ln > 1 - do/lo`, written without division.
pub open spec fn spec_sim_gt(c: Seq<char>, tn: Seq<char>, to: Seq<char>) -> bool {
    edit_dist(c, tn) * spec_max_len(c, to) < edit_dist(c, to) * spec_max_len(c, tn)
}

/// The index of the first table entry, at or after `i`, whose token is
/// exactly the canonicalized input.
pub open spec fn first_exact_from(c: Seq<char>, i: int) -> Option<int>
    decreases spec_table().len() - i,
{
    if i < 0 || i >= spec_table().len() {
        None
    } else if spec_table()[i].0 == c {
        Some(i)
    } else {
        first_exact_from(c, i + 1)
    }
}

/// The index of the best fuzzy candidate among the first `i` table
/// entries: the first entry of the highest similarity that reaches the
/// acceptance threshold, scanning in table order.
pub open spec fn best_upto(c: Seq<char>, i: int) -> Option<int>
    decreases i,
{
    if i <= 0 {
        None
    } else {
        let t = spec_table()[i - 1].0;
        match best_upto(c, i - 1) {
            None => if spec_clears(c, t) {
                Some(i - 1)
            } else {
                None
            },
            Some(j) => if spec_clears(c, t) && spec_sim_gt(c, t, spec_table()[j].0) {
                Some(i - 1)
            } else {
                Some(j)
            },
        }
    }
}

/// When no table entry among the first `i` tokens is exact, the first
/// exact index of the whole table equals the one found from `i` on.
proof fn lemma_first_exact_prefix(c: Seq<char>, i: int)
    requires
        0 <= i <= spec_table().len(),
        forall|j: int| 0 <= j < i ==> spec_table()[j].0 != c,
    ensures
        first_exact_from(c, 0) == first_exact_from(c, i),
    decreases i,
{
    if i > 0 {
        lemma_first_exact_prefix(c, i - 1);
        assert(first_exact_from(c, i - 1) == first_exact_from(c, i));
    }
}

/// A scan from `i` finds an exact entry whenever one exists at or after
/// `i`.
proof fn lemma_first_exact_finds(c: Seq<char>, i: int, j: int)
    requires
        0 <= i <= j < spec_table().len(),
        spec_table()[j].0 == c,
    ensures
        first_exact_from(c, i) matches Some(k) && spec_table()[k].0 == c,
    decreases j - i,
{
    if spec_table()[i].0 != c {
        lemma_first_exact_finds(c, i + 1, j);
    }
}

/// Every string that canonicalizes to a table token classifies to that
/// token's category: the scan of the whole table finds an exact entry
/// whose token is the canonicalized input, and `from_str` then returns
/// that entry's category with no suggestion involved.
pub proof fn lemma_exact_match_found(c: Seq<char>, j: int)
    requires
        0 <= j < spec_table().len(),
        spec_table()[j].0 == c,
    ensures
        first_exact_from(c, 0) matches Some(k) && spec_table()[k].0 == c,
{
    lemma_first_exact_finds(c, 0, j);
}

/// When no table token reaches the acceptance threshold, the classifier
/// tracks no suggestion at any point of its scan.
pub proof fn lemma_no_clear_no_suggestion(c: Seq<char>, i: int)
    requires
        0 <= i <= spec_table().len(),
        forall|j: int| 0 <= j < spec_table().len() ==> !spec_clears(c, spec_table()[j].0),
    ensures
        best_upto(c, i) is None,
    decreases i,
{
    if i > 0 {
        lemma_no_clear_no_suggestion(c, i - 1);
    }
}

/// Canonicalizes a user-supplied category string: ASCII lowercase,
/// strip the macOS category prefix if present, remove spaces and
/// hyphens.
fn canonicalize(input: &str) -> (r: Vec<char>)
    ensures
        r@ == spec_canonicalize(input@),
{
    let cs = chars_of(input);
    let mut low: Vec<char> = Vec::new();
    let mut i: usize = 0;
    while i < cs.len()
        invariant
            i <= cs@.len(),
            low@.len() == i,
            forall|j: int| 0 <= j < i ==> low@[j] == spec_lower_char(cs@[j]),
        decreases cs@.len() - i,
    {
        low.push(lower_char(cs[i]));
        i = i + 1;
    }
    proof {
        assert(low@ =~= spec_lower(cs@));
    }
    let plen = "public.app-category.".unicode_len();
    let stripped: Vec<char> = if starts_with_str(&low, "public.app-category.") {
        let mut t: Vec<char> = Vec::new();
        let mut i: usize = plen;
        while i < low.len()
            invariant
                plen == spec_prefix().len(),
                plen <= i <= low@.len(),
                t@ == low@.subrange(plen as int, i as int),
            decreases low@.len() - i,
        {
            t.push(low[i]);
            i = i + 1;
            proof {
                assert(t@ =~= low@.subrange(plen as int, i as int));
            }
        }
        proof {
            assert(t@ =~= spec_strip_prefix(low@));
        }
        t
    } else {
        proof {
            assert(spec_strip_prefix(low@) == low@);
        }
        low
    };
    let mut out: Vec<char> = Vec::new();
    let mut i: usize = 0;
    while i < stripped.len()
        invariant
            i <= stripped@.len(),
            out@ == spec_strip_seps(stripped@.subrange(0, i as int)),
        decreases stripped@.len() - i,
    {
        let c = stripped[i];
        if !(c == ' ' || c == '-') {
            out.push(c);
        }
        i = i + 1;
        proof {
            let t = stripped@.subrange(0, i as int);
            assert(t.drop_last() =~= stripped@.subrange(0, i - 1));
            assert(t.last() == stripped@[i - 1]);
        }
    }
    proof {
        assert(stripped@.subrange(0, stripped@.len() as int) =~= stripped@);
        assert(out@ == spec_strip_seps(spec_strip_prefix(spec_lower(cs@))));
    }
    out
}

impl AppCategory {
    /// Classifies a free-form category string against the token table.
    ///
    /// The input is canonicalized first.  An exact token match returns
    /// that token's category.  Otherwise the call fails, carrying the
    /// canonical name of the most similar token that reaches the
    /// acceptance threshold as a suggestion, or no suggestion when no
    /// token comes close enough.
    pub fn from_str(input: &str) -> (r: Result<AppCategory, Option<&'static str>>)
        ensures
            ({
                let c = spec_canonicalize(input@);
                &&& (r is Ok <==> first_exact_from(c, 0) is Some)
                &&& (match first_exact_from(c, 0) {
                    Some(j) => r == Ok::<AppCategory, Option<&'static str>>(spec_table()[j].1),
                    None => match best_upto(c, spec_table().len() as int) {
                        None => r == Err::<AppCategory, Option<&'static str>>(None),
                        Some(j) => r matches Err(Some(s)) && s@ == spec_canonical(
                            spec_table()[j].1,
                        ),
                    },
                })
            }),
    {
        let canon = canonicalize(input);
        let canon_s = string_from_chars(&canon);
        let mut best: Option<usize> = None;
        let mut best_d: usize = 0;
        let mut best_l: usize = 0;
        let mut i: usize = 0;
        proof {
            assert(spec_table().len() == 73);
        }
        while i < 73
            invariant
                i <= 73,
                spec_table().len() == 73,
                canon@ == spec_canonicalize(input@),
                canon_s@ == canon@,
                forall|j: int| 0 <= j < i ==> spec_table()[j].0 != canon@,
                (match best {
                    None => best_upto(canon@, i as int) is None,
                    Some(b) => {
                        &&& b < i
                        &&& best_upto(canon@, i as int) == Some(b as int)
                        &&& best_d == edit_dist(canon@, spec_table()[b as int].0)
                        &&& best_l == spec_max_len(canon@, spec_table()[b as int].0)
                    },
                }),
            decreases 73 - i,
        {
            let (tok, cat) = table_entry(i);
            if str_eq_chars(&canon, tok) {
                proof {
                    lemma_first_exact_prefix(canon@, i as int);
                }
                return Ok(cat);
            }
            let d = strsim::levenshtein(canon_s.as_str(), tok);
            let tl = tok.unicode_len();
            let cl = canon.len();
            let maxl = if cl >= tl {
                cl
            } else {
                tl
            };
            let clears = 5 as u128 * (d as u128) <= maxl as u128;
            if clears {
                let replace: bool = match best {
                    None => true,
                    Some(_) => {
                        proof {
                            assert((d as u128) * (best_l as u128)
                                <= 0xffff_ffff_ffff_ffff_ffff_ffff_ffff_ffffu128)
                                by (nonlinear_arith)
                                requires
                                    (d as u128) < 0x1_0000_0000_0000_0000,
                                    (best_l as u128) < 0x1_0000_0000_0000_0000,
                            ;
                            assert((best_d as u128) * (maxl as u128)
                                <= 0xffff_ffff_ffff_ffff_ffff_ffff_ffff_ffffu128)
                                by (nonlinear_arith)
                                requires
                                    (best_d as u128) < 0x1_0000_0000_0000_0000,
                                    (maxl as u128) < 0x1_0000_0000_0000_0000,
                            ;
                        }
                        (d as u128) * (best_l as u128) < (best_d as u128) * (maxl as u128)
                    },
                };
                if replace {
                    best = Some(i);
                    best_d = d;
                    best_l = maxl;
                }
            }
            i = i + 1;
        }
        proof {
            lemma_first_exact_prefix(canon@, 73);
        }
        match best {
            None => Err(None),
            Some(b) => {
                let (_, cat2) = table_entry(b);
                Err(Some(cat2.canonical()))
            },
        }
    }
}

} // verus!
