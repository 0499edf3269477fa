use admin_panel::env::{Difficulty, EnvValues, Environment, EulaDecision};

fn no_values() -> EnvValues {
    EnvValues {
        eula: None,
        difficulty: None,
        hardcore: None,
        max_players: None,
        max_world_radius: None,
        motd: None,
        player_idle_timeout: None,
        server_idle_timeout: None,
        view_distance: None,
        pvp: None,
    }
}

#[test]
fn defaults_apply_when_nothing_is_set() {
    let env = Environment::load(&no_values());
    assert!(!env.eula);
    assert_eq!(env.difficulty, Difficulty::Normal);
    assert!(!env.hardcore);
    assert_eq!(env.max_players, 10);
    assert_eq!(env.max_world_radius, 1000);
    assert_eq!(env.motd, "Minecraft on demand");
    assert_eq!(env.player_idle_timeout, 10);
    assert_eq!(env.server_idle_timeout, 10);
    assert_eq!(env.view_distance, 10);
    assert!(!env.pvp);
}

#[test]
fn booleans_parse_case_insensitively() {
    let mut v = no_values();
    v.eula = Some(String::from("TRUE"));
    v.hardcore = Some(String::from("False"));
    v.pvp = Some(String::from("yes"));
    let env = Environment::load(&v);
    assert!(env.eula);
    assert!(!env.hardcore);
    // An unparseable value falls back to its default.
    assert!(!env.pvp);
}

#[test]
fn numbers_outside_their_range_fall_back() {
    let mut v = no_values();
    v.max_players = Some(String::from("0"));
    v.view_distance = Some(String::from("256"));
    v.server_idle_timeout = Some(String::from("abc"));
    v.max_world_radius = Some(String::from("70000"));
    let env = Environment::load(&v);
    assert_eq!(env.max_players, 10);
    assert_eq!(env.view_distance, 10);
    assert_eq!(env.server_idle_timeout, 10);
    assert_eq!(env.max_world_radius, 1000);
}

#[test]
fn numbers_in_range_are_taken() {
    let mut v = no_values();
    v.max_players = Some(String::from("255"));
    v.server_idle_timeout = Some(String::from("1"));
    v.max_world_radius = Some(String::from("65535"));
    v.player_idle_timeout = Some(String::from("007"));
    let env = Environment::load(&v);
    assert_eq!(env.max_players, 255);
    assert_eq!(env.server_idle_timeout, 1);
    assert_eq!(env.max_world_radius, 65535);
    assert_eq!(env.player_idle_timeout, 7);
}

#[test]
fn difficulty_parses_case_insensitively() {
    let mut v = no_values();
    v.difficulty = Some(String::from("HARD"));
    assert_eq!(Environment::load(&v).difficulty, Difficulty::Hard);
    v.difficulty = Some(String::from("Peaceful"));
    assert_eq!(Environment::load(&v).difficulty, Difficulty::Peaceful);
    v.difficulty = Some(String::from("soft"));
    assert_eq!(Environment::load(&v).difficulty, Difficulty::Normal);
}

#[test]
fn difficulty_words_round_trip() {
    for (d, w) in [
        (Difficulty::Peaceful, "peaceful"),
        (Difficulty::Easy, "easy"),
        (Difficulty::Normal, "normal"),
        (Difficulty::Hard, "hard"),
    ] {
        assert_eq!(d.as_str(), w);
        assert_eq!(Difficulty::parse(w), Some(d));
    }
    assert_eq!(Difficulty::parse("NORMAL"), Some(Difficulty::Normal));
    assert_eq!(Difficulty::parse("medium"), None);
}

#[test]
fn motd_is_kept_verbatim() {
    // The message of the day is free text: its case is the operator's.
    let mut v = no_values();
    v.motd = Some(String::from("Hello World"));
    assert_eq!(Environment::load(&v).motd, "Hello World");
}

#[test]
fn eula_decisions() {
    let mut v = no_values();
    let env = Environment::load(&v);
    assert_eq!(env.eula_decision(true), EulaDecision::AlreadyAccepted);
    assert_eq!(env.eula_decision(false), EulaDecision::Rejected);
    v.eula = Some(String::from("true"));
    let env = Environment::load(&v);
    assert_eq!(env.eula_decision(false), EulaDecision::CreateFile);
    assert_eq!(env.eula_decision(true), EulaDecision::AlreadyAccepted);
    assert_eq!(Environment::eula_file_content(), "eula=true");
}

#[test]
fn parameter_lines_are_exact() {
    let mut v = no_values();
    v.difficulty = Some(String::from("easy"));
    v.hardcore = Some(String::from("true"));
    v.max_players = Some(String::from("20"));
    v.max_world_radius = Some(String::from("1500"));
    v.motd = Some(String::from("Welcome"));
    v.player_idle_timeout = Some(String::from("5"));
    v.view_distance = Some(String::from("12"));
    let env = Environment::load(&v);
    let lines = env.server_parameter_lines();
    assert_eq!(
        lines,
        vec![
            String::from("difficulty=easy"),
            String::from("hardcore=true"),
            String::from("max-players=20"),
            String::from("max-world-size=1500"),
            String::from("motd=Welcome"),
            String::from("player-idle-timeout=5"),
            String::from("view-distance=12"),
            String::from("pvp=false"),
        ]
    );
}
