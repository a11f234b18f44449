use week_labeler::config::model::Config;
use week_labeler::tools::logo::{copyright, show, startup};

fn described() -> Config {
    let mut config = Config::new();
    config.update(
        Some("1.2.3"),
        Some("Ada"),
        Some("https://example.org"),
        Some("Week labels"),
        Some("https://example.org/repo"),
    );
    config
}

#[test]
fn copyright_in_the_first_year() {
    assert_eq!(
        copyright(&described(), 2025),
        "\n(c) 2025 - Ada - Version 1.2.3\n📆 Week labels\nVisit: https://example.org\nGithub: https://example.org/repo\n\n\n"
    );
}

#[test]
fn copyright_in_later_years() {
    assert_eq!(
        copyright(&described(), 2027),
        "\n(c) 2025 - 2027 - Ada - Version 1.2.3\n📆 Week labels\nVisit: https://example.org\nGithub: https://example.org/repo\n\n\n"
    );
    assert!(copyright(&described(), 2024).starts_with("\n(c) 2025 - 2024 - Ada"));
    assert!(copyright(&described(), -3).starts_with("\n(c) 2025 - -3 - Ada"));
}

#[test]
fn copyright_of_an_empty_description() {
    assert_eq!(
        copyright(&Config::new(), 2025),
        "\n(c) 2025 -  - Version \n📆 \nVisit: \nGithub: \n\n\n"
    );
}

#[test]
fn startup_frames_the_drawing() {
    let shown = startup(Ok(String::from("ART")), "notice");
    assert_eq!(shown.text, "\n\n\nART\nnotice");
    assert_eq!(shown.error, None);
    let shown = startup(Err(String::from("no letters")), "notice");
    assert_eq!(shown.text, "notice");
    assert_eq!(shown.error.as_deref(), Some("no letters"));
}

#[test]
fn show_draws_the_name_in_large_letters() {
    let config = described();
    let shown = show(&config, "labeler", 2025);
    let art = text_to_ascii_art::to_art(String::from("labeler"), "", 0, 0, 0).unwrap();
    assert_ne!(art, "labeler");
    assert!(art.lines().count() > 1);
    assert_eq!(shown.text, format!("\n\n\n{}\n{}", art, copyright(&config, 2025)));
    assert_eq!(shown.error, None);
}

#[test]
fn show_reports_a_name_that_cannot_be_drawn() {
    let config = described();
    let shown = show(&config, "é", 2026);
    let message = text_to_ascii_art::to_art(String::from("é"), "", 0, 0, 0).unwrap_err();
    assert_eq!(shown.text, copyright(&config, 2026));
    assert_eq!(shown.error, Some(message));
}
