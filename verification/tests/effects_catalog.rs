use legion_cli::effects::{all_effects, Direction, Effects};

#[test]
fn catalog_is_complete_and_ordered() {
    let all = all_effects();
    assert_eq!(
        all,
        vec![
            Effects::Static,
            Effects::Breath,
            Effects::Smooth,
            Effects::Wave,
            Effects::Lightning,
            Effects::SmoothWave,
            Effects::Swipe,
            Effects::Disco,
            Effects::Christmas,
            Effects::Fade,
            Effects::Temperature,
            Effects::Ripple,
            Effects::AmbientLight,
        ]
    );
}

#[test]
fn listing_is_one_indexed() {
    let all = all_effects();
    let mut lines: Vec<String> = Vec::new();
    for (i, e) in all.iter().enumerate() {
        lines.push(format!("{}. {}", i + 1, e.name()));
    }
    assert_eq!(lines[0], "1. Static");
    assert_eq!(lines[12], "13. AmbientLight");
    assert_eq!(lines.len(), 13);
}

#[test]
fn color_taking_effects() {
    assert!(Effects::Static.takes_color_array());
    assert!(Effects::Breath.takes_color_array());
    assert!(Effects::Swipe.takes_color_array());
    assert!(Effects::Fade.takes_color_array());
    assert!(Effects::Ripple.takes_color_array());
    assert!(!Effects::Smooth.takes_color_array());
    assert!(!Effects::Wave.takes_color_array());
    assert!(!Effects::Lightning.takes_color_array());
    assert!(!Effects::Disco.takes_color_array());
    assert!(!Effects::AmbientLight.takes_color_array());
}

#[test]
fn default_directions() {
    assert_eq!(Effects::Wave.default_direction(), Direction::Right);
    assert_eq!(Effects::SmoothWave.default_direction(), Direction::Right);
    assert_eq!(Effects::Swipe.default_direction(), Direction::Right);
    assert_eq!(Effects::Static.default_direction(), Direction::Left);
    assert_eq!(Effects::Christmas.default_direction(), Direction::Left);
}

#[test]
fn names_match_variants() {
    assert_eq!(Effects::Static.name(), "Static");
    assert_eq!(Effects::SmoothWave.name(), "SmoothWave");
    assert_eq!(Effects::Temperature.name(), "Temperature");
}
