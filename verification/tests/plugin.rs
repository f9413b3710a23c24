use barrk::BarrkPlugin;
use barrk::DisplayState;
use barrk::InteractionSignal;
use barrk::Rgb;
use barrk::SelectError;
use barrk::TickTimer;
use barrk::color_of;

fn barks() -> Vec<String> {
    vec!["Bark!".to_string(), "Woof!".to_string(), "arf!".to_string()]
}

#[test]
fn initial_state_matches_startup_data() {
    let p = BarrkPlugin::new();
    assert_eq!(p.display.text, "Dog");
    assert_eq!(p.display.color, Rgb { red: 15, green: 15, blue: 15 });
    assert_eq!(p.timer.interval_ms, 2000);
    assert_eq!(p.timer.accumulated_ms, 0);
    assert_eq!(p.last_line, None);
    let utterances: Vec<&str> = p.speakers.iter().map(|s| s.utterance.as_str()).collect();
    assert_eq!(utterances, vec!["Bark", "Woof", "arf"]);
}

#[test]
fn interaction_colors_are_exact_and_pairwise_distinct() {
    let neutral = color_of(InteractionSignal::Idle);
    let medium = color_of(InteractionSignal::Hovered);
    let strong = color_of(InteractionSignal::Pressed);
    assert_eq!(neutral, Rgb { red: 15, green: 15, blue: 15 });
    assert_eq!(medium, Rgb { red: 25, green: 25, blue: 25 });
    assert_eq!(strong, Rgb { red: 35, green: 75, blue: 35 });
    assert_ne!(neutral, medium);
    assert_ne!(neutral, strong);
    assert_ne!(medium, strong);
}

#[test]
fn pressed_always_shows_emphasis_and_strong_color() {
    let mut p = BarrkPlugin::new();
    for _ in 0..50 {
        p.handle_interaction(InteractionSignal::Hovered).unwrap();
        p.handle_interaction(InteractionSignal::Pressed).unwrap();
        assert!(p.display.text.ends_with("!!"));
        assert_eq!(p.display.color, Rgb { red: 35, green: 75, blue: 35 });
    }
}

#[test]
fn idle_and_hovered_never_show_emphasis() {
    let mut p = BarrkPlugin::new();
    for _ in 0..50 {
        p.handle_interaction(InteractionSignal::Hovered).unwrap();
        assert!(!p.display.text.ends_with("!!"));
        assert_eq!(p.display.color, Rgb { red: 25, green: 25, blue: 25 });
        p.handle_interaction(InteractionSignal::Idle).unwrap();
        assert!(!p.display.text.ends_with("!!"));
        assert_eq!(p.display.color, Rgb { red: 15, green: 15, blue: 15 });
    }
}

#[test]
fn scenario_hover_then_press() {
    let mut p = BarrkPlugin::new();
    assert_eq!(p.display.text, "Dog");

    p.handle_interaction(InteractionSignal::Hovered).unwrap();
    let hovered = p.display.text.clone();
    assert!(barks().contains(&hovered));
    assert_eq!(p.display.color, Rgb { red: 25, green: 25, blue: 25 });

    p.handle_interaction(InteractionSignal::Pressed).unwrap();
    let pressed = p.display.text.clone();
    assert!(pressed.ends_with("!!"));
    let pressed_bark = pressed[..pressed.len() - 2].to_string();
    assert!(barks().contains(&pressed_bark));
    assert_ne!(pressed_bark, hovered);
    assert_eq!(p.display.color, Rgb { red: 35, green: 75, blue: 35 });
}

#[test]
fn every_transition_changes_the_displayed_text() {
    let mut p = BarrkPlugin::new();
    let signals = [
        InteractionSignal::Hovered,
        InteractionSignal::Pressed,
        InteractionSignal::Hovered,
        InteractionSignal::Idle,
    ];
    for _ in 0..25 {
        for signal in signals {
            let before = p.display.text.clone();
            p.handle_interaction(signal).unwrap();
            assert_ne!(p.display.text, before);
        }
    }
}

#[test]
fn interaction_with_no_speakers_is_fatal_configuration_error() {
    let mut p = BarrkPlugin {
        speakers: Vec::new(),
        display: DisplayState {
            text: "Dog".to_string(),
            color: color_of(InteractionSignal::Idle),
        },
        timer: TickTimer::new(2000),
        last_line: None,
    };
    assert_eq!(
        p.handle_interaction(InteractionSignal::Hovered),
        Err(SelectError::EmptyCandidates)
    );
    assert_eq!(p.display.text, "Dog");
    assert_eq!(p.advance_timer(2000), Err(SelectError::EmptyCandidates));
}

#[test]
fn timer_ticks_once_every_two_seconds() {
    let mut p = BarrkPlugin::new();
    let mut lines: Vec<String> = Vec::new();
    for frame in 1..=40u64 {
        let line = p.advance_timer(500).unwrap();
        if frame % 4 == 0 {
            // 2000 ms have accumulated: exactly one line per tick.
            lines.push(line.expect("a tick is due every fourth 500 ms frame"));
        } else {
            assert_eq!(line, None);
        }
    }
    assert_eq!(lines.len(), 10);
    for line in &lines {
        assert!(barks().contains(line));
    }
    for pair in lines.windows(2) {
        assert_ne!(pair[0], pair[1]);
    }
}

#[test]
fn timer_folds_overshoot_into_the_remainder() {
    let mut p = BarrkPlugin::new();
    let line = p.advance_timer(5000).unwrap();
    assert!(line.is_some());
    assert_eq!(p.timer.accumulated_ms, 1000);
    assert_eq!(p.advance_timer(999).unwrap(), None);
    assert!(p.advance_timer(1).unwrap().is_some());
    assert_eq!(p.timer.accumulated_ms, 0);
}

#[test]
fn timer_lines_leave_display_untouched() {
    let mut p = BarrkPlugin::new();
    for _ in 0..10 {
        p.advance_timer(2000).unwrap();
    }
    assert_eq!(p.display.text, "Dog");
    assert_eq!(p.display.color, Rgb { red: 15, green: 15, blue: 15 });
}
