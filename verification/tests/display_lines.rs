use player_menu::display::{
    build_lines, loop_icon, menu_prompt, playback_icon, render_line, PlayerSnapshot,
};
use player_menu::metadata::{PropValue, PropertyBag};
use player_menu::player::{LoopMode, PlaybackState};

fn snapshot(
    playback: PlaybackState,
    loop_info: Option<LoopMode>,
    title: &str,
    artists: Vec<&str>,
    identity: &str,
) -> PlayerSnapshot {
    PlayerSnapshot {
        playback,
        loop_info,
        bag: Some(PropertyBag {
            title: Some(PropValue::Text(title.to_string())),
            artist: Some(PropValue::List(
                artists.into_iter().map(|a| PropValue::Text(a.to_string())).collect(),
            )),
        }),
        identity: identity.to_string(),
    }
}

#[test]
fn playback_icons_exact() {
    assert_eq!(playback_icon(PlaybackState::Playing), "\u{f04b}");
    assert_eq!(playback_icon(PlaybackState::Paused), "\u{f04c}");
    assert_eq!(playback_icon(PlaybackState::Stopped), "\u{f012e}");
}

#[test]
fn playback_icons_distinct() {
    assert_ne!(
        playback_icon(PlaybackState::Playing),
        playback_icon(PlaybackState::Paused)
    );
    assert_ne!(
        playback_icon(PlaybackState::Playing),
        playback_icon(PlaybackState::Stopped)
    );
    assert_ne!(
        playback_icon(PlaybackState::Paused),
        playback_icon(PlaybackState::Stopped)
    );
}

#[test]
fn loop_icons_cover_all_cases() {
    assert_eq!(loop_icon(Some(LoopMode::NoLoop)), "\u{f04e8}");
    assert_eq!(loop_icon(Some(LoopMode::Track)), "\u{f04e6}");
    assert_eq!(loop_icon(Some(LoopMode::Playlist)), "\u{e5ff} \u{f04e6}");
    assert_eq!(loop_icon(None), "x");
}

#[test]
fn loop_icons_distinct() {
    let cases = [
        Some(LoopMode::NoLoop),
        Some(LoopMode::Track),
        Some(LoopMode::Playlist),
        None,
    ];
    for (i, a) in cases.iter().enumerate() {
        for (j, b) in cases.iter().enumerate() {
            if i != j {
                assert_ne!(loop_icon(*a), loop_icon(*b));
            }
        }
    }
}

#[test]
fn full_line_composition() {
    let p = snapshot(
        PlaybackState::Playing,
        Some(LoopMode::NoLoop),
        "Song",
        vec!["Artist"],
        "spotify",
    );
    assert_eq!(
        render_line(&p),
        "\u{f04b} \u{f04e8} Song - Artist (spotify)"
    );
}

#[test]
fn line_with_unsupported_loop_marks_x() {
    let p = snapshot(
        PlaybackState::Paused,
        None,
        "Tune",
        vec!["One", "Two"],
        "vlc",
    );
    assert_eq!(render_line(&p), "\u{f04c} x Tune - One, Two (vlc)");
}

#[test]
fn line_with_missing_metadata_uses_sentinels() {
    let p = PlayerSnapshot {
        playback: PlaybackState::Stopped,
        loop_info: Some(LoopMode::Track),
        bag: None,
        identity: "mpv".to_string(),
    };
    assert_eq!(
        render_line(&p),
        "\u{f012e} \u{f04e6} Not available - Not available (mpv)"
    );
}

#[test]
fn one_line_per_player_in_registry_order() {
    let players = vec![
        snapshot(
            PlaybackState::Playing,
            Some(LoopMode::Playlist),
            "A",
            vec!["X"],
            "first",
        ),
        snapshot(PlaybackState::Paused, None, "B", vec!["Y"], "second"),
        snapshot(
            PlaybackState::Stopped,
            Some(LoopMode::NoLoop),
            "C",
            vec!["Z"],
            "third",
        ),
    ];
    let lines = build_lines(&players);
    assert_eq!(lines.len(), players.len());
    for (i, p) in players.iter().enumerate() {
        assert_eq!(lines[i], render_line(p));
    }
    assert!(lines[0].contains("(first)"));
    assert!(lines[1].contains("(second)"));
    assert!(lines[2].contains("(third)"));
}

#[test]
fn menu_prompt_is_fixed() {
    assert_eq!(menu_prompt(), " Select Player ");
}
