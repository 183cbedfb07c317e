use quies::controls::{App, Key};
use quies::engine::{AudioEngine, Emphasis, LayerStatus, emphasis};
use quies::preset::{NoiseType, find_preset, help_text, preset_names, presets};
use quies::source::{VolumeSource, level_gain};

use std::sync::Arc;
use std::sync::atomic::{AtomicBool, AtomicU32, Ordering};

fn focus() -> App {
    App::new("focus").unwrap()
}

#[test]
fn preset_table_matches_readme() {
    let all = presets();
    let names: Vec<&str> = all.iter().map(|p| p.name).collect();
    assert_eq!(names, vec!["default", "focus", "deep"]);
    let default = &all[0].layers;
    assert_eq!(default.len(), 1);
    assert_eq!(default[0].name, "Brown Noise");
    assert_eq!(default[0].noise_type, NoiseType::Brown);
    assert_eq!(default[0].volume, 50);
    let deep = &all[2].layers;
    assert_eq!((deep[0].name, deep[0].volume), ("Brown Noise", 80));
    assert_eq!((deep[1].name, deep[1].noise_type, deep[1].volume), ("Pink Noise", NoiseType::Pink, 10));
}

#[test]
fn find_preset_by_name() {
    let focus = find_preset("focus").unwrap();
    assert_eq!(focus.len(), 2);
    assert_eq!((focus[0].volume, focus[1].volume), (60, 20));
    assert!(find_preset("Focus").is_none());
    assert!(find_preset("lofi").is_none());
}

#[test]
fn preset_names_joined() {
    assert_eq!(preset_names(), "default, focus, deep");
}

#[test]
fn help_lists_presets() {
    let h = help_text();
    assert!(h.starts_with("Usage: quies [command]\n\nCommands:\n"));
    assert!(h.contains("\n\nPresets: default, focus, deep\n\nTUI controls: j/k select, h/l volume, m mute, q quit"));
    assert!(h.ends_with("q quit"));
}

#[test]
fn app_from_preset() {
    let app = App::new("default").unwrap();
    assert_eq!(app.selected, 0);
    assert_eq!(app.engine.layers.len(), 1);
    let l = &app.engine.layers[0];
    assert_eq!(l.name, "Brown Noise");
    assert_eq!(l.volume, 50);
    assert!(l.active);
    assert_eq!(l.noise, Some(NoiseType::Brown));
    assert!(l.url.is_none() && l.path.is_none());
    assert!(matches!(l.status, LayerStatus::Playing));
}

#[test]
fn app_unknown_preset() {
    match App::new("lofi") {
        Err(msg) => assert_eq!(msg, "unknown preset: lofi"),
        Ok(_) => panic!("lofi is no preset"),
    }
}

#[test]
fn cursor_wraps_both_ways() {
    let mut app = focus();
    app.next_layer();
    assert_eq!(app.selected, 1);
    app.next_layer();
    assert_eq!(app.selected, 0);
    app.prev_layer();
    assert_eq!(app.selected, 1);
    app.prev_layer();
    assert_eq!(app.selected, 0);
}

#[test]
fn cursor_moves_undo_each_other() {
    let mut app = focus();
    app.next_layer();
    app.prev_layer();
    assert_eq!(app.selected, 0);
    app.prev_layer();
    app.next_layer();
    assert_eq!(app.selected, 0);
}

#[test]
fn volume_steps_and_limits() {
    let mut e = focus().engine;
    e.volume_up(0);
    assert_eq!(e.get_volume(0), 65);
    e.volume_down(1);
    e.volume_down(1);
    e.volume_down(1);
    assert_eq!(e.get_volume(1), 5);
    e.volume_down(1);
    assert_eq!(e.get_volume(1), 0);
    e.volume_down(1);
    assert_eq!(e.get_volume(1), 0);
    e.set_volume(0, 98);
    e.volume_up(0);
    assert_eq!(e.get_volume(0), 100);
    e.volume_up(0);
    assert_eq!(e.get_volume(0), 100);
}

#[test]
fn volume_step_down_undoes_step_up() {
    let mut e = focus().engine;
    e.volume_up(1);
    e.volume_down(1);
    assert_eq!(e.get_volume(1), 20);
    e.volume_down(0);
    e.volume_up(0);
    assert_eq!(e.get_volume(0), 60);
}

#[test]
fn set_volume_clamps() {
    let mut e = focus().engine;
    e.set_volume(0, 150);
    assert_eq!(e.get_volume(0), 100);
    e.set_volume(0, -20);
    assert_eq!(e.get_volume(0), 0);
    e.set_volume(0, 33);
    assert_eq!(e.get_volume(0), 33);
    assert_eq!(e.get_volume(1), 20);
}

#[test]
fn step_down_from_above_full_clamps() {
    let mut e = AudioEngine::new();
    e.add_layer("Loud", NoiseType::White, 150);
    assert_eq!(e.get_volume(0), 150);
    e.volume_down(0);
    assert_eq!(e.get_volume(0), 100);
}

#[test]
fn toggle_mute_twice_restores() {
    let mut e = focus().engine;
    assert!(e.is_active(1));
    e.toggle_mute(1);
    assert!(!e.is_active(1));
    assert!(e.is_active(0));
    e.toggle_mute(1);
    assert!(e.is_active(1));
}

#[test]
fn find_layer_ignores_case() {
    let e = focus().engine;
    assert_eq!(e.find_layer("pink"), Some(1));
    assert_eq!(e.find_layer("PINK"), Some(1));
    assert_eq!(e.find_layer("bRoWn"), Some(0));
    assert_eq!(e.find_layer("noise"), Some(0));
    assert_eq!(e.find_layer(""), Some(0));
    assert_eq!(e.find_layer("rain"), None);
    assert_eq!(AudioEngine::new().find_layer(""), None);
}

#[test]
fn status_report_lines() {
    let mut e = focus().engine;
    assert_eq!(e.status(), "  ~ Brown Noise 60%\n  ~ Pink Noise 20%");
    e.toggle_mute(1);
    e.set_volume(0, 100);
    assert_eq!(e.status(), "  ~ Brown Noise 100%\n  ~ Pink Noise 20% [off]");
    e.set_volume(0, 0);
    assert_eq!(e.status(), "  ~ Brown Noise 0%\n  ~ Pink Noise 20% [off]");
}

#[test]
fn status_report_empty() {
    assert_eq!(AudioEngine::new().status(), "no layers");
}

#[test]
fn status_report_file_layers() {
    let mut e = AudioEngine::new();
    let idx = e.add_pending_layer("Lofi", "https://youtu.be/x", 50);
    assert_eq!(idx, 0);
    assert_eq!(e.status(), "  \u{266a} Lofi [downloading...]");
    e.set_status(idx, LayerStatus::Error("download failed".to_string()));
    assert_eq!(e.status(), "  \u{266a} Lofi [error: download failed]");
    e.activate_audio_layer(idx, "/tmp/quies-1.m4a");
    assert_eq!(e.status(), "  \u{266a} Lofi 50%");
    assert_eq!(e.layers[0].path.as_deref(), Some("/tmp/quies-1.m4a"));
    assert_eq!(e.layers[0].url.as_deref(), Some("https://youtu.be/x"));
    e.add_audio_layer("Rain", "/tmp/rain.mp3", "https://example.com/rain.mp3", 30);
    assert_eq!(e.status(), "  \u{266a} Lofi 50%\n  \u{266a} Rain 30%");
    let idx2 = e.add_pending_layer("Cafe", "https://example.com/cafe.mp3", 10);
    assert_eq!(idx2, 2);
}

#[test]
fn labels_in_terminal_view() {
    let mut e = focus().engine;
    assert_eq!(e.layer_label(0, true), " \u{25b8} Brown Noise     ");
    assert_eq!(e.level_text(0), "  60%");
    assert_eq!(e.layer_label(1, false), "   Pink Noise      ");
    assert_eq!(e.level_text(1), "  20%");
    e.toggle_mute(1);
    e.set_volume(1, 5);
    assert_eq!(e.layer_label(1, false), "   Pink Noise      ");
    assert_eq!(e.level_text(1), "   5% [off]");
    e.set_volume(0, 100);
    assert_eq!(e.level_text(0), " 100%");
    e.add_layer("A very long layer name", NoiseType::Red, 7);
    assert_eq!(e.layer_label(2, false), "   A very long layer name");
    assert_eq!(e.level_text(2), "   7%");
    let p = e.add_pending_layer("Lofi", "u", 50);
    assert_eq!(e.layer_label(p, false), "   Lofi             [downloading...]");
    assert_eq!(e.level_text(p), "");
    e.set_status(p, LayerStatus::Error("bad file".to_string()));
    assert_eq!(e.layer_label(p, true), " \u{25b8} Lofi             [error: bad file]");
    assert_eq!(e.level_text(p), "");
}

#[test]
fn emphasis_and_gauge() {
    assert_eq!(emphasis(false, true), Emphasis::Dim);
    assert_eq!(emphasis(true, true), Emphasis::Bold);
    assert_eq!(emphasis(true, false), Emphasis::Plain);
    let mut e = focus().engine;
    assert_eq!(e.gauge_level(0), 60);
    e.toggle_mute(0);
    assert_eq!(e.gauge_level(0), 0);
    let p = e.add_pending_layer("Lofi", "u", 50);
    assert_eq!(e.gauge_level(p), 0);
    e.add_layer("Loud", NoiseType::Blue, 200);
    assert_eq!(e.gauge_level(3), 100);
}

#[test]
fn keys_drive_the_session() {
    let mut app = focus();
    assert!(app.handle_key(Key::Char('j'), true));
    assert_eq!(app.selected, 1);
    assert!(app.handle_key(Key::Char('l'), true));
    assert_eq!(app.engine.get_volume(1), 25);
    assert!(app.handle_key(Key::Left, true));
    assert!(app.handle_key(Key::Char('h'), true));
    assert_eq!(app.engine.get_volume(1), 15);
    assert!(app.handle_key(Key::Char('m'), true));
    assert!(!app.engine.is_active(1));
    assert!(app.handle_key(Key::Up, true));
    assert_eq!(app.selected, 0);
    assert!(app.handle_key(Key::Down, true));
    assert!(app.handle_key(Key::Char('k'), true));
    assert_eq!(app.selected, 0);
    assert!(app.handle_key(Key::Right, true));
    assert_eq!(app.engine.get_volume(0), 65);
    assert!(app.handle_key(Key::Char('x'), true));
    assert!(app.handle_key(Key::Other, true));
    assert!(app.handle_key(Key::Char('q'), false));
    assert!(app.handle_key(Key::Char('j'), false));
    assert_eq!(app.selected, 0);
    assert!(!app.handle_key(Key::Char('q'), true));
}

#[test]
fn gain_follows_mute_and_volume() {
    assert_eq!(level_gain(true, 80), 80);
    assert_eq!(level_gain(false, 80), 0);
    let volume = Arc::new(AtomicU32::new(45));
    let active = Arc::new(AtomicBool::new(true));
    let src = VolumeSource::new(vec![0.5f32, 0.25], volume.clone(), active.clone());
    assert_eq!(src.inner, vec![0.5f32, 0.25]);
    assert_eq!(src.gain(), 45);
    volume.store(70, Ordering::Relaxed);
    assert_eq!(src.gain(), 70);
    active.store(false, Ordering::Relaxed);
    assert_eq!(src.gain(), 0);
}

#[test]
fn cursor_returns_after_one_round() {
    let mut app = App::new("deep").unwrap();
    app.next_layer();
    let start = app.selected;
    let n = app.engine.layers.len();
    for _ in 0..n {
        app.next_layer();
    }
    assert_eq!(app.selected, start);
}

#[test]
fn mute_follows_toggle_parity() {
    let mut e = focus().engine;
    for k in 1..=5 {
        e.toggle_mute(0);
        e.volume_up(0);
        e.set_volume(0, 40);
        assert_eq!(e.is_active(0), k % 2 == 0);
    }
    let p = e.add_pending_layer("Lofi", "u", 50);
    assert!(e.is_active(p));
    e.toggle_mute(p);
    e.activate_audio_layer(p, "/tmp/lofi.m4a");
    assert!(!e.is_active(p));
}

#[test]
fn cursor_moves_on_empty_mix_change_nothing() {
    let mut app = App { engine: AudioEngine::new(), selected: usize::MAX };
    app.next_layer();
    assert_eq!(app.selected, usize::MAX);
    app.prev_layer();
    assert_eq!(app.selected, usize::MAX);
}
