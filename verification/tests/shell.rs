use std::sync::atomic::{AtomicU64, Ordering};

use paseo_shell::shell::{on_menu_event, MAIN_WINDOW_LABEL};
use paseo_shell::zoom::{ZoomLevel, DEFAULT_ZOOM_PERCENT};

#[test]
fn main_window_is_labelled_main() {
    assert_eq!(MAIN_WINDOW_LABEL, "main");
}

#[test]
fn zoom_in_event_moves_the_level_and_reports_it() {
    let mut level = ZoomLevel::new();
    assert_eq!(on_menu_event(&mut level, "zoom_in"), Some(110));
    assert_eq!(level.percent(), 110);
}

#[test]
fn zoom_out_event_moves_the_level_and_reports_it() {
    let mut level = ZoomLevel::new();
    assert_eq!(on_menu_event(&mut level, "zoom_out"), Some(90));
    assert_eq!(level.percent(), 90);
}

#[test]
fn zoom_reset_event_returns_to_actual_size() {
    let mut level = ZoomLevel::from_percent(240);
    assert_eq!(on_menu_event(&mut level, "zoom_reset"), Some(100));
    assert_eq!(level.percent(), 100);
}

#[test]
fn window_is_told_even_where_the_level_stays() {
    let mut level = ZoomLevel::new();
    assert_eq!(on_menu_event(&mut level, "zoom_reset"), Some(100));
    assert_eq!(level.percent(), 100);

    let mut top = ZoomLevel::from_percent(300);
    assert_eq!(on_menu_event(&mut top, "zoom_in"), Some(300));
    assert_eq!(top.percent(), 300);

    let mut bottom = ZoomLevel::from_percent(50);
    assert_eq!(on_menu_event(&mut bottom, "zoom_out"), Some(50));
    assert_eq!(bottom.percent(), 50);
}

#[test]
fn other_events_leave_the_level_alone() {
    for id in ["", "quit", "copy", "zoom", "zoom_in ", "ZOOM_OUT", "Actual Size"] {
        let mut level = ZoomLevel::from_percent(130);
        assert_eq!(on_menu_event(&mut level, id), None);
        assert_eq!(level, ZoomLevel::from_percent(130));
    }
}

#[test]
fn events_are_handled_one_after_another() {
    let mut level = ZoomLevel::new();
    let events = [
        ("zoom_in", Some(110u64)),
        ("zoom_in", Some(120)),
        ("paste", None),
        ("zoom_out", Some(110)),
        ("zoom_out", Some(100)),
        ("zoom_out", Some(90)),
        ("zoom_reset", Some(100)),
        ("undo", None),
        ("zoom_in", Some(110)),
    ];
    let mut shown = 100u64;
    for (id, expected) in events {
        let applied = on_menu_event(&mut level, id);
        assert_eq!(applied, expected);
        if let Some(percent) = applied {
            shown = percent;
        }
        assert_eq!(level.percent(), shown);
    }
}

#[test]
fn repeated_zoom_in_events_end_at_the_upper_bound() {
    let mut level = ZoomLevel::new();
    let mut last = None;
    for _ in 0..40 {
        last = on_menu_event(&mut level, "zoom_in");
    }
    assert_eq!(last, Some(300));
    assert_eq!(level.percent(), 300);
}

#[test]
fn repeated_zoom_out_events_end_at_the_lower_bound() {
    let mut level = ZoomLevel::new();
    let mut last = None;
    for _ in 0..40 {
        last = on_menu_event(&mut level, "zoom_out");
    }
    assert_eq!(last, Some(50));
    assert_eq!(level.percent(), 50);
}

#[test]
fn level_kept_in_shared_storage_follows_the_events() {
    let stored = AtomicU64::new(DEFAULT_ZOOM_PERCENT);
    let mut shown: Vec<f64> = Vec::new();
    for id in ["zoom_in", "zoom_in", "copy", "zoom_out", "zoom_reset", "zoom_out"] {
        let mut level = ZoomLevel::from_percent(stored.load(Ordering::Relaxed));
        if let Some(percent) = on_menu_event(&mut level, id) {
            stored.store(percent, Ordering::Relaxed);
            shown.push(percent as f64 / 100.0);
        }
    }
    assert_eq!(shown, vec![1.1, 1.2, 1.1, 1.0, 0.9]);
    assert_eq!(stored.load(Ordering::Relaxed), 90);
}
