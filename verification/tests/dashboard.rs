use weather_tabs::compose::{compose, Pane, PaneTitle};
use weather_tabs::nav::App;
use weather_tabs::session::{step, ui, InputKey, SessionEvent};
use weather_tabs::snapshot::{refresh, PollResult};

fn success(name: &str, condition: &str, cloud_percent: u64) -> PollResult {
    PollResult::Success {
        name: String::from(name),
        condition: String::from(condition),
        cloud_percent,
    }
}

fn pane_body(p: &Pane) -> String {
    p.body.clone()
}

#[test]
fn new_app_starts_on_first_tab() {
    let app = App::new();
    assert_eq!(app.index, 0);
    assert_eq!(app.titles, vec!["Tab0", "Tab1", "Tab2", "Tab3"]);
}

#[test]
fn advancing_len_times_returns_to_start() {
    for start in 0..4usize {
        let mut app = App::new();
        app.index = start;
        for _ in 0..4 {
            app.next();
        }
        assert_eq!(app.index, start);
    }
}

#[test]
fn retreat_inverts_advance_everywhere() {
    for start in 0..4usize {
        let mut app = App::new();
        app.index = start;
        app.next();
        app.previous();
        assert_eq!(app.index, start);
        app.previous();
        app.next();
        assert_eq!(app.index, start);
    }
}

#[test]
fn advance_wraps_last_to_zero() {
    let mut app = App::new();
    app.index = 3;
    app.next();
    assert_eq!(app.index, 0);
}

#[test]
fn retreat_wraps_zero_to_last() {
    let mut app = App::new();
    app.previous();
    assert_eq!(app.index, 3);
}

#[test]
fn unavailable_keeps_prior_text() {
    let mut buf = String::new();
    refresh(&mut buf, &PollResult::Unavailable);
    assert_eq!(buf, "");

    let mut buf = String::from("Today's weather in Berlin is Clear and clouds are at 5 percent");
    refresh(&mut buf, &PollResult::Unavailable);
    assert_eq!(
        buf,
        "Today's weather in Berlin is Clear and clouds are at 5 percent"
    );

    let mut buf = String::from("arbitrary prior text");
    refresh(&mut buf, &PollResult::Unavailable);
    assert_eq!(buf, "arbitrary prior text");
}

#[test]
fn success_writes_exact_summary() {
    let mut buf = String::new();
    refresh(&mut buf, &success("Berlin", "Clear", 5));
    assert_eq!(
        buf,
        "Today's weather in Berlin is Clear and clouds are at 5 percent"
    );
}

#[test]
fn success_overwrites_prior_text_fully() {
    let mut buf = String::from("stale text from an earlier frame");
    refresh(&mut buf, &success("Oslo", "Clouds", 100));
    assert_eq!(
        buf,
        "Today's weather in Oslo is Clouds and clouds are at 100 percent"
    );
}

#[test]
fn success_renders_zero_percent() {
    let mut buf = String::new();
    refresh(&mut buf, &success("Cairo", "Clear", 0));
    assert_eq!(
        buf,
        "Today's weather in Cairo is Clear and clouds are at 0 percent"
    );
}

#[test]
fn failure_writes_exact_error_text() {
    let mut buf = String::from("previous summary");
    refresh(
        &mut buf,
        &PollResult::Failure {
            description: String::from("timeout"),
        },
    );
    assert_eq!(buf, "Could not fetch weather because: timeout");
}

#[test]
fn compose_tab_strip_splits_titles() {
    let app = App::new();
    let frame = compose(&app, &String::new());
    assert_eq!(frame.tabs.selected, 0);
    assert_eq!(frame.tabs.lines.len(), 4);
    for (j, line) in frame.tabs.lines.iter().enumerate() {
        assert_eq!(line.head, "T");
        assert_eq!(line.rest, format!("ab{}", j));
    }
}

#[test]
fn compose_selected_zero_shows_snapshot_verbatim() {
    let app = App::new();
    let snapshot = String::from("Today's weather in Berlin is Clear and clouds are at 5 percent");
    let frame = compose(&app, &snapshot);
    assert_eq!(pane_body(&frame.pane), snapshot);
    match &frame.pane.title {
        PaneTitle::Report {
            left,
            center,
            right,
        } => {
            assert_eq!(left, "-Y-O-U-R-");
            assert_eq!(center, "-W-E-A-T-H-E-R-");
            assert_eq!(right, "-R-E-P-O-R-T-");
        }
        PaneTitle::Plain { .. } => panic!("weather tab must use the report frame"),
    }
}

#[test]
fn compose_stub_tabs_ignore_snapshot() {
    let expected: [(&str, Option<&str>); 3] = [
        ("hello", Some("inner 1")),
        ("hello once", None),
        ("hello again", Some("inner 3")),
    ];
    for (offset, (body, plain_title)) in expected.iter().enumerate() {
        let mut app = App::new();
        app.index = offset + 1;
        let with_empty = compose(&app, &String::new());
        let with_text = compose(&app, &String::from("some snapshot text"));
        assert_eq!(pane_body(&with_empty.pane), *body);
        assert_eq!(pane_body(&with_text.pane), *body);
        match (&with_text.pane.title, plain_title) {
            (PaneTitle::Plain { title }, Some(want)) => assert_eq!(title, want),
            (PaneTitle::Report { center, .. }, None) => assert_eq!(center, "-W-E-A-T-H-E-R-"),
            _ => panic!("stub tab framed with the wrong title kind"),
        }
    }
}

#[test]
fn ui_refreshes_before_composing() {
    let app = App::new();
    let mut buf = String::new();
    let frame = ui(&app, &mut buf, &success("Berlin", "Clear", 5));
    assert_eq!(
        buf,
        "Today's weather in Berlin is Clear and clouds are at 5 percent"
    );
    assert_eq!(pane_body(&frame.pane), buf);
}

#[test]
fn step_ignores_releases_and_unmapped_keys() {
    let mut app = App::new();
    assert!(!step(&mut app, &SessionEvent::OtherInput));
    assert_eq!(app.index, 0);
    assert!(!step(
        &mut app,
        &SessionEvent::KeyPress(InputKey::Character('x'))
    ));
    assert_eq!(app.index, 0);
    assert!(!step(&mut app, &SessionEvent::KeyPress(InputKey::Other)));
    assert_eq!(app.index, 0);
}

#[test]
fn end_to_end_three_rights_wrap_then_quit() {
    let mut app = App::new();
    let mut buf = String::new();
    let frame = ui(&app, &mut buf, &PollResult::Unavailable);
    assert_eq!(buf, "");
    assert_eq!(pane_body(&frame.pane), "");

    let right = SessionEvent::KeyPress(InputKey::RightArrow);
    assert!(!step(&mut app, &right));
    assert!(!step(&mut app, &right));
    assert!(!step(&mut app, &right));
    assert_eq!(app.index, 3);

    assert!(!step(&mut app, &right));
    assert_eq!(app.index, 0);

    let quit = step(&mut app, &SessionEvent::KeyPress(InputKey::Character('q')));
    assert!(quit);
    assert_eq!(app.index, 0);
}
