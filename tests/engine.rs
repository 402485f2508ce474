use squeekboard::animation::{self, Contents, Timestamp, HIDING_TIMEOUT};
use squeekboard::commands::SetLayout;
use squeekboard::debug;
use squeekboard::imservice::{ContentHint, ContentPurpose};
use squeekboard::layout::ArrangementKind;
use squeekboard::outputs::{self, ChangeType, Geometry, Mode, OutputId, OutputState, Size, Transform};
use squeekboard::panel::{self, PixelSize};
use squeekboard::popover::LayoutId;
use squeekboard::state::visibility;
use squeekboard::state::{
    Application, Event, InputMethod, InputMethodDetails, LayoutChoice, LayoutSource, Outcome, Presence,
};

fn details(purpose: ContentPurpose) -> InputMethodDetails {
    InputMethodDetails { purpose, hint: ContentHint::none() }
}

fn phone() -> OutputState {
    OutputState {
        current_mode: Some(Mode { width: 720, height: 1440 }),
        geometry: Some(Geometry {
            transform: Transform::Normal,
            phys_size: Size { width: Some(65), height: Some(130) },
        }),
        scale: 2,
    }
}

fn altered(id: u64, st: OutputState) -> Event {
    Event::Output(outputs::Event { output: OutputId(id), change: ChangeType::Altered(st) })
}

fn removed(id: u64) -> Event {
    Event::Output(outputs::Event { output: OutputId(id), change: ChangeType::Removed })
}

fn active_app(now: Timestamp) -> Application {
    let app = Application::new(now).apply_event(altered(5, phone()), now);
    app.apply_event(Event::InputMethod(InputMethod::Active(details(ContentPurpose::Normal))), now)
}

fn visible(app: &Application, t: i64) -> bool {
    matches!(app.get_outcome(Timestamp(t)).panel, animation::Outcome::Visible { .. })
}

#[test]
fn new_application_defaults() {
    let app = Application::new(Timestamp(7));
    assert_eq!(app.im, InputMethod::InactiveSince(Timestamp(7)));
    assert_eq!(app.preferred_output, None);
    assert_eq!(app.layout_choice.name, "us");
    assert_eq!(app.layout_choice.source, LayoutSource::Xkb);
    assert_eq!(app.get_outcome(Timestamp(7)).panel, animation::Outcome::Hidden);
}

#[test]
fn inactive_notice_keeps_oldest_moment() {
    let app = Application::new(Timestamp(1000));
    let app = app.apply_event(Event::InputMethod(InputMethod::InactiveSince(Timestamp(1500))), Timestamp(1500));
    assert_eq!(app.im, InputMethod::InactiveSince(Timestamp(1000)));
    let app = app.apply_event(Event::InputMethod(InputMethod::InactiveSince(Timestamp(900))), Timestamp(1600));
    assert_eq!(app.im, InputMethod::InactiveSince(Timestamp(900)));
}

#[test]
fn hiding_delay_boundary() {
    let now = 10_000;
    let app = active_app(Timestamp(now));
    let app = app.apply_event(Event::InputMethod(InputMethod::InactiveSince(Timestamp(now))), Timestamp(now));
    assert!(visible(&app, now));
    assert!(visible(&app, now + HIDING_TIMEOUT - 1));
    assert!(!visible(&app, now + HIDING_TIMEOUT));
    assert!(!visible(&app, now + 5000));
    assert_eq!(app.get_next_wake(Timestamp(now)), Some(Timestamp(now + HIDING_TIMEOUT)));
    assert_eq!(app.get_next_wake(Timestamp(now + HIDING_TIMEOUT)), None);
    // Later events other than an active input method keep it hidden.
    let later = now + 1000;
    let app = app.apply_event(Event::PhysicalKeyboard(Presence::Missing), Timestamp(later));
    let app = app.apply_event(Event::InputMethod(InputMethod::InactiveSince(Timestamp(later))), Timestamp(later));
    let app = app.apply_event(Event::TimeoutReached(Timestamp(later)), Timestamp(later));
    assert!(!visible(&app, later));
}

#[test]
fn forced_states_dominate() {
    let now = 10_000;
    let app = active_app(Timestamp(now));
    let app = app.apply_event(Event::Visibility(visibility::Event::ForceHidden), Timestamp(now));
    assert!(!visible(&app, now));
    let app = app.apply_event(Event::PhysicalKeyboard(Presence::Missing), Timestamp(now));
    assert!(!visible(&app, now + 10_000));
    assert_eq!(app.get_next_wake(Timestamp(now)), None);
    let app = app.apply_event(Event::Visibility(visibility::Event::ForceVisible), Timestamp(now));
    let app = app.apply_event(Event::PhysicalKeyboard(Presence::Present), Timestamp(now));
    assert!(visible(&app, now + 10_000));
}

#[test]
fn forced_hidden_then_inactive_is_backdated() {
    let now = 10_000;
    let app = active_app(Timestamp(now));
    let app = app.apply_event(Event::Visibility(visibility::Event::ForceHidden), Timestamp(now));
    let app = app.apply_event(Event::InputMethod(InputMethod::InactiveSince(Timestamp(now))), Timestamp(now));
    assert_eq!(app.im, InputMethod::InactiveSince(Timestamp(now - 2 * HIDING_TIMEOUT)));
    assert_eq!(app.visibility_override, visibility::State::NotForced);
    assert!(!visible(&app, now));
}

#[test]
fn physical_keyboard_hides_and_returns() {
    let now = 10_000;
    let app = active_app(Timestamp(now));
    assert!(visible(&app, now));
    let app = app.apply_event(Event::PhysicalKeyboard(Presence::Present), Timestamp(now));
    assert!(!visible(&app, now));
    let app = app.apply_event(Event::PhysicalKeyboard(Presence::Missing), Timestamp(now));
    assert!(visible(&app, now));
}

#[test]
fn outcome_carries_size_layout_and_purpose() {
    let now = Timestamp(50);
    let app = Application::new(now).apply_event(altered(5, phone()), now);
    let app = app.apply_event(Event::InputMethod(InputMethod::Active(details(ContentPurpose::Email))), now);
    let app = app.apply_event(
        Event::LayoutChoice(LayoutChoice { name: "de".to_string(), source: LayoutSource::from("xkb".to_string()) }),
        now,
    );
    let outcome = app.get_outcome(now);
    assert_eq!(
        outcome.panel,
        animation::Outcome::Visible {
            output: OutputId(5),
            height: PixelSize { scale_factor: 2, pixels: 420 },
            contents: Contents {
                kind: ArrangementKind::Base,
                name: "de".to_string(),
                overlay_name: None,
                purpose: ContentPurpose::Email,
            },
        }
    );
    let app = app.apply_event(Event::OverlayChanged(LayoutId::Local("emoji".to_string())), now);
    let (name, overlay) = app.get_layout_names();
    assert_eq!(name, "de");
    assert_eq!(overlay, Some("emoji".to_string()));
    let app = app.apply_event(Event::OverlayChanged(LayoutId::System { name: "fr".to_string() }), now);
    assert_eq!(app.get_layout_names(), ("fr".to_string(), None));
    let app = app.apply_event(
        Event::LayoutChoice(LayoutChoice { name: "it".to_string(), source: LayoutSource::from("gnome".to_string()) }),
        now,
    );
    assert_eq!(app.overlay_layout, None);
    assert_eq!(app.layout_choice.source, LayoutSource::Other("gnome".to_string()));
    assert_eq!(app.get_layout_names(), ("it".to_string(), None));
}

#[test]
fn removing_preferred_output_picks_lowest() {
    let now = Timestamp(0);
    let app = Application::new(now);
    let app = app.apply_event(altered(9, phone()), now);
    let app = app.apply_event(altered(4, phone()), now);
    let app = app.apply_event(altered(7, phone()), now);
    assert_eq!(app.preferred_output, Some(OutputId(9)));
    let app = app.apply_event(removed(9), now);
    assert_eq!(app.preferred_output, Some(OutputId(4)));
    let app = app.apply_event(removed(7), now);
    assert_eq!(app.preferred_output, Some(OutputId(4)));
    let app = app.apply_event(removed(4), now);
    assert_eq!(app.preferred_output, None);
    assert!(app.outputs.is_empty());
}

#[test]
fn debug_and_timeout_events() {
    let now = Timestamp(0);
    let app = Application::new(now).apply_event(Event::Debug(debug::Event::Enable), now);
    assert!(app.debug_mode_enabled);
    let app = app.apply_event(Event::Debug(debug::Event::Disable), now);
    assert!(!app.debug_mode_enabled);
    let before = app.clone();
    let app = app.apply_event(Event::new_timeout_reached(Timestamp(3)), now);
    assert_eq!(app, before);
    assert_eq!(Event::new_timeout_reached(Timestamp(3)).get_timeout_reached(), Some(Timestamp(3)));
    assert_eq!(Event::PhysicalKeyboard(Presence::Present).get_timeout_reached(), None);
}

#[test]
fn size_without_physical_size_uses_default_density() {
    let st = OutputState { current_mode: Some(Mode { width: 720, height: 1440 }), geometry: None, scale: 1 };
    assert_eq!(
        Application::get_preferred_height_and_arrangement(&st),
        Some((PixelSize { scale_factor: 1, pixels: 420 }, ArrangementKind::Base)),
    );
    let st = OutputState { current_mode: None, geometry: None, scale: 1 };
    assert_eq!(Application::get_preferred_height_and_arrangement(&st), None);
}

#[test]
fn size_of_turned_output() {
    let st = OutputState {
        current_mode: Some(Mode { width: 720, height: 1440 }),
        geometry: Some(Geometry {
            transform: Transform::Rotated90,
            phys_size: Size { width: Some(65), height: Some(130) },
        }),
        scale: 2,
    };
    assert_eq!(
        Application::get_preferred_height_and_arrangement(&st),
        Some((PixelSize { scale_factor: 2, pixels: 360 }, ArrangementKind::Wide)),
    );
}

fn visible_outcome(name: &str) -> Outcome {
    Outcome {
        panel: animation::Outcome::Visible {
            output: OutputId(1),
            height: PixelSize { scale_factor: 1, pixels: 300 },
            contents: Contents {
                kind: ArrangementKind::Base,
                name: name.to_string(),
                overlay_name: None,
                purpose: ContentPurpose::Normal,
            },
        },
        im: InputMethod::InactiveSince(Timestamp(0)),
    }
}

#[test]
fn commands_to_reach_outcomes() {
    let hidden = Outcome { panel: animation::Outcome::Hidden, im: InputMethod::InactiveSince(Timestamp(0)) };
    let us = visible_outcome("us");
    let c = hidden.get_commands_to_reach(&us);
    assert_eq!(
        c.panel_visibility,
        Some(panel::Command::Show { output: OutputId(1), height: PixelSize { scale_factor: 1, pixels: 300 } })
    );
    assert_eq!(c.dbus_visible_set, Some(true));
    match &us.panel {
        animation::Outcome::Visible { contents, .. } => {
            assert_eq!(c.layout_selection, Some(SetLayout { description: contents.clone() }));
        },
        animation::Outcome::Hidden => unreachable!(),
    }
    let c = us.get_commands_to_reach(&visible_outcome("us"));
    assert_eq!(c.layout_selection, None);
    assert_eq!(c.dbus_visible_set, Some(true));
    let c = us.get_commands_to_reach(&visible_outcome("de"));
    assert!(c.layout_selection.is_some());
    let c = us.get_commands_to_reach(&hidden);
    assert_eq!(c.panel_visibility, Some(panel::Command::Hide));
    assert_eq!(c.dbus_visible_set, Some(false));
    assert_eq!(c.layout_selection, None);
}

#[test]
fn events_from_parts() {
    let e: Event = InputMethod::InactiveSince(Timestamp(2)).into();
    assert_eq!(e, Event::InputMethod(InputMethod::InactiveSince(Timestamp(2))));
    let ev = outputs::Event { output: OutputId(3), change: ChangeType::Removed };
    let e: Event = ev.into();
    assert_eq!(e, Event::Output(ev));
}

#[test]
fn forced_hidden_backdating_at_clock_start() {
    let now = 0;
    let app = active_app(Timestamp(now));
    let app = app.apply_event(Event::Visibility(visibility::Event::ForceHidden), Timestamp(now));
    let app = app.apply_event(Event::InputMethod(InputMethod::InactiveSince(Timestamp(now))), Timestamp(now));
    assert_eq!(app.im, InputMethod::InactiveSince(Timestamp(-2 * HIDING_TIMEOUT)));
    assert_eq!(app.visibility_override, visibility::State::NotForced);
    assert_eq!(app.get_next_wake(Timestamp(now)), None);
    assert!(!visible(&app, now));
    assert!(!visible(&app, now + 1));
}
