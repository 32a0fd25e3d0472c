use plygui_qt::application::{
    close_outcome, consults_callback, frame_sleep, should_quit, timer_interval, CloseOutcome, FramePump,
    PumpAction, PumpEvent,
};
use plygui_qt::control::{
    draw_plan, propagates_invalidation, resized, size_policy, text_wrap_limits, visibility_flags,
    ExtentConstraint, SizePolicy, WidgetEvent,
};
use plygui_qt::find::{first_match_from, is_match, ControlKey, FindBy};
use plygui_qt::frame;
use plygui_qt::image::{content_size, crop_rect, scale_changes, ImageScalePolicy};
use plygui_qt::layout::{LayoutParams, Margins, Size, Visibility};
use plygui_qt::menu::{arrange_level, MenuItem, MenuRole};
use plygui_qt::message::{chosen_action, event_handler, message_icon_to_severity, severity_to_message_icon, MessageIcon, MessageSeverity};
use plygui_qt::progress::{bar_setting, read_progress, BarSetting, Progress};
use plygui_qt::window::{start_extent, window_size, WindowStartSize};

fn margins() -> Margins {
    Margins { left: 1, top: 2, right: 3, bottom: 4 }
}

#[test]
fn size_policies_follow_the_request() {
    assert_eq!(size_policy(Size::MatchParent), (SizePolicy::Expanding, ExtentConstraint::AtLeast(1)));
    assert_eq!(size_policy(Size::WrapContent), (SizePolicy::Minimum, ExtentConstraint::AtLeast(1)));
    assert_eq!(size_policy(Size::Exact(5)), (SizePolicy::Fixed, ExtentConstraint::Exactly(5)));
    let params = LayoutParams { width: Size::Exact(5), height: Size::MatchParent };
    assert_eq!(draw_plan(false, params), None);
    assert_eq!(
        draw_plan(true, params),
        Some(((SizePolicy::Fixed, ExtentConstraint::Exactly(5)), (SizePolicy::Expanding, ExtentConstraint::AtLeast(1))))
    );
}

#[test]
fn visibility_sets_room_and_shown() {
    assert_eq!(visibility_flags(Visibility::Visible), (true, true));
    assert_eq!(visibility_flags(Visibility::Invisible), (true, false));
    assert_eq!(visibility_flags(Visibility::Gone), (false, false));
}

#[test]
fn resize_events_and_invalidation() {
    assert_eq!(resized(-3, 70000), (0, 4464));
    assert!(propagates_invalidation(true, true, false));
    assert!(!propagates_invalidation(false, true, false));
    assert!(!propagates_invalidation(true, false, false));
    assert!(!propagates_invalidation(true, true, true));
    let params = LayoutParams { width: Size::WrapContent, height: Size::Exact(3) };
    assert_eq!(text_wrap_limits(params, (40, 50)), (Some(40), None));
}

#[test]
fn frames_wrap_title_and_child() {
    let wrap = LayoutParams { width: Size::WrapContent, height: Size::WrapContent };
    assert_eq!(frame::measure(Visibility::Visible, wrap, 0, 0, margins(), 15, Some((10, 20)), (0, 0)), (14, 41, true));
    assert_eq!(frame::measure(Visibility::Visible, wrap, 0, 0, margins(), 15, None, (0, 0)), (0, 0, false));
    let fill = LayoutParams { width: Size::MatchParent, height: Size::Exact(9) };
    assert_eq!(frame::measure(Visibility::Visible, fill, 80, 0, margins(), 15, None, (80, 9)), (80, 9, false));
}

#[test]
fn images_wrap_and_crop() {
    assert_eq!(content_size((30, 40), margins()), (34, 46));
    assert_eq!(crop_rect((100, 50), (40, 61)), (30, -5, 40, 61));
    assert!(scale_changes(ImageScalePolicy::FitCenter, ImageScalePolicy::CropCenter));
    assert!(!scale_changes(ImageScalePolicy::CropCenter, ImageScalePolicy::CropCenter));
}

#[test]
fn progress_settings_and_reading() {
    assert_eq!(bar_setting(Progress::Value(3, 10)), BarSetting { inverted: false, maximum: 0, value: Some(3) });
    assert_eq!(bar_setting(Progress::Value(3, 0)), BarSetting { inverted: false, maximum: 1, value: Some(3) });
    assert_eq!(bar_setting(Progress::Undefined), BarSetting { inverted: false, maximum: 0, value: None });
    assert_eq!(bar_setting(Progress::Absent), BarSetting { inverted: true, maximum: 0, value: None });
    assert_eq!(read_progress(true, 5, 2), Progress::Absent);
    assert_eq!(read_progress(false, 0, 2), Progress::Undefined);
    assert_eq!(read_progress(false, 10, 4), Progress::Value(4, 10));
}

#[test]
fn progress_set_then_read() {
    for p in [Progress::Absent, Progress::Undefined, Progress::Value(7, 9)] {
        let s = bar_setting(p);
        let back = read_progress(s.inverted, s.maximum, s.value.unwrap_or(0));
        let expected = if p == Progress::Absent { Progress::Absent } else { Progress::Undefined };
        assert_eq!(back, expected);
    }
    let s = bar_setting(Progress::Value(1, 0));
    assert_eq!(read_progress(s.inverted, s.maximum, 1), Progress::Value(1, 1));
}

#[test]
fn message_severity_and_buttons() {
    for s in [MessageSeverity::Info, MessageSeverity::Warning, MessageSeverity::Alert] {
        assert_eq!(message_icon_to_severity(severity_to_message_icon(s)), s);
    }
    assert_eq!(severity_to_message_icon(MessageSeverity::Alert), MessageIcon::Critical);
    assert_eq!(chosen_action(3, 1), Some(1));
    assert_eq!(chosen_action(3, 3), None);
    assert_eq!(chosen_action(3, -1), None);
    assert!(!event_handler(WidgetEvent::Resize(1, 2)));
    assert!(!event_handler(WidgetEvent::Close));
}

#[test]
fn menus_put_special_roles_last() {
    let items: Vec<MenuItem<i32>> = vec![
        MenuItem::Action("help".to_string(), 1, MenuRole::Help),
        MenuItem::Action("a".to_string(), 2, MenuRole::Regular),
        MenuItem::Delimiter,
        MenuItem::Sub("opt".to_string(), vec![], MenuRole::Options),
        MenuItem::Action("b".to_string(), 3, MenuRole::Regular),
        MenuItem::Action("pref".to_string(), 4, MenuRole::Options),
    ];
    let labels: Vec<String> = arrange_level(items)
        .into_iter()
        .map(|i| match i {
            MenuItem::Action(l, _, _) | MenuItem::Sub(l, _, _) => l,
            MenuItem::Delimiter => "-".to_string(),
        })
        .collect();
    assert_eq!(labels, vec!["a", "-", "b", "opt", "pref", "help"]);
}

#[test]
fn controls_are_found_by_id_or_tag() {
    let keys = vec![
        ControlKey { id: 1, tag: None },
        ControlKey { id: 2, tag: Some("ok".to_string()) },
        ControlKey { id: 3, tag: Some("ok".to_string()) },
    ];
    assert!(is_match(&keys[0], &FindBy::Id(1)));
    assert!(!is_match(&keys[0], &FindBy::Tag("ok".to_string())));
    assert!(is_match(&keys[1], &FindBy::Tag("ok".to_string())));
    assert_eq!(first_match_from(&keys, &FindBy::Tag("ok".to_string()), 0), Some(1));
    assert_eq!(first_match_from(&keys, &FindBy::Tag("ok".to_string()), 2), Some(2));
    assert_eq!(first_match_from(&keys, &FindBy::Id(1), 1), None);
    assert_eq!(first_match_from(&keys, &FindBy::Id(9), 0), None);
    assert_eq!(first_match_from(&keys, &FindBy::Id(1), 7), None);
}

#[test]
fn application_quits_and_pumps() {
    assert!(should_quit(0, 0));
    assert!(!should_quit(1, 0));
    assert!(!should_quit(0, 2));
    assert_eq!(frame_sleep(-1), 0);
    assert_eq!(frame_sleep(10), 10);
    assert_eq!(timer_interval(10), 10);
    assert_eq!(timer_interval(u32::MAX), -1);
    let mut pump = FramePump::new(2);
    assert!(pump.wants_more());
    assert_eq!(pump.on_event(PumpEvent::Ran(true)), PumpAction::Requeue);
    assert_eq!(pump.on_event(PumpEvent::Ran(false)), PumpAction::Next);
    assert!(!pump.wants_more());
    let mut pump = FramePump::new(5);
    assert_eq!(pump.on_event(PumpEvent::Empty), PumpAction::Stop);
    assert_eq!(pump.handled, 0);
}

#[test]
fn close_requests_can_be_vetoed() {
    assert!(consults_callback(false, true));
    assert!(!consults_callback(true, true));
    assert!(!consults_callback(false, false));
    assert_eq!(close_outcome(false, Some(false)), CloseOutcome::Vetoed);
    assert_eq!(close_outcome(false, Some(true)), CloseOutcome::Closing);
    assert_eq!(close_outcome(true, Some(false)), CloseOutcome::Closing);
    assert_eq!(close_outcome(false, None), CloseOutcome::Closing);
}

#[test]
fn windows_start_and_report_size() {
    assert_eq!(start_extent(WindowStartSize::Exact(800, 600), (1, 1)), (800, 600));
    assert_eq!(start_extent(WindowStartSize::Fullscreen, (1920, 1080)), (1920, 1080));
    assert_eq!(window_size(70000, 5), (4464, 5));
}
