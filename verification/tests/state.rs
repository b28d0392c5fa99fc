use deskscope::app::{AppState, TickAction, TickEvent, TickPhase, UiCommand};
use deskscope::config::Config;
use deskscope::views::Size;

const SEC: u128 = 1_000_000_000;

fn app(secs: u64) -> AppState {
    let config = Config::from_file("/photos".to_string(), Some(secs));
    let size = Size {
        width: 2,
        height: 1,
    };
    AppState::new(size, config, 100)
}

fn status(app: &AppState) -> Option<(&str, u128)> {
    app.status.as_ref().map(|s| (s.msg.as_str(), s.until))
}

#[test]
fn starts_on_and_without_a_menu() {
    let app = app(5);
    assert_eq!(app.actual_size.width, 2);
    assert_eq!(app.actual_size.height, 1);
    assert_eq!(app.config.photo_directory, "/photos");
    assert_eq!(app.config.power_off_after_secs, 5);
    assert!(!app.menu_visible);
    assert!(!app.powered_off);
    assert_eq!(app.last_activity, 100);
    assert!(app.status.is_none());
}

#[test]
fn menu_opens_and_closes() {
    let mut app = app(0);
    app.show_menu();
    assert!(app.menu_visible);
    app.dismiss_menu();
    assert!(!app.menu_visible);
}

#[test]
fn power_off_closes_the_menu() {
    let mut app = app(0);
    app.show_menu();
    app.power_off();
    assert!(app.powered_off);
    assert!(!app.menu_visible);
    app.wake();
    assert!(!app.powered_off);
    assert!(!app.menu_visible);
}

#[test]
fn toggling_power_counts_as_activity() {
    let mut app = app(0);
    app.show_menu();
    app.toggle_power(777);
    assert!(app.powered_off);
    assert!(!app.menu_visible);
    assert_eq!(app.last_activity, 777);
    app.toggle_power(778);
    assert!(!app.powered_off);
    assert_eq!(app.last_activity, 778);
}

#[test]
fn status_is_shown_for_two_seconds() {
    let mut app = app(0);
    app.show_status("hello".to_string(), 5);
    assert_eq!(status(&app), Some(("hello", 5 + 2 * SEC)));
    app.tick(TickPhase::PowerPin, TickEvent::Drained, 5 + 2 * SEC);
    assert_eq!(status(&app), Some(("hello", 5 + 2 * SEC)));
    app.tick(TickPhase::PowerPin, TickEvent::Drained, 6 + 2 * SEC);
    assert_eq!(status(&app), None);
}

#[test]
fn each_command_is_obeyed() {
    let mut app = app(0);
    let cases = [
        (UiCommand::ShowMenu, true, false, TickAction::Proceed),
        (UiCommand::DismissMenu, false, false, TickAction::Proceed),
        (UiCommand::ShowMenu, true, false, TickAction::Proceed),
        (UiCommand::PowerOff, false, true, TickAction::Proceed),
        (UiCommand::ShowMenu, true, true, TickAction::Proceed),
        (UiCommand::Wake, true, false, TickAction::Proceed),
        (UiCommand::TakePhoto, true, false, TickAction::TakePhoto),
    ];
    let mut now = 200;
    for (command, menu, off, action) in cases {
        let next = app.tick(TickPhase::Commands, TickEvent::Command(command), now);
        assert_eq!(next, (TickPhase::Commands, action));
        assert_eq!(app.menu_visible, menu);
        assert_eq!(app.powered_off, off);
        assert_eq!(app.last_activity, now);
        now += 1;
    }
}

#[test]
fn a_step_goes_through_its_phases() {
    let mut app = app(0);
    let mut phase = TickPhase::Commands;
    let events = [
        (TickEvent::Drained, TickPhase::Requests, TickAction::Proceed),
        (TickEvent::Request, TickPhase::Requests, TickAction::Requeue),
        (TickEvent::Request, TickPhase::Requests, TickAction::Requeue),
        (TickEvent::Drained, TickPhase::PowerPin, TickAction::Proceed),
        (
            TickEvent::PinShorted,
            TickPhase::PowerPin,
            TickAction::Proceed,
        ),
        (TickEvent::Drained, TickPhase::Commands, TickAction::Refresh),
    ];
    for (event, next, action) in events {
        let result = app.tick(phase, event, 300);
        assert_eq!(result, (next, action));
        phase = result.0;
    }
    assert!(app.powered_off);
}

#[test]
fn idle_device_powers_off_at_the_timeout() {
    let mut app = app(5);
    app.show_menu();
    app.tick(TickPhase::Requests, TickEvent::Drained, 99 + 5 * SEC);
    assert!(!app.powered_off);
    app.tick(TickPhase::Requests, TickEvent::Drained, 100 + 5 * SEC);
    assert!(app.powered_off);
    assert!(app.menu_visible);
    assert_eq!(app.last_activity, 100);
}

#[test]
fn zero_seconds_disable_auto_power_off() {
    let mut app = app(0);
    app.tick(TickPhase::Requests, TickEvent::Drained, 1_000_000 * SEC);
    assert!(!app.powered_off);
}

#[test]
fn a_clock_before_the_last_activity_is_no_inactivity() {
    let mut app = app(1);
    app.tick(TickPhase::Requests, TickEvent::Drained, 0);
    assert!(!app.powered_off);
}

#[test]
fn a_command_restarts_the_timeout() {
    let mut app = app(5);
    let later = 100 + 4 * SEC;
    app.tick(
        TickPhase::Commands,
        TickEvent::Command(UiCommand::DismissMenu),
        later,
    );
    app.tick(TickPhase::Requests, TickEvent::Drained, 100 + 6 * SEC);
    assert!(!app.powered_off);
    app.tick(TickPhase::Requests, TickEvent::Drained, later + 5 * SEC);
    assert!(app.powered_off);
}

#[test]
fn waking_lasts_through_the_step() {
    let mut app = app(5);
    app.power_off();
    let later = 100 + 60 * SEC;
    app.tick(
        TickPhase::Commands,
        TickEvent::Command(UiCommand::Wake),
        later,
    );
    app.tick(TickPhase::Requests, TickEvent::Drained, later + 1);
    assert!(!app.powered_off);
}

#[test]
fn waking_lasts_through_later_commands_and_requests() {
    let mut app = app(5);
    app.power_off();
    let later = 100 + 60 * SEC;
    let step = [
        (TickEvent::Command(UiCommand::Wake), later),
        (TickEvent::Command(UiCommand::ShowMenu), later + SEC),
        (TickEvent::Command(UiCommand::TakePhoto), later + 2 * SEC),
        (TickEvent::Drained, later + 3 * SEC),
        (TickEvent::Request, later + 4 * SEC),
        (TickEvent::Drained, later + 5 * SEC - 1),
        (TickEvent::Drained, later + 9 * SEC),
    ];
    let mut phase = TickPhase::Commands;
    for (event, now) in step {
        phase = app.tick(phase, event, now).0;
    }
    assert_eq!(phase, TickPhase::Commands);
    assert!(!app.powered_off);
    assert!(app.menu_visible);
    assert_eq!(app.last_activity, later + 2 * SEC);
}

#[test]
fn the_power_pin_has_the_last_word_in_a_step() {
    let mut app = app(5);
    app.show_menu();
    let step = [
        (TickEvent::Drained, 100),
        (TickEvent::Request, 101),
        (TickEvent::Request, 102),
        (TickEvent::Drained, 100 + 5 * SEC),
        (TickEvent::PinShorted, 100 + 6 * SEC),
        (TickEvent::Drained, 100 + 7 * SEC),
    ];
    let mut phase = TickPhase::Commands;
    for (event, now) in step {
        phase = app.tick(phase, event, now).0;
    }
    assert_eq!(phase, TickPhase::Commands);
    assert!(!app.powered_off);
    assert!(!app.menu_visible);
    assert_eq!(app.last_activity, 100 + 6 * SEC);
}

#[test]
fn the_power_pin_wakes_an_idle_device() {
    let mut app = app(5);
    app.tick(TickPhase::Requests, TickEvent::Drained, 100 + 9 * SEC);
    assert!(app.powered_off);
    app.tick(TickPhase::PowerPin, TickEvent::PinShorted, 101 + 9 * SEC);
    assert!(!app.powered_off);
    assert_eq!(app.last_activity, 101 + 9 * SEC);
}

#[test]
fn two_shorts_of_the_power_pin_cancel_out() {
    let mut app = app(0);
    app.tick(TickPhase::PowerPin, TickEvent::PinShorted, 200);
    app.tick(TickPhase::PowerPin, TickEvent::PinShorted, 201);
    assert!(!app.powered_off);
    app.tick(TickPhase::PowerPin, TickEvent::PinShorted, 202);
    assert!(app.powered_off);
}

#[test]
fn configuration_stays_through_a_step() {
    let mut app = app(5);
    app.tick(
        TickPhase::Commands,
        TickEvent::Command(UiCommand::PowerOff),
        200,
    );
    app.tick(TickPhase::PowerPin, TickEvent::PinShorted, 201);
    app.tick(TickPhase::PowerPin, TickEvent::Drained, 202);
    assert_eq!(app.config.photo_directory, "/photos");
    assert_eq!(app.config.power_off_after_secs, 5);
    assert_eq!((app.actual_size.width, app.actual_size.height), (2, 1));
}

#[test]
fn photo_is_the_first_bytes_of_the_frame() {
    let mut app = app(0);
    let photo = app.save_photo(&[1, 2, 3, 4, 5, 6, 7, 8], 10).unwrap();
    assert_eq!(photo.width, 2);
    assert_eq!(photo.height, 1);
    assert_eq!(photo.pixels, vec![1, 2, 3, 4, 5, 6]);
    assert!(app.status.is_none());
}

#[test]
fn no_photo_without_a_frame() {
    let mut app = app(0);
    assert!(app.save_photo(&[], 10).is_none());
    assert_eq!(status(&app), Some(("No frame to save", 10 + 2 * SEC)));
}

#[test]
fn no_photo_from_a_short_frame() {
    let config = Config::from_file("/photos".to_string(), None);
    let size = Size {
        width: 1280,
        height: 720,
    };
    let mut app = AppState::new(size, config, 0);
    assert!(app.save_photo(&[9; 12], 10).is_none());
    assert_eq!(
        status(&app),
        Some(("Frame buffer too small: 12 < 2764800", 10 + 2 * SEC))
    );
}

#[test]
fn photo_of_an_empty_picture_has_no_pixels() {
    let config = Config::from_file("/photos".to_string(), None);
    let size = Size {
        width: 0,
        height: 7,
    };
    let mut app = AppState::new(size, config, 0);
    let photo = app.save_photo(&[9], 10).unwrap();
    assert_eq!((photo.width, photo.height), (0, 7));
    assert!(photo.pixels.is_empty());
}

#[test]
fn a_missing_photo_directory_is_reported() {
    let mut app = app(0);
    let name = app.photo_directory_made(Err("read-only".to_string()), 10);
    assert!(name.is_none());
    assert_eq!(
        status(&app),
        Some(("Cannot create photo dir: read-only", 10 + 2 * SEC))
    );
}

#[test]
fn a_photo_is_named_after_the_clock() {
    let mut app = app(0);
    let name = app.photo_directory_made(Ok(()), 10).unwrap();
    assert!(app.status.is_none());
    assert!(name.starts_with("deskscope_"));
    assert!(name.ends_with(".png"));
    let stamp = &name["deskscope_".len()..name.len() - ".png".len()];
    assert_eq!(stamp.len(), 15);
    assert_eq!(&stamp[8..9], "_");
    assert!(stamp[..8].parse::<u32>().unwrap() >= 20200101);
    assert!(stamp[9..].parse::<u32>().unwrap() <= 235959);
}

#[test]
fn a_written_photo_is_reported() {
    let mut app = app(0);
    app.photo_written("a.png", Ok(()), 10);
    assert_eq!(status(&app), Some(("Saved a.png", 10 + 2 * SEC)));
    app.photo_written("a.png", Err("disk full".to_string()), 20);
    assert_eq!(status(&app), Some(("Save failed: disk full", 20 + 2 * SEC)));
}
