use std::cell::Cell;

use deskscope::app::AppState;
use deskscope::config::Config;
use deskscope::views::raster::{fill_with_black, render_frame, Scaling};
use deskscope::views::slint_view::{invoke, Gesture, SlintView};
use deskscope::views::{Callbacks, Settings, Size, View};

type Callback = Box<dyn Fn() -> u32>;

fn size(width: u32, height: u32) -> Size {
    Size { width, height }
}

fn pixels(view: &SlintView<Callback>) -> Vec<u8> {
    let image = view.window.camera_image.as_ref().unwrap();
    image.to_rgba8().unwrap().as_bytes().to_vec()
}

#[test]
fn byte_lengths() {
    assert_eq!(size(1280, 720).byte_len(3), Some(2764800));
    assert_eq!(size(0, 720).byte_len(4), Some(0));
    assert_eq!(size(u32::MAX, u32::MAX).byte_len(4), None);
}

#[test]
fn black_fills_whole_pixels_only() {
    let mut rgba = [7u8; 10];
    fill_with_black(&mut rgba);
    assert_eq!(rgba, [0, 0, 0, 255, 0, 0, 0, 255, 7, 7]);
    let mut none: [u8; 0] = [];
    fill_with_black(&mut none);
}

#[test]
fn unscaled_frame_is_copied() {
    let frame = [1, 2, 3, 4, 5, 6];
    let scaling = Scaling {
        columns: vec![0, 1],
        rows: vec![0],
    };
    let mut rgba = [0u8; 8];
    render_frame(&frame, size(2, 1), 2, 1, &scaling, &mut rgba);
    assert_eq!(rgba, [1, 2, 3, 255, 4, 5, 6, 255]);
}

#[test]
fn stretched_frame_stands_in_the_middle() {
    // One red and one green pixel, doubled in both directions, in a window
    // that is one row higher and one column wider.
    let frame = [200, 0, 0, 0, 100, 0];
    let scaling = Scaling {
        columns: vec![0, 0, 1, 1],
        rows: vec![0, 0],
    };
    assert!(scaling.fits(5, 3));
    assert!(!scaling.fits(3, 3));
    assert!(!scaling.fits(5, 1));
    let mut rgba = vec![9u8; 5 * 3 * 4];
    render_frame(&frame, size(2, 1), 5, 3, &scaling, &mut rgba);
    let r = [200u8, 0, 0, 255];
    let g = [0u8, 100, 0, 255];
    let k = [9u8, 9, 9, 9];
    let rows = [[r, r, g, g, k], [r, r, g, g, k], [k, k, k, k, k]];
    assert_eq!(rgba, rows.concat().concat());
}

#[test]
fn margins_are_equal_on_both_sides() {
    let scaling = Scaling {
        columns: vec![0],
        rows: vec![0],
    };
    let mut rgba = [0u8; 3 * 3 * 4];
    render_frame(&[1, 2, 3], size(1, 1), 3, 3, &scaling, &mut rgba);
    let mut expected = [0u8; 3 * 3 * 4];
    expected[16..20].copy_from_slice(&[1, 2, 3, 255]);
    assert_eq!(rgba, expected);
}

#[test]
fn sources_outside_of_the_frame_leave_the_window() {
    let scaling = Scaling {
        columns: vec![0, 1],
        rows: vec![0, 1],
    };
    let mut rgba = [5u8; 2 * 2 * 4];
    render_frame(&[1, 2, 3], size(1, 1), 2, 2, &scaling, &mut rgba);
    let mut expected = [5u8; 2 * 2 * 4];
    expected[..4].copy_from_slice(&[1, 2, 3, 255]);
    assert_eq!(rgba, expected);
}

#[test]
fn short_frame_leaves_the_window() {
    let scaling = Scaling {
        columns: vec![0, 1],
        rows: vec![0],
    };
    let mut rgba = [5u8; 8];
    render_frame(&[1, 2, 3, 4, 5], size(2, 1), 2, 1, &scaling, &mut rgba);
    assert_eq!(rgba, [5u8; 8]);
}

#[test]
fn short_frame_leaves_a_buffer_of_any_length() {
    let scaling = Scaling {
        columns: vec![0, 1, 2, 3],
        rows: vec![0],
    };
    let mut rgba = [5u8; 3];
    render_frame(&[1, 2, 3, 4, 5], size(2, 1), 2, 1, &scaling, &mut rgba);
    assert_eq!(rgba, [5u8; 3]);
    render_frame(&[], size(2, 1), 1000, 1000, &scaling, &mut rgba);
    assert_eq!(rgba, [5u8; 3]);
}

#[test]
fn a_side_of_zero_leaves_a_buffer_of_any_length() {
    let one = Scaling {
        columns: vec![0],
        rows: vec![0],
    };
    let no_columns = Scaling {
        columns: vec![],
        rows: vec![0],
    };
    let no_rows = Scaling {
        columns: vec![0],
        rows: vec![],
    };
    let frame = [1, 2, 3];
    let mut rgba = [5u8; 2];
    render_frame(&frame, size(0, 1), 4, 4, &one, &mut rgba);
    render_frame(&frame, size(1, 0), 4, 4, &one, &mut rgba);
    render_frame(&frame, size(1, 1), 0, 4, &no_columns, &mut rgba);
    render_frame(&frame, size(1, 1), 4, 0, &no_rows, &mut rgba);
    assert_eq!(rgba, [5u8; 2]);
}

#[test]
fn empty_scaling_leaves_the_window() {
    let scaling = Scaling {
        columns: vec![],
        rows: vec![0],
    };
    let mut rgba = [5u8; 8];
    render_frame(&[1, 2, 3, 4, 5, 6], size(2, 1), 2, 1, &scaling, &mut rgba);
    assert_eq!(rgba, [5u8; 8]);
}

#[test]
fn new_view_has_shown_nothing() {
    let view = SlintView::<Callback>::new();
    assert!(view.window.camera_image.is_none());
    assert!(view.window.menu_visible.is_none());
    assert!(view.window.powered_off.is_none());
    assert!(view.window.status_text.is_none());
    assert_eq!(view.settings, Settings);
    assert_eq!(view.fire(Gesture::Wake), None);
}

#[test]
fn view_keeps_what_it_is_told() {
    let mut view = SlintView::<Callback>::new();
    view.set_menu_visible(true);
    view.set_powered_off(false);
    view.set_status(Some("saved".to_string()));
    view.set_settings(&Settings);
    assert_eq!(view.window.menu_visible, Some(true));
    assert_eq!(view.window.powered_off, Some(false));
    assert_eq!(view.window.status_text.as_deref(), Some("saved"));
    view.set_status(None);
    assert_eq!(view.window.status_text.as_deref(), Some(""));
}

#[test]
fn window_shows_the_frame_on_black() {
    let mut view = SlintView::<Callback>::new();
    let scaling = Scaling {
        columns: vec![0],
        rows: vec![0],
    };
    view.update_frame(&[1, 2, 3], size(1, 1), size(3, 1), &scaling);
    let image = view.window.camera_image.as_ref().unwrap();
    assert_eq!((image.size().width, image.size().height), (3, 1));
    assert_eq!(pixels(&view), [0, 0, 0, 255, 1, 2, 3, 255, 0, 0, 0, 255]);
}

#[test]
fn window_is_black_without_a_whole_frame() {
    let mut view = SlintView::<Callback>::new();
    let scaling = Scaling {
        columns: vec![0],
        rows: vec![0, 0],
    };
    let black = [0, 0, 0, 255, 0, 0, 0, 255];
    view.update_frame(&[], size(1, 1), size(1, 2), &scaling);
    assert_eq!(pixels(&view), black);
    view.update_frame(&[1, 2], size(1, 1), size(1, 2), &scaling);
    assert_eq!(pixels(&view), black);
}

#[test]
fn window_without_an_area_keeps_its_picture() {
    let mut view = SlintView::<Callback>::new();
    let none = Scaling {
        columns: vec![],
        rows: vec![],
    };
    view.update_frame(&[1, 2, 3], size(1, 1), size(0, 5), &none);
    assert!(view.window.camera_image.is_none());
    let one = Scaling {
        columns: vec![0],
        rows: vec![0],
    };
    view.update_frame(&[1, 2, 3], size(1, 1), size(1, 1), &one);
    view.update_frame(&[4, 5, 6], size(1, 1), size(5, 0), &none);
    assert_eq!(pixels(&view), [1, 2, 3, 255]);
}

#[test]
fn each_gesture_calls_its_own_callback() {
    let mut view = SlintView::<Callback>::new();
    view.on_show_menu(Box::new(|| 1));
    view.on_dismiss_menu(Box::new(|| 2));
    view.on_wake(Box::new(|| 3));
    view.on_power_off(Box::new(|| 4));
    assert_eq!(view.fire(Gesture::TakePhoto), None);
    view.on_take_photo(Box::new(|| 5));
    assert_eq!(view.fire(Gesture::ShowMenu), Some(1));
    assert_eq!(view.fire(Gesture::DismissMenu), Some(2));
    assert_eq!(view.fire(Gesture::Wake), Some(3));
    assert_eq!(view.fire(Gesture::PowerOff), Some(4));
    assert_eq!(view.fire(Gesture::TakePhoto), Some(5));
    view.on_wake(Box::new(|| 6));
    assert_eq!(view.fire(Gesture::Wake), Some(6));
    assert_eq!(view.fire(Gesture::ShowMenu), Some(1));
}

#[test]
fn invoke_calls_the_selected_callback_once() {
    let calls = Cell::new(0);
    let callbacks = Callbacks {
        show_menu: Some(|| calls.set(calls.get() + 1)),
        dismiss_menu: None,
        wake: None,
        power_off: None,
        take_photo: None,
    };
    assert_eq!(invoke(&callbacks, |c| c.show_menu.as_ref()), Some(()));
    assert_eq!(calls.get(), 1);
    assert_eq!(invoke(&callbacks, |c| c.wake.as_ref()), None);
    assert_eq!(calls.get(), 1);
}

#[test]
fn refresh_pushes_the_state_to_the_view() {
    let config = Config::from_file("/photos".to_string(), None);
    let mut app = AppState::new(size(1, 1), config, 0);
    let mut view = SlintView::<Callback>::new();
    view.on_wake(Box::new(|| 3));
    let scaling = Scaling {
        columns: vec![0],
        rows: vec![0],
    };
    app.show_menu();
    app.show_status("hi".to_string(), 0);
    app.refresh(&mut view, &[1, 2, 3], size(1, 1), &scaling);
    assert_eq!(view.window.powered_off, Some(false));
    assert_eq!(view.window.menu_visible, Some(true));
    assert_eq!(view.window.status_text.as_deref(), Some("hi"));
    assert_eq!(pixels(&view), [1, 2, 3, 255]);
    assert_eq!(view.fire(Gesture::Wake), Some(3));
    app.power_off();
    app.status = None;
    app.refresh(&mut view, &[], size(1, 1), &scaling);
    assert_eq!(view.window.powered_off, Some(true));
    assert_eq!(view.window.menu_visible, Some(false));
    assert_eq!(view.window.status_text.as_deref(), Some(""));
    assert_eq!(pixels(&view), [0, 0, 0, 255]);
}

#[test]
fn photo_shows_what_the_window_shows() {
    let config = Config::from_file("/photos".to_string(), None);
    let frame = [10, 20, 30, 40, 50, 60, 70, 80, 90, 1, 2, 3, 4];
    let mut app = AppState::new(size(2, 2), config, 0);
    let mut view = SlintView::<Callback>::new();
    let scaling = Scaling {
        columns: vec![0, 1],
        rows: vec![0, 1],
    };
    app.refresh(&mut view, &frame, size(2, 2), &scaling);
    let photo = app.save_photo(&frame, 0).unwrap();
    let shown: Vec<u8> = pixels(&view)
        .chunks(4)
        .flat_map(|p| p[..3].to_vec())
        .collect();
    assert_eq!(photo.pixels, shown);
}
