//! The view that draws with the Slint toolkit.
use vstd::prelude::*;
use vstd::view::View as _;

use crate::views::raster::{fill_with_black, render_frame, Scaling};
use crate::views::{
    composed, status_text, Callbacks, Picture, Screen, Settings, Size, View, ViewCall,
};

verus! {

/// An image of the Slint toolkit.
#[verifier::external_type_specification]
#[verifier::external_body]
pub struct ExImage(slint::Image);

/// The pixels that a Slint image holds, row by row, four bytes each.
pub uninterp spec fn image_pixels(image: slint::Image) -> Seq<u8>;

/// The width and the height that a Slint image was made with.
pub uninterp spec fn image_size(image: slint::Image) -> (u32, u32);

/// Makes a Slint image with `slint::Image::from_rgba8`, from a pixel buffer
/// that `slint::SharedPixelBuffer::clone_from_slice` copies out of `rgba`. The
/// image has the given size and holds the given bytes. The buffer must be of
/// just that size: Slint panics on any other.
#[verifier::external_body]
fn rgba_image(rgba: &[u8], width: u32, height: u32) -> (image: slint::Image)
    requires
        rgba@.len() == width * height * 4,
    ensures
        image_pixels(image) == rgba@,
        image_size(image) == (width, height),
{
    slint::Image::from_rgba8(
        slint::SharedPixelBuffer::<slint::Rgba8Pixel>::clone_from_slice(rgba, width, height),
    )
}

/// The properties of the window, as far as the view has set them.
pub struct WindowProperties {
    pub camera_image: Option<slint::Image>,
    pub menu_visible: Option<bool>,
    pub powered_off: Option<bool>,
    pub status_text: Option<String>,
}

/// The view that draws with the Slint toolkit.
pub struct SlintView<C> {
    pub window: WindowProperties,
    pub settings: Settings,
    pub callbacks: Callbacks<C>,
    /// The calls that told the view what to show.
    pub told: Ghost<Seq<ViewCall>>,
}

/// What the user did in the window.
#[derive(Debug, Clone, Copy, PartialEq, Eq, Structural)]
pub enum Gesture {
    ShowMenu,
    DismissMenu,
    Wake,
    PowerOff,
    TakePhoto,
}

impl<C> Callbacks<C> {
    /// The callback that stands for a gesture.
    pub open spec fn of(&self, gesture: Gesture) -> Option<C> {
        match gesture {
            Gesture::ShowMenu => self.show_menu,
            Gesture::DismissMenu => self.dismiss_menu,
            Gesture::Wake => self.wake,
            Gesture::PowerOff => self.power_off,
            Gesture::TakePhoto => self.take_photo,
        }
    }
}

impl<C> SlintView<C> {
    /// A view that has shown nothing yet and calls nothing.
    pub fn new() -> (view: Self)
        ensures
            view.screen() == (Screen {
                powered_off: None,
                menu_visible: None,
                status_text: None,
                settings: Settings,
                picture: None,
            }),
            view.calls() == Seq::<ViewCall>::empty(),
            forall|gesture: Gesture| view.registered().of(gesture) is None,
    {
        let window = WindowProperties {
            camera_image: None,
            menu_visible: None,
            powered_off: None,
            status_text: None,
        };
        let callbacks = Callbacks {
            show_menu: None,
            dismiss_menu: None,
            wake: None,
            power_off: None,
            take_photo: None,
        };
        SlintView { window, settings: Settings, callbacks, told: Ghost(Seq::empty()) }
    }

    /// Tells the view what the user did: the callback registered for it is
    /// called, and its result returned. Without a callback nothing happens.
    pub fn fire<R>(&self, gesture: Gesture) -> (result: Option<R>) where C: Fn() -> R
        requires
            self.registered().of(gesture) matches Some(callback) ==> callback.requires(()),
        ensures
            match self.registered().of(gesture) {
                Some(callback) => result matches Some(value) && callback.ensures((), value),
                None => result is None,
            },
    {
        match gesture {
            Gesture::ShowMenu => invoke(&self.callbacks, show_menu_slot::<C>),
            Gesture::DismissMenu => invoke(&self.callbacks, dismiss_menu_slot::<C>),
            Gesture::Wake => invoke(&self.callbacks, wake_slot::<C>),
            Gesture::PowerOff => invoke(&self.callbacks, power_off_slot::<C>),
            Gesture::TakePhoto => invoke(&self.callbacks, take_photo_slot::<C>),
        }
    }
}

/// A borrowed callback is the stored one, or both are missing.
pub open spec fn same_callback<C>(slot: Option<&C>, stored: Option<C>) -> bool {
    match slot {
        Some(callback) => stored == Some(*callback),
        None => stored is None,
    }
}

/// Selects the callback for opening the menu.
fn show_menu_slot<C>(callbacks: &Callbacks<C>) -> (slot: Option<&C>)
    ensures
        same_callback(slot, callbacks.show_menu),
{
    callbacks.show_menu.as_ref()
}

/// Selects the callback for leaving the menu.
fn dismiss_menu_slot<C>(callbacks: &Callbacks<C>) -> (slot: Option<&C>)
    ensures
        same_callback(slot, callbacks.dismiss_menu),
{
    callbacks.dismiss_menu.as_ref()
}

/// Selects the callback for waking the device.
fn wake_slot<C>(callbacks: &Callbacks<C>) -> (slot: Option<&C>)
    ensures
        same_callback(slot, callbacks.wake),
{
    callbacks.wake.as_ref()
}

/// Selects the callback for switching the device off.
fn power_off_slot<C>(callbacks: &Callbacks<C>) -> (slot: Option<&C>)
    ensures
        same_callback(slot, callbacks.power_off),
{
    callbacks.power_off.as_ref()
}

/// Selects the callback for taking a photo.
fn take_photo_slot<C>(callbacks: &Callbacks<C>) -> (slot: Option<&C>)
    ensures
        same_callback(slot, callbacks.take_photo),
{
    callbacks.take_photo.as_ref()
}

/// Calls the callback that `selector` picks, if there is one.
pub fn invoke<R, C, F>(callbacks: &Callbacks<C>, selector: F) -> (result: Option<R>) where
    C: Fn() -> R,
    F: FnOnce(&Callbacks<C>) -> Option<&C>,

    requires
        selector.requires((callbacks,)),
        forall|slot: Option<&C>|
            selector.ensures((callbacks,), slot) ==> (slot matches Some(callback)
                ==> callback.requires(())),
    ensures
        exists|slot: Option<&C>|
            selector.ensures((callbacks,), slot) && match slot {
                Some(callback) => result matches Some(value) && callback.ensures((), value),
                None => result is None,
            },
{
    match selector(callbacks) {
        Some(callback) => Some(callback()),
        None => None,
    }
}

impl<C> View<C> for SlintView<C> {
    open spec fn screen(&self) -> Screen {
        Screen {
            powered_off: self.window.powered_off,
            menu_visible: self.window.menu_visible,
            status_text: match self.window.status_text {
                Some(text) => Some(text@),
                None => None,
            },
            settings: self.settings,
            picture: match self.window.camera_image {
                Some(image) => Some(
                    Picture {
                        width: image_size(image).0 as nat,
                        height: image_size(image).1 as nat,
                        rgba: image_pixels(image),
                    },
                ),
                None => None,
            },
        }
    }

    open spec fn calls(&self) -> Seq<ViewCall> {
        self.told@
    }

    open spec fn registered(&self) -> Callbacks<C> {
        self.callbacks
    }

    fn update_frame(&mut self, frame: &[u8], actual_size: Size, window: Size, scaling: &Scaling)
        ensures
            window.width > 0 && window.height > 0 ==> {
                &&& final(self).window.camera_image matches Some(image)
                &&& image_size(image) == (window.width, window.height)
                &&& image_pixels(image) == composed(frame@, actual_size, window, scaling)
            },
            final(self).window == (WindowProperties {
                camera_image: final(self).window.camera_image,
                ..old(self).window
            }),
    {
        proof {
            self.told@ = self.told@.push(
                ViewCall::UpdateFrame {
                    frame: frame@,
                    actual_size,
                    window,
                    columns: scaling.columns@,
                    rows: scaling.rows@,
                },
            );
        }
        let win_w: usize = window.width as usize;
        let win_h: usize = window.height as usize;
        if win_w == 0 || win_h == 0 {
            return ;
        }
        proof {
            assert(win_w * win_h <= win_w * win_h * 4) by (nonlinear_arith)
                requires
                    0 <= win_w,
                    0 <= win_h,
            ;
        }
        let mut rgba: Vec<u8> = vec![0u8; win_w * win_h * 4];
        proof {
            assert(rgba@ =~= Seq::new(window.rgba_len(), |i: int| 0u8));
        }
        fill_with_black(rgba.as_mut_slice());
        if !frame.is_empty() {
            render_frame(frame, actual_size, win_w, win_h, scaling, rgba.as_mut_slice());
        }
        let image = rgba_image(rgba.as_slice(), window.width, window.height);
        self.window.camera_image = Some(image);
    }

    fn set_menu_visible(&mut self, visible: bool)
        ensures
            final(self).window == (WindowProperties {
                menu_visible: Some(visible),
                ..old(self).window
            }),
    {
        self.window.menu_visible = Some(visible);
        proof {
            self.told@ = self.told@.push(ViewCall::SetMenuVisible(visible));
        }
    }

    fn set_powered_off(&mut self, off: bool)
        ensures
            final(self).window == (WindowProperties {
                powered_off: Some(off),
                ..old(self).window
            }),
    {
        self.window.powered_off = Some(off);
        proof {
            self.told@ = self.told@.push(ViewCall::SetPoweredOff(off));
        }
    }

    fn set_status(&mut self, msg: Option<String>)
        ensures
            final(self).window.status_text matches Some(text) && text@ == (match msg {
                Some(msg) => msg@,
                None => Seq::empty(),
            }),
            final(self).window == (WindowProperties {
                status_text: final(self).window.status_text,
                ..old(self).window
            }),
    {
        proof {
            self.told@ = self.told@.push(ViewCall::SetStatus(status_text(msg)));
        }
        self.window.status_text = match msg {
            Some(text) => Some(text),
            None => Some(String::new()),
        };
    }

    fn set_settings(&mut self, settings: &Settings)
        ensures
            final(self).settings == *settings,
            final(self).window == old(self).window,
    {
        self.settings = *settings;
        proof {
            self.told@ = self.told@.push(ViewCall::SetSettings(*settings));
        }
    }

    fn on_show_menu(&mut self, callback: C) {
        self.callbacks.show_menu = Some(callback);
    }

    fn on_dismiss_menu(&mut self, callback: C) {
        self.callbacks.dismiss_menu = Some(callback);
    }

    fn on_wake(&mut self, callback: C) {
        self.callbacks.wake = Some(callback);
    }

    fn on_power_off(&mut self, callback: C) {
        self.callbacks.power_off = Some(callback);
    }

    fn on_take_photo(&mut self, callback: C) {
        self.callbacks.take_photo = Some(callback);
    }
}

/// What the screen shows is what the properties of the window hold, and what was
/// registered is what the view keeps.
pub proof fn law_screen_is_the_window<C>(view: &SlintView<C>)
    ensures
        view.screen().powered_off == view.window.powered_off,
        view.screen().menu_visible == view.window.menu_visible,
        view.screen().settings == view.settings,
        view.screen().status_text is Some <==> view.window.status_text is Some,
        view.window.status_text is Some ==> view.screen().status_text->0
            == view.window.status_text->0@,
        view.screen().picture is Some <==> view.window.camera_image is Some,
        view.window.camera_image is Some ==> ({
            let picture = view.screen().picture->0;
            let image = view.window.camera_image->0;
            &&& picture.rgba == image_pixels(image)
            &&& picture.width == image_size(image).0
            &&& picture.height == image_size(image).1
        }),
        view.registered() == view.callbacks,
{
}

/// Each gesture has a callback of its own, and none other stands in for it.
pub proof fn law_each_gesture_has_its_own_callback<C>(callbacks: Callbacks<C>)
    ensures
        callbacks.of(Gesture::ShowMenu) == callbacks.show_menu,
        callbacks.of(Gesture::DismissMenu) == callbacks.dismiss_menu,
        callbacks.of(Gesture::Wake) == callbacks.wake,
        callbacks.of(Gesture::PowerOff) == callbacks.power_off,
        callbacks.of(Gesture::TakePhoto) == callbacks.take_photo,
{
}

/// Registering a callback for one gesture leaves the others as they were.
pub proof fn law_callbacks_are_independent<C>(callbacks: Callbacks<C>, callback: C, gesture: Gesture)
    ensures
        (Callbacks { show_menu: Some(callback), ..callbacks }).of(gesture) == if gesture
            is ShowMenu {
            Some(callback)
        } else {
            callbacks.of(gesture)
        },
        (Callbacks { dismiss_menu: Some(callback), ..callbacks }).of(gesture) == if gesture
            is DismissMenu {
            Some(callback)
        } else {
            callbacks.of(gesture)
        },
        (Callbacks { wake: Some(callback), ..callbacks }).of(gesture) == if gesture is Wake {
            Some(callback)
        } else {
            callbacks.of(gesture)
        },
        (Callbacks { power_off: Some(callback), ..callbacks }).of(gesture) == if gesture
            is PowerOff {
            Some(callback)
        } else {
            callbacks.of(gesture)
        },
        (Callbacks { take_photo: Some(callback), ..callbacks }).of(gesture) == if gesture
            is TakePhoto {
            Some(callback)
        } else {
            callbacks.of(gesture)
        },
{
}

} // verus!
