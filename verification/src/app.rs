//! The state that drives the view, and how it changes.
//!
//! Points in time are counted in nanoseconds from a fixed moment, such as the
//! start of the program.
use vstd::prelude::*;
use vstd::slice::{slice_subrange, slice_to_vec};
use vstd::view::View as _;

use crate::clock::{photo_filename_now, photo_name, read_from_the_clock, LocalTime};
use crate::config::Config;
use crate::text::{decimal, decimal_text};
use crate::views::raster::{lemma_pixel_in_bounds, Scaling};
use crate::views::{
    black_window, composed, frame_fits, law_bytes_to_a_pixel, law_window_shows_the_frame_on_black,
    with_frame, Screen, Settings, Size, View, ViewCall,
};

verus! {

/// Nanoseconds in a second.
pub const NANOS_PER_SEC: u128 = 1_000_000_000;

/// How long a status message stays on the screen, in nanoseconds.
pub const STATUS_NANOS: u128 = 2_000_000_000;

/// Messages sent from the concrete view back to the application logic.
#[derive(Debug, Clone, Copy, PartialEq, Eq, Structural)]
pub enum UiCommand {
    ShowMenu,
    DismissMenu,
    Wake,
    PowerOff,
    TakePhoto,
}

/// A transient message, and the last point in time at which it is shown.
pub struct Status {
    pub msg: String,
    pub until: u128,
}

/// The runtime state that drives the view.
pub struct AppState {
    pub actual_size: Size,
    pub config: Config,
    pub settings: Settings,
    pub menu_visible: bool,
    pub powered_off: bool,
    pub last_activity: u128,
    pub status: Option<Status>,
}

/// A transient message in the model of the state.
pub struct StatusModel {
    pub msg: Seq<char>,
    pub until: int,
}

/// The state as the contracts speak of it.
pub struct AppModel {
    pub actual_size: Size,
    pub photo_directory: Seq<char>,
    pub power_off_after_secs: int,
    pub settings: Settings,
    pub menu_visible: bool,
    pub powered_off: bool,
    pub last_activity: int,
    pub status: Option<StatusModel>,
}

impl vstd::view::View for AppState {
    type V = AppModel;

    open spec fn view(&self) -> AppModel {
        AppModel {
            actual_size: self.actual_size,
            photo_directory: self.config.photo_directory@,
            power_off_after_secs: self.config.power_off_after_secs as int,
            settings: self.settings,
            menu_visible: self.menu_visible,
            powered_off: self.powered_off,
            last_activity: self.last_activity as int,
            status: match self.status {
                Some(status) => Some(
                    StatusModel { msg: status.msg@, until: status.until as int },
                ),
                None => None,
            },
        }
    }
}

impl AppModel {
    /// The state after a message is shown at time `now`.
    pub open spec fn with_status(self, msg: Seq<char>, now: int) -> AppModel {
        AppModel { status: Some(StatusModel { msg, until: now + STATUS_NANOS }), ..self }
    }

    /// The state after the power is toggled at time `now`.
    pub open spec fn toggled(self, now: int) -> AppModel {
        AppModel {
            last_activity: now,
            powered_off: !self.powered_off,
            menu_visible: false,
            ..self
        }
    }

    /// The device has been left alone for as long as the configuration asks.
    pub open spec fn idle(self, now: int) -> bool {
        &&& self.power_off_after_secs > 0
        &&& now - self.last_activity >= self.power_off_after_secs * NANOS_PER_SEC
    }

    /// The state after the inactivity at time `now` is looked at.
    pub open spec fn idle_checked(self, now: int) -> AppModel {
        AppModel { powered_off: self.powered_off || self.idle(now), ..self }
    }

    /// The state after a message whose time is over at `now` is dropped.
    pub open spec fn expired(self, now: int) -> AppModel {
        match self.status {
            Some(status) if now > status.until => AppModel { status: None, ..self },
            _ => self,
        }
    }

    /// The state after a user command at time `now`.
    pub open spec fn commanded(self, command: UiCommand, now: int) -> AppModel {
        let active = AppModel { last_activity: now, ..self };
        match command {
            UiCommand::ShowMenu => AppModel { menu_visible: true, ..active },
            UiCommand::DismissMenu => AppModel { menu_visible: false, ..active },
            UiCommand::Wake => AppModel { powered_off: false, ..active },
            UiCommand::PowerOff => AppModel { powered_off: true, menu_visible: false, ..active },
            UiCommand::TakePhoto => active,
        }
    }
}

/// What the main loop waits for. In each step it takes first all commands of
/// the user, then all completed capture requests, then all signals of the
/// power pin.
#[derive(Debug, Clone, Copy, PartialEq, Eq, Structural)]
pub enum TickPhase {
    Commands,
    Requests,
    PowerPin,
}

/// What came of waiting.
#[derive(Debug, Clone, Copy, PartialEq, Eq, Structural)]
pub enum TickEvent {
    /// A user command.
    Command(UiCommand),
    /// A completed capture request.
    Request,
    /// The power pin was shorted to ground.
    PinShorted,
    /// Nothing, or nothing more.
    Drained,
}

/// What to do before waiting again.
#[derive(Debug, Clone, Copy, PartialEq, Eq, Structural)]
pub enum TickAction {
    /// Nothing.
    Proceed,
    /// Take a photo.
    TakePhoto,
    /// Queue the capture request again, so that the camera keeps streaming.
    Requeue,
    /// Push the state to the view. The step is over.
    Refresh,
}

/// The phase after an event.
pub open spec fn next_phase(phase: TickPhase, event: TickEvent) -> TickPhase {
    match event {
        TickEvent::Drained => match phase {
            TickPhase::Commands => TickPhase::Requests,
            TickPhase::Requests => TickPhase::PowerPin,
            TickPhase::PowerPin => TickPhase::Commands,
        },
        _ => phase,
    }
}

/// What an event asks for.
pub open spec fn tick_action(phase: TickPhase, event: TickEvent) -> TickAction {
    match event {
        TickEvent::Command(UiCommand::TakePhoto) => TickAction::TakePhoto,
        TickEvent::Command(_) => TickAction::Proceed,
        TickEvent::Request => TickAction::Requeue,
        TickEvent::PinShorted => TickAction::Proceed,
        TickEvent::Drained => if phase is PowerPin {
            TickAction::Refresh
        } else {
            TickAction::Proceed
        },
    }
}

impl AppModel {
    /// The state after an event at time `now`. Inactivity is looked at between
    /// the capture requests and the power pin, the status message after it.
    pub open spec fn ticked(self, phase: TickPhase, event: TickEvent, now: int) -> AppModel {
        match event {
            TickEvent::Command(command) => self.commanded(command, now),
            TickEvent::Request => self,
            TickEvent::PinShorted => self.toggled(now),
            TickEvent::Drained => match phase {
                TickPhase::Commands => self,
                TickPhase::Requests => self.idle_checked(now),
                TickPhase::PowerPin => self.expired(now),
            },
        }
    }
}

/// A photo: its size, and its pixels row by row, three bytes each.
pub struct Photo {
    pub width: u32,
    pub height: u32,
    pub pixels: Vec<u8>,
}

/// Makes an image of the given size out of its bytes with
/// `image::RgbImage::from_raw`, and takes it apart again. There is one where the
/// bytes suffice, three to a pixel, and the length of a row can be counted on
/// this machine; it has the given size and bytes.
#[verifier::external_body]
fn rgb_image(width: u32, height: u32, pixels: Vec<u8>) -> (photo: Option<Photo>)
    ensures
        (photo is Some) == (width * 3 <= usize::MAX && width * height * 3 <= pixels@.len()),
        photo matches Some(photo) ==> photo.width == width && photo.height == height
            && photo.pixels@ == pixels@,
{
    match image::RgbImage::from_raw(width, height, pixels) {
        Some(image) => Some(
            Photo { width: image.width(), height: image.height(), pixels: image.into_raw() },
        ),
        None => None,
    }
}

/// Why no photo can be taken from a frame, in words; `None` if it can.
pub open spec fn photo_refusal(frame: Seq<u8>, size: Size) -> Option<Seq<char>> {
    if frame.len() == 0 {
        Some("No frame to save"@)
    } else if frame.len() < size.frame_len() {
        Some(
            "Frame buffer too small: "@ + decimal(frame.len()) + " < "@ + decimal(
                size.frame_len(),
            ),
        )
    } else if size.width * 3 > usize::MAX {
        Some("Failed to build image"@)
    } else {
        None
    }
}

/// The message about a photo directory that cannot be made.
pub open spec fn no_directory_message(reason: Seq<char>) -> Seq<char> {
    "Cannot create photo dir: "@ + reason
}

/// The message about a photo that was saved.
pub open spec fn saved_message(filename: Seq<char>) -> Seq<char> {
    "Saved "@ + filename
}

/// The message about a photo that could not be saved.
pub open spec fn not_saved_message(reason: Seq<char>) -> Seq<char> {
    "Save failed: "@ + reason
}

impl AppState {
    /// The state at the start of the program, at time `now`.
    pub fn new(actual_size: Size, config: Config, now: u128) -> (app: Self)
        ensures
            app@ == (AppModel {
                actual_size,
                photo_directory: config.photo_directory@,
                power_off_after_secs: config.power_off_after_secs as int,
                settings: Settings,
                menu_visible: false,
                powered_off: false,
                last_activity: now as int,
                status: None,
            }),
    {
        AppState {
            actual_size,
            config,
            settings: Settings,
            menu_visible: false,
            powered_off: false,
            last_activity: now,
            status: None,
        }
    }

    /// Opens the menu.
    pub fn show_menu(&mut self)
        ensures
            final(self)@ == (AppModel { menu_visible: true, ..old(self)@ }),
    {
        self.menu_visible = true;
    }

    /// Closes the menu.
    pub fn dismiss_menu(&mut self)
        ensures
            final(self)@ == (AppModel { menu_visible: false, ..old(self)@ }),
    {
        self.menu_visible = false;
    }

    /// Takes the device out of power-off.
    pub fn wake(&mut self)
        ensures
            final(self)@ == (AppModel { powered_off: false, ..old(self)@ }),
    {
        self.powered_off = false;
    }

    /// Powers the device off, and closes the menu.
    pub fn power_off(&mut self)
        ensures
            final(self)@ == (AppModel { powered_off: true, menu_visible: false, ..old(self)@ }),
    {
        self.powered_off = true;
        self.menu_visible = false;
    }

    /// Toggles the power, and closes the menu.
    pub fn toggle_power(&mut self, now: u128)
        ensures
            final(self)@ == old(self)@.toggled(now as int),
            final(self).powered_off != old(self).powered_off,
            !final(self).menu_visible,
            final(self).last_activity == now,
    {
        self.last_activity = now;
        self.powered_off = !self.powered_off;
        self.menu_visible = false;
    }

    /// Shows a transient message.
    pub fn show_status(&mut self, msg: String, now: u128)
        requires
            now + STATUS_NANOS <= u128::MAX,
        ensures
            final(self)@ == old(self)@.with_status(msg@, now as int),
            final(self).status matches Some(status) && status.msg@ == msg@ && status.until == now
                + STATUS_NANOS,
    {
        self.status = Some(Status { msg, until: now + STATUS_NANOS });
    }

    /// Carries out a user command, but for the photo.
    fn obey(&mut self, command: UiCommand, now: u128)
        ensures
            final(self)@ == old(self)@.commanded(command, now as int),
    {
        self.last_activity = now;
        match command {
            UiCommand::ShowMenu => self.show_menu(),
            UiCommand::DismissMenu => self.dismiss_menu(),
            UiCommand::Wake => self.wake(),
            UiCommand::PowerOff => self.power_off(),
            UiCommand::TakePhoto => {},
        }
    }

    /// Powers the device off if it has been left alone long enough.
    fn check_idle(&mut self, now: u128)
        ensures
            final(self)@ == old(self)@.idle_checked(now as int),
    {
        if !self.powered_off {
            let timeout: u128 = self.config.power_off_after_secs as u128 * NANOS_PER_SEC;
            let elapsed: u128 = if now >= self.last_activity {
                now - self.last_activity
            } else {
                0
            };
            if timeout > 0 && elapsed >= timeout {
                self.powered_off = true;
            }
        }
    }

    /// Drops a status message whose time is over.
    fn expire_status(&mut self, now: u128)
        ensures
            final(self)@ == old(self)@.expired(now as int),
    {
        let over = match &self.status {
            Some(status) => now > status.until,
            None => false,
        };
        if over {
            self.status = None;
        }
    }

    /// A step of the main loop goes on: an event came at time `now` in the
    /// given phase. Returns the phase that follows and what is to be done.
    pub fn tick(&mut self, phase: TickPhase, event: TickEvent, now: u128) -> (next: (
        TickPhase,
        TickAction,
    ))
        ensures
            final(self)@ == old(self)@.ticked(phase, event, now as int),
            next == (next_phase(phase, event), tick_action(phase, event)),
    {
        match event {
            TickEvent::Command(command) => {
                self.obey(command, now);
                match command {
                    UiCommand::TakePhoto => (phase, TickAction::TakePhoto),
                    _ => (phase, TickAction::Proceed),
                }
            },
            TickEvent::Request => (phase, TickAction::Requeue),
            TickEvent::PinShorted => {
                self.toggle_power(now);
                (phase, TickAction::Proceed)
            },
            TickEvent::Drained => match phase {
                TickPhase::Commands => (TickPhase::Requests, TickAction::Proceed),
                TickPhase::Requests => {
                    self.check_idle(now);
                    (TickPhase::PowerPin, TickAction::Proceed)
                },
                TickPhase::PowerPin => {
                    self.expire_status(now);
                    (TickPhase::Commands, TickAction::Refresh)
                },
            },
        }
    }

    /// Takes a photo from the latest frame. The photo is still to be written
    /// into the photo directory. Where there is none, a message says why.
    pub fn save_photo(&mut self, frame: &[u8], now: u128) -> (photo: Option<Photo>)
        requires
            old(self).actual_size.frame_len() <= usize::MAX,
            now + STATUS_NANOS <= u128::MAX,
        ensures
            match photo_refusal(frame@, old(self).actual_size) {
                Some(msg) => photo is None && final(self)@ == old(self)@.with_status(
                    msg,
                    now as int,
                ),
                None => {
                    &&& final(self)@ == old(self)@
                    &&& photo matches Some(photo)
                    &&& photo.width == old(self).actual_size.width
                    &&& photo.height == old(self).actual_size.height
                    &&& photo.pixels@ == frame@.take(old(self).actual_size.frame_len() as int)
                },
            },
            ({
                let size = old(self).actual_size;
                let expected = size.width * size.height * 3;
                &&& photo is Some <==> frame@.len() > 0 && frame@.len() >= expected && size.width
                    * 3 <= usize::MAX
                &&& photo is Some ==> photo->0.pixels@ == frame@.take(expected) && final(self)@
                    == old(self)@
            }),
    {
        let width: usize = self.actual_size.width as usize;
        let height: usize = self.actual_size.height as usize;
        proof {
            assert(width * height <= width * height * 3) by (nonlinear_arith)
                requires
                    0 <= width,
                    0 <= height,
            ;
        }
        let expected: usize = width * height * 3;
        if frame.is_empty() {
            self.show_status("No frame to save".to_owned(), now);
            return None;
        }
        if frame.len() < expected {
            let mut msg = "Frame buffer too small: ".to_owned();
            msg.append(decimal_text(frame.len()).as_str());
            msg.append(" < ");
            msg.append(decimal_text(expected).as_str());
            self.show_status(msg, now);
            return None;
        }
        let frame_data = slice_to_vec(slice_subrange(frame, 0, expected));
        match rgb_image(self.actual_size.width, self.actual_size.height, frame_data) {
            Some(photo) => Some(photo),
            None => {
                self.show_status("Failed to build image".to_owned(), now);
                None
            },
        }
    }

    /// The photo directory was made, or could not be. Returns the name of the
    /// file that the photo goes into, after the time on the clock.
    pub fn photo_directory_made(&mut self, outcome: Result<(), String>, now: u128) -> (name: Option<
        String,
    >)
        requires
            now + STATUS_NANOS <= u128::MAX,
        ensures
            match outcome {
                Ok(_) => {
                    &&& final(self)@ == old(self)@
                    &&& name matches Some(name)
                    &&& exists|time: LocalTime| #[trigger]
                        read_from_the_clock(time) && time.valid() && name@ == photo_name(time)
                },
                Err(reason) => name is None && final(self)@ == old(self)@.with_status(
                    no_directory_message(reason@),
                    now as int,
                ),
            },
    {
        match outcome {
            Ok(_) => Some(photo_filename_now()),
            Err(reason) => {
                let mut msg = "Cannot create photo dir: ".to_owned();
                msg.append(reason.as_str());
                self.show_status(msg, now);
                None
            },
        }
    }

    /// The photo was written into the file of the given name, or could not be.
    pub fn photo_written(&mut self, filename: &str, outcome: Result<(), String>, now: u128)
        requires
            now + STATUS_NANOS <= u128::MAX,
        ensures
            final(self)@ == old(self)@.with_status(
                match outcome {
                    Ok(_) => saved_message(filename@),
                    Err(reason) => not_saved_message(reason@),
                },
                now as int,
            ),
    {
        let mut msg = String::new();
        match outcome {
            Ok(_) => {
                msg.append("Saved ");
                msg.append(filename);
            },
            Err(reason) => {
                msg.append("Save failed: ");
                msg.append(reason.as_str());
            },
        }
        self.show_status(msg, now);
    }

    /// Pushes the state and the latest frame to the view.
    pub fn refresh<C, V: View<C>>(
        &self,
        view: &mut V,
        frame: &[u8],
        window: Size,
        scaling: &Scaling,
    )
        requires
            frame_fits(frame@, self.actual_size, window, scaling),
        ensures
            final(view).calls() == old(view).calls() + refresh_calls(
                self@,
                frame@,
                window,
                scaling,
            ),
            final(view).screen() == refreshed(
                old(view).screen(),
                self@,
                frame@,
                window,
                scaling,
            ),
            final(view).registered() == old(view).registered(),
    {
        view.set_powered_off(self.powered_off);
        view.set_menu_visible(self.menu_visible);
        view.set_settings(&self.settings);
        let msg: Option<String> = match &self.status {
            Some(status) => Some(status.msg.clone()),
            None => None,
        };
        view.set_status(msg);
        view.update_frame(frame, self.actual_size, window, scaling);
    }
}

/// The calls that push the state and the latest frame to the view, in their
/// order.
pub open spec fn refresh_calls(
    app: AppModel,
    frame: Seq<u8>,
    window: Size,
    scaling: &Scaling,
) -> Seq<ViewCall> {
    seq![
        ViewCall::SetPoweredOff(app.powered_off),
        ViewCall::SetMenuVisible(app.menu_visible),
        ViewCall::SetSettings(app.settings),
        ViewCall::SetStatus(
            match app.status {
                Some(status) => Some(status.msg),
                None => None,
            },
        ),
        ViewCall::UpdateFrame {
            frame,
            actual_size: app.actual_size,
            window,
            columns: scaling.columns@,
            rows: scaling.rows@,
        },
    ]
}

/// The screen after the state and the latest frame are pushed to the view.
pub open spec fn refreshed(
    screen: Screen,
    app: AppModel,
    frame: Seq<u8>,
    window: Size,
    scaling: &Scaling,
) -> Screen {
    with_frame(
        Screen {
            powered_off: Some(app.powered_off),
            menu_visible: Some(app.menu_visible),
            status_text: Some(
                match app.status {
                    Some(status) => status.msg,
                    None => Seq::empty(),
                },
            ),
            settings: app.settings,
            picture: screen.picture,
        },
        frame,
        app.actual_size,
        window,
        scaling,
    )
}

/// A photo is what the window shows: each pixel of the window that shows a
/// pixel of the frame has the colour that this pixel has in the photo.
pub proof fn law_photo_is_what_the_window_shows(
    frame: Seq<u8>,
    size: Size,
    window: Size,
    scaling: &Scaling,
    x: int,
    y: int,
    c: int,
)
    requires
        photo_refusal(frame, size) is None,
        0 <= x < window.width,
        0 <= y < window.height,
        0 <= c < 3,
    ensures
        scaling.source(size, window.width as int, window.height as int, x, y) matches Some(
            (column, row),
        ) ==> composed(frame, size, window, scaling)[(y * window.width + x) * 4 + c] == frame.take(
            size.frame_len() as int,
        )[(row * size.width + column) * 3 + c],
{
    law_window_shows_the_frame_on_black(frame, size, window, scaling, x, y, c);
    if let Some((column, row)) = scaling.source(
        size,
        window.width as int,
        window.height as int,
        x,
        y,
    ) {
        lemma_pixel_in_bounds(size.width as int, size.height as int, column, row, 3);
    }
}

/// A whole frame is taken, of whatever size: a photo is refused only where there
/// is no frame, where the frame has fewer than three bytes to each pixel, or where
/// the length of a row cannot be counted on this machine. The message names the
/// reason that comes first in this order.
pub proof fn law_whole_frame_makes_a_photo(frame: Seq<u8>, size: Size)
    ensures
        photo_refusal(frame, size) is None <==> frame.len() > 0 && frame.len() >= size.width
            * size.height * 3 && size.width * 3 <= usize::MAX,
        frame.len() == 0 ==> photo_refusal(frame, size) == Some("No frame to save"@),
        0 < frame.len() < size.width * size.height * 3 ==> photo_refusal(frame, size) == Some(
            "Frame buffer too small: "@ + decimal(frame.len()) + " < "@ + decimal(
                (size.width * size.height * 3) as nat,
            ),
        ),
        frame.len() > 0 && frame.len() >= size.width * size.height * 3 && size.width * 3
            > usize::MAX ==> photo_refusal(frame, size) == Some("Failed to build image"@),
{
    law_bytes_to_a_pixel(size);
}

/// A frame that makes a photo still makes one with more bytes behind it, and the
/// photo is the same.
pub proof fn law_surplus_bytes_change_no_photo(frame: Seq<u8>, more: Seq<u8>, size: Size)
    requires
        photo_refusal(frame, size) is None,
    ensures
        photo_refusal(frame + more, size) is None,
        (frame + more).take(size.width * size.height * 3) == frame.take(
            size.width * size.height * 3,
        ),
{
    law_bytes_to_a_pixel(size);
    assert((frame + more).take(size.width * size.height * 3) =~= frame.take(
        size.width * size.height * 3,
    ));
}

/// Where the frame is missing or too short, there is neither a photo nor a
/// picture: the photo is refused, and the window is black.
pub proof fn law_no_photo_without_a_frame(
    frame: Seq<u8>,
    size: Size,
    window: Size,
    scaling: &Scaling,
)
    requires
        frame.len() == 0 || frame.len() < size.frame_len(),
    ensures
        photo_refusal(frame, size) is Some,
        composed(frame, size, window, scaling) == black_window(window),
{
}

/// The user reads that a photo was saved only if one was: no message about a
/// photo that was not saved reads the same, whatever the reason and the name.
pub proof fn law_saved_means_saved(
    frame: Seq<u8>,
    size: Size,
    reason: Seq<char>,
    filename: Seq<char>,
)
    ensures
        photo_refusal(frame, size) != Some(saved_message(filename)),
        no_directory_message(reason) != saved_message(filename),
        not_saved_message(reason) != saved_message(filename),
{
    reveal_strlit("Saved ");
    reveal_strlit("Save failed: ");
    reveal_strlit("Cannot create photo dir: ");
    reveal_strlit("No frame to save");
    reveal_strlit("Frame buffer too small: ");
    reveal_strlit("Failed to build image");
    assert(saved_message(filename)[0] == 'S');
    assert(saved_message(filename)[4] == 'd');
    assert(not_saved_message(reason)[4] == ' ');
    assert(no_directory_message(reason)[0] == 'C');
    match photo_refusal(frame, size) {
        Some(msg) => {
            assert(msg[0] == 'N' || msg[0] == 'F');
        },
        None => {},
    }
}

/// A message about a photo ends with what it is about, whole: the name of the
/// file, or the reason for the failure.
pub proof fn law_messages_tell_all(filename: Seq<char>, reason: Seq<char>)
    ensures
        saved_message(filename).len() == 6 + filename.len(),
        saved_message(filename).take(6) == "Saved "@,
        saved_message(filename).skip(6) == filename,
        not_saved_message(reason).len() == 13 + reason.len(),
        not_saved_message(reason).take(13) == "Save failed: "@,
        not_saved_message(reason).skip(13) == reason,
        no_directory_message(reason).len() == 25 + reason.len(),
        no_directory_message(reason).take(25) == "Cannot create photo dir: "@,
        no_directory_message(reason).skip(25) == reason,
{
    reveal_strlit("Saved ");
    reveal_strlit("Save failed: ");
    reveal_strlit("Cannot create photo dir: ");
    assert(saved_message(filename).take(6) =~= "Saved "@);
    assert(saved_message(filename).skip(6) =~= filename);
    assert(not_saved_message(reason).take(13) =~= "Save failed: "@);
    assert(not_saved_message(reason).skip(13) =~= reason);
    assert(no_directory_message(reason).take(25) =~= "Cannot create photo dir: "@);
    assert(no_directory_message(reason).skip(25) =~= reason);
}

/// After a refresh the screen shows the state, whatever it showed before: the
/// power, the menu, the settings, and the message, or no text where there is
/// none. The picture is the one that the latest frame makes on any screen.
pub proof fn law_refresh_shows_the_state(
    screen: Screen,
    other: Screen,
    app: AppModel,
    frame: Seq<u8>,
    window: Size,
    scaling: &Scaling,
)
    ensures
        ({
            let after = refreshed(screen, app, frame, window, scaling);
            &&& after.powered_off == Some(app.powered_off)
            &&& after.menu_visible == Some(app.menu_visible)
            &&& after.settings == app.settings
            &&& after.status_text is Some
            &&& app.status is Some ==> after.status_text->0 == app.status->0.msg
            &&& app.status is None ==> after.status_text->0.len() == 0
            &&& after.picture == with_frame(
                screen,
                frame,
                app.actual_size,
                window,
                scaling,
            ).picture
            &&& window.width > 0 && window.height > 0 ==> after == refreshed(
                other,
                app,
                frame,
                window,
                scaling,
            )
        }),
{
}

/// A refresh tells the view everything once: the power, the menu, the settings,
/// the message and at last the frame, and nothing else.
pub proof fn law_refresh_tells_everything_once(
    app: AppModel,
    frame: Seq<u8>,
    window: Size,
    scaling: &Scaling,
)
    ensures
        ({
            let calls = refresh_calls(app, frame, window, scaling);
            &&& calls.len() == 5
            &&& calls[0] == ViewCall::SetPoweredOff(app.powered_off)
            &&& calls[1] == ViewCall::SetMenuVisible(app.menu_visible)
            &&& calls[2] == ViewCall::SetSettings(app.settings)
            &&& calls[3] matches ViewCall::SetStatus(msg)
            &&& msg is Some <==> app.status is Some
            &&& msg is Some ==> msg->0 == app.status->0.msg
            &&& calls[4] matches ViewCall::UpdateFrame {
                frame: told,
                actual_size,
                window: told_window,
                columns,
                rows,
            }
            &&& told == frame
            &&& actual_size == app.actual_size
            &&& told_window == window
            &&& columns == scaling.columns@
            &&& rows == scaling.rows@
        }),
{
}

/// The model of a state tells everything that the state holds.
pub proof fn law_model_tells_the_state(app: &AppState)
    ensures
        app@.actual_size == app.actual_size,
        app@.photo_directory == app.config.photo_directory@,
        app@.power_off_after_secs == app.config.power_off_after_secs,
        app@.settings == app.settings,
        app@.menu_visible == app.menu_visible,
        app@.powered_off == app.powered_off,
        app@.last_activity == app.last_activity,
        app@.status is Some <==> app.status is Some,
        app.status is Some ==> app@.status->0.msg == app.status->0.msg@ && app@.status->0.until
            == app.status->0.until,
{
}

} // verus!
