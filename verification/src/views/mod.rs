//! What the user sees.
use vstd::prelude::*;
use vstd::view::View as _;

pub mod raster;
pub mod slint_view;

use crate::views::raster::{
    blackened, draws, lemma_pixel_in_bounds, lemma_pixel_of_byte, rendered, Scaling,
};

verus! {

/// The size of a picture in pixels.
#[derive(Debug, Clone, Copy, PartialEq, Eq, Structural)]
pub struct Size {
    pub width: u32,
    pub height: u32,
}

impl Size {
    /// The number of bytes of a picture of this size, three to a pixel.
    pub open spec fn frame_len(self) -> nat {
        (self.width * self.height * 3) as nat
    }

    /// The number of bytes of a picture of this size, four to a pixel.
    pub open spec fn rgba_len(self) -> nat {
        (self.width * self.height * 4) as nat
    }

    /// The number of bytes of a picture of this size with `depth` bytes to a
    /// pixel, where this machine can hold that many bytes in one object.
    pub fn byte_len(self, depth: u32) -> (len: Option<usize>)
        ensures
            len == (if self.width * self.height * depth <= isize::MAX {
                Some((self.width * self.height * depth) as usize)
            } else {
                None
            }),
    {
        let width: u128 = self.width as u128;
        let height: u128 = self.height as u128;
        proof {
            assert(width * height <= 0xffff_ffff * 0xffff_ffff && width * height * depth
                <= 0xffff_ffff * 0xffff_ffff * 0xffff_ffff) by (nonlinear_arith)
                requires
                    0 <= width <= 0xffff_ffff,
                    0 <= height <= 0xffff_ffff,
                    0 <= depth <= 0xffff_ffff,
            ;
        }
        let len: u128 = width * height * depth as u128;
        if len <= isize::MAX as u128 {
            Some(len as usize)
        } else {
            None
        }
    }
}

/// Display settings controlled through the UI.
#[derive(Debug, Clone, Copy, PartialEq, Eq, Structural)]
pub struct Settings;

/// A picture: its size, and its pixels row by row, four bytes each.
pub struct Picture {
    pub width: nat,
    pub height: nat,
    pub rgba: Seq<u8>,
}

/// What a view was last told to show. `None` stands for what it was never told.
pub struct Screen {
    pub powered_off: Option<bool>,
    pub menu_visible: Option<bool>,
    pub status_text: Option<Seq<char>>,
    pub settings: Settings,
    pub picture: Option<Picture>,
}

/// A black and opaque window.
pub open spec fn black_window(window: Size) -> Seq<u8> {
    blackened(Seq::new(window.rgba_len(), |i: int| 0u8))
}

/// The pixels of a window that shows the camera frame on black. Without a
/// frame, and with one too short for its size, the window is black.
pub open spec fn composed(
    frame: Seq<u8>,
    actual_size: Size,
    window: Size,
    scaling: &Scaling,
) -> Seq<u8> {
    if frame.len() == 0 {
        black_window(window)
    } else {
        rendered(
            black_window(window),
            frame,
            actual_size,
            window.width as int,
            window.height as int,
            scaling,
        )
    }
}

/// The screen after a new camera frame. A window without an area keeps the
/// picture that it had.
pub open spec fn with_frame(
    screen: Screen,
    frame: Seq<u8>,
    actual_size: Size,
    window: Size,
    scaling: &Scaling,
) -> Screen {
    if window.width == 0 || window.height == 0 {
        screen
    } else {
        Screen {
            picture: Some(
                Picture {
                    width: window.width as nat,
                    height: window.height as nat,
                    rgba: composed(frame, actual_size, window, scaling),
                },
            ),
            ..screen
        }
    }
}

/// The callbacks of a view, one for each kind of user input.
pub struct Callbacks<C> {
    pub show_menu: Option<C>,
    pub dismiss_menu: Option<C>,
    pub wake: Option<C>,
    pub power_off: Option<C>,
    pub take_photo: Option<C>,
}

/// A call that tells a view what to show, with its arguments.
pub enum ViewCall {
    UpdateFrame {
        frame: Seq<u8>,
        actual_size: Size,
        window: Size,
        columns: Seq<usize>,
        rows: Seq<usize>,
    },
    SetMenuVisible(bool),
    SetPoweredOff(bool),
    SetStatus(Option<Seq<char>>),
    SetSettings(Settings),
}

/// The text of a status message, if there is one.
pub open spec fn status_text(msg: Option<String>) -> Option<Seq<char>> {
    match msg {
        Some(text) => Some(text@),
        None => None,
    }
}

/// The window can be held on this machine; and where there is a frame and a
/// window with an area, so can the camera's picture, and what is drawn of it is
/// no larger than the window.
pub open spec fn frame_fits(
    frame: Seq<u8>,
    actual_size: Size,
    window: Size,
    scaling: &Scaling,
) -> bool {
    &&& window.rgba_len() <= isize::MAX
    &&& frame.len() > 0 && window.width > 0 && window.height > 0 ==> {
        &&& actual_size.frame_len() <= usize::MAX
        &&& draws(frame, actual_size, scaling) ==> scaling.within(
            window.width as int,
            window.height as int,
        )
    }
}

/// Abstract interface for the user interface.
///
/// The application logic works against this trait, so that the concrete
/// rendering toolkit stays in its own module. `C` is the type of the callbacks
/// that the view fires in response to user input.
pub trait View<C> {
    /// What the view was last told to show.
    spec fn screen(&self) -> Screen;

    /// The calls that told the view what to show, in their order.
    spec fn calls(&self) -> Seq<ViewCall>;

    /// The callbacks that were registered.
    spec fn registered(&self) -> Callbacks<C>;

    /// Renders a new camera frame into a window of the given size.
    fn update_frame(&mut self, frame: &[u8], actual_size: Size, window: Size, scaling: &Scaling)
        requires
            frame_fits(frame@, actual_size, window, scaling),
        ensures
            final(self).calls() == old(self).calls().push(
                ViewCall::UpdateFrame {
                    frame: frame@,
                    actual_size,
                    window,
                    columns: scaling.columns@,
                    rows: scaling.rows@,
                },
            ),
            final(self).screen() == with_frame(
                old(self).screen(),
                frame@,
                actual_size,
                window,
                scaling,
            ),
            final(self).registered() == old(self).registered(),
    ;

    /// Shows or hides the settings menu.
    fn set_menu_visible(&mut self, visible: bool)
        ensures
            final(self).calls() == old(self).calls().push(ViewCall::SetMenuVisible(visible)),
            final(self).screen() == (Screen { menu_visible: Some(visible), ..old(self).screen() }),
            final(self).registered() == old(self).registered(),
    ;

    /// Shows or hides the power-off overlay.
    fn set_powered_off(&mut self, off: bool)
        ensures
            final(self).calls() == old(self).calls().push(ViewCall::SetPoweredOff(off)),
            final(self).screen() == (Screen { powered_off: Some(off), ..old(self).screen() }),
            final(self).registered() == old(self).registered(),
    ;

    /// Displays a transient status message, or clears it.
    fn set_status(&mut self, msg: Option<String>)
        ensures
            final(self).calls() == old(self).calls().push(ViewCall::SetStatus(status_text(msg))),
            final(self).screen() == (Screen {
                status_text: Some(
                    match msg {
                        Some(text) => text@,
                        None => Seq::empty(),
                    },
                ),
                ..old(self).screen()
            }),
            final(self).registered() == old(self).registered(),
    ;

    /// Updates the on-screen settings labels.
    fn set_settings(&mut self, settings: &Settings)
        ensures
            final(self).calls() == old(self).calls().push(ViewCall::SetSettings(*settings)),
            final(self).screen() == (Screen { settings: *settings, ..old(self).screen() }),
            final(self).registered() == old(self).registered(),
    ;

    /// Registers what to call when the user asks for the menu.
    fn on_show_menu(&mut self, callback: C)
        ensures
            final(self).registered() == (Callbacks {
                show_menu: Some(callback),
                ..old(self).registered()
            }),
            final(self).screen() == old(self).screen(),
            final(self).calls() == old(self).calls(),
    ;

    /// Registers what to call when the user leaves the menu.
    fn on_dismiss_menu(&mut self, callback: C)
        ensures
            final(self).registered() == (Callbacks {
                dismiss_menu: Some(callback),
                ..old(self).registered()
            }),
            final(self).screen() == old(self).screen(),
            final(self).calls() == old(self).calls(),
    ;

    /// Registers what to call when the user wakes the device.
    fn on_wake(&mut self, callback: C)
        ensures
            final(self).registered() == (Callbacks {
                wake: Some(callback),
                ..old(self).registered()
            }),
            final(self).screen() == old(self).screen(),
            final(self).calls() == old(self).calls(),
    ;

    /// Registers what to call when the user switches the device off.
    fn on_power_off(&mut self, callback: C)
        ensures
            final(self).registered() == (Callbacks {
                power_off: Some(callback),
                ..old(self).registered()
            }),
            final(self).screen() == old(self).screen(),
            final(self).calls() == old(self).calls(),
    ;

    /// Registers what to call when the user takes a photo.
    fn on_take_photo(&mut self, callback: C)
        ensures
            final(self).registered() == (Callbacks {
                take_photo: Some(callback),
                ..old(self).registered()
            }),
            final(self).screen() == old(self).screen(),
            final(self).calls() == old(self).calls(),
    ;
}

/// A picture of the camera has three bytes to a pixel, one of the window four.
pub proof fn law_bytes_to_a_pixel(size: Size)
    ensures
        size.frame_len() == size.width * size.height * 3,
        size.rgba_len() == size.width * size.height * 4,
{
    assert(0 <= size.width * size.height) by (nonlinear_arith)
        requires
            0 <= size.width,
            0 <= size.height,
    ;
}

/// Each new frame is shown at once, whatever the screen showed before: a window
/// with an area then holds a picture of its own size, in which the pixel in
/// column `x` and row `y` is opaque, and has the colour that the frame has at the
/// column and the row named for it, if there is a whole frame and the pixel lies
/// inside the drawn picture in the middle of the window; otherwise it is black.
/// Nothing else on the screen changes.
pub proof fn law_new_frame_is_shown(
    screen: Screen,
    frame: Seq<u8>,
    actual_size: Size,
    window: Size,
    scaling: &Scaling,
    x: int,
    y: int,
)
    requires
        0 <= x < window.width,
        0 <= y < window.height,
    ensures
        ({
            let after = with_frame(screen, frame, actual_size, window, scaling);
            let columns = scaling.columns@;
            let rows = scaling.rows@;
            let dx = x - (window.width - columns.len()) / 2;
            let dy = y - (window.height - rows.len()) / 2;
            let at = (y * window.width + x) * 4;
            let src = (rows[dy] * actual_size.width + columns[dx]) * 3;
            &&& after == (Screen { picture: after.picture, ..screen })
            &&& after.picture matches Some(picture)
            &&& picture.width == window.width
            &&& picture.height == window.height
            &&& picture.rgba.len() == window.width * window.height * 4
            &&& 0 <= at && at + 4 <= picture.rgba.len()
            &&& picture.rgba[at + 3] == 255
            &&& if frame.len() > 0 && frame.len() >= actual_size.width * actual_size.height * 3 && 0
                <= dx < columns.len() && 0 <= dy < rows.len() && columns[dx] < actual_size.width
                && rows[dy] < actual_size.height {
                &&& picture.rgba[at] == frame[src]
                &&& picture.rgba[at + 1] == frame[src + 1]
                &&& picture.rgba[at + 2] == frame[src + 2]
            } else {
                &&& picture.rgba[at] == 0
                &&& picture.rgba[at + 1] == 0
                &&& picture.rgba[at + 2] == 0
            }
        }),
{
    lemma_pixel_in_bounds(window.width as int, window.height as int, x, y, 4);
    law_bytes_to_a_pixel(window);
    law_bytes_to_a_pixel(actual_size);
    law_window_is_opaque(frame, actual_size, window, scaling);
    law_window_shows_the_frame_on_black(frame, actual_size, window, scaling, x, y, 0);
    law_window_shows_the_frame_on_black(frame, actual_size, window, scaling, x, y, 1);
    law_window_shows_the_frame_on_black(frame, actual_size, window, scaling, x, y, 2);
    assert(((y * window.width + x) * 4 + 3) % 4 == 3);
}

/// The live feed never freezes: after two frames the window shows the second,
/// just as a window does that has never shown anything else.
pub proof fn law_later_frame_replaces_the_earlier(
    screen: Screen,
    other: Screen,
    earlier: Seq<u8>,
    earlier_size: Size,
    earlier_window: Size,
    earlier_scaling: &Scaling,
    later: Seq<u8>,
    later_size: Size,
    window: Size,
    scaling: &Scaling,
)
    requires
        window.width > 0,
        window.height > 0,
    ensures
        ({
            let first = with_frame(
                screen,
                earlier,
                earlier_size,
                earlier_window,
                earlier_scaling,
            );
            let second = with_frame(first, later, later_size, window, scaling);
            &&& second.picture is Some
            &&& second.picture == with_frame(other, later, later_size, window, scaling).picture
            &&& second == with_frame(screen, later, later_size, window, scaling)
        }),
{
}

/// A window without an area takes no frame: the screen stays as it was.
pub proof fn law_no_area_no_new_picture(
    screen: Screen,
    frame: Seq<u8>,
    actual_size: Size,
    window: Size,
    scaling: &Scaling,
)
    requires
        window.width * window.height == 0,
    ensures
        with_frame(screen, frame, actual_size, window, scaling) == screen,
{
    assert(window.width == 0 || window.height == 0) by (nonlinear_arith)
        requires
            window.width * window.height == 0,
    ;
}

/// A view is told a status message as it is, and that there is none where there
/// is none.
pub proof fn law_status_text_is_the_message(msg: Option<String>)
    ensures
        status_text(msg) is Some <==> msg is Some,
        msg is Some ==> status_text(msg)->0 == msg->0@,
{
}

/// The picture in the window is opaque everywhere, and covers the window.
pub proof fn law_window_is_opaque(
    frame: Seq<u8>,
    actual_size: Size,
    window: Size,
    scaling: &Scaling,
)
    ensures
        composed(frame, actual_size, window, scaling).len() == window.rgba_len(),
        forall|i: int|
            0 <= i < window.rgba_len() && i % 4 == 3 ==> #[trigger] composed(
                frame,
                actual_size,
                window,
                scaling,
            )[i] == 255,
{
    let n = (window.width * window.height) as int;
    assert(window.width * window.height >= 0) by (nonlinear_arith)
        requires
            0 <= window.width,
            0 <= window.height,
    ;
    assert(window.rgba_len() == n * 4 && n >= 0);
}

/// A pixel of the window for which the scaling names a pixel of the frame shows
/// that pixel; any other pixel is black. All are black as long as there is no
/// whole frame.
pub proof fn law_window_shows_the_frame_on_black(
    frame: Seq<u8>,
    actual_size: Size,
    window: Size,
    scaling: &Scaling,
    x: int,
    y: int,
    c: int,
)
    requires
        0 <= x < window.width,
        0 <= y < window.height,
        0 <= c < 3,
    ensures
        composed(frame, actual_size, window, scaling)[(y * window.width + x) * 4 + c] == (
        match scaling.source(
            actual_size,
            window.width as int,
            window.height as int,
            x,
            y,
        ) {
            Some((column, row)) if frame.len() > 0 && frame.len() >= actual_size.frame_len() =>
                frame[(row * actual_size.width + column) * 3 + c],
            _ => 0u8,
        }),
{
    lemma_pixel_of_byte(window.width as int, x, y, c);
    lemma_pixel_in_bounds(window.width as int, window.height as int, x, y, 4);
}

/// The drawn picture stands in the middle of the window: its margins on two
/// opposite sides differ by one pixel at most, and nothing is drawn on them.
pub proof fn law_picture_is_centred(
    actual_size: Size,
    window: Size,
    scaling: &Scaling,
    x: int,
    y: int,
)
    requires
        scaling.within(window.width as int, window.height as int),
    ensures
        ({
            let left = (window.width - scaling.columns@.len()) / 2;
            let right = window.width - scaling.columns@.len() - left;
            let top = (window.height - scaling.rows@.len()) / 2;
            let bottom = window.height - scaling.rows@.len() - top;
            &&& 0 <= left <= right <= left + 1
            &&& 0 <= top <= bottom <= top + 1
            &&& (x < left || x >= window.width - right || y < top || y >= window.height - bottom)
                ==> scaling.source(
                actual_size,
                window.width as int,
                window.height as int,
                x,
                y,
            ) is None
        }),
{
}

/// In a window of the camera's own size, drawn without stretching, each pixel
/// of the frame stands in its own place.
pub proof fn law_unscaled_window_is_the_frame(
    frame: Seq<u8>,
    actual_size: Size,
    scaling: &Scaling,
    x: int,
    y: int,
    c: int,
)
    requires
        frame.len() >= actual_size.frame_len(),
        scaling.columns@ == Seq::new(actual_size.width as nat, |i: int| i as usize),
        scaling.rows@ == Seq::new(actual_size.height as nat, |i: int| i as usize),
        0 <= x < actual_size.width,
        0 <= y < actual_size.height,
        0 <= c < 3,
    ensures
        composed(frame, actual_size, actual_size, scaling)[(y * actual_size.width + x) * 4 + c]
            == frame[(y * actual_size.width + x) * 3 + c],
{
    lemma_pixel_in_bounds(actual_size.width as int, actual_size.height as int, x, y, 3);
    assert(scaling.source(
        actual_size,
        actual_size.width as int,
        actual_size.height as int,
        x,
        y,
    ) == Some((x, y)));
    law_window_shows_the_frame_on_black(frame, actual_size, actual_size, scaling, x, y, c);
}

} // verus!
