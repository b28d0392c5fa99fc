//! Drawing a camera frame into the pixels of a window.
//!
//! A camera frame has three bytes to a pixel, the window four, the fourth of
//! them the opacity. Both are stored row by row.
use vstd::arithmetic::div_mod::lemma_fundamental_div_mod_converse;
use vstd::prelude::*;

use crate::views::Size;

verus! {

/// How a camera frame is stretched over the window: for each column of the
/// drawn picture the column of the frame that it shows, and the same for rows.
pub struct Scaling {
    pub columns: Vec<usize>,
    pub rows: Vec<usize>,
}

impl Scaling {
    /// The drawn picture is no larger than a window of the given size.
    pub open spec fn within(&self, win_w: int, win_h: int) -> bool {
        &&& self.columns@.len() <= win_w
        &&& self.rows@.len() <= win_h
    }

    /// Tells whether the drawn picture is no larger than the window.
    pub fn fits(&self, win_w: usize, win_h: usize) -> (yes: bool)
        ensures
            yes == self.within(win_w as int, win_h as int),
            yes == (self.columns@.len() <= win_w && self.rows@.len() <= win_h),
    {
        self.columns.len() <= win_w && self.rows.len() <= win_h
    }

    /// The pixel of the frame, as column and row, that the window shows in
    /// column `x` and row `y`. The drawn picture stands in the middle of the
    /// window, and shows nothing where its source lies outside of the frame.
    pub open spec fn source(&self, size: Size, win_w: int, win_h: int, x: int, y: int) -> Option<
        (int, int),
    > {
        let dx = x - (win_w - self.columns@.len()) / 2;
        let dy = y - (win_h - self.rows@.len()) / 2;
        if 0 <= dx < self.columns@.len() && 0 <= dy < self.rows@.len() && self.columns@[dx]
            < size.width && self.rows@[dy] < size.height {
            Some((self.columns@[dx] as int, self.rows@[dy] as int))
        } else {
            None
        }
    }
}

/// There is something to draw: the frame is long enough for its size, and
/// neither the camera's picture nor the drawn one is without an area.
pub open spec fn draws(frame: Seq<u8>, size: Size, scaling: &Scaling) -> bool {
    &&& frame.len() >= size.frame_len()
    &&& size.width > 0
    &&& size.height > 0
    &&& scaling.columns@.len() > 0
    &&& scaling.rows@.len() > 0
}

/// Byte `i` of a window of width `win_w` and height `win_h` with the bytes
/// `before`, after the frame is drawn.
pub open spec fn rendered_byte(
    before: Seq<u8>,
    frame: Seq<u8>,
    size: Size,
    win_w: int,
    win_h: int,
    scaling: &Scaling,
    i: int,
) -> u8 {
    match scaling.source(size, win_w, win_h, (i / 4) % win_w, (i / 4) / win_w) {
        Some((column, row)) => if i % 4 == 3 {
            255
        } else {
            frame[(row * size.width + column) * 3 + i % 4]
        },
        None => before[i],
    }
}

/// The bytes of a window after the frame is drawn. A frame that is too short
/// for its size leaves the window as it was.
pub open spec fn rendered(
    before: Seq<u8>,
    frame: Seq<u8>,
    size: Size,
    win_w: int,
    win_h: int,
    scaling: &Scaling,
) -> Seq<u8> {
    if frame.len() < size.frame_len() {
        before
    } else {
        Seq::new(
            before.len(),
            |i: int| rendered_byte(before, frame, size, win_w, win_h, scaling, i),
        )
    }
}

/// The given bytes with each whole pixel made black and opaque.
pub open spec fn blackened(before: Seq<u8>) -> Seq<u8> {
    Seq::new(
        before.len(),
        |i: int|
            if i >= before.len() - before.len() % 4 {
                before[i]
            } else if i % 4 == 3 {
                255
            } else {
                0
            },
    )
}

/// Makes every pixel black and opaque.
pub fn fill_with_black(rgba: &mut [u8])
    ensures
        final(rgba)@ == blackened(old(rgba)@),
{
    let len: usize = rgba.len();
    let whole: usize = len - len % 4;
    let mut at: usize = 0;
    while at < whole
        invariant
            at <= whole,
            at % 4 == 0,
            whole % 4 == 0,
            whole == len - len % 4,
            len == old(rgba)@.len(),
            rgba@.len() == len,
            forall|i: int| 0 <= i < at ==> rgba@[i] == blackened(old(rgba)@)[i],
            forall|i: int| at <= i < len ==> rgba@[i] == old(rgba)@[i],
        decreases whole - at,
    {
        rgba[at] = 0;
        rgba[at + 1] = 0;
        rgba[at + 2] = 0;
        rgba[at + 3] = 255;
        at = at + 4;
    }
    proof {
        assert(rgba@ =~= blackened(old(rgba)@));
    }
}

/// A byte of the window pixel in column `x` and row `y` is found again by its
/// index.
pub proof fn lemma_pixel_of_byte(win_w: int, x: int, y: int, c: int)
    requires
        0 <= x < win_w,
        0 <= y,
        0 <= c < 4,
    ensures
        (((y * win_w + x) * 4 + c) / 4) % win_w == x,
        (((y * win_w + x) * 4 + c) / 4) / win_w == y,
        ((y * win_w + x) * 4 + c) % 4 == c,
{
    let p = y * win_w + x;
    assert((p * 4 + c) / 4 == p);
    lemma_fundamental_div_mod_converse(p, win_w, y, x);
}

/// An index whose pixel is in column `x` and row `y` belongs to that pixel.
proof fn lemma_byte_of_pixel(win_w: int, i: int)
    requires
        0 < win_w,
        0 <= i,
    ensures
        i == (((i / 4) / win_w) * win_w + (i / 4) % win_w) * 4 + i % 4,
        0 <= (i / 4) % win_w < win_w,
        0 <= (i / 4) / win_w,
{
    vstd::arithmetic::div_mod::lemma_fundamental_div_mod(i / 4, win_w);
    vstd::arithmetic::mul::lemma_mul_is_commutative(win_w, (i / 4) / win_w);
    vstd::arithmetic::div_mod::lemma_mod_bound(i / 4, win_w);
    vstd::arithmetic::div_mod::lemma_div_pos_is_pos(i / 4, win_w);
}

/// The bytes of a pixel inside a picture lie inside the picture's bytes.
pub proof fn lemma_pixel_in_bounds(w: int, h: int, x: int, y: int, depth: int)
    requires
        0 <= x < w,
        0 <= y < h,
        0 < depth,
    ensures
        0 <= y * w + x < w * h,
        0 <= (y * w + x) * depth,
        (y * w + x) * depth + depth <= w * h * depth,
{
    assert(y * w + x < w * h && 0 <= y * w + x) by (nonlinear_arith)
        requires
            0 <= x < w,
            0 <= y < h,
    ;
    let p = y * w + x;
    let n = w * h;
    assert(0 <= p * depth && p * depth + depth <= n * depth) by (nonlinear_arith)
        requires
            0 <= p < n,
            0 < depth,
    ;
}

/// The window pixel in column `x` and row `y` comes before the pixel in column
/// `to_x` and row `to_y`, row by row.
spec fn precedes(x: int, y: int, to_x: int, to_y: int) -> bool {
    y < to_y || (y == to_y && x < to_x)
}

/// The pixels of the window `now` that come before column `to_x` of row `to_y`
/// are drawn, the others are as they were `before`.
spec fn drawn_up_to(
    before: Seq<u8>,
    now: Seq<u8>,
    frame: Seq<u8>,
    size: Size,
    win_w: int,
    win_h: int,
    scaling: &Scaling,
    to_x: int,
    to_y: int,
) -> bool {
    &&& now.len() == before.len()
    &&& forall|i: int|
        #![trigger now[i]]
        0 <= i < before.len() ==> now[i] == if precedes(
            (i / 4) % win_w,
            (i / 4) / win_w,
            to_x,
            to_y,
        ) {
            rendered_byte(before, frame, size, win_w, win_h, scaling, i)
        } else {
            before[i]
        }
}

/// Draws the camera frame into the middle of a window, over what the window
/// held. Where there is nothing to draw, the bytes may be any, and stay as they
/// were.
pub fn render_frame(
    frame: &[u8],
    actual_size: Size,
    win_w: usize,
    win_h: usize,
    scaling: &Scaling,
    rgba: &mut [u8],
)
    requires
        actual_size.frame_len() <= usize::MAX,
        draws(frame@, actual_size, scaling) ==> {
            &&& scaling.within(win_w as int, win_h as int)
            &&& win_w * win_h * 4 <= old(rgba)@.len()
        },
    ensures
        final(rgba)@ == rendered(
            old(rgba)@,
            frame@,
            actual_size,
            win_w as int,
            win_h as int,
            scaling,
        ),
{
    let cam_w: usize = actual_size.width as usize;
    let cam_h: usize = actual_size.height as usize;
    proof {
        assert(cam_w * cam_h <= cam_w * cam_h * 3) by (nonlinear_arith)
            requires
                0 <= cam_w,
                0 <= cam_h,
        ;
    }
    if frame.len() < cam_w * cam_h * 3 {
        return ;
    }
    let scaled_w: usize = scaling.columns.len();
    let scaled_h: usize = scaling.rows.len();
    let ghost before = rgba@;
    let ghost ww = win_w as int;
    let ghost wh = win_h as int;
    if scaled_w == 0 || scaled_h == 0 || cam_w == 0 || cam_h == 0 {
        proof {
            assert(rgba@ =~= rendered(before, frame@, actual_size, ww, wh, scaling));
        }
        return ;
    }
    let dst_off_x: usize = (win_w - scaled_w) / 2;
    let dst_off_y: usize = (win_h - scaled_h) / 2;
    proof {
        lemma_nothing_precedes(before, frame@, actual_size, ww, wh, scaling);
    }
    let mut dy: usize = 0;
    while dy < scaled_h
        invariant
            cam_w == actual_size.width,
            cam_h == actual_size.height,
            cam_w * cam_h * 3 <= frame@.len(),
            win_w * win_h * 4 <= before.len(),
            scaled_w == scaling.columns@.len(),
            scaled_h == scaling.rows@.len(),
            0 < scaled_w <= win_w,
            0 < scaled_h <= win_h,
            dst_off_x == (win_w - scaled_w) / 2,
            dst_off_y == (win_h - scaled_h) / 2,
            ww == win_w,
            wh == win_h,
            dy <= scaled_h,
            drawn_up_to(
                before,
                rgba@,
                frame@,
                actual_size,
                ww,
                wh,
                scaling,
                0,
                dst_off_y + dy,
            ),
        decreases scaled_h - dy,
    {
        let vy: usize = scaling.rows[dy];
        if vy < cam_h {
            let mut dx: usize = 0;
            proof {
                lemma_pass_over(
                    before,
                    rgba@,
                    frame@,
                    actual_size,
                    ww,
                    wh,
                    scaling,
                    0,
                    dst_off_y + dy,
                    dst_off_x as int,
                    dst_off_y + dy,
                );
            }
            while dx < scaled_w
                invariant
                    cam_w == actual_size.width,
                    cam_h == actual_size.height,
                    cam_w * cam_h * 3 <= frame@.len(),
                    win_w * win_h * 4 <= before.len(),
                    scaled_w == scaling.columns@.len(),
                    scaled_h == scaling.rows@.len(),
                    0 < scaled_w <= win_w,
                    0 < scaled_h <= win_h,
                    dst_off_x == (win_w - scaled_w) / 2,
                    dst_off_y == (win_h - scaled_h) / 2,
                    ww == win_w,
                    wh == win_h,
                    dy < scaled_h,
                    dx <= scaled_w,
                    vy == scaling.rows@[dy as int],
                    vy < cam_h,
                    drawn_up_to(
                        before,
                        rgba@,
                        frame@,
                        actual_size,
                        ww,
                        wh,
                        scaling,
                        dst_off_x + dx,
                        dst_off_y + dy,
                    ),
                decreases scaled_w - dx,
            {
                let vx: usize = scaling.columns[dx];
                let ghost drawn = rgba@;
                if vx < cam_w {
                    proof {
                        lemma_pixel_in_bounds(
                            cam_w as int,
                            cam_h as int,
                            vx as int,
                            vy as int,
                            3,
                        );
                        lemma_pixel_in_bounds(
                            ww,
                            wh,
                            dst_off_x + dx,
                            dst_off_y + dy,
                            4,
                        );
                        assert(frame@.len() == frame.len());
                        assert(rgba@.len() == rgba.len());
                        assert(0 <= vy * cam_w && 0 <= (dst_off_y + dy) * win_w)
                            by (nonlinear_arith);
                    }
                    let src: usize = (vy * cam_w + vx) * 3;
                    let dst: usize = ((dst_off_y + dy) * win_w + (dst_off_x + dx)) * 4;
                    rgba[dst] = frame[src];
                    rgba[dst + 1] = frame[src + 1];
                    rgba[dst + 2] = frame[src + 2];
                    rgba[dst + 3] = 255;
                }
                proof {
                    lemma_draw_pixel(
                        before,
                        drawn,
                        rgba@,
                        frame@,
                        actual_size,
                        ww,
                        wh,
                        scaling,
                        dx as int,
                        dy as int,
                    );
                }
                dx = dx + 1;
            }
            proof {
                lemma_pass_over(
                    before,
                    rgba@,
                    frame@,
                    actual_size,
                    ww,
                    wh,
                    scaling,
                    dst_off_x + scaled_w,
                    dst_off_y + dy,
                    0,
                    dst_off_y + dy + 1,
                );
            }
        } else {
            proof {
                lemma_pass_over(
                    before,
                    rgba@,
                    frame@,
                    actual_size,
                    ww,
                    wh,
                    scaling,
                    0,
                    dst_off_y + dy,
                    0,
                    dst_off_y + dy + 1,
                );
            }
        }
        dy = dy + 1;
    }
    proof {
        lemma_all_drawn(before, rgba@, frame@, actual_size, ww, wh, scaling);
    }
}

/// Before the first row of the drawn picture nothing changes.
proof fn lemma_nothing_precedes(
    before: Seq<u8>,
    frame: Seq<u8>,
    size: Size,
    win_w: int,
    win_h: int,
    scaling: &Scaling,
)
    requires
        0 < scaling.columns@.len() <= win_w,
        scaling.rows@.len() <= win_h,
    ensures
        drawn_up_to(
            before,
            before,
            frame,
            size,
            win_w,
            win_h,
            scaling,
            0,
            (win_h - scaling.rows@.len()) / 2,
        ),
{
}

/// Pixels that show nothing of the frame stay as they are, so that the drawing
/// may pass over them, from column `from_x` of row `from_y` to column `to_x` of
/// row `to_y`.
proof fn lemma_pass_over(
    before: Seq<u8>,
    now: Seq<u8>,
    frame: Seq<u8>,
    size: Size,
    win_w: int,
    win_h: int,
    scaling: &Scaling,
    from_x: int,
    from_y: int,
    to_x: int,
    to_y: int,
)
    requires
        0 < win_w,
        from_y < to_y || (from_y == to_y && from_x <= to_x),
        forall|x: int, y: int|
            0 <= x < win_w && !precedes(x, y, from_x, from_y) && precedes(x, y, to_x, to_y)
                ==> #[trigger] scaling.source(size, win_w, win_h, x, y) is None,
        drawn_up_to(before, now, frame, size, win_w, win_h, scaling, from_x, from_y),
    ensures
        drawn_up_to(before, now, frame, size, win_w, win_h, scaling, to_x, to_y),
{
    assert forall|i: int| #![trigger now[i]] 0 <= i < before.len() implies 0 <= (i / 4) % win_w
        < win_w by {
        lemma_byte_of_pixel(win_w, i);
    }
}

/// Drawing one pixel, or leaving it where its source column lies outside of
/// the frame, carries the drawing one column further.
proof fn lemma_draw_pixel(
    before: Seq<u8>,
    drawn: Seq<u8>,
    now: Seq<u8>,
    frame: Seq<u8>,
    size: Size,
    win_w: int,
    win_h: int,
    scaling: &Scaling,
    dx: int,
    dy: int,
)
    requires
        0 <= dx < scaling.columns@.len() <= win_w,
        0 <= dy < scaling.rows@.len() <= win_h,
        scaling.rows@[dy] < size.height,
        win_w * win_h * 4 <= before.len(),
        drawn_up_to(
            before,
            drawn,
            frame,
            size,
            win_w,
            win_h,
            scaling,
            (win_w - scaling.columns@.len()) / 2 + dx,
            (win_h - scaling.rows@.len()) / 2 + dy,
        ),
        ({
            let x = (win_w - scaling.columns@.len()) / 2 + dx;
            let y = (win_h - scaling.rows@.len()) / 2 + dy;
            let dst = (y * win_w + x) * 4;
            let src = (scaling.rows@[dy] * size.width + scaling.columns@[dx]) * 3;
            now == if scaling.columns@[dx] < size.width {
                drawn.update(dst, frame[src]).update(dst + 1, frame[src + 1]).update(
                    dst + 2,
                    frame[src + 2],
                ).update(dst + 3, 255)
            } else {
                drawn
            }
        }),
    ensures
        drawn_up_to(
            before,
            now,
            frame,
            size,
            win_w,
            win_h,
            scaling,
            (win_w - scaling.columns@.len()) / 2 + dx + 1,
            (win_h - scaling.rows@.len()) / 2 + dy,
        ),
{
    let x = (win_w - scaling.columns@.len()) / 2 + dx;
    let y = (win_h - scaling.rows@.len()) / 2 + dy;
    let dst = (y * win_w + x) * 4;
    lemma_pixel_in_bounds(win_w, win_h, x, y, 4);
    assert forall|i: int| #![trigger now[i]] 0 <= i < before.len() implies now[i] == if precedes(
        (i / 4) % win_w,
        (i / 4) / win_w,
        x + 1,
        y,
    ) {
        rendered_byte(before, frame, size, win_w, win_h, scaling, i)
    } else {
        before[i]
    } by {
        lemma_byte_of_pixel(win_w, i);
        assert(drawn[i] == drawn[i]);
        if dst <= i < dst + 4 {
            lemma_pixel_of_byte(win_w, x, y, i - dst);
        }
    }
}

/// Below the drawn picture nothing changes, so that after its last row the
/// whole window is drawn.
proof fn lemma_all_drawn(
    before: Seq<u8>,
    now: Seq<u8>,
    frame: Seq<u8>,
    size: Size,
    win_w: int,
    win_h: int,
    scaling: &Scaling,
)
    requires
        0 < scaling.columns@.len() <= win_w,
        0 < scaling.rows@.len() <= win_h,
        frame.len() >= size.frame_len(),
        drawn_up_to(
            before,
            now,
            frame,
            size,
            win_w,
            win_h,
            scaling,
            0,
            (win_h - scaling.rows@.len()) / 2 + scaling.rows@.len(),
        ),
    ensures
        now == rendered(before, frame, size, win_w, win_h, scaling),
{
    let all = rendered(before, frame, size, win_w, win_h, scaling);
    assert forall|i: int| 0 <= i < before.len() implies now[i] == all[i] by {
        lemma_byte_of_pixel(win_w, i);
    }
    assert(now =~= all);
}

/// Where there is nothing to draw, drawing leaves any bytes as they were: a frame
/// that is too short is not drawn even in part, and neither a camera's picture
/// nor a drawn one without an area shows anything.
pub proof fn law_nothing_to_draw_changes_nothing(
    before: Seq<u8>,
    frame: Seq<u8>,
    size: Size,
    win_w: int,
    win_h: int,
    scaling: &Scaling,
)
    requires
        !draws(frame, size, scaling),
    ensures
        rendered(before, frame, size, win_w, win_h, scaling) == before,
{
    assert(rendered(before, frame, size, win_w, win_h, scaling) =~= before);
}

/// What drawing does to a pixel of the window, in column `x` and row `y`: where a
/// whole frame is drawn and the pixel lies inside the drawn picture, in the middle
/// of the window, it takes the colour of the pixel of the frame that is named for
/// its column and its row, and becomes opaque. Any other pixel stays as it was.
pub proof fn law_drawing_changes_each_pixel_alone(
    before: Seq<u8>,
    frame: Seq<u8>,
    size: Size,
    win_w: int,
    win_h: int,
    scaling: &Scaling,
    x: int,
    y: int,
)
    requires
        scaling.columns@.len() <= win_w,
        scaling.rows@.len() <= win_h,
        win_w * win_h * 4 <= before.len(),
        0 <= x < win_w,
        0 <= y < win_h,
    ensures
        ({
            let after = rendered(before, frame, size, win_w, win_h, scaling);
            let columns = scaling.columns@;
            let rows = scaling.rows@;
            let dx = x - (win_w - columns.len()) / 2;
            let dy = y - (win_h - rows.len()) / 2;
            let at = (y * win_w + x) * 4;
            let src = (rows[dy] * size.width + columns[dx]) * 3;
            &&& after.len() == before.len()
            &&& if frame.len() >= size.width * size.height * 3 && 0 <= dx < columns.len() && 0 <= dy
                < rows.len() && columns[dx] < size.width && rows[dy] < size.height {
                &&& after[at] == frame[src]
                &&& after[at + 1] == frame[src + 1]
                &&& after[at + 2] == frame[src + 2]
                &&& after[at + 3] == 255
            } else {
                forall|c: int| 0 <= c < 4 ==> #[trigger] after[at + c] == before[at + c]
            }
        }),
{
    let after = rendered(before, frame, size, win_w, win_h, scaling);
    let at = (y * win_w + x) * 4;
    lemma_pixel_in_bounds(win_w, win_h, x, y, 4);
    lemma_pixel_of_byte(win_w, x, y, 0);
    lemma_pixel_of_byte(win_w, x, y, 1);
    lemma_pixel_of_byte(win_w, x, y, 2);
    lemma_pixel_of_byte(win_w, x, y, 3);
    assert(after[at] == after[at + 0]);
    assert forall|c: int| 0 <= c < 4 && scaling.source(size, win_w, win_h, x, y) is None implies (
    #[trigger] after[at + c]) == before[at + c] by {
        lemma_pixel_of_byte(win_w, x, y, c);
    }
}

/// Bytes beyond the window stay as they were.
pub proof fn law_drawing_stays_in_the_window(
    before: Seq<u8>,
    frame: Seq<u8>,
    size: Size,
    win_w: int,
    win_h: int,
    scaling: &Scaling,
    i: int,
)
    requires
        scaling.columns@.len() <= win_w,
        scaling.rows@.len() <= win_h,
        0 < win_w,
        win_w * win_h * 4 <= i < before.len(),
    ensures
        rendered(before, frame, size, win_w, win_h, scaling)[i] == before[i],
{
    lemma_byte_of_pixel(win_w, i);
    let x = (i / 4) % win_w;
    let y = (i / 4) / win_w;
    if y < win_h {
        lemma_pixel_in_bounds(win_w, win_h, x, y, 4);
        assert(false);
    }
}

/// Blackening makes each whole pixel black and opaque, whatever it was, and
/// leaves the bytes after the last whole pixel.
pub proof fn law_black_is_black(before: Seq<u8>, i: int)
    requires
        0 <= i < before.len(),
    ensures
        blackened(before).len() == before.len(),
        blackened(before)[i] == if i >= before.len() / 4 * 4 {
            before[i]
        } else if i % 4 == 3 {
            255
        } else {
            0
        },
{
}

/// Drawn without stretching into a window of the camera's own size, each pixel
/// of the frame stands in its own place, opaque.
pub proof fn law_unscaled_frame_is_copied(
    before: Seq<u8>,
    frame: Seq<u8>,
    size: Size,
    scaling: &Scaling,
    p: int,
)
    requires
        frame.len() >= size.frame_len(),
        before.len() == size.rgba_len(),
        scaling.columns@ == Seq::new(size.width as nat, |i: int| i as usize),
        scaling.rows@ == Seq::new(size.height as nat, |i: int| i as usize),
        0 <= p < size.width * size.height,
    ensures
        ({
            let after = rendered(
                before,
                frame,
                size,
                size.width as int,
                size.height as int,
                scaling,
            );
            &&& after[4 * p] == frame[3 * p]
            &&& after[4 * p + 1] == frame[3 * p + 1]
            &&& after[4 * p + 2] == frame[3 * p + 2]
            &&& after[4 * p + 3] == 255
        }),
{
    let w = size.width as int;
    let h = size.height as int;
    assert(w > 0) by (nonlinear_arith)
        requires
            0 <= p < w * h,
            0 <= w,
    ;
    let x = p % w;
    let y = p / w;
    vstd::arithmetic::div_mod::lemma_fundamental_div_mod(p, w);
    vstd::arithmetic::mul::lemma_mul_is_commutative(w, y);
    vstd::arithmetic::div_mod::lemma_div_pos_is_pos(p, w);
    assert(y < h) by (nonlinear_arith)
        requires
            p == y * w + x,
            0 <= x,
            p < w * h,
            0 < w,
    ;
    assert(scaling.source(size, w, h, x, y) == Some((x, y)));
    lemma_pixel_of_byte(w, x, y, 0);
    lemma_pixel_of_byte(w, x, y, 1);
    lemma_pixel_of_byte(w, x, y, 2);
    lemma_pixel_of_byte(w, x, y, 3);
}

} // verus!
