# Deskscope

Kiosk GUI for displaying a Raspberry Pi camera feed, on top of a verified
library.

- `src/` is the library: the state of the viewer and how it changes (`app`),
  drawing a frame into the window (`views::raster`), the view (`views`), the
  names of photos (`clock`), loading the configuration (`config`), and what
  holds of the viewer as a whole (`laws`). It is verified with Verus, but for
  four wrappers around other crates, whose contracts are believed: `rgb_image`
  (`image`), `local_now` and `format_time` (`chrono`), and `rgba_image`
  (`slint`).
- `app/` is the program around it: the camera, the power pin, the window, the
  files and the command line. How the camera's picture is stretched over the
  window is computed there too, in floating point and unverified; the library
  draws by the tables that come out of it.
- `tests/` holds the tests of the library.

Slint needs a window backend at run time; which one depends on the device, and
it is switched on by a feature of the `slint` crate.
