# flint

A simple GUI tool for flashing ISO files to USB drives using dd.

## Usage

Run with sudo or as root. Select an ISO file, pick a USB device from the list, type its name to
confirm, and click Start flashing. The icon of the window is read from `icon-128.png`, which lies
beside the program.

## Layout

- `src/` is the library: what flint decides, verified with Verus. A flash job (`flasher`, with `dd`,
  `copy`, `xz`, `archive` and `verification`), the search for drives (`devices`) and the search for
  the theme of the desktop (`config`) are state machines: each names what it waits for and is told
  how that went. `app` is the state of the window. `laws` holds what is true of every job, and
  `transfer` follows the bytes of a copy to the device.
- `app/` is the program around it: the window, files, processes, and what takes floating point.
- `tests/` runs the library on concrete values.

The library trusts what it says of `sha2`, `hex`, `image` and `str::to_lowercase`; each of these
calls stands in a small function whose doc comment says what is believed of it.
