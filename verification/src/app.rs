//! The window: what it shows, and what the user's actions and a job's messages make of it.
use vstd::prelude::*;
use vstd::string::*;

use crate::message;
use crate::message::{
    plain, text_piece, Message, MessageView, Piece, PieceView, Share, UsbDevice, UsbDeviceView, MIB,
};
use crate::text;
use crate::text::{same, tail_after, trim, trim_leading};

verus! {

// ---------------------------------------------------------------------------
// Colours
// ---------------------------------------------------------------------------

/// A colour; red, green and blue are multiplied by the opacity `a` already.
#[derive(Clone, Copy, PartialEq, Eq, Structural, Debug)]
pub struct Color {
    pub r: u8,
    pub g: u8,
    pub b: u8,
    pub a: u8,
}

/// How far a box stands out from the panel under it.
pub const BOX_CONTRAST: u8 = 25;

/// `c` made darker, but not below 0.
pub open spec fn darker(c: u8) -> u8 {
    if c < BOX_CONTRAST {
        0
    } else {
        (c - BOX_CONTRAST) as u8
    }
}

/// `c` made lighter, but not above 255.
pub open spec fn lighter(c: u8) -> u8 {
    if c + BOX_CONTRAST > 255 {
        255
    } else {
        (c + BOX_CONTRAST) as u8
    }
}

/// The colour of a box on a panel: darker on a light panel, lighter on a dark one. A panel is light
/// where its mean brightness, rounded down, is more than 128.
pub open spec fn box_fill(panel: Color) -> Color {
    if (panel.r + panel.g + panel.b) / 3 > 128 {
        Color { r: darker(panel.r), g: darker(panel.g), b: darker(panel.b), a: panel.a }
    } else {
        Color { r: lighter(panel.r), g: lighter(panel.g), b: lighter(panel.b), a: panel.a }
    }
}

/// `c` made darker, but not below 0.
fn darken(c: u8) -> (r: u8)
    ensures
        r == darker(c),
{
    if c < BOX_CONTRAST {
        0
    } else {
        c - BOX_CONTRAST
    }
}

/// `c` made lighter, but not above 255.
fn lighten(c: u8) -> (r: u8)
    ensures
        r == lighter(c),
{
    if c > 255 - BOX_CONTRAST {
        255
    } else {
        c + BOX_CONTRAST
    }
}

/// The colour of a box on a panel.
pub fn box_fill_from(panel: Color) -> (r: Color)
    ensures
        r == box_fill(panel),
{
    let avg: u16 = (panel.r as u16 + panel.g as u16 + panel.b as u16) / 3;
    if avg > 128 {
        Color { r: darken(panel.r), g: darken(panel.g), b: darken(panel.b), a: panel.a }
    } else {
        Color { r: lighten(panel.r), g: lighten(panel.g), b: lighten(panel.b), a: panel.a }
    }
}

/// The colour behind a warning.
pub open spec fn warning_color(dark_mode: bool) -> Color {
    if dark_mode {
        Color { r: 180, g: 60, b: 40, a: 30 }
    } else {
        Color { r: 255, g: 200, b: 180, a: 40 }
    }
}

/// The colour behind a warning.
pub fn warning_fill(dark_mode: bool) -> (r: Color)
    ensures
        r == if dark_mode {
            Color { r: 180, g: 60, b: 40, a: 30 }
        } else {
            Color { r: 255, g: 200, b: 180, a: 40 }
        },
        r == warning_color(dark_mode),
{
    if dark_mode {
        Color { r: 180, g: 60, b: 40, a: 30 }
    } else {
        Color { r: 255, g: 200, b: 180, a: 40 }
    }
}

// ---------------------------------------------------------------------------
// The name of a device
// ---------------------------------------------------------------------------

/// The name of the device at `path`: what follows the last slash, without the `\\.\` in front that
/// Windows gives to devices.
pub open spec fn short_name(path: Seq<char>) -> Seq<char> {
    text::without_leading(text::after_last(path, '/'), "\\\\.\\"@)
}

/// The name of the device at `path`.
pub fn extract_device_short_name(path: &str) -> (r: String)
    ensures
        r@ == short_name(path@),
{
    proof {
        reveal_strlit("\\\\.\\");
    }
    trim_leading(tail_after(path, '/'), "\\\\.\\").to_owned()
}

// ---------------------------------------------------------------------------
// The window
// ---------------------------------------------------------------------------

/// How far the progress bar is.
#[derive(Clone, Copy, PartialEq, Eq, Structural)]
pub enum Gauge {
    /// The first number divided by the second.
    Part(u64, u64),
    /// The share of a verification.
    Verify(Share),
}

/// The window.
pub struct FlintApp {
    /// The image to flash.
    pub iso_path: String,
    /// The devices on offer.
    pub usb_devices: Vec<UsbDevice>,
    /// The device to flash to.
    pub selected_idx: usize,
    pub flashing: bool,
    pub verifying: bool,
    pub progress: Gauge,
    /// The line under the progress bar.
    pub status: Vec<Piece>,
    pub log: Vec<Vec<Piece>>,
    /// Whether the job is asked to stop.
    pub cancel: bool,
    pub dark_mode: bool,
    pub show_log: bool,
    pub show_dialog: bool,
    pub dialog_message: String,
    pub verify_after_flash: bool,
    /// What the user typed to confirm the device.
    pub confirm_input: String,
}

/// The contents of a [`FlintApp`].
#[verifier::ext_equal]
pub struct AppView {
    pub iso_path: Seq<char>,
    pub usb_devices: Seq<UsbDeviceView>,
    pub selected_idx: usize,
    pub flashing: bool,
    pub verifying: bool,
    pub progress: Gauge,
    pub status: Seq<PieceView>,
    pub log: Seq<Seq<PieceView>>,
    pub cancel: bool,
    pub dark_mode: bool,
    pub show_log: bool,
    pub show_dialog: bool,
    pub dialog_message: Seq<char>,
    pub verify_after_flash: bool,
    pub confirm_input: Seq<char>,
}

/// The contents of a list of lines.
pub open spec fn log_views(v: Seq<Vec<Piece>>) -> Seq<Seq<PieceView>> {
    v.map_values(|l: Vec<Piece>| message::line_view(l@))
}

impl View for FlintApp {
    type V = AppView;

    open spec fn view(&self) -> AppView {
        AppView {
            iso_path: self.iso_path@,
            usb_devices: message::device_views(self.usb_devices@),
            selected_idx: self.selected_idx,
            flashing: self.flashing,
            verifying: self.verifying,
            progress: self.progress,
            status: message::line_view(self.status@),
            log: log_views(self.log@),
            cancel: self.cancel,
            dark_mode: self.dark_mode,
            show_log: self.show_log,
            show_dialog: self.show_dialog,
            dialog_message: self.dialog_message@,
            verify_after_flash: self.verify_after_flash,
            confirm_input: self.confirm_input@,
        }
    }
}

/// What a job is to do.
pub struct Order {
    pub iso_path: String,
    pub dev_path: String,
    pub dev_label: String,
    pub verify: bool,
}

/// The contents of an [`Order`].
pub struct OrderView {
    pub iso_path: Seq<char>,
    pub dev_path: Seq<char>,
    pub dev_label: Seq<char>,
    pub verify: bool,
}

impl View for Order {
    type V = OrderView;

    open spec fn view(&self) -> OrderView {
        OrderView {
            iso_path: self.iso_path@,
            dev_path: self.dev_path@,
            dev_label: self.dev_label@,
            verify: self.verify,
        }
    }
}

/// The colour of a note.
#[derive(Clone, Copy, PartialEq, Eq, Structural, Debug)]
pub enum Tone {
    Good,
    Bad,
    Dim,
}

/// The contents of a note, which is a tone and a text.
pub open spec fn note_view(n: Option<(Tone, &str)>) -> Option<(Tone, Seq<char>)> {
    match n {
        Some((tone, t)) => Some((tone, t@)),
        None => None,
    }
}

/// The contents of a line that may be missing.
pub open spec fn line_option_view(l: Option<Vec<Piece>>) -> Option<Seq<PieceView>> {
    match l {
        Some(v) => Some(message::line_view(v@)),
        None => None,
    }
}

/// A size in brackets, in units of so many bytes.
pub open spec fn bracketed(size: u64, unit: u64, name: Seq<char>) -> Seq<PieceView> {
    seq![PieceView::Text("("@), PieceView::Tenths(size, unit), PieceView::Text(name)]
}

impl AppView {
    /// The window at its start.
    pub open spec fn start(devices: Seq<UsbDeviceView>, dark_mode: bool) -> AppView {
        AppView {
            iso_path: seq![],
            usb_devices: devices,
            selected_idx: 0,
            flashing: false,
            verifying: false,
            progress: Gauge::Part(0, 1),
            status: message::one_text("Ready"@),
            log: seq![message::one_text("flint ready"@)],
            cancel: false,
            dark_mode,
            show_log: false,
            show_dialog: false,
            dialog_message: seq![],
            verify_after_flash: true,
            confirm_input: seq![],
        }
    }

    /// The selected device is one of those on offer, where there are any.
    pub open spec fn selects_a_device(self) -> bool {
        self.usb_devices.len() > 0 ==> self.selected_idx < self.usb_devices.len()
    }

    /// A job is under way.
    pub open spec fn busy(self) -> bool {
        self.flashing || self.verifying
    }

    /// The window offers these devices. A selection behind the last device moves to that, and the
    /// confirmation is void.
    pub open spec fn refreshed(self, devices: Seq<UsbDeviceView>) -> AppView {
        AppView {
            usb_devices: devices,
            selected_idx: if self.selected_idx < devices.len() {
                self.selected_idx
            } else if devices.len() == 0 {
                0
            } else {
                (devices.len() - 1) as usize
            },
            confirm_input: seq![],
            ..self
        }
    }

    /// An image and a device are there.
    pub open spec fn has_choice(self) -> bool {
        self.iso_path.len() > 0 && self.usb_devices.len() > 0
    }

    /// What a job is to do; none where the image or the device is missing.
    pub open spec fn order(self) -> Option<OrderView> {
        if self.has_choice() {
            let d = self.usb_devices[self.selected_idx as int];
            Some(
                OrderView {
                    iso_path: self.iso_path,
                    dev_path: d.path,
                    dev_label: d.label,
                    verify: self.verify_after_flash,
                },
            )
        } else {
            None
        }
    }

    /// The window with a job under way; unchanged where the image or the device is missing.
    pub open spec fn started(self) -> AppView {
        if self.has_choice() {
            AppView {
                flashing: true,
                verifying: false,
                progress: Gauge::Part(0, 1),
                status: message::one_text("Starting..."@),
                cancel: false,
                ..self
            }
        } else {
            self
        }
    }

    /// The window once the user has asked to cancel.
    pub open spec fn cancelled(self) -> AppView {
        AppView { cancel: true, status: message::one_text("Cancelling..."@), ..self }
    }

    /// The name of the selected device; empty where there is none.
    pub open spec fn device_name(self) -> Seq<char> {
        if self.selected_idx < self.usb_devices.len() {
            short_name(self.usb_devices[self.selected_idx as int].path)
        } else {
            seq![]
        }
    }

    /// The user typed the name of the selected device.
    pub open spec fn confirmed(self) -> bool {
        text::trimmed(self.confirm_input) == self.device_name()
    }

    /// A job can be started.
    pub open spec fn can_flash(self) -> bool {
        self.has_choice() && self.device_name().len() > 0 && self.confirmed()
    }

    /// The window with a job that is over.
    pub open spec fn freed(self, status: Seq<char>, dialog_message: Seq<char>) -> AppView {
        AppView {
            flashing: false,
            verifying: false,
            cancel: false,
            status: message::one_text(status),
            dialog_message,
            show_dialog: true,
            ..self
        }
    }

    /// The window with one more line in its log.
    pub open spec fn logged(self, line: Seq<PieceView>) -> AppView {
        AppView { log: self.log.push(line), ..self }
    }

    /// What a message makes of the window.
    pub open spec fn received(self, m: MessageView) -> AppView {
        match m {
            MessageView::Progress(done, total) => AppView {
                progress: Gauge::Part(done, total),
                ..self
            },
            MessageView::Status(line) => AppView { status: line, ..self },
            MessageView::Log(line) => self.logged(line),
            MessageView::VerifyProgress(share) => AppView {
                verifying: true,
                progress: Gauge::Verify(share),
                ..self
            },
            MessageView::Done(true, _) => self.freed(
                "Done!"@,
                "Flash completed successfully!"@,
            ).logged(message::one_text("Flash completed successfully."@)),
            MessageView::Done(false, _) => self.freed(
                "Failed!"@,
                "Flash failed!\nCheck the log for details."@,
            ).logged(message::one_text("Flash failed or was cancelled."@)),
            MessageView::VerifyDone(ok, t) => self.freed(
                if ok {
                    "Verified!"@
                } else {
                    "Verify failed!"@
                },
                t,
            ),
        }
    }

    /// The window with its dialog closed; the confirmation is void.
    pub open spec fn dismissed(self) -> AppView {
        AppView { show_dialog: false, confirm_input: seq![], ..self }
    }

    /// The window with its log shown where it was hidden, and hidden where it was shown.
    pub open spec fn toggled(self) -> AppView {
        AppView { show_log: !self.show_log, ..self }
    }

    /// The window with another image; the confirmation is void.
    pub open spec fn chosen(self, iso_path: Seq<char>) -> AppView {
        AppView { iso_path, confirm_input: seq![], ..self }
    }

    /// The size of the image in brackets, where its file has one that is not 0.
    pub open spec fn image_note(self, file_size: Option<u64>) -> Option<Seq<PieceView>> {
        match file_size {
            Some(n) => if self.iso_path.len() > 0 && n > 0 {
                Some(bracketed(n, MIB, " MB)"@))
            } else {
                None
            },
            None => None,
        }
    }

    /// The size of the selected device in brackets, where it is known.
    pub open spec fn device_note(self) -> Option<Seq<PieceView>> {
        if self.selected_idx < self.usb_devices.len()
            && self.usb_devices[self.selected_idx as int].size > 0 {
            Some(
                bracketed(
                    self.usb_devices[self.selected_idx as int].size,
                    1_000_000_000,
                    " GB)"@,
                ),
            )
        } else {
            None
        }
    }

    /// What asks the user to type the name of the selected device, where it has one.
    pub open spec fn confirm_prompt(self) -> Option<Seq<char>> {
        if self.device_name().len() > 0 {
            Some("Type \""@ + self.device_name() + "\" to confirm:"@)
        } else {
            None
        }
    }

    /// The note beside what the user typed.
    pub open spec fn confirm_note(self) -> Option<(Tone, Seq<char>)> {
        if self.confirmed() {
            Some((Tone::Good, "Device confirmed"@))
        } else if self.confirm_input.len() > 0 {
            Some((Tone::Bad, "Name does not match"@))
        } else {
            None
        }
    }

    /// The note under the button, on what the user typed.
    pub open spec fn start_note(self) -> Option<(Tone, Seq<char>)> {
        if self.usb_devices.len() == 0 || self.confirmed() {
            None
        } else if self.confirm_input.len() > 0 {
            Some((Tone::Bad, "Device name does not match"@))
        } else {
            Some((Tone::Dim, "Type the device name to confirm"@))
        }
    }

    /// The note under the button, on what is missing.
    pub open spec fn choice_note(self) -> Option<(Tone, Seq<char>)> {
        if self.has_choice() {
            None
        } else {
            Some((Tone::Dim, "Select an ISO file and USB device"@))
        }
    }
}

/// A size in brackets.
fn size_line(size: u64, unit: u64, name: &str) -> (r: Vec<Piece>)
    ensures
        message::line_view(r@) == bracketed(size, unit, name@),
{
    let v = vec![text_piece("("), Piece::Tenths(size, unit), text_piece(name)];
    assert(message::line_view(v@) =~= bracketed(size, unit, name@));
    v
}

impl FlintApp {
    /// The window at its start.
    pub fn new(usb_devices: Vec<UsbDevice>, dark_mode: bool) -> (r: FlintApp)
        ensures
            r@ == AppView::start(message::device_views(usb_devices@), dark_mode),
            r@.selects_a_device(),
    {
        let first = plain("flint ready");
        let log = vec![first];
        assert(log_views(log@) =~= seq![message::one_text("flint ready"@)]);
        FlintApp {
            iso_path: String::new(),
            usb_devices,
            selected_idx: 0,
            flashing: false,
            verifying: false,
            progress: Gauge::Part(0, 1),
            status: plain("Ready"),
            log,
            cancel: false,
            dark_mode,
            show_log: false,
            show_dialog: false,
            dialog_message: String::new(),
            verify_after_flash: true,
            confirm_input: String::new(),
        }
    }

    /// Offers these devices in place of those before.
    pub fn refresh_devices(&mut self, usb_devices: Vec<UsbDevice>)
        ensures
            final(self)@ == old(self)@.refreshed(message::device_views(usb_devices@)),
            final(self)@.selects_a_device(),
    {
        let n: usize = usb_devices.len();
        self.usb_devices = usb_devices;
        if self.selected_idx >= n {
            self.selected_idx = if n == 0 {
                0
            } else {
                n - 1
            };
        }
        self.confirm_input = String::new();
    }

    /// Starts a job, and gives what it is to do. Does nothing where the image or the device is
    /// missing.
    pub fn start_flash(&mut self) -> (r: Option<Order>)
        requires
            old(self)@.has_choice() ==> old(self)@.selects_a_device(),
        ensures
            final(self)@ == old(self)@.started(),
            r matches Some(o) ==> old(self)@.order() == Some(o@),
            r is None ==> old(self)@.order() is None,
            r is Some <==> old(self)@.iso_path.len() > 0 && old(self)@.usb_devices.len() > 0,
            r matches Some(o) ==> {
                let d = old(self)@.usb_devices[old(self)@.selected_idx as int];
                &&& o@.iso_path == old(self)@.iso_path
                &&& o@.dev_path == d.path
                &&& o@.dev_label == d.label
                &&& o@.verify == old(self)@.verify_after_flash
            },
    {
        if self.iso_path.as_str().is_empty() || self.usb_devices.len() == 0 {
            return None;
        }
        let idx: usize = self.selected_idx;
        assert(self@.usb_devices[idx as int] == self.usb_devices@[idx as int]@);
        let order = Order {
            iso_path: self.iso_path.clone(),
            dev_path: self.usb_devices[idx].path.clone(),
            dev_label: self.usb_devices[idx].label.clone(),
            verify: self.verify_after_flash,
        };
        self.flashing = true;
        self.verifying = false;
        self.progress = Gauge::Part(0, 1);
        self.status = plain("Starting...");
        self.cancel = false;
        Some(order)
    }

    /// Asks the job to stop.
    pub fn cancel_flash(&mut self)
        ensures
            final(self)@ == old(self)@.cancelled(),
    {
        self.cancel = true;
        self.status = plain("Cancelling...");
    }

    /// The name of the selected device; empty where there is none.
    pub fn device_short_name(&self) -> (r: String)
        ensures
            r@ == self@.device_name(),
    {
        if self.selected_idx >= self.usb_devices.len() {
            return String::new();
        }
        assert(self@.usb_devices[self.selected_idx as int]
            == self.usb_devices@[self.selected_idx as int]@);
        extract_device_short_name(self.usb_devices[self.selected_idx].path.as_str())
    }

    /// Whether the user typed the name of the selected device.
    pub fn is_confirmed(&self) -> (r: bool)
        ensures
            r == self@.confirmed(),
    {
        let short = self.device_short_name();
        same(trim(self.confirm_input.as_str()), short.as_str())
    }

    /// Whether an image and a device are there.
    pub fn is_choice_made(&self) -> (r: bool)
        ensures
            r == self@.has_choice(),
    {
        !self.iso_path.as_str().is_empty() && self.usb_devices.len() > 0
    }

    /// Whether a job can be started.
    pub fn can_flash(&self) -> (r: bool)
        ensures
            r == self@.can_flash(),
    {
        if !self.is_choice_made() {
            return false;
        }
        let short = self.device_short_name();
        !short.as_str().is_empty() && self.is_confirmed()
    }

    /// Whether a job is under way.
    pub fn is_busy(&self) -> (r: bool)
        ensures
            r == self@.busy(),
    {
        self.flashing || self.verifying
    }

    /// Adds a line to the log.
    fn push_log(&mut self, line: Vec<Piece>)
        ensures
            final(self)@ == old(self)@.logged(message::line_view(line@)),
    {
        self.log.push(line);
        assert(log_views(self.log@) =~= old(self)@.log.push(message::line_view(line@)));
    }

    /// Frees the window of a job that is over.
    fn free(&mut self, status: &str, dialog_message: String)
        ensures
            final(self)@ == old(self)@.freed(status@, dialog_message@),
    {
        self.flashing = false;
        self.verifying = false;
        self.cancel = false;
        self.status = plain(status);
        self.dialog_message = dialog_message;
        self.show_dialog = true;
    }

    /// Takes up a message of the job.
    pub fn receive(&mut self, m: Message)
        ensures
            final(self)@ == old(self)@.received(m@),
    {
        match m {
            Message::Progress(done, total) => {
                self.progress = Gauge::Part(done, total);
            },
            Message::Status(line) => {
                self.status = line;
            },
            Message::Done(ok, _) => {
                if ok {
                    self.free("Done!", "Flash completed successfully!".to_owned());
                    self.push_log(plain("Flash completed successfully."));
                } else {
                    self.free("Failed!", "Flash failed!\nCheck the log for details.".to_owned());
                    self.push_log(plain("Flash failed or was cancelled."));
                }
            },
            Message::Log(line) => {
                self.push_log(line);
            },
            Message::VerifyProgress(share) => {
                self.verifying = true;
                self.progress = Gauge::Verify(share);
            },
            Message::VerifyDone(ok, t) => {
                let status = if ok {
                    "Verified!"
                } else {
                    "Verify failed!"
                };
                self.free(status, t);
            },
        }
    }

    /// Closes the dialog.
    pub fn dismiss(&mut self)
        ensures
            final(self)@ == old(self)@.dismissed(),
    {
        self.show_dialog = false;
        self.confirm_input = String::new();
    }

    /// Takes another image.
    pub fn choose_image(&mut self, iso_path: String)
        ensures
            final(self)@ == old(self)@.chosen(iso_path@),
    {
        self.iso_path = iso_path;
        self.confirm_input = String::new();
    }

    /// Shows the log, or hides it.
    pub fn toggle_log(&mut self)
        ensures
            final(self)@ == (AppView { show_log: !old(self)@.show_log, ..old(self)@ }),
            final(self)@ == old(self)@.toggled(),
    {
        self.show_log = !self.show_log;
    }

    /// The size of the image in brackets, where its file has one that is not 0.
    pub fn image_size_note(&self, file_size: Option<u64>) -> (r: Option<Vec<Piece>>)
        ensures
            line_option_view(r) == self@.image_note(file_size),
    {
        match file_size {
            Some(n) => if !self.iso_path.as_str().is_empty() && n > 0 {
                Some(size_line(n, MIB, " MB)"))
            } else {
                None
            },
            None => None,
        }
    }

    /// The size of the selected device in brackets, where it is known.
    pub fn device_size_note(&self) -> (r: Option<Vec<Piece>>)
        ensures
            line_option_view(r) == self@.device_note(),
    {
        if self.selected_idx >= self.usb_devices.len() {
            return None;
        }
        assert(self@.usb_devices[self.selected_idx as int]
            == self.usb_devices@[self.selected_idx as int]@);
        let size: u64 = self.usb_devices[self.selected_idx].size;
        if size > 0 {
            Some(size_line(size, 1_000_000_000, " GB)"))
        } else {
            None
        }
    }

    /// What asks the user to type the name of the selected device, where it has one.
    pub fn confirmation_prompt(&self) -> (r: Option<String>)
        ensures
            crate::job::text_view(r) == self@.confirm_prompt(),
    {
        let short = self.device_short_name();
        if short.as_str().is_empty() {
            None
        } else {
            let mut t = "Type \"".to_owned();
            t.append(short.as_str());
            t.append("\" to confirm:");
            Some(t)
        }
    }

    /// The note beside what the user typed.
    pub fn confirmation_note(&self) -> (r: Option<(Tone, &'static str)>)
        ensures
            note_view(r) == self@.confirm_note(),
    {
        if self.is_confirmed() {
            Some((Tone::Good, "Device confirmed"))
        } else if !self.confirm_input.as_str().is_empty() {
            Some((Tone::Bad, "Name does not match"))
        } else {
            None
        }
    }

    /// The note under the button, on what the user typed.
    pub fn start_button_note(&self) -> (r: Option<(Tone, &'static str)>)
        ensures
            note_view(r) == self@.start_note(),
    {
        if self.usb_devices.len() == 0 || self.is_confirmed() {
            None
        } else if !self.confirm_input.as_str().is_empty() {
            Some((Tone::Bad, "Device name does not match"))
        } else {
            Some((Tone::Dim, "Type the device name to confirm"))
        }
    }

    /// The note under the button, on what is missing.
    pub fn missing_choice_note(&self) -> (r: Option<(Tone, &'static str)>)
        ensures
            note_view(r) == self@.choice_note(),
    {
        if self.is_choice_made() {
            None
        } else {
            Some((Tone::Dim, "Select an ISO file and USB device"))
        }
    }
}

// ---------------------------------------------------------------------------
// Choosing and confirming
// ---------------------------------------------------------------------------

/// A job that can be started is started: on the chosen image and the selected device, whose name
/// the user typed.
pub proof fn confirmed_start_is_obeyed(app: AppView)
    requires
        app.can_flash(),
    ensures
        app.selects_a_device(),
        app.order() matches Some(o) && o.iso_path == app.iso_path && o.dev_path
            == app.usb_devices[app.selected_idx as int].path && text::trimmed(app.confirm_input)
            == short_name(o.dev_path),
        app.started().flashing,
{
}

/// A confirmation does not outlive what it was given for: not a new search for devices, not another
/// image, and not the end of a job.
pub proof fn confirmation_is_void_after_changes(
    app: AppView,
    devices: Seq<UsbDeviceView>,
    iso_path: Seq<char>,
)
    ensures
        !app.refreshed(devices).can_flash(),
        !app.chosen(iso_path).can_flash(),
        !app.dismissed().can_flash(),
{
    assert(text::trimmed(Seq::<char>::empty()) =~= Seq::<char>::empty());
}

/// What the window does by itself keeps the selection on a device.
pub proof fn selection_stays_on_a_device(app: AppView, m: MessageView, iso_path: Seq<char>)
    requires
        app.selects_a_device(),
    ensures
        app.started().selects_a_device(),
        app.cancelled().selects_a_device(),
        app.received(m).selects_a_device(),
        app.dismissed().selects_a_device(),
        app.chosen(iso_path).selects_a_device(),
{
}

proof fn after_last_holds_none(s: Seq<char>, c: char)
    ensures
        !text::after_last(s, c).contains(c),
    decreases s.len(),
{
    if s.len() > 0 && s.last() != c {
        after_last_holds_none(s.drop_last(), c);
        let t = text::after_last(s.drop_last(), c);
        assert forall|i: int| 0 <= i < t.push(s.last()).len() implies t.push(s.last())[i] != c by {
            if i < t.len() {
                assert(t.contains(t[i]));
            }
        }
    }
}

proof fn without_leading_is_a_part(s: Seq<char>, p: Seq<char>, c: char)
    requires
        !s.contains(c),
    ensures
        !text::without_leading(s, p).contains(c),
    decreases s.len(),
{
    if p.len() > 0 && p.is_prefix_of(s) {
        let t = s.skip(p.len() as int);
        assert forall|i: int| 0 <= i < t.len() implies t[i] != c by {
            assert(s.contains(s[i + p.len()]));
        }
        without_leading_is_a_part(t, p, c);
    }
}

/// The name of a device holds no slash.
pub proof fn short_name_holds_no_slash(path: Seq<char>)
    ensures
        !short_name(path).contains('/'),
{
    after_last_holds_none(path, '/');
    without_leading_is_a_part(text::after_last(path, '/'), "\\\\.\\"@, '/');
}

proof fn after_last_of_tail(front: Seq<char>, name: Seq<char>, c: char)
    requires
        !name.contains(c),
        front.len() > 0,
        front.last() == c,
    ensures
        text::after_last(front + name, c) == name,
    decreases name.len(),
{
    let s = front + name;
    if name.len() == 0 {
        assert(s =~= front);
        assert(name =~= seq![]);
    } else {
        assert(s.last() == name.last());
        assert(name.contains(name.last()));
        assert(s.drop_last() =~= front + name.drop_last());
        assert forall|i: int| 0 <= i < name.len() - 1 implies name.drop_last()[i] != c by {
            assert(name.contains(name[i]));
        }
        after_last_of_tail(front, name.drop_last(), c);
        assert(name.drop_last().push(name.last()) =~= name);
    }
}

/// The name of a device in a directory is its name there; what Windows puts in front does not
/// belong to it.
pub proof fn short_name_is_the_last_part(dir: Seq<char>, name: Seq<char>)
    requires
        !name.contains('/'),
        !"\\\\.\\"@.is_prefix_of(name),
    ensures
        short_name(dir + "/"@ + name) == name,
        short_name("\\\\.\\"@ + name) == name,
{
    reveal_strlit("/");
    reveal_strlit("\\\\.\\");
    let mark = "\\\\.\\"@;
    after_last_of_tail(dir + "/"@, name, '/');
    let s = mark + name;
    assert(!s.contains('/')) by {
        assert forall|i: int| 0 <= i < s.len() implies s[i] != '/' by {
            if i >= 4 {
                assert(name.contains(name[i - 4]));
            }
        }
    }
    whole_without(s, '/');
    assert(s.skip(4) =~= name);
    assert(mark.is_prefix_of(s)) by {
        assert(s.take(4) =~= mark);
    }
    assert(text::without_leading(s, mark) == text::without_leading(name, mark));
}

proof fn whole_without(s: Seq<char>, c: char)
    requires
        !s.contains(c),
    ensures
        text::after_last(s, c) == s,
    decreases s.len(),
{
    if s.len() > 0 {
        assert(s.contains(s.last()));
        assert forall|i: int| 0 <= i < s.len() - 1 implies s.drop_last()[i] != c by {
            assert(s.contains(s[i]));
        }
        whole_without(s.drop_last(), c);
        assert(s.drop_last().push(s.last()) =~= s);
    } else {
        assert(s =~= seq![]);
    }
}

} // verus!
