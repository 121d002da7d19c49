//! What the window shows and orders, told by what is in it.
use vstd::prelude::*;
use vstd::string::*;

use crate::app;
use crate::app::{AppView, Color, Gauge, Tone};
use crate::message::{MessageView, PieceView, Share, UsbDeviceView};
use crate::text;
use crate::text_laws;

verus! {

/// A line of one text.
pub open spec fn line(t: Seq<char>) -> Seq<PieceView> {
    seq![PieceView::Text(t)]
}

/// Nothing but the choice of the user and of the job's outcome differs between the two windows: the
/// settings and what was chosen are the same.
pub open spec fn same_choice(a: AppView, b: AppView) -> bool {
    &&& a.iso_path == b.iso_path
    &&& a.usb_devices == b.usb_devices
    &&& a.selected_idx == b.selected_idx
    &&& a.verify_after_flash == b.verify_after_flash
    &&& a.confirm_input == b.confirm_input
    &&& a.dark_mode == b.dark_mode
    &&& a.show_log == b.show_log
}

// ---------------------------------------------------------------------------
// Choosing
// ---------------------------------------------------------------------------

/// A new window offers the devices that were found and has the first of them selected. No image is
/// chosen, nothing is confirmed, no job is under way, and a flash is to be verified.
pub proof fn new_window_is_ready(devices: Seq<UsbDeviceView>, dark: bool)
    ensures
        ({
            let w = AppView::start(devices, dark);
            &&& w.usb_devices == devices
            &&& w.dark_mode == dark
            &&& w.selected_idx == 0
            &&& w.iso_path.len() == 0
            &&& w.confirm_input.len() == 0
            &&& !w.flashing && !w.verifying && !w.cancel && !w.show_log && !w.show_dialog
            &&& w.verify_after_flash
            &&& w.progress == Gauge::Part(0, 1)
            &&& w.status == line("Ready"@)
            &&& w.log == seq![line("flint ready"@)]
            &&& w.dialog_message.len() == 0
            &&& !w.busy()
        }),
{
}

/// A new search for devices replaces those on offer and voids the confirmation. The selected place
/// stays, unless it is behind the last device; then it moves to that. Nothing else changes.
pub proof fn refresh_replaces_the_devices(w: AppView, devices: Seq<UsbDeviceView>)
    requires
        devices.len() <= usize::MAX,
    ensures
        ({
            let r = w.refreshed(devices);
            &&& r.usb_devices == devices
            &&& r.confirm_input.len() == 0
            &&& w.selected_idx < devices.len() ==> r.selected_idx == w.selected_idx
            &&& w.selected_idx >= devices.len() && devices.len() > 0 ==> r.selected_idx
                == devices.len() - 1
            &&& devices.len() == 0 ==> r.selected_idx == 0
            &&& r == (AppView {
                usb_devices: r.usb_devices,
                selected_idx: r.selected_idx,
                confirm_input: r.confirm_input,
                ..w
            })
        }),
{
}

/// Another image replaces the one that was chosen and voids the confirmation, and so does closing
/// the dialog. The log is shown and hidden in turn. Nothing else changes.
pub proof fn small_changes_are_small(w: AppView, path: Seq<char>)
    ensures
        w.chosen(path) == (AppView { iso_path: path, confirm_input: seq![], ..w }),
        w.dismissed() == (AppView { show_dialog: false, confirm_input: seq![], ..w }),
        w.toggled().show_log == !w.show_log,
        w.toggled().toggled() == w,
        w.toggled() == (AppView { show_log: w.toggled().show_log, ..w }),
        w.busy() <==> w.flashing || w.verifying,
{
}

/// The name of a device is what follows the last slash of its path, without the mark of Windows in
/// front, however often that stands there.
pub proof fn device_names_are_short(dir: Seq<char>, name: Seq<char>)
    requires
        text_laws::lacks(name, '/'),
        name.len() < 4 || name.take(4) != seq!['\\', '\\', '.', '\\'],
    ensures
        app::short_name(name) == name,
        app::short_name(dir.push('/') + name) == name,
        app::short_name(seq!['\\', '\\', '.', '\\'] + name) == name,
        app::short_name(
            dir.push('/') + (seq!['\\', '\\', '.', '\\'] + (seq!['\\', '\\', '.', '\\'] + name)),
        ) == name,
{
    reveal_strlit("\\\\.\\");
    let mark = "\\\\.\\"@;
    assert(mark =~= seq!['\\', '\\', '.', '\\']);
    assert(text_laws::lacks(mark + name, '/'));
    assert(text_laws::lacks(mark + (mark + name), '/'));
    text_laws::tail_follows_the_last(dir, name, '/');
    text_laws::tail_follows_the_last(dir, mark + name, '/');
    text_laws::tail_follows_the_last(dir, mark + (mark + name), '/');
    text_laws::leading_copies_go(name, mark);
    text_laws::leading_copies_go(mark + name, mark);
}

/// A job can be started exactly where an image is chosen, a device is selected, and the user typed
/// the name of that device, white space around it apart, and it has one.
pub proof fn start_takes_image_device_and_confirmation(w: AppView)
    ensures
        w.can_flash() <==> {
            &&& w.iso_path.len() > 0
            &&& w.selected_idx < w.usb_devices.len()
            &&& app::short_name(w.usb_devices[w.selected_idx as int].path).len() > 0
            &&& text::trimmed(w.confirm_input) == app::short_name(
                w.usb_devices[w.selected_idx as int].path,
            )
        },
        w.selected_idx < w.usb_devices.len() ==> w.device_name() == app::short_name(
            w.usb_devices[w.selected_idx as int].path,
        ),
        w.selected_idx >= w.usb_devices.len() ==> w.device_name().len() == 0,
{
}

/// A job that is started gets the image that was chosen, the path and the label of the device that
/// is selected, and is verified exactly where the box is ticked. The window is then busy with it,
/// from the start of the bar, and no wish to cancel is left over; the choice stays. Without an image
/// or a device nothing is started, and nothing changes.
pub proof fn started_job_gets_what_was_chosen(w: AppView)
    ensures
        w.iso_path.len() > 0 && w.usb_devices.len() > 0 <==> w.order() is Some,
        w.order() is Some ==> {
            let d = w.usb_devices[w.selected_idx as int];
            &&& w.order()->0.iso_path == w.iso_path
            &&& w.order()->0.dev_path == d.path
            &&& w.order()->0.dev_label == d.label
            &&& w.order()->0.verify == w.verify_after_flash
        },
        w.order() is Some ==> {
            let s = w.started();
            &&& s.flashing && !s.verifying && !s.cancel
            &&& s.progress == Gauge::Part(0, 1)
            &&& s.status == line("Starting..."@)
            &&& same_choice(s, w)
            &&& s.log == w.log
            &&& s.show_dialog == w.show_dialog
            &&& s.dialog_message == w.dialog_message
        },
        w.order() is None ==> w.started() == w,
        ({
            let c = w.cancelled();
            &&& c.cancel
            &&& c.status == line("Cancelling..."@)
            &&& c == (AppView { cancel: c.cancel, status: c.status, ..w })
        }),
{
}

// ---------------------------------------------------------------------------
// Messages
// ---------------------------------------------------------------------------

/// Messages on the way move the bar, change the status or add to the log, and nothing else; one on a
/// verification shows that there is one.
pub proof fn messages_on_the_way(
    w: AppView,
    done: u64,
    total: u64,
    l: Seq<PieceView>,
    share: Share,
)
    ensures
        w.received(MessageView::Progress(done, total)) == (AppView {
            progress: Gauge::Part(done, total),
            ..w
        }),
        w.received(MessageView::Status(l)) == (AppView { status: l, ..w }),
        w.received(MessageView::Log(l)) == (AppView { log: w.log.push(l), ..w }),
        w.received(MessageView::VerifyProgress(share)) == (AppView {
            verifying: true,
            progress: Gauge::Verify(share),
            ..w
        }),
{
}

/// The last message of a job frees the window, takes back a wish to cancel, and opens a dialog. The
/// status, the dialog and, without a verification, the log tell whether it succeeded. The choice and
/// the bar stay.
pub proof fn messages_at_the_end(w: AppView, ok: bool, note: Option<Seq<char>>, t: Seq<char>)
    ensures
        ({
            let d = w.received(MessageView::Done(ok, note));
            let v = w.received(MessageView::VerifyDone(ok, t));
            &&& !d.flashing && !d.verifying && !d.cancel && d.show_dialog
            &&& !v.flashing && !v.verifying && !v.cancel && v.show_dialog
            &&& same_choice(d, w) && same_choice(v, w)
            &&& d.progress == w.progress && v.progress == w.progress
            &&& ok ==> d.status == line("Done!"@) && d.dialog_message
                == "Flash completed successfully!"@ && d.log == w.log.push(
                line("Flash completed successfully."@),
            )
            &&& !ok ==> d.status == line("Failed!"@) && d.dialog_message
                == "Flash failed!\nCheck the log for details."@ && d.log == w.log.push(
                line("Flash failed or was cancelled."@),
            )
            &&& ok ==> v.status == line("Verified!"@)
            &&& !ok ==> v.status == line("Verify failed!"@)
            &&& v.dialog_message == t
            &&& v.log == w.log
        }),
{
}

// ---------------------------------------------------------------------------
// Notes and colours
// ---------------------------------------------------------------------------

/// Sizes are shown in brackets where they are known and not 0: that of the image, once one is
/// chosen, in MB of 1048576 bytes, and that of the selected device in GB of 1000000000.
pub proof fn sizes_are_noted(w: AppView, size: Option<u64>)
    ensures
        w.image_note(size) == (if w.iso_path.len() > 0 && size is Some && size->0 > 0 {
            Some(
                seq![
                    PieceView::Text("("@),
                    PieceView::Tenths(size->0, 1_048_576),
                    PieceView::Text(" MB)"@),
                ],
            )
        } else {
            None
        }),
        w.device_note() == (if w.selected_idx < w.usb_devices.len()
            && w.usb_devices[w.selected_idx as int].size > 0 {
            Some(
                seq![
                    PieceView::Text("("@),
                    PieceView::Tenths(
                        w.usb_devices[w.selected_idx as int].size,
                        1_000_000_000,
                    ),
                    PieceView::Text(" GB)"@),
                ],
            )
        } else {
            None
        }),
{
}

/// The user is asked for the name of the device where it has one, and told whether what was typed is
/// that name; under the button, what is missing for a start.
pub proof fn confirmation_is_noted(w: AppView)
    ensures
        ({
            let name = w.device_name();
            let right = text::trimmed(w.confirm_input) == name;
            &&& name.len() > 0 ==> w.confirm_prompt() == Some(
                "Type \""@ + name + "\" to confirm:"@,
            )
            &&& name.len() == 0 ==> w.confirm_prompt() is None
            &&& right ==> w.confirm_note() == Some((Tone::Good, "Device confirmed"@))
            &&& !right && w.confirm_input.len() > 0 ==> w.confirm_note() == Some(
                (Tone::Bad, "Name does not match"@),
            )
            &&& !right && w.confirm_input.len() == 0 ==> w.confirm_note() is None
            &&& right || w.usb_devices.len() == 0 ==> w.start_note() is None
            &&& !right && w.usb_devices.len() > 0 && w.confirm_input.len() > 0 ==> w.start_note()
                == Some((Tone::Bad, "Device name does not match"@))
            &&& !right && w.usb_devices.len() > 0 && w.confirm_input.len() == 0 ==> w.start_note()
                == Some((Tone::Dim, "Type the device name to confirm"@))
            &&& w.iso_path.len() > 0 && w.usb_devices.len() > 0 ==> w.choice_note() is None
            &&& w.iso_path.len() == 0 || w.usb_devices.len() == 0 ==> w.choice_note() == Some(
                (Tone::Dim, "Select an ISO file and USB device"@),
            )
        }),
{
}

/// A box is darker than a light panel and lighter than a dark one: by 25 in each of its colours, as
/// far as there is room. A panel is light where its colours sum to 387 or more. The opacity stays.
pub proof fn boxes_stand_out(p: Color)
    ensures
        ({
            let b = app::box_fill(p);
            let light = p.r + p.g + p.b >= 387;
            &&& b.a == p.a
            &&& light ==> b.r == (if p.r >= 25 { p.r - 25 } else { 0 })
            &&& light ==> b.g == (if p.g >= 25 { p.g - 25 } else { 0 })
            &&& light ==> b.b == (if p.b >= 25 { p.b - 25 } else { 0 })
            &&& !light ==> b.r == (if p.r <= 230 { p.r + 25 } else { 255 })
            &&& !light ==> b.g == (if p.g <= 230 { p.g + 25 } else { 255 })
            &&& !light ==> b.b == (if p.b <= 230 { p.b + 25 } else { 255 })
        }),
        app::warning_color(true) == (Color { r: 180, g: 60, b: 40, a: 30 }),
        app::warning_color(false) == (Color { r: 255, g: 200, b: 180, a: 40 }),
{
}

} // verus!
