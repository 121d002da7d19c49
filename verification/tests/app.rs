use flint::app::{
    box_fill_from, extract_device_short_name, warning_fill, Color, FlintApp, Gauge, Tone,
};
use flint::flasher::start_flash_thread;
use flint::job::{Event, Platform};
use flint::message::{Message, Piece, Share, UsbDevice};

fn device(path: &str, size: u64) -> UsbDevice {
    UsbDevice { path: path.to_string(), label: format!("label of {}", path), size }
}

fn window() -> FlintApp {
    FlintApp::new(vec![device("/dev/sdb", 16_000_000_000), device("/dev/sdc", 0)], true)
}

fn text_of(line: &Vec<Piece>) -> String {
    let mut t = String::new();
    for p in line {
        match p {
            Piece::Text(s) => t.push_str(s),
            Piece::Tenths(a, b) => t.push_str(&format!("{:.1}", *a as f64 / *b as f64)),
            _ => panic!("the window writes no other pieces"),
        }
    }
    t
}

fn log_of(w: &FlintApp) -> Vec<String> {
    w.log.iter().map(text_of).collect()
}

#[test]
fn short_names_of_devices() {
    assert_eq!(extract_device_short_name("/dev/sdb"), "sdb");
    assert_eq!(extract_device_short_name("sdb"), "sdb");
    assert_eq!(extract_device_short_name("/dev/"), "");
    assert_eq!(extract_device_short_name("\\\\.\\PHYSICALDRIVE1"), "PHYSICALDRIVE1");
    assert_eq!(extract_device_short_name("\\\\.\\\\\\.\\X"), "X");
}

#[test]
fn a_new_window_is_ready() {
    let w = window();
    assert_eq!(text_of(&w.status), "Ready");
    assert_eq!(log_of(&w), vec!["flint ready".to_string()]);
    assert!(w.progress == Gauge::Part(0, 1));
    assert!(w.verify_after_flash && w.dark_mode && !w.show_log && !w.show_dialog && !w.is_busy());
    assert_eq!(w.selected_idx, 0);
}

#[test]
fn a_job_starts_only_when_it_is_confirmed() {
    let mut w = window();
    assert!(!w.can_flash());
    w.choose_image("/x/a.iso".to_string());
    w.selected_idx = 1;
    assert!(!w.can_flash());
    w.confirm_input = "sdb".to_string();
    assert!(!w.can_flash());
    w.confirm_input = " sdc\t".to_string();
    assert!(w.can_flash());
    w.verify_after_flash = false;
    let order = w.start_flash().unwrap();
    assert_eq!(order.iso_path, "/x/a.iso");
    assert_eq!(order.dev_path, "/dev/sdc");
    assert_eq!(order.dev_label, "label of /dev/sdc");
    assert!(!order.verify);
    assert!(w.is_busy());
    assert_eq!(text_of(&w.status), "Starting...");
}

#[test]
fn no_job_starts_without_an_image_or_a_device() {
    let mut w = window();
    assert!(w.start_flash().is_none());
    assert!(!w.is_busy());
    let mut w = FlintApp::new(vec![], false);
    w.choose_image("a".to_string());
    assert!(w.start_flash().is_none());
    assert_eq!(w.device_short_name(), "");
    assert!(!w.can_flash());
}

#[test]
fn a_change_voids_the_confirmation() {
    let confirmed = || {
        let mut w = window();
        w.choose_image("a".to_string());
        w.confirm_input = "sdb".to_string();
        assert!(w.can_flash());
        w
    };
    let mut w = confirmed();
    w.refresh_devices(vec![device("/dev/sdb", 1)]);
    assert!(!w.can_flash());
    let mut w = confirmed();
    w.choose_image("b".to_string());
    assert!(!w.can_flash());
    let mut w = confirmed();
    w.dismiss();
    assert!(!w.can_flash());
}

#[test]
fn a_refresh_keeps_the_selection_on_a_device() {
    let mut w = window();
    w.selected_idx = 1;
    w.refresh_devices(vec![device("/dev/a", 1), device("/dev/b", 1), device("/dev/c", 1)]);
    assert_eq!(w.selected_idx, 1);
    w.selected_idx = 2;
    w.refresh_devices(vec![device("/dev/a", 1), device("/dev/b", 1)]);
    assert_eq!(w.selected_idx, 1);
    w.refresh_devices(vec![]);
    assert_eq!(w.selected_idx, 0);
}

#[test]
fn messages_change_the_window() {
    let mut w = window();
    w.choose_image("a".to_string());
    w.start_flash();
    w.receive(Message::Progress(1, 4));
    assert!(w.progress == Gauge::Part(1, 4));
    w.receive(Message::Status(vec![Piece::Text("half".to_string())]));
    assert_eq!(text_of(&w.status), "half");
    w.receive(Message::Log(vec![Piece::Text("line".to_string())]));
    assert_eq!(log_of(&w), vec!["flint ready".to_string(), "line".to_string()]);
    let share = Share { halves: 1, done: 1, total: 2 };
    w.receive(Message::VerifyProgress(share));
    assert!(w.verifying && w.progress == Gauge::Verify(share));
    w.cancel_flash();
    assert!(w.cancel);
    assert_eq!(text_of(&w.status), "Cancelling...");
    w.receive(Message::VerifyDone(false, "bad".to_string()));
    assert!(!w.is_busy() && !w.cancel && w.show_dialog);
    assert_eq!(text_of(&w.status), "Verify failed!");
    assert_eq!(w.dialog_message, "bad");
    w.dismiss();
    assert!(!w.show_dialog);
    w.receive(Message::VerifyDone(true, "good".to_string()));
    assert_eq!(text_of(&w.status), "Verified!");
}

#[test]
fn the_end_of_a_job_is_told() {
    let mut w = window();
    w.receive(Message::Done(true, None));
    assert_eq!(text_of(&w.status), "Done!");
    assert_eq!(log_of(&w)[1], "Flash completed successfully.");
    assert_eq!(w.dialog_message, "Flash completed successfully!");
    w.receive(Message::Done(false, None));
    assert_eq!(text_of(&w.status), "Failed!");
    assert_eq!(log_of(&w)[2], "Flash failed or was cancelled.");
    assert_eq!(w.dialog_message, "Flash failed!\nCheck the log for details.");
    assert!(w.show_dialog && !w.is_busy());
}

#[test]
fn notes_on_sizes() {
    let mut w = window();
    assert!(w.image_size_note(Some(5)).is_none());
    w.choose_image("a".to_string());
    assert!(w.image_size_note(None).is_none());
    assert!(w.image_size_note(Some(0)).is_none());
    assert_eq!(text_of(&w.image_size_note(Some(1_572_864)).unwrap()), "(1.5 MB)");
    assert_eq!(text_of(&w.device_size_note().unwrap()), "(16.0 GB)");
    w.selected_idx = 1;
    assert!(w.device_size_note().is_none());
    w.selected_idx = 2;
    assert!(w.device_size_note().is_none());
}

#[test]
fn notes_on_the_confirmation() {
    let mut w = window();
    assert_eq!(w.confirmation_prompt().unwrap(), "Type \"sdb\" to confirm:");
    assert_eq!(w.confirmation_note(), None);
    assert_eq!(w.start_button_note(), Some((Tone::Dim, "Type the device name to confirm")));
    assert_eq!(w.missing_choice_note(), Some((Tone::Dim, "Select an ISO file and USB device")));
    w.confirm_input = "x".to_string();
    assert_eq!(w.confirmation_note(), Some((Tone::Bad, "Name does not match")));
    assert_eq!(w.start_button_note(), Some((Tone::Bad, "Device name does not match")));
    w.confirm_input = "sdb ".to_string();
    assert_eq!(w.confirmation_note(), Some((Tone::Good, "Device confirmed")));
    assert_eq!(w.start_button_note(), None);
    w.iso_path = "a".to_string();
    assert_eq!(w.missing_choice_note(), None);
    let none = FlintApp::new(vec![], false);
    assert!(none.confirmation_prompt().is_none());
    assert_eq!(none.start_button_note(), None);
}

#[test]
fn the_log_is_shown_and_hidden() {
    let mut w = window();
    w.toggle_log();
    assert!(w.show_log);
    w.toggle_log();
    assert!(!w.show_log);
}

#[test]
fn a_box_stands_out_from_its_panel() {
    let c = |r, g, b, a| Color { r, g, b, a };
    assert_eq!(box_fill_from(c(248, 248, 248, 255)), c(223, 223, 223, 255));
    assert_eq!(box_fill_from(c(27, 27, 27, 255)), c(52, 52, 52, 255));
    assert_eq!(box_fill_from(c(255, 255, 10, 9)), c(230, 230, 0, 9));
    assert_eq!(box_fill_from(c(250, 100, 36, 1)), c(255, 125, 61, 1));
    assert_eq!(warning_fill(true), c(180, 60, 40, 30));
    assert_eq!(warning_fill(false), c(255, 200, 180, 40));
}

#[test]
fn the_window_follows_a_job_to_its_end() {
    let mut w = window();
    w.choose_image("a.zip".to_string());
    let order = w.start_flash().unwrap();
    let (run, told) = start_flash_thread(
        order.iso_path,
        order.dev_path,
        order.dev_label,
        order.verify,
        Platform::Linux,
    );
    assert_eq!(told.len(), 0);
    let (run, told) = run.step(&Event::Ran);
    told.into_iter().for_each(|m| w.receive(m));
    assert!(w.is_busy() && !w.show_dialog);
    let (_, told) = run.step(&Event::Counted(0));
    told.into_iter().for_each(|m| w.receive(m));
    assert!(!w.is_busy() && w.show_dialog);
    assert_eq!(text_of(&w.status), "Failed!");
    assert_eq!(log_of(&w)[1], "ZIP archive is empty");
}
