use flint::devices::{
    describe_disk, detect_linux, detect_usb_devices, detect_windows, format_size_mac, list_disks,
    parse_size, Detection, Found, LsblkDevice, Reply, Size,
};
use flint::job::Platform;
use flint::message::Piece;

fn rendered(line: &Vec<Piece>) -> String {
    let mut t = String::new();
    for p in line {
        match p {
            Piece::Text(s) => t.push_str(s),
            Piece::Tenths(a, b) => t.push_str(&format!("{:.1}", *a as f64 / *b as f64)),
            _ => panic!("labels hold no other pieces"),
        }
    }
    t
}

fn bytes(s: &str) -> Option<u64> {
    match parse_size(s) {
        Size::Bytes(n) => Some(n),
        _ => None,
    }
}

fn scaled(s: &str) -> Option<(String, u64)> {
    match parse_size(s) {
        Size::Scaled(t, unit) => Some((t, unit)),
        _ => None,
    }
}

fn drive(name: &str, size: &str, model: Option<&str>, tran: Option<&str>) -> LsblkDevice {
    LsblkDevice {
        name: name.to_string(),
        size: size.to_string(),
        model: model.map(|m| m.to_string()),
        tran: tran.map(|t| t.to_string()),
    }
}

fn labels(found: &Vec<Found>) -> Vec<String> {
    found.iter().map(|d| rendered(&d.label)).collect()
}

#[test]
fn sizes_with_and_without_a_unit() {
    assert_eq!(bytes(" 4096 "), Some(4096));
    assert_eq!(bytes("+7"), Some(7));
    assert_eq!(scaled("14.9 GB"), Some(("14.9".to_string(), 1_000_000_000)));
    assert_eq!(scaled("512MB"), Some(("512".to_string(), 1_000_000)));
    assert_eq!(scaled("2T B "), Some(("2".to_string(), 1_000_000_000_000)));
    assert!(matches!(parse_size("14.9G"), Size::Unknown));
    assert!(matches!(parse_size("512B"), Size::Unknown));
    assert!(matches!(parse_size("64KB"), Size::Unknown));
    assert!(matches!(parse_size(""), Size::Unknown));
}

#[test]
fn the_size_in_bytes_takes_the_product_of_its_unit() {
    assert_eq!(parse_size("14.9GB").in_bytes(Some(14_900_000_000)), 14_900_000_000);
    assert_eq!(parse_size("xGB").in_bytes(None), 0);
    assert_eq!(parse_size("33").in_bytes(None), 33);
    assert_eq!(parse_size("?").in_bytes(Some(5)), 0);
}

#[test]
fn only_usb_disks_are_offered_on_linux() {
    let list = vec![
        drive("/dev/sda", "500000", Some("Internal"), Some("sata")),
        drive("/dev/sdb", "16000000000", Some("  Ultra  "), Some("usb")),
        drive("/dev/sr0", "1000", Some("Disc"), Some("usb")),
        drive("/dev/mmcblk0", "14.9GB", None, Some("usb")),
        drive("/dev/nvme0n1", "1", None, None),
    ];
    let found = detect_linux(&list);
    assert_eq!(
        labels(&found),
        vec![
            "/dev/sdb (Ultra - 16000000000)".to_string(),
            "/dev/mmcblk0 (14.9GB)".to_string(),
        ]
    );
    assert_eq!(found[0].path, "/dev/sdb");
    assert!(matches!(found[0].size, Size::Bytes(16_000_000_000)));
    assert!(matches!(found[1].size, Size::Scaled(_, 1_000_000_000)));
}

#[test]
fn a_found_drive_is_settled_with_its_label_and_size() {
    let mut found = detect_linux(&vec![drive("/dev/sdb", "1.5GB", None, Some("usb"))]);
    let d = found.remove(0).settle("label".to_string(), Some(1_500_000_000));
    assert_eq!(d.path, "/dev/sdb");
    assert_eq!(d.label, "label");
    assert_eq!(d.size, 1_500_000_000);
}

#[test]
fn the_table_of_windows_is_read_below_its_head() {
    let table = "\"DeviceID\",\"Model\",\"Size\"\r\n\"\\\\.\\PHYSICALDRIVE1\",\"Stick\",\"8000\"\r\n\"\",\"Nameless\",\"1\"\r\nshort,line\r\n x , y , z \n";
    let found = detect_windows(table);
    assert_eq!(
        labels(&found),
        vec!["\\\\.\\PHYSICALDRIVE1 (Stick)".to_string(), "x (y)".to_string()]
    );
    assert!(matches!(found[0].size, Size::Bytes(8000)));
    assert!(matches!(found[1].size, Size::Bytes(0)));
    assert_eq!(detect_windows("").len(), 0);
}

#[test]
fn sizes_on_macos() {
    assert_eq!(rendered(&format_size_mac(1_500_000_000_000)), "1.5 TB");
    assert_eq!(rendered(&format_size_mac(1_000_000_000)), "1.0 GB");
    assert_eq!(rendered(&format_size_mac(999_999_999)), "1000.0 MB");
    assert_eq!(rendered(&format_size_mac(1_000_000)), "1.0 MB");
    assert_eq!(rendered(&format_size_mac(999_999)), "999999 B");
}

#[test]
fn disks_of_a_listing() {
    let listing = "/dev/disk2 (external, physical):\n   0: FDisk\n  /dev/disk14s1\n/dev/diskless\n/dev/rdisk3\n";
    assert_eq!(list_disks(listing), vec!["/dev/disk2".to_string(), "/dev/disk14".to_string()]);
}

fn info(internal: &str, whole: &str) -> String {
    format!(
        "   Device Node:  /dev/disk2\n   {}\n   {}\n   Device / Media Name:   Flash  Disk \n   Disk Size:                 16.0 GB (16008609792 Bytes) (exactly 31266816 512-Byte-Units)\n   Disk Size:  16008609792 bytes\n",
        whole, internal
    )
}

#[test]
fn a_whole_external_disk_is_described() {
    let yes = "Whole:            Yes";
    let no = "Internal:         No";
    let d = describe_disk("/dev/disk2", &Some(info(no, yes)));
    match d {
        Some(d) => {
            assert_eq!(rendered(&d.label), "/dev/disk2 (Flash  Disk - 16.0 GB)");
            assert!(matches!(d.size, Size::Bytes(16_008_609_792)));
        }
        None => panic!("the disk is to be offered"),
    }
    assert!(describe_disk("/dev/disk2", &Some(info("Internal:         Yes", yes))).is_none());
    assert!(describe_disk("/dev/disk2", &Some(info(no, "Whole:            No"))).is_none());
    assert!(describe_disk("/dev/disk2", &None).is_none());
    let bare = format!("{}\n{}", no, yes);
    match describe_disk("/dev/disk9", &Some(bare)) {
        Some(d) => assert_eq!(rendered(&d.label), "/dev/disk9 (Unknown - Unknown)"),
        None => panic!("the disk is to be offered"),
    }
}

#[test]
fn the_last_line_to_name_a_disk_counts() {
    let text = "Internal:         NO\nVirtual Whole:    Yes\nMedia Name: one\nMedia Name: two\nDisk Size: 5 bytes\nDisk Size: x bytes";
    match describe_disk("/dev/disk3", &Some(text.to_string())) {
        Some(d) => assert_eq!(rendered(&d.label), "/dev/disk3 (two - Unknown)"),
        None => panic!("the disk is to be offered"),
    }
}

fn words(d: &Detection) -> Vec<String> {
    d.pending().unwrap_or_default()
}

#[test]
fn a_search_on_linux() {
    let d = detect_usb_devices(Platform::Linux);
    assert_eq!(words(&d), vec!["lsblk", "-Jpo", "name,size,model,tran"]);
    let d = d.step(&Reply::Text(None));
    assert!(d.pending().is_some());
    let d = d.step(&Reply::Drives(Some(vec![drive("/dev/sdb", "1", None, Some("usb"))])));
    assert!(d.pending().is_none());
    assert_eq!(labels(&d.found), vec!["/dev/sdb (1)".to_string()]);
    let d = detect_usb_devices(Platform::Linux).step(&Reply::Drives(None));
    assert!(d.pending().is_none());
    assert_eq!(d.found.len(), 0);
}

#[test]
fn a_search_on_windows() {
    let d = detect_usb_devices(Platform::Windows);
    assert_eq!(words(&d)[0], "powershell");
    let d = d.step(&Reply::Text(Some("head\na,b,3".to_string())));
    assert_eq!(labels(&d.found), vec!["a (b)".to_string()]);
    assert!(d.pending().is_none());
}

#[test]
fn a_search_on_macos_asks_for_each_disk() {
    let d = detect_usb_devices(Platform::MacOs);
    assert_eq!(words(&d), vec!["diskutil", "list", "external"]);
    let d = d.step(&Reply::Text(Some("/dev/disk2\n/dev/disk3\n".to_string())));
    assert_eq!(words(&d), vec!["diskutil", "info", "/dev/disk2"]);
    let d = d.step(&Reply::Text(None));
    assert_eq!(words(&d), vec!["diskutil", "info", "/dev/disk3"]);
    let d = d.step(&Reply::Text(Some(info("Internal:         No", "Whole:            Yes"))));
    assert!(d.pending().is_none());
    assert_eq!(labels(&d.found), vec!["/dev/disk3 (Flash  Disk - 16.0 GB)".to_string()]);
    let d = detect_usb_devices(Platform::MacOs).step(&Reply::Text(Some("nothing".to_string())));
    assert!(d.pending().is_none());
}

#[test]
fn no_search_on_an_unknown_platform() {
    let d = detect_usb_devices(Platform::Other);
    assert!(d.pending().is_none());
    assert_eq!(d.found.len(), 0);
}
