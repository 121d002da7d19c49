use flint::archive::{best_candidate, find_best_zip_entry, is_image_name, Candidate};
use flint::flasher::{detect_image_type, start_flash_thread, type_of_lower, FlashRun, ImageType};
use flint::job::{Action, Event, Platform, Target, ZipEntry};
use flint::message::{Message, Piece};
use flint::xz::ReadProgress;

fn rendered(line: &Vec<Piece>) -> String {
    let mut t = String::new();
    for p in line {
        t.push_str(&match p {
            Piece::Text(s) => s.clone(),
            Piece::Tenths(a, b) => format!("{:.1}", *a as f64 / *b as f64),
            Piece::Full(a, b) => format!("{}", *a as f64 / *b as f64),
            Piece::Percent(a, b) => format!("{:.1}", *a as f64 / *b as f64 * 100.0),
            Piece::Capped(a, b) => format!("{:.1}", (*a as f64 / *b as f64).min(1.0) * 100.0),
        });
    }
    t
}

fn shown(m: &Message) -> String {
    match m {
        Message::Progress(a, b) => format!("progress {}/{}", a, b),
        Message::Done(ok, note) => format!("done {} {}", ok, note.is_some()),
        Message::Log(l) => format!("log {}", rendered(l)),
        Message::Status(l) => format!("status {}", rendered(l)),
        Message::VerifyProgress(s) => format!("share {} {}/{}", s.halves, s.done, s.total),
        Message::VerifyDone(ok, t) => format!("verified {} {}", ok, t),
    }
}

fn asked(a: &Action) -> String {
    match a {
        Action::Output(c) => format!("output {}", c.join(" ")),
        Action::Run(c) => format!("run {}", c.join(" ")),
        Action::Spawn(c) => format!("spawn {}", c.join(" ")),
        Action::NextLine => "line".to_string(),
        Action::Kill => "kill".to_string(),
        Action::Wait => "wait".to_string(),
        Action::FileSize => "size".to_string(),
        Action::FirstEntrySize => "first entry".to_string(),
        Action::OpenImage => "open image".to_string(),
        Action::OpenDevice => "open device".to_string(),
        Action::Poll => "poll".to_string(),
        Action::Read(n) => format!("read {}", n),
        Action::Write(n) => format!("write {}", n),
        Action::OpenArchive => "open archive".to_string(),
        Action::ListEntries => "list".to_string(),
        Action::OpenEntry(i) => format!("open entry {}", i),
        Action::Decompress(n) => format!("decompress {}", n),
        Action::OpenTarget(Target::Image) => "open image to hash".to_string(),
        Action::OpenTarget(Target::Device) => "open device to hash".to_string(),
        Action::ReadTarget(n) => format!("hash {}", n),
        Action::Nothing => "nothing".to_string(),
    }
}

/// Takes a job through `events`. Each is given with what the job is to wait for before it.
fn play(
    iso: &str,
    verify: bool,
    platform: Platform,
    events: Vec<(&str, Event)>,
) -> (FlashRun, Vec<String>) {
    let (mut run, first) = start_flash_thread(
        iso.to_string(),
        "/dev/disk4".to_string(),
        "Stick".to_string(),
        verify,
        platform,
    );
    let mut told: Vec<String> = first.iter().map(shown).collect();
    for (waits_for, event) in events {
        assert_eq!(asked(&run.pending()), waits_for);
        assert!(run.has_room(&event));
        let (next, more) = run.step(&event);
        run = next;
        told.extend(more.iter().map(shown));
    }
    (run, told)
}

fn text(t: &str) -> Event {
    Event::Output(Some(t.to_string()))
}

fn line(t: &str) -> Event {
    Event::Line(false, Some(t.to_string()))
}

const SIZE: &str = "output stat -c %s a.iso";
const DD: &str = "dd if=a.iso of=/dev/disk4 bs=4M status=progress conv=fsync iflag=fullblock";

#[test]
fn image_types_by_suffix() {
    assert_eq!(detect_image_type("a.iso"), ImageType::Raw);
    assert_eq!(detect_image_type("A.XZ"), ImageType::Xz);
    assert_eq!(detect_image_type("b.img.Lzma"), ImageType::Xz);
    assert_eq!(detect_image_type("/x/c.ZIP"), ImageType::Zip);
    assert_eq!(detect_image_type("xz"), ImageType::Raw);
    assert_eq!(detect_image_type(""), ImageType::Raw);
    assert_eq!(type_of_lower("c.zip"), ImageType::Zip);
    assert_eq!(type_of_lower("c.ZIP"), ImageType::Raw);
}

#[test]
fn dd_on_linux_as_root() {
    let (run, told) = play(
        "a.iso",
        false,
        Platform::Linux,
        vec![
            (SIZE, text(" 2097152\n")),
            ("output id -u", text("0\n")),
            (&format!("spawn {}", DD), Event::Ran),
            ("line", line("  ")),
            ("line", line(" 1048576 bytes (1.0 MB, 1.0 MiB) copied")),
            ("line", line("0+1 records in")),
            ("line", Event::End),
            ("wait", Event::Exited(true)),
            ("poll", Event::Polled(false)),
        ],
    );
    assert_eq!(asked(&run.pending()), "nothing");
    assert_eq!(
        told,
        vec![
            "log ISO: a.iso (2.0 MB)",
            "log Device: Stick (/dev/disk4)",
            "log Running as admin: true",
            "progress 1048576/2097152",
            "status Flashing... 50.0% (1.0 / 2.0 MB)",
            "log 1048576 bytes (1.0 MB, 1.0 MiB) copied",
            "log 0+1 records in",
            "done true false",
        ]
    );
}

#[test]
fn dd_on_linux_as_a_user_goes_through_pkexec() {
    let (run, told) = play(
        "a.iso",
        true,
        Platform::Linux,
        vec![
            (SIZE, text("5")),
            ("output id -u", text("1000")),
            (&format!("spawn pkexec {}", DD), Event::Failed("no pkexec".to_string())),
        ],
    );
    assert_eq!(asked(&run.pending()), "nothing");
    assert_eq!(told[2..], ["log Running as admin: false", "log Failed to start dd via pkexec: no pkexec", "done false false"]);
}

#[test]
fn an_image_without_a_size_is_not_flashed() {
    for output in [None, Some("0".to_string()), Some("x".to_string())] {
        let (_, told) = play("a.iso", true, Platform::Linux, vec![(SIZE, Event::Output(output))]);
        assert_eq!(told, vec!["log Failed to get ISO file size", "done false false"]);
    }
}

#[test]
fn a_cancelled_dd_is_killed() {
    let (run, told) = play(
        "a.iso",
        true,
        Platform::Linux,
        vec![
            (SIZE, text("5")),
            ("output id -u", Event::Output(None)),
            (&format!("spawn pkexec {}", DD), Event::Ran),
            ("line", Event::Line(true, Some("1 bytes copied".to_string()))),
            ("kill", Event::Ran),
        ],
    );
    assert_eq!(asked(&run.pending()), "nothing");
    assert_eq!(told[3..], ["log Cancelled by user", "done false false"]);
}

#[test]
fn a_wish_to_cancel_after_the_flash_counts() {
    let (_, told) = play(
        "a.iso",
        true,
        Platform::Linux,
        vec![
            (SIZE, text("5")),
            ("output id -u", text("0")),
            (&format!("spawn {}", DD), Event::Ran),
            ("line", Event::Line(false, None)),
            ("wait", Event::Exited(true)),
            ("poll", Event::Polled(true)),
        ],
    );
    assert_eq!(told.last().unwrap(), "done false false");
}

#[test]
fn dd_on_macos_writes_to_the_raw_device() {
    let dd = "spawn dd if=a.iso of=/dev/rdisk4 bs=4m status=progress";
    let (run, told) = play(
        "a.iso",
        false,
        Platform::MacOs,
        vec![
            ("output stat -f %z a.iso", text("5")),
            ("run diskutil unmountDisk /dev/disk4", Event::Ran),
            ("output id -u", text("501")),
            (dd, Event::Ran),
            ("line", Event::End),
            ("wait", Event::Exited(false)),
            ("run diskutil eject /dev/disk4", Event::Ran),
        ],
    );
    assert_eq!(asked(&run.pending()), "nothing");
    assert_eq!(
        told[2..],
        ["log Disk unmounted", "log Running as root is recommended on macOS", "done false false"]
    );
    let (_, told) = play(
        "a.iso",
        false,
        Platform::MacOs,
        vec![
            ("output stat -f %z a.iso", text("5")),
            ("run diskutil unmountDisk /dev/disk4", Event::Ran),
            ("output id -u", text("0")),
            (dd, Event::Failed("none".to_string())),
            ("run diskutil eject /dev/disk4", Event::Ran),
        ],
    );
    assert_eq!(told[2..], ["log Disk unmounted", "log Failed to start dd: none", "done false false"]);
    let (_, told) = play(
        "a.iso",
        false,
        Platform::MacOs,
        vec![
            ("output stat -f %z a.iso", text("5")),
            ("run diskutil unmountDisk /dev/disk4", Event::Ran),
            ("output id -u", text("0")),
            (dd, Event::Ran),
            ("line", Event::Line(true, None)),
            ("kill", Event::Ran),
            ("run diskutil eject /dev/disk4", Event::Ran),
        ],
    );
    assert_eq!(told[2..], ["log Disk unmounted", "log Cancelled by user", "done false false"]);
}

#[test]
fn a_copy_on_windows_counts_and_is_verified() {
    let (run, told) = play(
        "a.iso",
        true,
        Platform::Windows,
        vec![
            ("size", Event::Size(Some(3))),
            ("open image", Event::Ran),
            ("open device", Event::Ran),
            ("poll", Event::Polled(false)),
            ("read 4194304", Event::Read(2)),
            ("write 2", Event::Ran),
            ("poll", Event::Polled(false)),
            ("read 4194304", Event::Read(1)),
            ("write 1", Event::Ran),
            ("poll", Event::Polled(false)),
            ("read 4194304", Event::Read(0)),
            ("poll", Event::Polled(false)),
            ("size", Event::Size(Some(3))),
            ("open image to hash", Event::Ran),
            ("poll", Event::Polled(false)),
            ("hash 3", Event::Chunk(b"abc".to_vec())),
            ("poll", Event::Polled(false)),
            ("open device to hash", Event::Ran),
            ("poll", Event::Polled(false)),
            ("hash 3", Event::Chunk(b"abc".to_vec())),
            ("poll", Event::Polled(false)),
        ],
    );
    assert_eq!(asked(&run.pending()), "nothing");
    assert_eq!(
        told[..6],
        [
            "log ISO: a.iso (0.0 MB)",
            "log Device: Stick (/dev/disk4)",
            "progress 2/3",
            "status Flashing... 66.7% (0.0 / 0.0 MB)",
            "progress 3/3",
            "status Flashing... 100.0% (0.0 / 0.0 MB)",
        ]
    );
    assert_eq!(told.last().unwrap(), "verified true Flash verified successfully!");
}

#[test]
fn faults_of_a_copy() {
    let failed = || Event::Failed("oops".to_string());
    let start = || vec![("size", Event::Size(Some(3)))];
    let cases = vec![
        (vec![("open image", failed())], "log Failed to open ISO: oops"),
        (
            vec![("open image", Event::Ran), ("open device", failed())],
            "log Failed to open device (run as admin): oops",
        ),
        (
            vec![("open image", Event::Ran), ("open device", Event::Ran), ("poll", Event::Polled(true))],
            "log Cancelled by user",
        ),
        (
            vec![
                ("open image", Event::Ran),
                ("open device", Event::Ran),
                ("poll", Event::Polled(false)),
                ("read 4194304", failed()),
            ],
            "log Read error: oops",
        ),
        (
            vec![
                ("open image", Event::Ran),
                ("open device", Event::Ran),
                ("poll", Event::Polled(false)),
                ("read 4194304", Event::Read(1)),
                ("write 1", failed()),
            ],
            "log Write error: oops",
        ),
    ];
    for (events, line) in cases {
        let mut all = start();
        all.extend(events);
        let (_, told) = play("a.iso", true, Platform::Windows, all);
        assert_eq!(told[2..], [line, "done false false"]);
    }
    let (_, told) = play("a.iso", true, Platform::Windows, vec![("size", Event::Size(None))]);
    assert_eq!(told, vec!["log Failed to get ISO file size", "done false false"]);
}

#[test]
fn an_unknown_platform_flashes_no_plain_image() {
    let (run, told) = play("a.iso", true, Platform::Other, vec![]);
    assert_eq!(asked(&run.pending()), "nothing");
    assert_eq!(told, vec!["log Unsupported platform", "done false false"]);
}

#[test]
fn a_compressed_image_is_not_verified() {
    let (run, told) = play(
        "a.xz",
        true,
        Platform::Other,
        vec![
            ("size", Event::Size(Some(1_572_864))),
            ("open image", Event::Ran),
            ("open device", Event::Ran),
            ("decompress 1572864", Event::Ran),
            ("poll", Event::Polled(false)),
        ],
    );
    assert_eq!(asked(&run.pending()), "nothing");
    assert_eq!(
        told,
        vec![
            "log XZ: a.xz (1.5 MB compressed)",
            "log XZ decompression done.",
            "log Verification skipped: unknown uncompressed size",
            "done true false",
        ]
    );
}

#[test]
fn faults_of_a_decompression() {
    let failed = || Event::Failed("oops".to_string());
    let cases = vec![
        (vec![("open image", failed())], "log Failed to open file: oops"),
        (vec![("open image", Event::Ran), ("open device", failed())], "log Failed to open device: oops"),
        (
            vec![
                ("open image", Event::Ran),
                ("open device", Event::Ran),
                ("decompress 0", Event::Stopped(false, "oops".to_string())),
            ],
            "log Decompression error: oops",
        ),
        (
            vec![
                ("open image", Event::Ran),
                ("open device", Event::Ran),
                ("decompress 0", Event::Stopped(true, "oops".to_string())),
            ],
            "log Cancelled by user",
        ),
    ];
    for (events, line) in cases {
        let mut all = vec![("size", Event::Size(None))];
        all.extend(events);
        let (_, told) = play("a.lzma", false, Platform::Linux, all);
        assert_eq!(told, vec!["log XZ: a.lzma (0.0 MB compressed)", line, "done false false"]);
    }
}

#[test]
fn decompression_reports_what_it_consumed() {
    let mut p = ReadProgress::new(400);
    assert_eq!(shown(&p.advance(100).unwrap()), "status Decompressing... 25.0%");
    assert_eq!(shown(&p.advance(500).unwrap()), "status Decompressing... 100.0%");
    assert_eq!(p.read_so_far, 600);
    assert!(ReadProgress::new(0).advance(1).is_none());
    assert_eq!(p.refusal(false), None);
    assert_eq!(p.refusal(true), Some("cancelled"));
}

fn entry(name: &str, size: u64) -> Option<ZipEntry> {
    Some(ZipEntry { name: name.to_string(), size })
}

#[test]
fn an_entry_is_extracted_and_its_archive_verified_by_the_first() {
    let (run, told) = play(
        "a.zip",
        true,
        Platform::Linux,
        vec![
            ("open image", Event::Ran),
            ("open archive", Event::Counted(2)),
            ("list", Event::Entries(vec![entry("readme", 1), entry("a.ISO", 3)])),
            ("open entry 1", Event::Entry(ZipEntry { name: "a.ISO".to_string(), size: 524_288 })),
            ("open device", Event::Ran),
            ("poll", Event::Polled(false)),
            ("read 1048576", Event::Read(262_144)),
            ("write 262144", Event::Ran),
            ("poll", Event::Polled(false)),
            ("read 1048576", Event::Read(0)),
            ("poll", Event::Polled(false)),
            ("first entry", Event::Size(None)),
        ],
    );
    assert_eq!(asked(&run.pending()), "nothing");
    assert_eq!(
        told,
        vec![
            "log Extracting from ZIP: a.ISO (0.5 MB)",
            "progress 262144/524288",
            "status Extracting... 50.0% (0.2 / 0.5 MB)",
            "log Extraction done. 262144 bytes written.",
            "log Verification skipped: unknown uncompressed size",
            "done true false",
        ]
    );
}

#[test]
fn an_entry_of_unknown_size_reports_no_progress() {
    let (_, told) = play(
        "a.zip",
        false,
        Platform::Linux,
        vec![
            ("open image", Event::Ran),
            ("open archive", Event::Counted(1)),
            ("list", Event::Entries(vec![None])),
            ("open entry 0", Event::Entry(ZipEntry { name: "x".to_string(), size: 0 })),
            ("open device", Event::Ran),
            ("poll", Event::Polled(false)),
            ("read 1048576", Event::Read(5)),
            ("write 5", Event::Ran),
            ("poll", Event::Polled(false)),
            ("read 1048576", Event::Read(0)),
            ("poll", Event::Polled(false)),
        ],
    );
    assert_eq!(
        told,
        vec![
            "log Extracting from ZIP: x (0 MB)",
            "log Extraction done. 5 bytes written.",
            "done true false",
        ]
    );
}

#[test]
fn faults_of_an_extraction() {
    let failed = || Event::Failed("oops".to_string());
    let (_, told) = play("a.zip", false, Platform::Linux, vec![("open image", failed())]);
    assert_eq!(told[0], "log Failed to open ZIP: oops");
    let cases = vec![
        (vec![("open archive", failed())], "log Failed to read ZIP archive: oops"),
        (vec![("open archive", Event::Counted(0))], "log ZIP archive is empty"),
        (
            vec![
                ("open archive", Event::Counted(1)),
                ("list", Event::Entries(vec![entry("a", 1)])),
                ("open entry 0", failed()),
            ],
            "log Failed to read ZIP entry: oops",
        ),
    ];
    for (events, line) in cases {
        let mut all = vec![("open image", Event::Ran)];
        all.extend(events);
        let (_, told) = play("a.zip", false, Platform::Linux, all);
        assert_eq!(told, vec![line, "done false false"]);
    }
    let opened = || {
        vec![
            ("open image", Event::Ran),
            ("open archive", Event::Counted(1)),
            ("list", Event::Entries(vec![entry("a", 1)])),
            ("open entry 0", Event::Entry(ZipEntry { name: "a".to_string(), size: 1 })),
        ]
    };
    let mut all = opened();
    all.push(("open device", failed()));
    let (_, told) = play("a.zip", false, Platform::Linux, all);
    assert_eq!(told[1], "log Failed to open device: oops");
    let mut all = opened();
    all.extend([("open device", Event::Ran), ("poll", Event::Polled(false)), ("read 1048576", failed())]);
    let (_, told) = play("a.zip", false, Platform::Linux, all);
    assert_eq!(told[1..], ["log Extraction error: oops", "done false false"]);
}

#[test]
fn the_entry_to_flash() {
    let pick = |v: Vec<Option<ZipEntry>>| find_best_zip_entry(&v);
    assert_eq!(pick(vec![]), 0);
    assert_eq!(pick(vec![entry("a.txt", 5)]), 0);
    assert_eq!(pick(vec![entry("a.txt", 5), entry("b.img", 4)]), 0);
    assert_eq!(pick(vec![entry("a.txt", 5), entry("b.RAW", 9), entry("c.bin", 8)]), 1);
    assert_eq!(pick(vec![entry("a.txt", 1), entry("b.txt", 2), entry("c.txt", 3)]), 1);
    assert_eq!(pick(vec![entry("a.txt", 1), entry("b.txt", 2), entry("c.iso", 3)]), 2);
    assert_eq!(pick(vec![entry("a.iso", 1), entry("b.txt", 9)]), 1);
    assert_eq!(pick(vec![None, entry("b", 1), entry("c.iso", 1)]), 1);
    assert_eq!(best_candidate(&vec![None, Some(Candidate { image: true, size: 1 })]), 1);
    assert!(is_image_name("x.bin"));
    assert!(!is_image_name("x.BIN"));
}

#[test]
fn an_event_that_is_no_answer_changes_nothing() {
    let (run, told) = play(
        "a.iso",
        true,
        Platform::Linux,
        vec![(SIZE, Event::Ran), (SIZE, Event::Read(3)), (SIZE, Event::End)],
    );
    assert_eq!(told.len(), 0);
    assert_eq!(asked(&run.pending()), SIZE);
}

#[test]
fn a_job_that_is_over_stays_over() {
    let (run, told) = play(
        "a.iso",
        false,
        Platform::Other,
        vec![("nothing", Event::Ran), ("nothing", Event::Polled(true))],
    );
    assert_eq!(told.len(), 2);
    assert_eq!(asked(&run.pending()), "nothing");
}

#[test]
fn only_the_end_of_a_path_counts_in_any_letter_case() {
    for front in ["", "a", "/größe/", "ΑΣ", "İ", "\u{212A}", "x.zip"] {
        for end in [".xz", ".Xz", ".LZMA", ".zIP", "Σ.xz", "É.ZIP", "Σ1.Lzma"] {
            let kind = detect_image_type(end);
            assert!(kind != ImageType::Raw);
            assert_eq!(detect_image_type(&format!("{}{}", front, end)), kind);
            assert_eq!(detect_image_type(&end.to_ascii_uppercase()), kind);
            assert_eq!(detect_image_type(&end.to_ascii_lowercase()), kind);
        }
    }
    assert_eq!(detect_image_type("a.zİp"), ImageType::Raw);
    assert_eq!(detect_image_type("ß"), ImageType::Raw);
}

#[test]
fn the_entry_to_flash_by_names_in_any_letter_case() {
    let pick = |v: Vec<Option<ZipEntry>>| find_best_zip_entry(&v);
    assert_eq!(pick(vec![entry("a.txt", 1), entry("b.iso", 2), entry("c.ISO", 3)]), 2);
    assert_eq!(pick(vec![entry("a.txt", 1), entry("b.iso", 2), entry("größe.Img", 3)]), 2);
}

/// Copies `data` in pieces as the job asks for it, and gives what reached the device.
fn copied(iso: &str, platform: Platform, data: &[u8], piece: usize) -> (Vec<u8>, bool) {
    let (mut run, _) = start_flash_thread(
        iso.to_string(),
        "/dev/x".to_string(),
        "X".to_string(),
        false,
        platform,
    );
    let mut device: Vec<u8> = Vec::new();
    let mut held: Vec<u8> = Vec::new();
    let mut place = 0;
    let mut ok = false;
    loop {
        let event = match run.pending() {
            Action::Nothing => return (device, ok),
            Action::FileSize => Event::Size(Some(data.len() as u64)),
            Action::OpenImage | Action::OpenDevice => Event::Ran,
            Action::OpenArchive => Event::Counted(1),
            Action::ListEntries => Event::Entries(vec![entry("a.iso", data.len() as u64)]),
            Action::OpenEntry(_) => Event::Entry(ZipEntry {
                name: "a.iso".to_string(),
                size: data.len() as u64,
            }),
            Action::Poll => Event::Polled(false),
            Action::Read(n) => {
                let n = n.min(piece).min(data.len() - place);
                held = data[place..place + n].to_vec();
                place += n;
                Event::Read(n)
            }
            Action::Write(n) => {
                device.extend(&held[..n]);
                Event::Ran
            }
            _ => panic!("a copy asks for nothing else"),
        };
        let (next, told) = run.step(&event);
        run = next;
        ok = ok || told.iter().any(|m| matches!(m, Message::Done(true, _)));
    }
}

#[test]
fn a_copy_writes_the_source_to_the_device() {
    let data: Vec<u8> = (0..5_000_000u32).map(|i| (i % 253) as u8).collect();
    for piece in [1_000_000, 1_048_576, 9_000_000, 333_333] {
        assert!(copied("a.iso", Platform::Windows, &data, piece) == (data.clone(), true));
        assert!(copied("a.zip", Platform::Linux, &data, piece) == (data.clone(), true));
    }
}
