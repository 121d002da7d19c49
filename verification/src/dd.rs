//! Flashing a plain image with `dd`, on Linux and on macOS.
use vstd::prelude::*;
use vstd::string::*;

use crate::job;
use crate::job::{command, joined, Action, ActionView, Event, EventView, Facts, FactsView, Step};
use crate::message;
use crate::message::{
    both, log, log_with, only, text_piece, Message, MessageView, Piece, PieceView, MIB,
};
use crate::progress;
use crate::progress::parse_dd_progress;
use crate::text;
use crate::text::{parse_u64, replace, trim};

verus! {

/// The flavour of `dd`.
#[derive(Clone, Copy, PartialEq, Eq, Structural)]
pub enum Tool {
    Linux,
    MacOs,
}

/// Why the device is ejected.
#[derive(Clone, Copy, PartialEq, Eq, Structural)]
pub enum Closing {
    /// `dd` could not be started.
    NotStarted,
    /// The user asked to cancel.
    Cancelled,
    /// `dd` ended, with success or not.
    Exited(bool),
}

/// What a run of `dd` waits for.
#[derive(Clone, Copy, PartialEq, Eq, Structural)]
pub enum DdStage {
    /// The size of the image.
    Size,
    /// The device being unmounted, on macOS. The image has so many bytes.
    Unmount(u64),
    /// The number of the user.
    User(u64),
    /// `dd` being started; whether the user is root.
    Start(u64, bool),
    /// The next line that `dd` writes.
    Lines(u64),
    /// `dd` being killed.
    Kill,
    /// The end of `dd`.
    Wait,
    /// The device being ejected, on macOS.
    Eject(Closing),
}

/// The number that a command wrote; 0 where it wrote none.
pub open spec fn reported_size(output: Option<Seq<char>>) -> u64 {
    match output {
        Some(t) => match text::number(text::trimmed(t)) {
            Some(n) => n,
            None => 0,
        },
        None => 0,
    }
}

/// The number that a command wrote; 0 where it wrote none.
pub fn size_from_output(output: &Option<String>) -> (r: u64)
    ensures
        r == reported_size(job::text_view(*output)),
{
    match output {
        Some(t) => match parse_u64(trim(t.as_str())) {
            Some(n) => n,
            None => 0,
        },
        None => 0,
    }
}

/// The output of `id -u` is that of the user root.
pub open spec fn says_root(output: Option<Seq<char>>) -> bool {
    output matches Some(t) && text::number(text::trimmed(t)) == Some(0u64)
}

/// Whether the output of `id -u` is that of the user root.
pub fn is_root(output: &Option<String>) -> (r: bool)
    ensures
        r == says_root(job::text_view(*output)),
{
    match output {
        Some(t) => match parse_u64(trim(t.as_str())) {
            Some(n) => n == 0,
            None => false,
        },
        None => false,
    }
}

/// The log line on the image and its size.
pub open spec fn image_line(iso_path: Seq<char>, total: u64) -> MessageView {
    MessageView::Log(
        seq![
            PieceView::Text("ISO: "@ + iso_path + " ("@),
            PieceView::Tenths(total, MIB),
            PieceView::Text(" MB)"@),
        ],
    )
}

/// The log line on the device.
pub open spec fn device_line(facts: FactsView) -> MessageView {
    message::log_text("Device: "@ + facts.dev_label + " ("@ + facts.dev_path + ")"@)
}

/// The status line of a flash of which `done` of `total` bytes are written.
pub open spec fn flashing_line(done: u64, total: u64) -> MessageView {
    MessageView::Status(
        seq![
            PieceView::Text("Flashing... "@),
            PieceView::Percent(done, total),
            PieceView::Text("% ("@),
            PieceView::Tenths(done, MIB),
            PieceView::Text(" / "@),
            PieceView::Tenths(total, MIB),
            PieceView::Text(" MB)"@),
        ],
    )
}

/// The log line on the image and its size.
pub fn image_log(iso_path: &str, total: u64) -> (r: Message)
    ensures
        r@ == image_line(iso_path@, total),
{
    let mut t = "ISO: ".to_owned();
    t.append(iso_path);
    t.append(" (");
    let v = vec![Piece::Text(t), Piece::Tenths(total, MIB), text_piece(" MB)")];
    let m = Message::Log(v);
    assert(message::line_view(v@) =~= image_line(iso_path@, total)->Log_0);
    m
}

/// The log line on the device.
pub fn device_log(facts: &Facts) -> (r: Message)
    ensures
        r@ == device_line(facts@),
{
    let mut t = "Device: ".to_owned();
    t.append(facts.dev_label.as_str());
    t.append(" (");
    t.append(facts.dev_path.as_str());
    t.append(")");
    log(t.as_str())
}

/// The status line of a flash of which `done` of `total` bytes are written.
pub fn flashing_status(done: u64, total: u64) -> (r: Message)
    ensures
        r@ == flashing_line(done, total),
{
    let v = vec![
        text_piece("Flashing... "),
        Piece::Percent(done, total),
        text_piece("% ("),
        Piece::Tenths(done, MIB),
        text_piece(" / "),
        Piece::Tenths(total, MIB),
        text_piece(" MB)"),
    ];
    let m = Message::Status(v);
    assert(message::line_view(v@) =~= flashing_line(done, total)->Status_0);
    m
}

/// The path that `dd` writes to: on macOS the raw device in place of the buffered one.
pub open spec fn written_path(tool: Tool, dev_path: Seq<char>) -> Seq<char> {
    match tool {
        Tool::Linux => dev_path,
        Tool::MacOs => text::replaced(dev_path, "/dev/disk"@, "/dev/rdisk"@),
    }
}

/// The command that flashes the image; without root's rights, on Linux, it goes through `pkexec`.
pub open spec fn dd_command(tool: Tool, root: bool, facts: FactsView) -> Seq<Seq<char>> {
    let input = "if="@ + facts.iso_path;
    let output = "of="@ + written_path(tool, facts.dev_path);
    match tool {
        Tool::Linux => {
            let dd = seq![
                "dd"@,
                input,
                output,
                "bs=4M"@,
                "status=progress"@,
                "conv=fsync"@,
                "iflag=fullblock"@,
            ];
            if root {
                dd
            } else {
                seq!["pkexec"@] + dd
            }
        },
        Tool::MacOs => seq!["dd"@, input, output, "bs=4m"@, "status=progress"@],
    }
}

/// What a run of `dd` asks for at stage `st`.
pub open spec fn dd_asks(facts: FactsView, tool: Tool, st: DdStage) -> ActionView {
    match st {
        DdStage::Size => match tool {
            Tool::Linux => ActionView::Output(seq!["stat"@, "-c"@, "%s"@, facts.iso_path]),
            Tool::MacOs => ActionView::Output(seq!["stat"@, "-f"@, "%z"@, facts.iso_path]),
        },
        DdStage::Unmount(_) => ActionView::Run(seq!["diskutil"@, "unmountDisk"@, facts.dev_path]),
        DdStage::User(_) => ActionView::Output(seq!["id"@, "-u"@]),
        DdStage::Start(_, root) => ActionView::Spawn(dd_command(tool, root, facts)),
        DdStage::Lines(_) => ActionView::NextLine,
        DdStage::Kill => ActionView::Kill,
        DdStage::Wait => ActionView::Wait,
        DdStage::Eject(_) => ActionView::Run(seq!["diskutil"@, "eject"@, facts.dev_path]),
    }
}

/// The messages on a line that `dd` wrote: none where it is blank; progress where it reports some;
/// and the line itself.
pub open spec fn line_messages(total: u64, line: Seq<char>) -> Seq<MessageView> {
    let t = text::trimmed(line);
    if t.len() == 0 {
        seq![]
    } else {
        match progress::dd_progress(t) {
            Some(done) => seq![
                MessageView::Progress(done, total),
                flashing_line(done, total),
                message::log_text(t),
            ],
            None => seq![message::log_text(t)],
        }
    }
}

/// Where a run of `dd` goes from stage `st` on `event`, and what it reports. An event that is no
/// answer to what it asked for changes nothing.
pub open spec fn dd_next(facts: FactsView, tool: Tool, st: DdStage, event: EventView) -> (
    Step<DdStage>,
    Seq<MessageView>,
) {
    match (st, event) {
        (DdStage::Size, EventView::Output(o)) => {
            let total = reported_size(o);
            if total == 0 {
                (Step::Ended(false), seq![message::log_text("Failed to get ISO file size"@)])
            } else {
                (
                    Step::Next(
                        match tool {
                            Tool::Linux => DdStage::User(total),
                            Tool::MacOs => DdStage::Unmount(total),
                        },
                    ),
                    seq![image_line(facts.iso_path, total), device_line(facts)],
                )
            }
        },
        (DdStage::Unmount(total), EventView::Ran) => (
            Step::Next(DdStage::User(total)),
            seq![message::log_text("Disk unmounted"@)],
        ),
        (DdStage::User(total), EventView::Output(o)) => {
            let root = says_root(o);
            (
                Step::Next(DdStage::Start(total, root)),
                match tool {
                    Tool::Linux => seq![
                        message::log_text(
                            "Running as admin: "@ + if root {
                                "true"@
                            } else {
                                "false"@
                            },
                        ),
                    ],
                    Tool::MacOs => if root {
                        seq![]
                    } else {
                        seq![message::log_text("Running as root is recommended on macOS"@)]
                    },
                },
            )
        },
        (DdStage::Start(total, _), EventView::Ran) => (Step::Next(DdStage::Lines(total)), seq![]),
        (DdStage::Start(_, root), EventView::Failed(e)) => match tool {
            Tool::Linux => (
                Step::Ended(false),
                seq![
                    message::log_text(
                        if root {
                            "Failed to start dd: "@
                        } else {
                            "Failed to start dd via pkexec: "@
                        } + e,
                    ),
                ],
            ),
            Tool::MacOs => (
                Step::Next(DdStage::Eject(Closing::NotStarted)),
                seq![message::log_text("Failed to start dd: "@ + e)],
            ),
        },
        (DdStage::Lines(_), EventView::Line(true, _)) => (Step::Next(DdStage::Kill), seq![]),
        (DdStage::Lines(_), EventView::Line(false, None)) => (Step::Next(DdStage::Wait), seq![]),
        (DdStage::Lines(total), EventView::Line(false, Some(l))) => (
            Step::Next(DdStage::Lines(total)),
            line_messages(total, l),
        ),
        (DdStage::Lines(_), EventView::End) => (Step::Next(DdStage::Wait), seq![]),
        (DdStage::Kill, EventView::Ran) => match tool {
            Tool::Linux => (Step::Ended(false), seq![message::log_text("Cancelled by user"@)]),
            Tool::MacOs => (Step::Next(DdStage::Eject(Closing::Cancelled)), seq![]),
        },
        (DdStage::Wait, EventView::Exited(ok)) => match tool {
            Tool::Linux => (Step::Ended(ok), seq![]),
            Tool::MacOs => (Step::Next(DdStage::Eject(Closing::Exited(ok))), seq![]),
        },
        (DdStage::Eject(why), EventView::Ran) => match why {
            Closing::NotStarted => (Step::Ended(false), seq![]),
            Closing::Cancelled => (
                Step::Ended(false),
                seq![message::log_text("Cancelled by user"@)],
            ),
            Closing::Exited(ok) => (Step::Ended(ok), seq![]),
        },
        _ => (Step::Next(st), seq![]),
    }
}

/// What a run of `dd` asks for at stage `st`.
pub fn dd_pending(facts: &Facts, tool: Tool, st: DdStage) -> (r: Action)
    ensures
        r@ == dd_asks(facts@, tool, st),
{
    let iso = facts.iso_path.as_str();
    let dev = facts.dev_path.as_str();
    match st {
        DdStage::Size => match tool {
            Tool::Linux => {
                let v = vec!["stat", "-c", "%s", iso];
                assert(text::texts(v@) =~= seq!["stat"@, "-c"@, "%s"@, iso@]);
                Action::Output(command(v))
            },
            Tool::MacOs => {
                let v = vec!["stat", "-f", "%z", iso];
                assert(text::texts(v@) =~= seq!["stat"@, "-f"@, "%z"@, iso@]);
                Action::Output(command(v))
            },
        },
        DdStage::Unmount(_) => {
            let v = vec!["diskutil", "unmountDisk", dev];
            assert(text::texts(v@) =~= seq!["diskutil"@, "unmountDisk"@, dev@]);
            Action::Run(command(v))
        },
        DdStage::User(_) => {
            let v = vec!["id", "-u"];
            assert(text::texts(v@) =~= seq!["id"@, "-u"@]);
            Action::Output(command(v))
        },
        DdStage::Start(_, root) => Action::Spawn(dd_words(facts, tool, root)),
        DdStage::Lines(_) => Action::NextLine,
        DdStage::Kill => Action::Kill,
        DdStage::Wait => Action::Wait,
        DdStage::Eject(_) => {
            let v = vec!["diskutil", "eject", dev];
            assert(text::texts(v@) =~= seq!["diskutil"@, "eject"@, dev@]);
            Action::Run(command(v))
        },
    }
}

/// The command that flashes the image.
fn dd_words(facts: &Facts, tool: Tool, root: bool) -> (r: Vec<String>)
    ensures
        job::words(r@) == dd_command(tool, root, facts@),
{
    let input = joined("if=", facts.iso_path.as_str());
    match tool {
        Tool::Linux => {
            let output = joined("of=", facts.dev_path.as_str());
            if root {
                let v = vec![
                    "dd",
                    input.as_str(),
                    output.as_str(),
                    "bs=4M",
                    "status=progress",
                    "conv=fsync",
                    "iflag=fullblock",
                ];
                assert(text::texts(v@) =~= dd_command(tool, root, facts@));
                command(v)
            } else {
                let v = vec![
                    "pkexec",
                    "dd",
                    input.as_str(),
                    output.as_str(),
                    "bs=4M",
                    "status=progress",
                    "conv=fsync",
                    "iflag=fullblock",
                ];
                assert(text::texts(v@) =~= dd_command(tool, root, facts@));
                command(v)
            }
        },
        Tool::MacOs => {
            proof {
                reveal_strlit("/dev/disk");
            }
            let raw = replace(facts.dev_path.as_str(), "/dev/disk", "/dev/rdisk");
            let output = joined("of=", raw.as_str());
            let v = vec!["dd", input.as_str(), output.as_str(), "bs=4m", "status=progress"];
            assert(text::texts(v@) =~= dd_command(tool, root, facts@));
            command(v)
        },
    }
}

/// The messages on a line that `dd` wrote.
pub fn report_line(total: u64, line: &str) -> (r: Vec<Message>)
    ensures
        message::message_views(r@) == line_messages(total, line@),
{
    let t = trim(line);
    if t.is_empty() {
        let none: Vec<Message> = Vec::new();
        assert(message::message_views(none@) =~= seq![]);
        return none;
    }
    match parse_dd_progress(t) {
        Some(done) => {
            let v = vec![Message::Progress(done, total), flashing_status(done, total), log(t)];
            assert(message::message_views(v@) =~= line_messages(total, line@));
            v
        },
        None => only(log(t)),
    }
}

/// Takes a run of `dd` from stage `st` on by one event.
pub fn dd_step(facts: &Facts, tool: Tool, st: DdStage, event: &Event) -> (r: (
    Step<DdStage>,
    Vec<Message>,
))
    ensures
        (r.0, message::message_views(r.1@)) == dd_next(facts@, tool, st, event@),
{
    let none: Vec<Message> = Vec::new();
    assert(message::message_views(none@) =~= seq![]);
    match (st, event) {
        (DdStage::Size, Event::Output(o)) => {
            let total: u64 = size_from_output(o);
            if total == 0 {
                (Step::Ended(false), only(log("Failed to get ISO file size")))
            } else {
                let next = match tool {
                    Tool::Linux => DdStage::User(total),
                    Tool::MacOs => DdStage::Unmount(total),
                };
                (
                    Step::Next(next),
                    both(image_log(facts.iso_path.as_str(), total), device_log(facts)),
                )
            }
        },
        (DdStage::Unmount(total), Event::Ran) => (
            Step::Next(DdStage::User(total)),
            only(log("Disk unmounted")),
        ),
        (DdStage::User(total), Event::Output(o)) => {
            let root = is_root(o);
            let told = match tool {
                Tool::Linux => only(
                    log_with(
                        "Running as admin: ",
                        if root {
                            "true"
                        } else {
                            "false"
                        },
                    ),
                ),
                Tool::MacOs => if root {
                    none
                } else {
                    only(log("Running as root is recommended on macOS"))
                },
            };
            (Step::Next(DdStage::Start(total, root)), told)
        },
        (DdStage::Start(total, _), Event::Ran) => (Step::Next(DdStage::Lines(total)), none),
        (DdStage::Start(_, root), Event::Failed(e)) => match tool {
            Tool::Linux => {
                let lead = if root {
                    "Failed to start dd: "
                } else {
                    "Failed to start dd via pkexec: "
                };
                (Step::Ended(false), only(log_with(lead, e.as_str())))
            },
            Tool::MacOs => (
                Step::Next(DdStage::Eject(Closing::NotStarted)),
                only(log_with("Failed to start dd: ", e.as_str())),
            ),
        },
        (DdStage::Lines(total), Event::Line(cancelled, l)) => {
            if *cancelled {
                (Step::Next(DdStage::Kill), none)
            } else {
                match l {
                    None => (Step::Next(DdStage::Wait), none),
                    Some(t) => (
                        Step::Next(DdStage::Lines(total)),
                        report_line(total, t.as_str()),
                    ),
                }
            }
        },
        (DdStage::Lines(_), Event::End) => (Step::Next(DdStage::Wait), none),
        (DdStage::Kill, Event::Ran) => match tool {
            Tool::Linux => (Step::Ended(false), only(log("Cancelled by user"))),
            Tool::MacOs => (Step::Next(DdStage::Eject(Closing::Cancelled)), none),
        },
        (DdStage::Wait, Event::Exited(ok)) => match tool {
            Tool::Linux => (Step::Ended(*ok), none),
            Tool::MacOs => (Step::Next(DdStage::Eject(Closing::Exited(*ok))), none),
        },
        (DdStage::Eject(why), Event::Ran) => match why {
            Closing::NotStarted => (Step::Ended(false), none),
            Closing::Cancelled => (Step::Ended(false), only(log("Cancelled by user"))),
            Closing::Exited(ok) => (Step::Ended(ok), none),
        },
        _ => (Step::Next(st), none),
    }
}

/// The size that `stat` writes on a line is read, and a user's number is that of root only where it
/// is 0.
pub proof fn command_output_is_read(n: u64)
    ensures
        reported_size(Some(text::decimal(n as nat).push('\n'))) == n,
        says_root(Some(text::decimal(n as nat).push('\n'))) == (n == 0),
{
    let d = text::decimal(n as nat);
    text::decimal_digits(n as nat);
    assert(text::digit(d[0]));
    assert(text::digit(d[d.len() - 1]));
    text::trimming_ends_a_line(d);
    text::numbers_read_back(n);
}

} // verus!
