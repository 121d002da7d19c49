//! What a flash job does, told by what the outside answers and by the words that it sends.
//!
//! Every law speaks of all images, devices and answers; the words, commands and sizes in it are
//! written out.
use vstd::prelude::*;
use vstd::string::*;

use crate::archive;
use crate::archive::{Candidate, ZipStage};
use crate::copy;
use crate::copy::{CopyStage, Copying, Source};
use crate::dd;
use crate::dd::{Closing, DdStage, Tool};
use crate::flasher;
use crate::flasher::{Flash, ImageType, RunView, StageView};
use crate::job::{ActionView, EventView, FactsView, Platform, ZipEntryView};
use crate::laws;
use crate::laws::{after, after_concat};
use crate::message::{MessageView, PieceView};
use crate::progress;
use crate::text;
use crate::verification::VerifyView;
use crate::xz;
use crate::xz::{ReadProgress, XzStage};

verus! {

/// A line of one text for the log.
pub open spec fn says(t: Seq<char>) -> MessageView {
    MessageView::Log(seq![PieceView::Text(t)])
}

/// `s` ends with `t`.
pub open spec fn ends_in(s: Seq<char>, t: Seq<char>) -> bool {
    exists|x: Seq<char>| s == #[trigger] (x + t)
}

/// What a command writes that writes the number `n` on a line.
pub open spec fn written(n: u64) -> EventView {
    EventView::Output(Some(text::decimal(n as nat).push('\n')))
}

/// The job at `stage`.
pub open spec fn is_at(run: RunView, stage: Flash) -> bool {
    run.stage == StageView::Flash(stage)
}

/// On `event` the job fails: it is over, and the last that it sends, behind `told`, is that it is
/// done without success.
pub open spec fn fails(run: RunView, event: EventView, told: Seq<MessageView>) -> bool {
    &&& run.next(event).0.stage is Over
    &&& run.next(event).1 == told.push(MessageView::Done(false, None))
}

/// On `event` the image counts as flashed, and `told` is sent.
pub open spec fn flashes(run: RunView, event: EventView, told: Seq<MessageView>) -> bool {
    &&& run.next(event).0 == (RunView { stage: StageView::Flashed, ..run })
    &&& run.next(event).1 == told
}

/// On `event` the job goes to `stage`, where it waits for `action`, and `told` is sent.
pub open spec fn goes(
    run: RunView,
    event: EventView,
    stage: Flash,
    action: ActionView,
    told: Seq<MessageView>,
) -> bool {
    &&& run.next(event).0 == (RunView { stage: StageView::Flash(stage), ..run })
    &&& run.next(event).0.asks() == action
    &&& run.next(event).1 == told
}

// ---------------------------------------------------------------------------
// Kinds of images
// ---------------------------------------------------------------------------

proof fn suffix_is_end(s: Seq<char>, t: Seq<char>)
    ensures
        t.is_suffix_of(s) <==> ends_in(s, t),
{
    if t.is_suffix_of(s) {
        let x = s.take(s.len() - t.len());
        assert(s =~= x + t) by {
            assert(s.subrange(s.len() - t.len(), s.len() as int) == t);
            assert forall|j: int| 0 <= j < s.len() implies s[j] == (x + t)[j] by {
                if j >= x.len() {
                    assert(s.subrange(s.len() - t.len(), s.len() as int)[j - x.len()] == s[j]);
                }
            }
        }
        assert(s == x + t);
    }
    if ends_in(s, t) {
        let x = choose|x: Seq<char>| s == #[trigger] (x + t);
        assert(s.subrange(s.len() - t.len(), s.len() as int) =~= t);
    }
}

/// By its path in lower case an image is a ZIP archive where the path ends with `.zip`, compressed
/// where it ends with `.xz` or `.lzma`, and plain in every other case. So images named `.iso`,
/// `.img`, `.raw` and `.bin` are plain.
pub proof fn kind_is_told_by_the_suffix(path: Seq<char>)
    ensures
        flasher::suffix_type(path) is Zip <==> ends_in(path, ".zip"@),
        flasher::suffix_type(path) is Xz <==> ends_in(path, ".xz"@) || ends_in(path, ".lzma"@),
        flasher::suffix_type(path) is Raw <==> !ends_in(path, ".zip"@) && !ends_in(path, ".xz"@)
            && !ends_in(path, ".lzma"@),
        flasher::suffix_type(path + ".iso"@) is Raw,
        flasher::suffix_type(path + ".img"@) is Raw,
        flasher::suffix_type(path + ".raw"@) is Raw,
        flasher::suffix_type(path + ".bin"@) is Raw,
        flasher::suffix_type(path + ".xz"@) is Xz,
        flasher::suffix_type(path + ".lzma"@) is Xz,
        flasher::suffix_type(path + ".zip"@) is Zip,
{
    suffix_is_end(path, ".zip"@);
    suffix_is_end(path, ".xz"@);
    suffix_is_end(path, ".lzma"@);
    reveal_strlit(".zip");
    reveal_strlit(".xz");
    reveal_strlit(".lzma");
    reveal_strlit(".iso");
    reveal_strlit(".img");
    reveal_strlit(".raw");
    reveal_strlit(".bin");
    assert(".zip"@.is_suffix_of(path) ==> path.last() == 'p');
    assert(".xz"@.is_suffix_of(path) ==> path.last() == 'z');
    assert(".lzma"@.is_suffix_of(path) ==> path.last() == 'a');
    assert((path + ".iso"@).last() == 'o');
    assert((path + ".img"@).last() == 'g');
    assert((path + ".raw"@).last() == 'w');
    assert((path + ".bin"@).last() == 'n');
    assert((path + ".xz"@).last() == 'z');
    assert((path + ".lzma"@).last() == 'a');
    assert((path + ".zip"@).last() == 'p');
    suffix_is_end(path + ".xz"@, ".xz"@);
    suffix_is_end(path + ".lzma"@, ".lzma"@);
    suffix_is_end(path + ".zip"@, ".zip"@);
    assert(ends_in(path + ".xz"@, ".xz"@));
    assert(ends_in(path + ".lzma"@, ".lzma"@));
    assert(ends_in(path + ".zip"@, ".zip"@));
    let p = path + ".iso"@;
    assert(!".zip"@.is_suffix_of(p) && !".xz"@.is_suffix_of(p) && !".lzma"@.is_suffix_of(p));
    let p = path + ".img"@;
    assert(!".zip"@.is_suffix_of(p) && !".xz"@.is_suffix_of(p) && !".lzma"@.is_suffix_of(p));
    let p = path + ".raw"@;
    assert(!".zip"@.is_suffix_of(p) && !".xz"@.is_suffix_of(p) && !".lzma"@.is_suffix_of(p));
    let p = path + ".bin"@;
    assert(!".zip"@.is_suffix_of(p) && !".xz"@.is_suffix_of(p) && !".lzma"@.is_suffix_of(p));
}

/// A path in ASCII is plainly named, and so is one with any other characters that ends with `.zip`,
/// `.xz` or `.lzma` in any case of their letters.
pub proof fn paths_are_plainly_named(path: Seq<char>)
    ensures
        text::all_ascii(path) ==> flasher::plainly_named(path),
        ends_in(text::folded(path), ".zip"@) ==> flasher::plainly_named(path),
        ends_in(text::folded(path), ".xz"@) ==> flasher::plainly_named(path),
        ends_in(text::folded(path), ".lzma"@) ==> flasher::plainly_named(path),
{
    kind_is_told_by_the_suffix(text::folded(path));
}

/// An entry of an archive has the name of a disk image where the name in lower case ends with
/// `.iso`, `.img`, `.raw` or `.bin`.
pub proof fn image_names_are_told_by_the_suffix(name: Seq<char>)
    ensures
        archive::image_suffix(name) <==> ends_in(name, ".iso"@) || ends_in(name, ".img"@) || ends_in(
            name,
            ".raw"@,
        ) || ends_in(name, ".bin"@),
{
    suffix_is_end(name, ".iso"@);
    suffix_is_end(name, ".img"@);
    suffix_is_end(name, ".raw"@);
    suffix_is_end(name, ".bin"@);
}

/// A job works on the image and the device that it is given, under the label of the device, and is
/// verified where that is asked for. The image is flashed by its kind.
pub proof fn jobs_keep_what_they_are_given(
    iso_path: Seq<char>,
    lower_path: Seq<char>,
    dev_path: Seq<char>,
    dev_label: Seq<char>,
    verify: bool,
    platform: Platform,
)
    ensures
        ({
            let start = flasher::thread_start(
                iso_path,
                lower_path,
                dev_path,
                dev_label,
                verify,
                platform,
            );
            &&& start.0.facts.iso_path == iso_path
            &&& start.0.facts.dev_path == dev_path
            &&& start.0.facts.dev_label == dev_label
            &&& start.0.verify == verify
            &&& start.0.image is Zip <==> ends_in(lower_path, ".zip"@)
            &&& start.0.image is Xz <==> ends_in(lower_path, ".xz"@) || ends_in(
                lower_path,
                ".lzma"@,
            )
            &&& start == flasher::run_start(
                start.0.facts,
                start.0.image,
                verify,
                platform,
            )
        }),
{
    kind_is_told_by_the_suffix(lower_path);
}

/// Only what answers the question of a job moves it on. Anything else changes nothing, and nothing
/// is sent.
pub proof fn only_answers_move_a_job(run: RunView, event: EventView)
    requires
        !run.asks().answered_by(event),
    ensures
        run.next(event).0 == run,
        run.next(event).1 == Seq::<MessageView>::empty(),
{
}

/// A job starts by what it is given. A compressed image and an archive are flashed on every
/// platform; a plain image with `dd` on Linux and macOS, by a copy on Windows, and nowhere else.
pub proof fn jobs_start_by_image_and_platform(
    facts: FactsView,
    verify: bool,
    platform: Platform,
    image: ImageType,
)
    ensures
        ({
            let start = flasher::run_start(facts, image, verify, platform);
            &&& start.0.facts == facts
            &&& start.0.image == image
            &&& start.0.verify == verify
            &&& image is Raw && platform is Other <==> start.0.stage is Over
            &&& image is Raw && platform is Other ==> start.1 == seq![
                says("Unsupported platform"@),
                MessageView::Done(false, None),
            ]
            &&& !(image is Raw && platform is Other) ==> start.1 == Seq::<MessageView>::empty()
            &&& image is Xz ==> is_at(start.0, Flash::Xz(XzStage::Size)) && start.0.asks()
                == ActionView::FileSize
            &&& image is Zip ==> is_at(start.0, Flash::Zip(ZipStage::Image)) && start.0.asks()
                == ActionView::OpenImage
            &&& image is Raw && platform is Windows ==> is_at(
                start.0,
                Flash::Copy(CopyStage::Size),
            ) && start.0.asks() == ActionView::FileSize
            &&& image is Raw && platform is Linux ==> is_at(
                start.0,
                Flash::Dd(Tool::Linux, DdStage::Size),
            ) && start.0.asks() == ActionView::Output(
                seq!["stat"@, "-c"@, "%s"@, facts.iso_path],
            )
            &&& image is Raw && platform is MacOs ==> is_at(
                start.0,
                Flash::Dd(Tool::MacOs, DdStage::Size),
            ) && start.0.asks() == ActionView::Output(
                seq!["stat"@, "-f"@, "%z"@, facts.iso_path],
            )
        }),
{
}

// ---------------------------------------------------------------------------
// Flashing with dd
// ---------------------------------------------------------------------------

/// The lines on an image of `total` bytes and on the device.
pub open spec fn introduction(facts: FactsView, total: u64) -> Seq<MessageView> {
    seq![
        MessageView::Log(
            seq![
                PieceView::Text("ISO: "@ + facts.iso_path + " ("@),
                PieceView::Tenths(total, 1_048_576),
                PieceView::Text(" MB)"@),
            ],
        ),
        says("Device: "@ + facts.dev_label + " ("@ + facts.dev_path + ")"@),
    ]
}

/// The bar and the status at `done` of `total` bytes, under the given headline.
pub open spec fn advance(headline: Seq<char>, done: u64, total: u64) -> Seq<MessageView> {
    seq![
        MessageView::Progress(done, total),
        MessageView::Status(
            seq![
                PieceView::Text(headline),
                PieceView::Percent(done, total),
                PieceView::Text("% ("@),
                PieceView::Tenths(done, 1_048_576),
                PieceView::Text(" / "@),
                PieceView::Tenths(total, 1_048_576),
                PieceView::Text(" MB)"@),
            ],
        ),
    ]
}

/// Without a size that is a number and not 0, nothing is flashed. With one, the image and the device
/// are named, and it goes on with the user's number; on macOS the device is unmounted before.
pub proof fn dd_needs_a_size(run: RunView, tool: Tool, output: Option<Seq<char>>, total: u64)
    requires
        is_at(run, Flash::Dd(tool, DdStage::Size)),
        total > 0,
    ensures
        output is None || text::number(text::trimmed(output->0)) is None || text::number(
            text::trimmed(output->0),
        ) == Some(0u64) ==> fails(
            run,
            EventView::Output(output),
            seq![says("Failed to get ISO file size"@)],
        ),
        output is Some && text::number(text::trimmed(output->0)) == Some(total) && tool is Linux
            ==> goes(
            run,
            EventView::Output(output),
            Flash::Dd(tool, DdStage::User(total)),
            ActionView::Output(seq!["id"@, "-u"@]),
            introduction(run.facts, total),
        ),
        output is Some && text::number(text::trimmed(output->0)) == Some(total) && tool is MacOs
            ==> goes(
            run,
            EventView::Output(output),
            Flash::Dd(tool, DdStage::Unmount(total)),
            ActionView::Run(seq!["diskutil"@, "unmountDisk"@, run.facts.dev_path]),
            introduction(run.facts, total),
        ),
{
    let step = run.next(EventView::Output(output));
    assert(step.1 =~= introduction(run.facts, total) || !(output is Some && text::number(
        text::trimmed(output->0),
    ) == Some(total)));
    assert(fails(run, EventView::Output(output), seq![says("Failed to get ISO file size"@)]) || (
    output is Some && text::number(text::trimmed(output->0)) is Some && text::number(
        text::trimmed(output->0),
    ) != Some(0u64))) by {
        assert(step.1 =~= seq![
            says("Failed to get ISO file size"@),
            MessageView::Done(false, None),
        ] || step.0.stage is Flash);
        assert(seq![says("Failed to get ISO file size"@)].push(MessageView::Done(false, None))
            =~= seq![says("Failed to get ISO file size"@), MessageView::Done(false, None)]);
    }
}

/// The words of the command that flashes.
pub open spec fn dd_words(tool: Tool, root: bool, facts: FactsView) -> Seq<Seq<char>> {
    if tool is MacOs {
        seq![
            "dd"@,
            "if="@ + facts.iso_path,
            "of="@ + text::replaced(facts.dev_path, "/dev/disk"@, "/dev/rdisk"@),
            "bs=4m"@,
            "status=progress"@,
        ]
    } else if root {
        seq![
            "dd"@,
            "if="@ + facts.iso_path,
            "of="@ + facts.dev_path,
            "bs=4M"@,
            "status=progress"@,
            "conv=fsync"@,
            "iflag=fullblock"@,
        ]
    } else {
        seq![
            "pkexec"@,
            "dd"@,
            "if="@ + facts.iso_path,
            "of="@ + facts.dev_path,
            "bs=4M"@,
            "status=progress"@,
            "conv=fsync"@,
            "iflag=fullblock"@,
        ]
    }
}

/// The user is root where the user's number is 0. On Linux that is logged, and who is not root goes
/// through `pkexec`; on macOS who is not root is told so. The image is the input of `dd` and the
/// device its output, on macOS the raw device.
pub proof fn dd_is_started_by_the_users_rights(
    run: RunView,
    tool: Tool,
    total: u64,
    output: Option<Seq<char>>,
)
    ensures
        ({
            let root = output is Some && text::number(text::trimmed(output->0)) == Some(0u64);
            is_at(run, Flash::Dd(tool, DdStage::User(total))) ==> goes(
                run,
                EventView::Output(output),
                Flash::Dd(tool, DdStage::Start(total, root)),
                ActionView::Spawn(dd_words(tool, root, run.facts)),
                if tool is Linux {
                    seq![
                        if root {
                            says("Running as admin: true"@)
                        } else {
                            says("Running as admin: false"@)
                        },
                    ]
                } else if root {
                    seq![]
                } else {
                    seq![says("Running as root is recommended on macOS"@)]
                },
            )
        }),
        is_at(run, Flash::Dd(tool, DdStage::Unmount(total))) ==> goes(
            run,
            EventView::Ran,
            Flash::Dd(tool, DdStage::User(total)),
            ActionView::Output(seq!["id"@, "-u"@]),
            seq![says("Disk unmounted"@)],
        ),
{
    reveal_strlit("Running as admin: ");
    reveal_strlit("true");
    reveal_strlit("false");
    reveal_strlit("Running as admin: true");
    reveal_strlit("Running as admin: false");
    assert("Running as admin: "@ + "true"@ =~= "Running as admin: true"@);
    assert("Running as admin: "@ + "false"@ =~= "Running as admin: false"@);
    let root = output is Some && text::number(text::trimmed(output->0)) == Some(0u64);
    assert(dd::dd_command(tool, root, run.facts) =~= dd_words(tool, root, run.facts));
}

/// Where `dd` does not start, the job fails with the reason; on macOS the device is ejected before
/// it does.
pub proof fn dd_may_not_start(run: RunView, tool: Tool, total: u64, root: bool, e: Seq<char>)
    requires
        is_at(run, Flash::Dd(tool, DdStage::Start(total, root))),
    ensures
        goes(
            run,
            EventView::Ran,
            Flash::Dd(tool, DdStage::Lines(total)),
            ActionView::NextLine,
            seq![],
        ),
        tool is Linux && root ==> fails(
            run,
            EventView::Failed(e),
            seq![says("Failed to start dd: "@ + e)],
        ),
        tool is Linux && !root ==> fails(
            run,
            EventView::Failed(e),
            seq![says("Failed to start dd via pkexec: "@ + e)],
        ),
        tool is MacOs ==> goes(
            run,
            EventView::Failed(e),
            Flash::Dd(tool, DdStage::Eject(Closing::NotStarted)),
            ActionView::Run(seq!["diskutil"@, "eject"@, run.facts.dev_path]),
            seq![says("Failed to start dd: "@ + e)],
        ),
        fails(
            RunView {
                stage: StageView::Flash(Flash::Dd(tool, DdStage::Eject(Closing::NotStarted))),
                ..run
            },
            EventView::Ran,
            seq![],
        ),
{
}

/// Of a line that `dd` writes, a blank one is passed over. Any other goes to the log without the
/// white space around it; where it holds a count of bytes, that is shown first.
pub proof fn dd_lines_are_shown(run: RunView, tool: Tool, total: u64, line: Seq<char>)
    requires
        is_at(run, Flash::Dd(tool, DdStage::Lines(total))),
    ensures
        ({
            let t = text::trimmed(line);
            goes(
                run,
                EventView::Line(false, Some(line)),
                Flash::Dd(tool, DdStage::Lines(total)),
                ActionView::NextLine,
                if t.len() == 0 {
                    seq![]
                } else if progress::dd_progress(t) is Some {
                    advance("Flashing... "@, progress::dd_progress(t)->0, total).push(says(t))
                } else {
                    seq![says(t)]
                },
            )
        }),
{
    let t = text::trimmed(line);
    if t.len() > 0 && progress::dd_progress(t) is Some {
        assert(run.next(EventView::Line(false, Some(line))).1 =~= advance(
            "Flashing... "@,
            progress::dd_progress(t)->0,
            total,
        ).push(says(t)));
    }
}

/// A wish to cancel that is heard with a line kills `dd`, whatever the line is. Then the job fails;
/// on macOS the device is ejected first.
pub proof fn cancelled_dd_is_killed(
    run: RunView,
    tool: Tool,
    total: u64,
    line: Option<Seq<char>>,
)
    requires
        is_at(run, Flash::Dd(tool, DdStage::Lines(total))),
    ensures
        goes(
            run,
            EventView::Line(true, line),
            Flash::Dd(tool, DdStage::Kill),
            ActionView::Kill,
            seq![],
        ),
        ({
            let killed = run.next(EventView::Line(true, line)).0;
            &&& tool is Linux ==> fails(killed, EventView::Ran, seq![says("Cancelled by user"@)])
            &&& tool is MacOs ==> goes(
                killed,
                EventView::Ran,
                Flash::Dd(tool, DdStage::Eject(Closing::Cancelled)),
                ActionView::Run(seq!["diskutil"@, "eject"@, run.facts.dev_path]),
                seq![],
            ) && fails(
                killed.next(EventView::Ran).0,
                EventView::Ran,
                seq![says("Cancelled by user"@)],
            )
        }),
{
}

/// When the lines of `dd` end, or one of them cannot be read, its exit is waited for. The flash ends
/// as `dd` did: with success where it exited with success, and with a failure where it did not; on
/// Linux at once, on macOS when the device is ejected.
pub proof fn flash_ends_as_dd_does(run: RunView, tool: Tool, total: u64, ok: bool)
    requires
        is_at(run, Flash::Dd(tool, DdStage::Lines(total))),
    ensures
        goes(run, EventView::End, Flash::Dd(tool, DdStage::Wait), ActionView::Wait, seq![]),
        goes(
            run,
            EventView::Line(false, None),
            Flash::Dd(tool, DdStage::Wait),
            ActionView::Wait,
            seq![],
        ),
        ({
            let waiting = run.next(EventView::End).0;
            let exited = EventView::Exited(ok);
            &&& tool is Linux && ok ==> flashes(waiting, exited, seq![])
            &&& tool is Linux && !ok ==> fails(waiting, exited, seq![])
            &&& tool is MacOs ==> goes(
                waiting,
                exited,
                Flash::Dd(tool, DdStage::Eject(Closing::Exited(ok))),
                ActionView::Run(seq!["diskutil"@, "eject"@, run.facts.dev_path]),
                seq![],
            )
            &&& tool is MacOs && ok ==> flashes(
                waiting.next(exited).0,
                EventView::Ran,
                seq![],
            )
            &&& tool is MacOs && !ok ==> fails(waiting.next(exited).0, EventView::Ran, seq![])
        }),
{
}

/// The answers of a run of `dd` without a fault that ends with `ok`.
pub open spec fn dd_answers(mac: bool, total: u64, user: u64, lines: Seq<Seq<char>>, ok: bool) -> Seq<
    EventView,
> {
    let opening = if mac {
        seq![written(total), EventView::Ran, written(user), EventView::Ran]
    } else {
        seq![written(total), written(user), EventView::Ran]
    };
    let closing = if mac {
        seq![EventView::End, EventView::Exited(ok), EventView::Ran]
    } else {
        seq![EventView::End, EventView::Exited(ok)]
    };
    opening + lines.map_values(|l: Seq<char>| EventView::Line(false, Some(l))) + closing
}

proof fn lines_pass(run: RunView, tool: Tool, total: u64, lines: Seq<Seq<char>>)
    requires
        is_at(run, Flash::Dd(tool, DdStage::Lines(total))),
    ensures
        after(run, lines.map_values(|l: Seq<char>| EventView::Line(false, Some(l)))).0 == run,
    decreases lines.len(),
{
    let events = lines.map_values(|l: Seq<char>| EventView::Line(false, Some(l)));
    if lines.len() > 0 {
        lines_pass(run, tool, total, lines.drop_last());
        assert(events.drop_last() =~= lines.drop_last().map_values(
            |l: Seq<char>| EventView::Line(false, Some(l)),
        ));
        assert(events.last() == EventView::Line(false, Some(lines.last())));
    }
}

proof fn steps_of_two(run: RunView, a: EventView, b: EventView)
    ensures
        after(run, seq![a, b]).0 == run.next(a).0.next(b).0,
        after(run, seq![a, b]).1 == run.next(a).1 + run.next(a).0.next(b).1,
{
    reveal_with_fuel(after, 3);
    assert(seq![a, b].drop_last() =~= seq![a]);
    assert(seq![a].drop_last() =~= seq![]);
    assert(Seq::<MessageView>::empty() + run.next(a).1 =~= run.next(a).1);
}

/// The answers of a run of `dd` up to its first line.
spec fn dd_opening(mac: bool, total: u64, user: u64) -> Seq<EventView> {
    if mac {
        seq![written(total), EventView::Ran, written(user), EventView::Ran]
    } else {
        seq![written(total), written(user), EventView::Ran]
    }
}

/// The answers of a run of `dd` behind its last line.
spec fn dd_closing(mac: bool, ok: bool) -> Seq<EventView> {
    if mac {
        seq![EventView::End, EventView::Exited(ok), EventView::Ran]
    } else {
        seq![EventView::End, EventView::Exited(ok)]
    }
}

spec fn tool_of(mac: bool) -> Tool {
    if mac {
        Tool::MacOs
    } else {
        Tool::Linux
    }
}

proof fn one_step(run: RunView, a: EventView)
    ensures
        after(run, seq![a]) == run.next(a),
{
    reveal_with_fuel(after, 2);
    assert(seq![a].drop_last() =~= seq![]);
    assert(Seq::<MessageView>::empty() + run.next(a).1 =~= run.next(a).1);
}

proof fn dd_opens(start: RunView, mac: bool, total: u64, user: u64)
    requires
        total > 0,
        is_at(start, Flash::Dd(tool_of(mac), DdStage::Size)),
    ensures
        after(start, dd_opening(mac, total, user)).0 == (RunView {
            stage: StageView::Flash(Flash::Dd(tool_of(mac), DdStage::Lines(total))),
            ..start
        }),
{
    let opening = dd_opening(mac, total, user);
    dd::command_output_is_read(total);
    if mac {
        let half = seq![written(total), EventView::Ran];
        let rest = seq![written(user), EventView::Ran];
        assert(opening =~= half + rest);
        after_concat(start, half, rest);
        steps_of_two(start, written(total), EventView::Ran);
        steps_of_two(after(start, half).0, written(user), EventView::Ran);
    } else {
        let half = seq![written(total), written(user)];
        let rest = seq![EventView::Ran];
        assert(opening =~= half + rest);
        after_concat(start, half, rest);
        steps_of_two(start, written(total), written(user));
        one_step(after(start, half).0, EventView::Ran);
    }
}

proof fn dd_closes(run: RunView, mac: bool, total: u64, ok: bool)
    requires
        is_at(run, Flash::Dd(tool_of(mac), DdStage::Lines(total))),
    ensures
        ({
            let end = after(run, dd_closing(mac, ok));
            &&& ok ==> end.0 == (RunView { stage: StageView::Flashed, ..run })
            &&& !ok ==> end.0.stage is Over && end.1.len() > 0 && end.1.last()
                == MessageView::Done(false, None)
        }),
{
    let two = seq![EventView::End, EventView::Exited(ok)];
    flash_ends_as_dd_does(run, tool_of(mac), total, ok);
    steps_of_two(run, EventView::End, EventView::Exited(ok));
    if mac {
        let one = seq![EventView::Ran];
        assert(dd_closing(mac, ok) =~= two + one);
        after_concat(run, two, one);
        one_step(after(run, two).0, EventView::Ran);
    }
}

/// A flash with `dd` that nothing disturbs, on Linux and on macOS, ends as `dd` does: where `dd`
/// exits with success, so does the flash, and if it is neither to be verified nor cancelled by then,
/// the last message says that it is done; where `dd` exits with a failure, the last message says
/// that it failed.
pub proof fn dd_reports_its_exit(
    facts: FactsView,
    verify: bool,
    mac: bool,
    total: u64,
    user: u64,
    lines: Seq<Seq<char>>,
    ok: bool,
)
    requires
        total > 0,
    ensures
        ({
            let platform = if mac {
                Platform::MacOs
            } else {
                Platform::Linux
            };
            let start = flasher::run_start(facts, ImageType::Raw, verify, platform).0;
            let end = after(start, dd_answers(mac, total, user, lines, ok));
            &&& ok ==> end.0.stage is Flashed && laws::no_success(end.1)
            &&& ok ==> end.0.next(EventView::Polled(true)).1 == seq![
                MessageView::Done(false, None),
            ]
            &&& ok && !verify ==> end.0.next(EventView::Polled(false)).0.stage is Over
                && end.0.next(EventView::Polled(false)).1 == seq![MessageView::Done(true, None)]
            &&& !ok ==> end.0.stage is Over && end.1.len() > 0 && end.1.last()
                == MessageView::Done(false, None)
        }),
{
    let platform = if mac {
        Platform::MacOs
    } else {
        Platform::Linux
    };
    let start = flasher::run_start(facts, ImageType::Raw, verify, platform).0;
    let shown = lines.map_values(|l: Seq<char>| EventView::Line(false, Some(l)));
    let opening = dd_opening(mac, total, user);
    let closing = dd_closing(mac, ok);
    let all = dd_answers(mac, total, user, lines, ok);
    dd_opens(start, mac, total, user);
    let first = after(start, opening).0;
    lines_pass(first, tool_of(mac), total, lines);
    after_concat(start, opening, shown);
    dd_closes(first, mac, total, ok);
    after_concat(start, opening + shown, closing);
    assert(all =~= opening + shown + closing);
    let end = after(start, all);
    laws::job_ends_once(start, all);
    if ok {
        assert forall|i: int| 0 <= i < end.1.len() implies !laws::reports_success(
            #[trigger] end.1[i],
        ) by {
            assert(!end.1[i].ends_job());
        }
    } else {
        assert(end.1.last() == after(first, closing).1.last());
    }
}

// ---------------------------------------------------------------------------
// Copying
// ---------------------------------------------------------------------------

/// The job with a copy at this stage: of the image itself, or of an entry of an archive.
pub open spec fn copy_flash(source: Source, st: CopyStage) -> Flash {
    if source is Image {
        Flash::Copy(st)
    } else {
        Flash::Zip(ZipStage::Copy(st))
    }
}

/// The job where its copy is at this stage.
pub open spec fn copying(run: RunView, source: Source, st: CopyStage) -> RunView {
    RunView { stage: StageView::Flash(copy_flash(source, st)), ..run }
}

/// On Windows, a plain image without a size that is not 0 is not flashed. Of one with a size, the
/// image and the device are named, and both are opened; where one cannot be, the job fails with the
/// reason.
pub proof fn copy_opens_image_and_device(
    run: RunView,
    size: Option<u64>,
    total: u64,
    e: Seq<char>,
)
    ensures
        size is None || size == Some(0u64) ==> fails(
            copying(run, Source::Image, CopyStage::Size),
            EventView::Size(size),
            seq![says("Failed to get ISO file size"@)],
        ),
        total > 0 ==> goes(
            copying(run, Source::Image, CopyStage::Size),
            EventView::Size(Some(total)),
            Flash::Copy(CopyStage::Image(total)),
            ActionView::OpenImage,
            introduction(run.facts, total),
        ),
        goes(
            copying(run, Source::Image, CopyStage::Image(total)),
            EventView::Ran,
            Flash::Copy(CopyStage::Device(total)),
            ActionView::OpenDevice,
            seq![],
        ),
        fails(
            copying(run, Source::Image, CopyStage::Image(total)),
            EventView::Failed(e),
            seq![says("Failed to open ISO: "@ + e)],
        ),
        goes(
            copying(run, Source::Image, CopyStage::Device(total)),
            EventView::Ran,
            Flash::Copy(
                CopyStage::Poll(Copying { source: Source::Image, total, written: 0 }),
            ),
            ActionView::Poll,
            seq![],
        ),
        fails(
            copying(run, Source::Image, CopyStage::Device(total)),
            EventView::Failed(e),
            seq![says("Failed to open device (run as admin): "@ + e)],
        ),
{
    assert(copying(run, Source::Image, CopyStage::Size).next(EventView::Size(Some(total))).1
        =~= introduction(run.facts, total) || total == 0);
}

/// Before each piece the copy looks whether the user wants to cancel, and then it fails. A piece is
/// read of up to 4 MiB of a plain image and up to 1 MiB of an entry; at the end of the source the
/// image is flashed, and of an entry the number of its bytes is logged. What was read is written,
/// and counted; the count is shown, but for an entry whose size is not known. Where a read or a
/// write fails, the job fails with the reason.
pub proof fn copy_goes_piece_by_piece(run: RunView, c: Copying, n: usize, e: Seq<char>)
    ensures
        fails(
            copying(run, c.source, CopyStage::Poll(c)),
            EventView::Polled(true),
            seq![says("Cancelled by user"@)],
        ),
        goes(
            copying(run, c.source, CopyStage::Poll(c)),
            EventView::Polled(false),
            copy_flash(c.source, CopyStage::Read(c)),
            ActionView::Read(
                if c.source is Image {
                    4_194_304
                } else {
                    1_048_576
                },
            ),
            seq![],
        ),
        flashes(
            copying(run, c.source, CopyStage::Read(c)),
            EventView::Read(0),
            if c.source is Image {
                seq![]
            } else {
                seq![
                    says(
                        "Extraction done. "@ + text::decimal(c.written as nat)
                            + " bytes written."@,
                    ),
                ]
            },
        ),
        0 < n && n <= 1_048_576 || 0 < n && n <= 4_194_304 && c.source is Image ==> goes(
            copying(run, c.source, CopyStage::Read(c)),
            EventView::Read(n),
            copy_flash(c.source, CopyStage::Write(c, n)),
            ActionView::Write(n),
            seq![],
        ),
        c.source is Image ==> fails(
            copying(run, c.source, CopyStage::Read(c)),
            EventView::Failed(e),
            seq![says("Read error: "@ + e)],
        ),
        c.source is Entry ==> fails(
            copying(run, c.source, CopyStage::Read(c)),
            EventView::Failed(e),
            seq![says("Extraction error: "@ + e)],
        ),
        fails(
            copying(run, c.source, CopyStage::Write(c, n)),
            EventView::Failed(e),
            seq![says("Write error: "@ + e)],
        ),
        c.written + n <= 0xffff_ffff_ffff_ffff ==> goes(
            copying(run, c.source, CopyStage::Write(c, n)),
            EventView::Ran,
            copy_flash(
                c.source,
                CopyStage::Poll(
                    Copying {
                        source: c.source,
                        total: c.total,
                        written: (c.written + n) as u64,
                    },
                ),
            ),
            ActionView::Poll,
            if c.source is Image {
                advance("Flashing... "@, (c.written + n) as u64, c.total)
            } else if c.total > 0 {
                advance("Extracting... "@, (c.written + n) as u64, c.total)
            } else {
                seq![]
            },
        ),
{
    let step = copying(run, c.source, CopyStage::Write(c, n)).next(EventView::Ran);
    assert(step.1 =~= if c.source is Image {
        advance("Flashing... "@, (c.written + n) as u64, c.total)
    } else if c.total > 0 {
        advance("Extracting... "@, (c.written + n) as u64, c.total)
    } else {
        seq![]
    });
}

// ---------------------------------------------------------------------------
// Decompressing
// ---------------------------------------------------------------------------

/// The job where its decompression is at this stage.
pub open spec fn unpacking(run: RunView, st: XzStage) -> RunView {
    RunView { stage: StageView::Flash(Flash::Xz(st)), ..run }
}

/// A compressed image is named with its size, 0 where that is not known. It and the device are
/// opened, and it is decompressed. The flash succeeds exactly where all of that does; else the job
/// fails with the reason, which is the user's wish where there was one during the decompression.
pub proof fn compressed_image_is_decompressed(
    run: RunView,
    size: Option<u64>,
    total: u64,
    e: Seq<char>,
)
    ensures
        ({
            let known = if size is Some {
                size->0
            } else {
                0
            };
            goes(
                unpacking(run, XzStage::Size),
                EventView::Size(size),
                Flash::Xz(XzStage::Image(known)),
                ActionView::OpenImage,
                seq![
                    MessageView::Log(
                        seq![
                            PieceView::Text("XZ: "@ + run.facts.iso_path + " ("@),
                            PieceView::Tenths(known, 1_048_576),
                            PieceView::Text(" MB compressed)"@),
                        ],
                    ),
                ],
            )
        }),
        goes(
            unpacking(run, XzStage::Image(total)),
            EventView::Ran,
            Flash::Xz(XzStage::Device(total)),
            ActionView::OpenDevice,
            seq![],
        ),
        fails(
            unpacking(run, XzStage::Image(total)),
            EventView::Failed(e),
            seq![says("Failed to open file: "@ + e)],
        ),
        goes(
            unpacking(run, XzStage::Device(total)),
            EventView::Ran,
            Flash::Xz(XzStage::Decompress(total)),
            ActionView::Decompress(total),
            seq![],
        ),
        fails(
            unpacking(run, XzStage::Device(total)),
            EventView::Failed(e),
            seq![says("Failed to open device: "@ + e)],
        ),
        flashes(
            unpacking(run, XzStage::Decompress(total)),
            EventView::Ran,
            seq![says("XZ decompression done."@)],
        ),
        fails(
            unpacking(run, XzStage::Decompress(total)),
            EventView::Stopped(true, e),
            seq![says("Cancelled by user"@)],
        ),
        fails(
            unpacking(run, XzStage::Decompress(total)),
            EventView::Stopped(false, e),
            seq![says("Decompression error: "@ + e)],
        ),
{
}

/// A decompression of a file whose size is known shows what part of that was read; of one whose
/// size is not known it shows nothing. Only the user's wish to cancel refuses a read.
pub proof fn decompression_shows_what_was_read(p: ReadProgress, n: usize)
    requires
        p.read_so_far + n <= 0xffff_ffff_ffff_ffff,
    ensures
        p.advanced(n).total == p.total,
        p.advanced(n).read_so_far == p.read_so_far + n,
        p.total == 0 <==> p.report() is None,
        p.total > 0 ==> p.report() == Some(
            MessageView::Status(
                seq![
                    PieceView::Text("Decompressing... "@),
                    PieceView::Capped(p.read_so_far, p.total),
                    PieceView::Text("%"@),
                ],
            ),
        ),
        xz::read_refusal(true) == Some("cancelled"@),
        xz::read_refusal(false) is None,
{
}

// ---------------------------------------------------------------------------
// Extracting
// ---------------------------------------------------------------------------

/// The job where its extraction is at this stage.
pub open spec fn extracting(run: RunView, st: ZipStage) -> RunView {
    RunView { stage: StageView::Flash(Flash::Zip(st)), ..run }
}

/// An archive is opened and its entries are listed; an empty one is not flashed. The chosen entry is
/// opened and named with its size, then the device is opened, and the entry is copied from its
/// start. Where something cannot be opened, the job fails with the reason.
pub proof fn archive_is_extracted(
    run: RunView,
    count: usize,
    entries: Seq<Option<ZipEntryView>>,
    i: usize,
    entry: ZipEntryView,
    e: Seq<char>,
)
    ensures
        goes(
            extracting(run, ZipStage::Image),
            EventView::Ran,
            Flash::Zip(ZipStage::Archive),
            ActionView::OpenArchive,
            seq![],
        ),
        fails(
            extracting(run, ZipStage::Image),
            EventView::Failed(e),
            seq![says("Failed to open ZIP: "@ + e)],
        ),
        fails(
            extracting(run, ZipStage::Archive),
            EventView::Counted(0),
            seq![says("ZIP archive is empty"@)],
        ),
        count > 0 ==> goes(
            extracting(run, ZipStage::Archive),
            EventView::Counted(count),
            Flash::Zip(ZipStage::List),
            ActionView::ListEntries,
            seq![],
        ),
        fails(
            extracting(run, ZipStage::Archive),
            EventView::Failed(e),
            seq![says("Failed to read ZIP archive: "@ + e)],
        ),
        goes(
            extracting(run, ZipStage::List),
            EventView::Entries(entries),
            Flash::Zip(ZipStage::Entry(archive::best(archive::candidates(entries)) as usize)),
            ActionView::OpenEntry(archive::best(archive::candidates(entries)) as usize),
            seq![],
        ),
        goes(
            extracting(run, ZipStage::Entry(i)),
            EventView::Entry(entry),
            Flash::Zip(ZipStage::Device(entry.size)),
            ActionView::OpenDevice,
            seq![
                MessageView::Log(
                    seq![
                        PieceView::Text("Extracting from ZIP: "@ + entry.name + " ("@),
                        PieceView::Full(entry.size, 1_048_576),
                        PieceView::Text(" MB)"@),
                    ],
                ),
            ],
        ),
        fails(
            extracting(run, ZipStage::Entry(i)),
            EventView::Failed(e),
            seq![says("Failed to read ZIP entry: "@ + e)],
        ),
        goes(
            extracting(run, ZipStage::Device(entry.size)),
            EventView::Ran,
            Flash::Zip(
                ZipStage::Copy(
                    CopyStage::Poll(
                        Copying { source: Source::Entry, total: entry.size, written: 0 },
                    ),
                ),
            ),
            ActionView::Poll,
            seq![],
        ),
        fails(
            extracting(run, ZipStage::Device(entry.size)),
            EventView::Failed(e),
            seq![says("Failed to open device: "@ + e)],
        ),
{
}

/// The size of the candidate at `i`; 0 where there is none.
pub open spec fn size_at(c: Seq<Option<Candidate>>, i: int) -> u64 {
    if 0 <= i < c.len() && c[i] is Some {
        c[i]->0.size
    } else {
        0
    }
}

/// The choice once a candidate more is there, where it was `b` before.
spec fn choice_with(c: Seq<Option<Candidate>>, b: int, x: Option<Candidate>) -> int {
    if x is Some && x->0.size > size_at(c, b) && (x->0.image || b == 0) {
        c.len() as int
    } else {
        b
    }
}

proof fn choice_grows(c: Seq<Option<Candidate>>, b: int, x: Option<Candidate>)
    requires
        archive::is_best(c, b),
    ensures
        archive::is_best(c.push(x), choice_with(c, b, x)),
{
    let d = c.push(x);
    let n = c.len() as int;
    let r = choice_with(c, b, x);
    assert forall|k: int| 0 <= k < n implies d[k] == c[k] by {}
    if n > 0 {
        assert(archive::first_size(d) == archive::first_size(c));
        assert forall|k: int| 1 <= k < n implies archive::outgrows_first(d, k)
            == archive::outgrows_first(c, k) by {}
    }
    if n == 0 {
        assert(b == 0) by {
            if b != 0 {
                let j = choose|j: int| #[trigger] archive::leads(c, j) && archive::tops(c, j, b);
                assert(archive::leads(c, j));
            }
        }
        assert(r == 0);
    } else if exists|j: int| #[trigger] archive::leads(c, j) && archive::tops(c, j, b) {
        let j = choose|j: int| #[trigger] archive::leads(c, j) && archive::tops(c, j, b);
        assert(archive::can_follow(c, j, b));
        assert(b >= 1);
        assert(archive::leads(d, j));
        assert(size_at(c, b) == c[b]->0.size);
        assert forall|i: int| i < n implies archive::can_follow(d, j, i) == archive::can_follow(
            c,
            j,
            i,
        ) by {}
        assert(c[b]->0.size >= c[j]->0.size) by {
            assert(archive::can_follow(c, j, j));
        }
        if archive::can_follow(d, j, n) {
            assert(x is Some && x->0.image);
        }
        assert(archive::tops(d, j, r)) by {
            assert(archive::can_follow(d, j, r));
            assert forall|i: int| #[trigger] archive::can_follow(d, j, i) implies d[i]->0.size
                <= d[r]->0.size && (i < r ==> d[i]->0.size < d[r]->0.size) by {
                if i < n {
                    assert(archive::can_follow(c, j, i));
                    assert(d[i] == c[i]);
                } else {
                    assert(i == n);
                }
            }
        }
        assert(archive::leads(d, j) && archive::tops(d, j, r));
    } else {
        assert(b == 0);
        assert(size_at(c, 0) == archive::first_size(c));
        if r == n {
            assert(archive::outgrows_first(d, n));
            assert(archive::leads(d, n));
            assert(archive::tops(d, n, n)) by {
                assert(archive::can_follow(d, n, n));
            }
            assert(archive::leads(d, n) && archive::tops(d, n, r));
        } else {
            assert(!archive::outgrows_first(d, n));
        }
    }
}

proof fn choice_exists(c: Seq<Option<Candidate>>)
    ensures
        archive::is_best(c, archive::best(c)),
    decreases c.len(),
{
    if c.len() == 0 {
        assert(archive::is_best(c, 0));
    } else {
        let d = c.drop_last();
        choice_exists(d);
        choice_grows(d, archive::best(d), c.last());
        assert(d.push(c.last()) =~= c);
    }
}

/// Entry by entry the choice is kept, unless the next entry is larger than the chosen one and either
/// has the name of a disk image, or the choice is still the first entry. An entry that cannot be
/// read is never chosen in the place of another.
pub proof fn one_more_entry_is_weighed(c: Seq<Option<Candidate>>, x: Candidate)
    ensures
        archive::best(Seq::empty()) == 0,
        archive::best(c.push(None)) == archive::best(c),
        archive::best(c.push(Some(x))) == if x.size > size_at(c, archive::best(c)) && (x.image
            || archive::best(c) == 0) {
            c.len() as int
        } else {
            archive::best(c)
        },
{
    let none = Seq::<Option<Candidate>>::empty();
    choice_exists(none);
    assert(archive::is_best(none, 0));
    archive::best_is_unique(none, archive::best(none), 0);
    choice_exists(c);
    choice_grows(c, archive::best(c), None);
    choice_grows(c, archive::best(c), Some(x));
    choice_exists(c.push(None));
    choice_exists(c.push(Some(x)));
    archive::best_is_unique(
        c.push(None),
        archive::best(c.push(None)),
        choice_with(c, archive::best(c), None),
    );
    archive::best_is_unique(
        c.push(Some(x)),
        archive::best(c.push(Some(x))),
        choice_with(c, archive::best(c), Some(x)),
    );
}

/// An entry with the name of a disk image that is larger than every other entry is the one that is
/// flashed.
pub proof fn largest_image_is_chosen(c: Seq<Option<Candidate>>, k: int)
    requires
        0 <= k < c.len(),
        c[k] is Some,
        c[k]->0.image,
        forall|i: int| 0 <= i < c.len() && i != k ==> size_at(c, i) < size_at(c, k),
    ensures
        archive::best(c) == k,
{
    choice_exists(c);
    let b = archive::best(c);
    if b != k {
        if k == 0 {
            assert forall|i: int| 1 <= i < c.len() implies !archive::outgrows_first(c, i) by {
                assert(size_at(c, i) < size_at(c, 0));
            }
            assert(archive::is_best(c, 0));
            archive::best_is_unique(c, b, 0);
        } else {
            assert(size_at(c, 0) < size_at(c, k));
            assert(archive::outgrows_first(c, k));
            let j = choose|j: int| #[trigger] archive::leads(c, j) && archive::tops(c, j, b);
            assert(j <= k) by {
                if j > k {
                    assert(!archive::outgrows_first(c, k));
                }
            }
            if j < k {
                assert(size_at(c, j) < size_at(c, k));
            }
            assert(archive::can_follow(c, j, k));
            assert(archive::can_follow(c, j, b));
            assert(size_at(c, b) < size_at(c, k));
        }
    }
}

/// What an entry offers is its size, and whether its name in lower case is that of a disk image.
pub proof fn candidates_are_names_and_sizes(entries: Seq<Option<ZipEntryView>>, i: int)
    requires
        0 <= i < entries.len(),
    ensures
        archive::candidates(entries).len() == entries.len(),
        entries[i] is None ==> archive::candidates(entries)[i] is None,
        entries[i] is Some ==> archive::candidates(entries)[i] is Some,
        entries[i] is Some ==> archive::candidates(entries)[i]->0.size == entries[i]->0.size,
        entries[i] is Some ==> archive::candidates(entries)[i]->0.image == archive::image_suffix(
            text::lowercase(entries[i]->0.name),
        ),
        archive::folded_candidates(entries).len() == entries.len(),
        entries[i] is None ==> archive::folded_candidates(entries)[i] is None,
        entries[i] is Some ==> archive::folded_candidates(entries)[i] is Some,
        entries[i] is Some ==> archive::folded_candidates(entries)[i]->0.size
            == entries[i]->0.size,
        entries[i] is Some ==> archive::folded_candidates(entries)[i]->0.image
            == archive::image_suffix(text::folded(entries[i]->0.name)),
        (forall|k: int|
            0 <= k < entries.len() && (#[trigger] entries[k]) is Some ==> text::all_ascii(
                entries[k]->0.name,
            )) ==> archive::plain_names(entries),
{
}

// ---------------------------------------------------------------------------
// Behind the flash
// ---------------------------------------------------------------------------

/// The image is flashed: a wish to cancel still makes the job fail. Else the job is done where it is
/// not to be verified, and where the image is compressed, for then its size is not known. An archive
/// is verified by the size of its first entry, a plain image by that of its file; without a size the
/// job is done unverified.
pub proof fn flashed_image_is_verified_on_request(run: RunView, cancelled: bool, size: Option<u64>)
    ensures
        ({
            let flashed = RunView { stage: StageView::Flashed, ..run };
            let asked = flashed.next(EventView::Polled(cancelled));
            &&& flashed.asks() == ActionView::Poll
            &&& cancelled ==> asked.0.stage is Over && asked.1 == seq![
                MessageView::Done(false, None),
            ]
            &&& !cancelled && !run.verify ==> asked.0.stage is Over && asked.1 == seq![
                MessageView::Done(true, None),
            ]
            &&& !cancelled && run.verify && run.image is Xz ==> asked.0.stage is Over && asked.1
                == seq![
                says("Verification skipped: unknown uncompressed size"@),
                MessageView::Done(true, None),
            ]
            &&& !cancelled && run.verify && run.image is Zip ==> asked.0.stage is Size
                && asked.0.asks() == ActionView::FirstEntrySize && asked.1 == Seq::<
                MessageView,
            >::empty()
            &&& !cancelled && run.verify && run.image is Raw ==> asked.0.stage is Size
                && asked.0.asks() == ActionView::FileSize && asked.1 == Seq::<MessageView>::empty()
        }),
        ({
            let sized = RunView { stage: StageView::Size, ..run };
            let step = sized.next(EventView::Size(size));
            &&& size is None ==> step.0.stage is Over && step.1 == seq![
                says("Verification skipped: unknown uncompressed size"@),
                MessageView::Done(true, None),
            ]
            &&& size == Some(0u64) ==> step.0.stage is Over && step.1 == seq![
                says("Cannot verify: unknown size"@),
                MessageView::VerifyDone(false, "Verification skipped (unknown size)"@),
            ]
        }),
{
}

/// No answer is refused but one that makes a count of bytes leave 64 bits, or the bytes of a hash
/// the numbers that a hasher can count.
pub proof fn answers_are_taken(run: RunView, event: EventView)
    requires
        !run.room(event),
    ensures
        event is Read || event is Chunk,
        event matches EventView::Read(n) ==> exists|c: Copying|
            #![trigger c.written]
            c.written + n > 0xffff_ffff_ffff_ffff && (is_at(run, Flash::Copy(CopyStage::Read(c)))
                || is_at(run, Flash::Zip(ZipStage::Copy(CopyStage::Read(c))))),
        event matches EventView::Chunk(c) ==> match run.stage {
            StageView::Verify(VerifyView::ReadSource(h)) => h.data.len() + c.len()
                > 2_305_843_009_213_693_951,
            StageView::Verify(VerifyView::ReadDevice(h, _)) => h.data.len() + c.len()
                > 2_305_843_009_213_693_951,
            _ => false,
        },
{
    if event is Read {
        match run.stage {
            StageView::Flash(Flash::Copy(CopyStage::Read(c))) => {
                assert(c.written + event->Read_0 > 0xffff_ffff_ffff_ffff);
            },
            StageView::Flash(Flash::Zip(ZipStage::Copy(CopyStage::Read(c)))) => {
                assert(c.written + event->Read_0 > 0xffff_ffff_ffff_ffff);
            },
            _ => {},
        }
    }
}

} // verus!
