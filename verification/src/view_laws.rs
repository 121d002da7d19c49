//! Contracts speak of the contents of values. Here is what these are: the fields, one by one, with
//! texts and lists as sequences.
use vstd::prelude::*;
use vstd::string::*;

use crate::app;
use crate::app::{FlintApp, Order};
use crate::config;
use crate::config::{DesktopStep, DesktopStepView, ThemeAsk, ThemeAskView};
use crate::devices;
use crate::devices::{
    DetectStage, DetectStageView, Detection, Found, LsblkDevice, Reply, ReplyView, Size, SizeView,
};
use crate::flasher::{FlashRun, Stage, StageView};
use crate::icon;
use crate::icon::Picture;
use crate::job;
use crate::job::{Action, ActionView, Event, EventView, Facts, ZipEntry};
use crate::message;
use crate::message::{Message, MessageView, Piece, PieceView, UsbDevice};
use crate::text;
use crate::verification::{VerifyRun, VerifyView};

verus! {

/// A text that may be missing, as a sequence of characters.
pub open spec fn text_of(t: Option<String>) -> Option<Seq<char>> {
    if t is Some {
        Some(t->0@)
    } else {
        None
    }
}

/// The contents of a list are those of its items, in their order.
pub proof fn lists_hold_their_items(
    texts: Seq<&str>,
    words: Seq<String>,
    pieces: Seq<Piece>,
    messages: Seq<Message>,
    lines: Seq<Vec<Piece>>,
    i: int,
)
    ensures
        text::texts(texts).len() == texts.len(),
        job::words(words).len() == words.len(),
        message::line_view(pieces).len() == pieces.len(),
        message::message_views(messages).len() == messages.len(),
        app::log_views(lines).len() == lines.len(),
        0 <= i < texts.len() ==> text::texts(texts)[i] == texts[i]@,
        0 <= i < words.len() ==> job::words(words)[i] == words[i]@,
        0 <= i < pieces.len() ==> message::line_view(pieces)[i] == pieces[i]@,
        0 <= i < messages.len() ==> message::message_views(messages)[i] == messages[i]@,
        0 <= i < lines.len() ==> app::log_views(lines)[i] == message::line_view(lines[i]@),
{
}

/// The same of lists of drives, devices, entries, pictures and steps.
pub proof fn more_lists_hold_their_items(
    drives: Seq<LsblkDevice>,
    found: Seq<Found>,
    devices: Seq<UsbDevice>,
    entries: Seq<Option<ZipEntry>>,
    pictures: Seq<Picture>,
    steps: Seq<DesktopStep>,
    i: int,
)
    ensures
        devices::lsblk_views(drives).len() == drives.len(),
        devices::found_views(found).len() == found.len(),
        message::device_views(devices).len() == devices.len(),
        job::entry_views(entries).len() == entries.len(),
        icon::picture_views(pictures).len() == pictures.len(),
        config::step_views(steps).len() == steps.len(),
        0 <= i < drives.len() ==> devices::lsblk_views(drives)[i] == drives[i]@,
        0 <= i < found.len() ==> devices::found_views(found)[i] == found[i]@,
        0 <= i < devices.len() ==> message::device_views(devices)[i] == devices[i]@,
        0 <= i < entries.len() && entries[i] is Some ==> job::entry_views(entries)[i] == Some(
            entries[i]->0@,
        ),
        0 <= i < entries.len() && entries[i] is None ==> job::entry_views(entries)[i] is None,
        0 <= i < pictures.len() ==> icon::picture_views(pictures)[i] == pictures[i]@,
        0 <= i < steps.len() ==> config::step_views(steps)[i] == steps[i]@,
{
}

/// What is known of drives, devices, images and orders.
pub proof fn records_hold_their_fields(
    drive: LsblkDevice,
    found: Found,
    device: UsbDevice,
    entry: ZipEntry,
    facts: Facts,
    order: Order,
    picture: Picture,
)
    ensures
        drive@.name == drive.name@,
        drive@.size == drive.size@,
        drive@.model == text_of(drive.model),
        drive@.tran == text_of(drive.tran),
        found@.path == found.path@,
        found@.label == message::line_view(found.label@),
        found@.size == found.size@,
        device@.path == device.path@,
        device@.label == device.label@,
        device@.size == device.size,
        entry@.name == entry.name@,
        entry@.size == entry.size,
        facts@.iso_path == facts.iso_path@,
        facts@.dev_path == facts.dev_path@,
        facts@.dev_label == facts.dev_label@,
        order@.iso_path == order.iso_path@,
        order@.dev_path == order.dev_path@,
        order@.dev_label == order.dev_label@,
        order@.verify == order.verify,
        picture@.width == picture.width,
        picture@.height == picture.height,
        picture@.rgba == picture.rgba@,
{
}

/// What is in the window.
pub proof fn window_holds_its_fields(w: FlintApp)
    ensures
        w@.iso_path == w.iso_path@,
        w@.usb_devices == message::device_views(w.usb_devices@),
        w@.selected_idx == w.selected_idx,
        w@.flashing == w.flashing,
        w@.verifying == w.verifying,
        w@.progress == w.progress,
        w@.status == message::line_view(w.status@),
        w@.log == app::log_views(w.log@),
        w@.cancel == w.cancel,
        w@.dark_mode == w.dark_mode,
        w@.show_log == w.show_log,
        w@.show_dialog == w.show_dialog,
        w@.dialog_message == w.dialog_message@,
        w@.verify_after_flash == w.verify_after_flash,
        w@.confirm_input == w.confirm_input@,
{
}

/// What a message and its lines say.
pub proof fn messages_hold_their_words(m: Message, p: Piece, s: Size)
    ensures
        m matches Message::Progress(a, b) ==> m@ == MessageView::Progress(a, b),
        m matches Message::Done(ok, note) ==> m@ == MessageView::Done(ok, text_of(note)),
        m matches Message::Log(l) ==> m@ == MessageView::Log(message::line_view(l@)),
        m matches Message::Status(l) ==> m@ == MessageView::Status(message::line_view(l@)),
        m matches Message::VerifyProgress(share) ==> m@ == MessageView::VerifyProgress(share),
        m matches Message::VerifyDone(ok, t) ==> m@ == MessageView::VerifyDone(ok, t@),
        p matches Piece::Text(t) ==> p@ == PieceView::Text(t@),
        p matches Piece::Tenths(a, b) ==> p@ == PieceView::Tenths(a, b),
        p matches Piece::Full(a, b) ==> p@ == PieceView::Full(a, b),
        p matches Piece::Percent(a, b) ==> p@ == PieceView::Percent(a, b),
        p matches Piece::Capped(a, b) ==> p@ == PieceView::Capped(a, b),
        s matches Size::Bytes(n) ==> s@ == SizeView::Bytes(n),
        s matches Size::Scaled(t, unit) ==> s@ == SizeView::Scaled(t@, unit),
        s is Unknown ==> s@ is Unknown,
{
}

/// What a job asks for.
pub proof fn actions_hold_their_details(a: Action)
    ensures
        a matches Action::Output(c) ==> a@ == ActionView::Output(job::words(c@)),
        a matches Action::Run(c) ==> a@ == ActionView::Run(job::words(c@)),
        a matches Action::Spawn(c) ==> a@ == ActionView::Spawn(job::words(c@)),
        a is NextLine ==> a@ is NextLine,
        a is Kill ==> a@ is Kill,
        a is Wait ==> a@ is Wait,
        a is FileSize ==> a@ is FileSize,
        a is FirstEntrySize ==> a@ is FirstEntrySize,
        a is OpenImage ==> a@ is OpenImage,
        a is OpenDevice ==> a@ is OpenDevice,
        a is Poll ==> a@ is Poll,
        a matches Action::Read(n) ==> a@ == ActionView::Read(n),
        a matches Action::Write(n) ==> a@ == ActionView::Write(n),
        a is OpenArchive ==> a@ is OpenArchive,
        a is ListEntries ==> a@ is ListEntries,
        a matches Action::OpenEntry(i) ==> a@ == ActionView::OpenEntry(i),
        a matches Action::Decompress(n) ==> a@ == ActionView::Decompress(n),
        a matches Action::OpenTarget(t) ==> a@ == ActionView::OpenTarget(t),
        a matches Action::ReadTarget(n) ==> a@ == ActionView::ReadTarget(n),
        a is Nothing ==> a@ is Nothing,
{
}

/// What a job hears.
pub proof fn events_hold_their_details(e: Event)
    ensures
        e matches Event::Output(t) ==> e@ == EventView::Output(text_of(t)),
        e is Ran ==> e@ is Ran,
        e matches Event::Failed(t) ==> e@ == EventView::Failed(t@),
        e matches Event::Line(c, t) ==> e@ == EventView::Line(c, text_of(t)),
        e is End ==> e@ is End,
        e matches Event::Exited(ok) ==> e@ == EventView::Exited(ok),
        e matches Event::Size(n) ==> e@ == EventView::Size(n),
        e matches Event::Polled(c) ==> e@ == EventView::Polled(c),
        e matches Event::Read(n) ==> e@ == EventView::Read(n),
        e matches Event::Counted(n) ==> e@ == EventView::Counted(n),
        e matches Event::Entries(v) ==> e@ == EventView::Entries(job::entry_views(v@)),
        e matches Event::Entry(x) ==> e@ == EventView::Entry(x@),
        e matches Event::Stopped(c, t) ==> e@ == EventView::Stopped(c, t@),
        e matches Event::Chunk(b) ==> e@ == EventView::Chunk(b@),
{
}

/// How far a job and its verification are.
pub proof fn runs_hold_their_stages(run: FlashRun, r: VerifyRun)
    ensures
        run@.facts == run.facts@,
        run@.image == run.image,
        run@.verify == run.verify,
        run.stage matches Stage::Flash(f) ==> run@.stage == StageView::Flash(f),
        run.stage is Flashed ==> run@.stage is Flashed,
        run.stage is Size ==> run@.stage is Size,
        run.stage matches Stage::Verify(v) ==> run@.stage == StageView::Verify(v@),
        run.stage is Over ==> run@.stage is Over,
        r matches VerifyRun::OpenSource(n) ==> r@ == VerifyView::OpenSource(n),
        r matches VerifyRun::PollSource(h) ==> r@ == VerifyView::PollSource(h@),
        r matches VerifyRun::ReadSource(h) ==> r@ == VerifyView::ReadSource(h@),
        r matches VerifyRun::OpenDevice(n, d) ==> r@ == VerifyView::OpenDevice(n, d@),
        r matches VerifyRun::PollDevice(h, d) ==> r@ == VerifyView::PollDevice(h@, d@),
        r matches VerifyRun::ReadDevice(h, d) ==> r@ == VerifyView::ReadDevice(h@, d@),
{
}

/// How far a search is, what it hears and asks for, and the steps of a setup.
pub proof fn searches_hold_their_details(
    d: Detection,
    reply: Reply,
    ask: ThemeAsk,
    step: DesktopStep,
)
    ensures
        d@.found == devices::found_views(d.found@),
        d.stage matches DetectStage::List(p) ==> d@.stage == DetectStageView::List(p),
        d.stage matches DetectStage::Describe(paths, i) ==> d@.stage == DetectStageView::Describe(
            job::words(paths@),
            i,
        ),
        d.stage is Over ==> d@.stage is Over,
        reply matches Reply::Text(t) ==> reply@ == ReplyView::Text(text_of(t)),
        reply matches Reply::Drives(Some(v)) ==> reply@ == ReplyView::Drives(
            Some(devices::lsblk_views(v@)),
        ),
        reply matches Reply::Drives(None) ==> reply@ == ReplyView::Drives(None),
        ask matches ThemeAsk::Output(c) ==> ask@ == ThemeAskView::Output(job::words(c@)),
        ask matches ThemeAsk::File(p) ==> ask@ == ThemeAskView::File(p@),
        ask is Nothing ==> ask@ is Nothing,
        step matches DesktopStep::MakeDir(p) ==> step@ == DesktopStepView::MakeDir(p@),
        step matches DesktopStep::SaveIcon(p, i) ==> step@ == DesktopStepView::SaveIcon(p@, i@),
        step matches DesktopStep::Run(c) ==> step@ == DesktopStepView::Run(job::words(c@)),
        step matches DesktopStep::Write(p, t) ==> step@ == DesktopStepView::Write(p@, t@),
        forall|t: Option<String>| #[trigger] job::text_view(t) == text_of(t),
{
}

} // verus!
