//! A flash job from its start to its last message.
use vstd::prelude::*;
use vstd::string::*;

use crate::archive;
use crate::archive::{has_zip_room, zip_pending, zip_step, ZipStage};
use crate::copy;
use crate::copy::{copy_pending, copy_step, has_copy_room, CopyStage};
use crate::dd;
use crate::dd::{dd_pending, dd_step, DdStage, Tool};
use crate::job::{Action, ActionView, Event, EventView, Facts, FactsView, Platform, Step};
use crate::message;
use crate::message::{both, log, only, Message, MessageView};
use crate::text;
use crate::text::{ends_with, lower};
use crate::verification;
use crate::verification::{verify_flash, VerifyRun, VerifyView};
use crate::xz;
use crate::xz::{xz_pending, xz_step, XzStage};

verus! {

// ---------------------------------------------------------------------------
// Kinds of images
// ---------------------------------------------------------------------------

/// How an image is stored.
#[derive(Clone, Copy, PartialEq, Eq, Structural, Debug)]
pub enum ImageType {
    Raw,
    Xz,
    Zip,
}

/// The kind of image that a path in lower case names.
pub open spec fn suffix_type(lower_path: Seq<char>) -> ImageType {
    if ".xz"@.is_suffix_of(lower_path) || ".lzma"@.is_suffix_of(lower_path) {
        ImageType::Xz
    } else if ".zip"@.is_suffix_of(lower_path) {
        ImageType::Zip
    } else {
        ImageType::Raw
    }
}

/// The kind of image that a path in lower case names.
pub fn type_of_lower(lower_path: &str) -> (r: ImageType)
    ensures
        r == suffix_type(lower_path@),
        r is Zip <==> ".zip"@.is_suffix_of(lower_path@),
        r is Xz <==> ".xz"@.is_suffix_of(lower_path@) || ".lzma"@.is_suffix_of(lower_path@),
        r is Raw <==> !".zip"@.is_suffix_of(lower_path@) && !".xz"@.is_suffix_of(lower_path@)
            && !".lzma"@.is_suffix_of(lower_path@),
{
    proof {
        kind_by_end(lower_path@);
    }
    if ends_with(lower_path, ".xz") || ends_with(lower_path, ".lzma") {
        ImageType::Xz
    } else if ends_with(lower_path, ".zip") {
        ImageType::Zip
    } else {
        ImageType::Raw
    }
}

/// What a path ends with decides the kind alone: the suffixes exclude each other.
proof fn kind_by_end(r: Seq<char>)
    ensures
        text::all_ascii(".xz"@),
        text::all_ascii(".lzma"@),
        text::all_ascii(".zip"@),
        ".zip"@.is_suffix_of(r) ==> suffix_type(r) is Zip,
{
    reveal_strlit(".xz");
    reveal_strlit(".lzma");
    reveal_strlit(".zip");
    if ".zip"@.is_suffix_of(r) {
        assert(".zip"@.last() == r.last());
        assert(".xz"@.last() != r.last());
        assert(".lzma"@.last() != r.last());
    }
}

/// Apart from the case of its ASCII letters, `path` ends with a suffix that names a kind, or it is
/// all ASCII. Its kind is that of `text::folded(path)` then.
pub open spec fn plainly_named(path: Seq<char>) -> bool {
    text::all_ascii(path) || !(suffix_type(text::folded(path)) is Raw)
}

/// The kind of image that `path` names, by its suffix in whatever case.
///
/// Only the end of the path counts: where an end of it names a kind by itself, so does the path. And
/// a path that differs in the case of ASCII letters at most names the same kind.
pub fn detect_image_type(path: &str) -> (r: ImageType)
    ensures
        r == suffix_type(text::lowercase(path@)),
        r is Zip <==> ".zip"@.is_suffix_of(text::lowercase(path@)),
        r is Xz <==> ".xz"@.is_suffix_of(text::lowercase(path@)) || ".lzma"@.is_suffix_of(
            text::lowercase(path@),
        ),
        text::all_ascii(path@) ==> (r is Zip <==> ".zip"@.is_suffix_of(text::folded(path@))),
        text::all_ascii(path@) ==> (r is Xz <==> ".xz"@.is_suffix_of(text::folded(path@))
            || ".lzma"@.is_suffix_of(text::folded(path@))),
        plainly_named(path@) ==> r == suffix_type(text::folded(path@)),
        forall|other: Seq<char>| #[trigger]
            text::same_ignoring_case(other, path@) ==> r == suffix_type(text::lowercase(other)),
        forall|k: int|
            0 <= k <= path@.len() && !(suffix_type(
                #[trigger] text::lowercase(path@.skip(k)),
            ) is Raw) ==> r == suffix_type(text::lowercase(path@.skip(k))),
{
    let lower_path = lower(path);
    proof {
        let low = lower_path@;
        let fold = text::folded(path@);
        kind_by_end(low);
        kind_by_end(fold);
        if ".xz"@.is_suffix_of(fold) {
            text::folded_end_is_kept(path@, low, ".xz"@);
        } else if ".lzma"@.is_suffix_of(fold) {
            text::folded_end_is_kept(path@, low, ".lzma"@);
        } else if ".zip"@.is_suffix_of(fold) {
            text::folded_end_is_kept(path@, low, ".zip"@);
        }
        assert forall|k: int|
            0 <= k <= path@.len() && !(suffix_type(
                #[trigger] text::lowercase(path@.skip(k)),
            ) is Raw) implies suffix_type(low) == suffix_type(
            text::lowercase(path@.skip(k)),
        ) by {
            let end = text::lowercase(path@.skip(k));
            kind_by_end(end);
            assert(".xz"@.is_suffix_of(end) ==> ".xz"@.is_suffix_of(low));
            assert(".lzma"@.is_suffix_of(end) ==> ".lzma"@.is_suffix_of(low));
            assert(".zip"@.is_suffix_of(end) ==> ".zip"@.is_suffix_of(low));
        }
    }
    type_of_lower(lower_path.as_str())
}

// ---------------------------------------------------------------------------
// The job
// ---------------------------------------------------------------------------

/// The way in which an image is flashed, and how far it is.
#[derive(Clone, Copy, PartialEq, Eq, Structural)]
pub enum Flash {
    /// With `dd`.
    Dd(Tool, DdStage),
    /// By copying it.
    Copy(CopyStage),
    /// By decompressing it.
    Xz(XzStage),
    /// By extracting it.
    Zip(ZipStage),
}

/// How far a job is.
pub enum Stage {
    /// The image is being flashed.
    Flash(Flash),
    /// The image is flashed; a last look at the user's wish to cancel.
    Flashed,
    /// The size to verify is being looked up.
    Size,
    /// The flash is being verified.
    Verify(VerifyRun),
    /// The job is over.
    Over,
}

/// The contents of a [`Stage`].
pub enum StageView {
    Flash(Flash),
    Flashed,
    Size,
    Verify(VerifyView),
    Over,
}

impl View for Stage {
    type V = StageView;

    open spec fn view(&self) -> StageView {
        match *self {
            Stage::Flash(f) => StageView::Flash(f),
            Stage::Flashed => StageView::Flashed,
            Stage::Size => StageView::Size,
            Stage::Verify(r) => StageView::Verify(r@),
            Stage::Over => StageView::Over,
        }
    }
}

/// A flash job.
pub struct FlashRun {
    /// What the job works on.
    pub facts: Facts,
    /// How the image is stored.
    pub image: ImageType,
    /// Whether the flash is to be verified.
    pub verify: bool,
    pub stage: Stage,
}

/// The contents of a [`FlashRun`].
pub struct RunView {
    pub facts: FactsView,
    pub image: ImageType,
    pub verify: bool,
    pub stage: StageView,
}

impl View for FlashRun {
    type V = RunView;

    open spec fn view(&self) -> RunView {
        RunView {
            facts: self.facts@,
            image: self.image,
            verify: self.verify,
            stage: self.stage@,
        }
    }
}

impl FlashRun {
    /// The counts of the run fit their numbers.
    pub open spec fn valid(&self) -> bool {
        match self.stage {
            Stage::Flash(Flash::Copy(c)) => copy::copy_valid(c),
            Stage::Flash(Flash::Zip(z)) => archive::zip_valid(z),
            Stage::Verify(r) => r.valid(),
            _ => true,
        }
    }
}

impl RunView {
    /// The job is over.
    pub open spec fn over(self) -> bool {
        self.stage is Over
    }

    /// The counts of the run still fit their numbers after `event`.
    pub open spec fn room(self, event: EventView) -> bool {
        match self.stage {
            StageView::Flash(Flash::Copy(c)) => copy::copy_room(c, event),
            StageView::Flash(Flash::Zip(z)) => archive::zip_room(z, event),
            StageView::Verify(r) => verification::verify_room(r, event),
            _ => true,
        }
    }

    /// The run at another stage.
    pub open spec fn at(self, stage: StageView) -> RunView {
        RunView { stage, ..self }
    }

    /// What the job asks for.
    pub open spec fn asks(self) -> ActionView {
        match self.stage {
            StageView::Flash(Flash::Dd(tool, d)) => dd::dd_asks(self.facts, tool, d),
            StageView::Flash(Flash::Copy(c)) => copy::copy_asks(c),
            StageView::Flash(Flash::Xz(x)) => xz::xz_asks(x),
            StageView::Flash(Flash::Zip(z)) => archive::zip_asks(z),
            StageView::Flashed => ActionView::Poll,
            StageView::Size => if self.image is Zip {
                ActionView::FirstEntrySize
            } else {
                ActionView::FileSize
            },
            StageView::Verify(r) => verification::verify_asks(r),
            StageView::Over => ActionView::Nothing,
        }
    }

    /// The flash is done, with success or not: a failure ends the job, and a success is looked at
    /// once more.
    pub open spec fn flash_ended(self, ok: bool, told: Seq<MessageView>) -> (
        RunView,
        Seq<MessageView>,
    ) {
        if ok {
            (self.at(StageView::Flashed), told)
        } else {
            (self.at(StageView::Over), told.push(MessageView::Done(false, None)))
        }
    }

    /// The end of a job whose flash is not verified because its size is unknown.
    pub open spec fn unverified(self) -> (RunView, Seq<MessageView>) {
        (
            self.at(StageView::Over),
            seq![
                message::log_text("Verification skipped: unknown uncompressed size"@),
                MessageView::Done(true, None),
            ],
        )
    }

    /// The run where its verification stands at `s`.
    pub open spec fn verified_to(self, s: Step<VerifyView>) -> RunView {
        match s {
            Step::Next(r) => self.at(StageView::Verify(r)),
            Step::Ended(_) => self.at(StageView::Over),
        }
    }

    /// Where the job goes on `event`, and what it reports. An event that is no answer to what it
    /// asked for changes nothing.
    pub open spec fn next(self, event: EventView) -> (RunView, Seq<MessageView>) {
        match self.stage {
            StageView::Flash(Flash::Dd(tool, d)) => {
                let n = dd::dd_next(self.facts, tool, d, event);
                match n.0 {
                    Step::Next(s) => (self.at(StageView::Flash(Flash::Dd(tool, s))), n.1),
                    Step::Ended(ok) => self.flash_ended(ok, n.1),
                }
            },
            StageView::Flash(Flash::Copy(c)) => {
                let n = copy::copy_next(self.facts, c, event);
                match n.0 {
                    Step::Next(s) => (self.at(StageView::Flash(Flash::Copy(s))), n.1),
                    Step::Ended(ok) => self.flash_ended(ok, n.1),
                }
            },
            StageView::Flash(Flash::Xz(x)) => {
                let n = xz::xz_next(self.facts, x, event);
                match n.0 {
                    Step::Next(s) => (self.at(StageView::Flash(Flash::Xz(s))), n.1),
                    Step::Ended(ok) => self.flash_ended(ok, n.1),
                }
            },
            StageView::Flash(Flash::Zip(z)) => {
                let n = archive::zip_next(self.facts, z, event);
                match n.0 {
                    Step::Next(s) => (self.at(StageView::Flash(Flash::Zip(s))), n.1),
                    Step::Ended(ok) => self.flash_ended(ok, n.1),
                }
            },
            StageView::Flashed => match event {
                EventView::Polled(true) => (
                    self.at(StageView::Over),
                    seq![MessageView::Done(false, None)],
                ),
                EventView::Polled(false) => if !self.verify {
                    (self.at(StageView::Over), seq![MessageView::Done(true, None)])
                } else if self.image is Xz {
                    self.unverified()
                } else {
                    (self.at(StageView::Size), seq![])
                },
                _ => (self, seq![]),
            },
            StageView::Size => match event {
                EventView::Size(None) => self.unverified(),
                EventView::Size(Some(n)) => {
                    let v = verification::verify_start(n);
                    (self.verified_to(v.0), v.1)
                },
                _ => (self, seq![]),
            },
            StageView::Verify(r) => {
                let v = verification::verify_next(r, event);
                (self.verified_to(v.0), v.1)
            },
            StageView::Over => (self, seq![]),
        }
    }
}

/// How the flash of a plain image starts: with `dd` where there is one, by copying on Windows, and
/// not at all elsewhere.
pub open spec fn raw_start(platform: Platform) -> Option<Flash> {
    match platform {
        Platform::Linux => Some(Flash::Dd(Tool::Linux, DdStage::Size)),
        Platform::Windows => Some(Flash::Copy(CopyStage::Size)),
        Platform::MacOs => Some(Flash::Dd(Tool::MacOs, DdStage::Size)),
        Platform::Other => None,
    }
}

/// How a job on an image of the given kind starts, and what it reports.
pub open spec fn run_start(
    facts: FactsView,
    image: ImageType,
    verify: bool,
    platform: Platform,
) -> (RunView, Seq<MessageView>) {
    let first = match image {
        ImageType::Raw => raw_start(platform),
        ImageType::Xz => Some(Flash::Xz(XzStage::Size)),
        ImageType::Zip => Some(Flash::Zip(ZipStage::Image)),
    };
    match first {
        Some(f) => (RunView { facts, image, verify, stage: StageView::Flash(f) }, seq![]),
        None => (
            RunView { facts, image, verify, stage: StageView::Over },
            seq![
                message::log_text("Unsupported platform"@),
                MessageView::Done(false, None),
            ],
        ),
    }
}

/// Starts a job on an image of the given kind.
pub fn start_run(facts: Facts, image: ImageType, verify: bool, platform: Platform) -> (r: (
    FlashRun,
    Vec<Message>,
))
    ensures
        (r.0@, message::message_views(r.1@)) == run_start(facts@, image, verify, platform),
        r.0.valid(),
{
    let none: Vec<Message> = Vec::new();
    assert(message::message_views(none@) =~= seq![]);
    let first = match image {
        ImageType::Raw => match platform {
            Platform::Linux => Some(Flash::Dd(Tool::Linux, DdStage::Size)),
            Platform::Windows => Some(Flash::Copy(CopyStage::Size)),
            Platform::MacOs => Some(Flash::Dd(Tool::MacOs, DdStage::Size)),
            Platform::Other => None,
        },
        ImageType::Xz => Some(Flash::Xz(XzStage::Size)),
        ImageType::Zip => Some(Flash::Zip(ZipStage::Image)),
    };
    match first {
        Some(f) => (FlashRun { facts, image, verify, stage: Stage::Flash(f) }, none),
        None => (
            FlashRun { facts, image, verify, stage: Stage::Over },
            both(log("Unsupported platform"), Message::Done(false, None)),
        ),
    }
}

/// How a job starts that is to flash the image at `iso_path`, which reads `lower_path` in lower case,
/// to the device at `dev_path`.
pub open spec fn thread_start(
    iso_path: Seq<char>,
    lower_path: Seq<char>,
    dev_path: Seq<char>,
    dev_label: Seq<char>,
    verify: bool,
    platform: Platform,
) -> (RunView, Seq<MessageView>) {
    run_start(
        FactsView { iso_path, dev_path, dev_label },
        suffix_type(lower_path),
        verify,
        platform,
    )
}

/// Starts a job: the image at `iso_path` is to be flashed to the device at `dev_path`.
pub fn start_flash_thread(
    iso_path: String,
    dev_path: String,
    dev_label: String,
    verify: bool,
    platform: Platform,
) -> (r: (FlashRun, Vec<Message>))
    ensures
        (r.0@, message::message_views(r.1@)) == run_start(
            (FactsView { iso_path: iso_path@, dev_path: dev_path@, dev_label: dev_label@ }),
            suffix_type(text::lowercase(iso_path@)),
            verify,
            platform,
        ),
        (r.0@, message::message_views(r.1@)) == thread_start(
            iso_path@,
            text::lowercase(iso_path@),
            dev_path@,
            dev_label@,
            verify,
            platform,
        ),
        plainly_named(iso_path@) ==> (r.0@, message::message_views(r.1@)) == run_start(
            (FactsView { iso_path: iso_path@, dev_path: dev_path@, dev_label: dev_label@ }),
            suffix_type(text::folded(iso_path@)),
            verify,
            platform,
        ),
        r.0.valid(),
{
    let image = detect_image_type(iso_path.as_str());
    start_run(Facts { iso_path, dev_path, dev_label }, image, verify, platform)
}

impl FlashRun {
    /// What the job asks for.
    pub fn pending(&self) -> (r: Action)
        requires
            self.valid(),
        ensures
            r@ == self@.asks(),
    {
        match &self.stage {
            Stage::Flash(f) => match *f {
                Flash::Dd(tool, d) => dd_pending(&self.facts, tool, d),
                Flash::Copy(c) => copy_pending(c),
                Flash::Xz(x) => xz_pending(x),
                Flash::Zip(z) => zip_pending(z),
            },
            Stage::Flashed => Action::Poll,
            Stage::Size => match self.image {
                ImageType::Zip => Action::FirstEntrySize,
                _ => Action::FileSize,
            },
            Stage::Verify(r) => r.pending(),
            Stage::Over => Action::Nothing,
        }
    }

    /// Whether the counts of the run still fit their numbers after `event`.
    pub fn has_room(&self, event: &Event) -> (r: bool)
        requires
            self.valid(),
        ensures
            r == self@.room(event@),
    {
        match &self.stage {
            Stage::Flash(f) => match *f {
                Flash::Copy(c) => has_copy_room(c, event),
                Flash::Zip(z) => has_zip_room(z, event),
                _ => true,
            },
            Stage::Verify(r) => r.has_room(event),
            _ => true,
        }
    }

    /// Goes on once the flash is done.
    fn end_flash(self, ok: bool, told: Vec<Message>) -> (r: (FlashRun, Vec<Message>))
        ensures
            (r.0@, message::message_views(r.1@)) == self@.flash_ended(
                ok,
                message::message_views(told@),
            ),
            r.0.valid(),
    {
        if ok {
            (FlashRun { stage: Stage::Flashed, ..self }, told)
        } else {
            let mut all = told;
            let last = Message::Done(false, None);
            all.push(last);
            assert(message::message_views(all@) =~= message::message_views(told@).push(last@));
            (FlashRun { stage: Stage::Over, ..self }, all)
        }
    }

    /// Ends a job whose flash is not verified because its size is unknown.
    fn end_unverified(self) -> (r: (FlashRun, Vec<Message>))
        ensures
            (r.0@, message::message_views(r.1@)) == self@.unverified(),
            r.0.valid(),
    {
        (
            FlashRun { stage: Stage::Over, ..self },
            both(
                log("Verification skipped: unknown uncompressed size"),
                Message::Done(true, None),
            ),
        )
    }

    /// Takes the job on by one event.
    pub fn step(self, event: &Event) -> (r: (FlashRun, Vec<Message>))
        requires
            self.valid(),
            self@.room(event@),
        ensures
            (r.0@, message::message_views(r.1@)) == self@.next(event@),
            r.0.valid(),
            self@.stage == StageView::Flash(Flash::Zip(ZipStage::List)) ==> (event@ matches
                EventView::Entries(v) ==> archive::plain_names(v) ==> r.0@.stage
                == StageView::Flash(
                Flash::Zip(
                    ZipStage::Entry(archive::best(archive::folded_candidates(v)) as usize),
                ),
            )),
    {
        let none: Vec<Message> = Vec::new();
        assert(message::message_views(none@) =~= seq![]);
        let FlashRun { facts, image, verify, stage } = self;
        match stage {
            Stage::Flash(f) => {
                let (next, told) = match f {
                    Flash::Dd(tool, d) => {
                        let (s, told) = dd_step(&facts, tool, d, event);
                        match s {
                            Step::Next(t) => (Step::Next(Flash::Dd(tool, t)), told),
                            Step::Ended(ok) => (Step::Ended(ok), told),
                        }
                    },
                    Flash::Copy(c) => {
                        let (s, told) = copy_step(&facts, c, event);
                        match s {
                            Step::Next(t) => (Step::Next(Flash::Copy(t)), told),
                            Step::Ended(ok) => (Step::Ended(ok), told),
                        }
                    },
                    Flash::Xz(x) => {
                        let (s, told) = xz_step(&facts, x, event);
                        match s {
                            Step::Next(t) => (Step::Next(Flash::Xz(t)), told),
                            Step::Ended(ok) => (Step::Ended(ok), told),
                        }
                    },
                    Flash::Zip(z) => {
                        let (s, told) = zip_step(&facts, z, event);
                        match s {
                            Step::Next(t) => (Step::Next(Flash::Zip(t)), told),
                            Step::Ended(ok) => (Step::Ended(ok), told),
                        }
                    },
                };
                match next {
                    Step::Next(g) => (
                        FlashRun { facts, image, verify, stage: Stage::Flash(g) },
                        told,
                    ),
                    Step::Ended(ok) => {
                        let run = FlashRun { facts, image, verify, stage: Stage::Flashed };
                        run.end_flash(ok, told)
                    },
                }
            },
            Stage::Flashed => {
                let run = FlashRun { facts, image, verify, stage: Stage::Flashed };
                match event {
                    Event::Polled(cancelled) => {
                        if *cancelled {
                            (
                                FlashRun { stage: Stage::Over, ..run },
                                only(Message::Done(false, None)),
                            )
                        } else if !verify {
                            (
                                FlashRun { stage: Stage::Over, ..run },
                                only(Message::Done(true, None)),
                            )
                        } else {
                            match image {
                                ImageType::Xz => run.end_unverified(),
                                _ => (FlashRun { stage: Stage::Size, ..run }, none),
                            }
                        }
                    },
                    _ => (run, none),
                }
            },
            Stage::Size => {
                let run = FlashRun { facts, image, verify, stage: Stage::Size };
                match event {
                    Event::Size(None) => run.end_unverified(),
                    Event::Size(Some(n)) => {
                        let (s, told) = verify_flash(*n);
                        match s {
                            Step::Next(v) => (FlashRun { stage: Stage::Verify(v), ..run }, told),
                            Step::Ended(_) => (FlashRun { stage: Stage::Over, ..run }, told),
                        }
                    },
                    _ => (run, none),
                }
            },
            Stage::Verify(v) => {
                let (s, told) = v.step(event);
                match s {
                    Step::Next(w) => (
                        FlashRun { facts, image, verify, stage: Stage::Verify(w) },
                        told,
                    ),
                    Step::Ended(_) => (
                        FlashRun { facts, image, verify, stage: Stage::Over },
                        told,
                    ),
                }
            },
            Stage::Over => (FlashRun { facts, image, verify, stage: Stage::Over }, none),
        }
    }
}

} // verus!
