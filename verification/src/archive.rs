//! Flashing an image that lies in a ZIP archive.
use vstd::prelude::*;
use vstd::string::*;

use crate::copy;
use crate::copy::{copy_pending, copy_step, has_copy_room, CopyStage, Copying, Source};
use crate::job;
use crate::job::{
    Action, ActionView, Event, EventView, Facts, FactsView, Step, ZipEntry, ZipEntryView,
};
use crate::message;
use crate::message::{
    log, log_with, only, text_piece, Message, MessageView, Piece, PieceView, MIB,
};
use crate::text;
use crate::text::{ends_with, lower};

verus! {

// ---------------------------------------------------------------------------
// The entry to extract
// ---------------------------------------------------------------------------

/// What decides between the entries of an archive.
#[derive(Clone, Copy, PartialEq, Eq, Structural)]
pub struct Candidate {
    /// The entry has the name of a disk image.
    pub image: bool,
    pub size: u64,
}

/// A name in lower case is that of a disk image.
pub open spec fn image_suffix(lower_name: Seq<char>) -> bool {
    ||| ".iso"@.is_suffix_of(lower_name)
    ||| ".img"@.is_suffix_of(lower_name)
    ||| ".raw"@.is_suffix_of(lower_name)
    ||| ".bin"@.is_suffix_of(lower_name)
}

/// Whether a name in lower case is that of a disk image.
pub fn is_image_name(lower_name: &str) -> (r: bool)
    ensures
        r == image_suffix(lower_name@),
{
    ends_with(lower_name, ".iso") || ends_with(lower_name, ".img") || ends_with(
        lower_name,
        ".raw",
    ) || ends_with(lower_name, ".bin")
}

/// What the entries offer; an entry that cannot be read offers nothing.
pub open spec fn candidates(entries: Seq<Option<ZipEntryView>>) -> Seq<Option<Candidate>> {
    entries.map_values(
        |e: Option<ZipEntryView>|
            match e {
                Some(x) => Some(
                    Candidate { image: image_suffix(text::lowercase(x.name)), size: x.size },
                ),
                None => None,
            },
    )
}

/// Apart from the case of its ASCII letters, every name of an entry ends like that of a disk image,
/// or it is all ASCII.
pub open spec fn plain_names(entries: Seq<Option<ZipEntryView>>) -> bool {
    forall|i: int|
        0 <= i < entries.len() ==> ((#[trigger] entries[i]) matches Some(x) ==> (text::all_ascii(
            x.name,
        ) || image_suffix(text::folded(x.name))))
}

/// What entries with such names offer.
pub open spec fn folded_candidates(entries: Seq<Option<ZipEntryView>>) -> Seq<Option<Candidate>> {
    entries.map_values(
        |e: Option<ZipEntryView>|
            match e {
                Some(x) => Some(
                    Candidate { image: image_suffix(text::folded(x.name)), size: x.size },
                ),
                None => None,
            },
    )
}

/// The size of the first candidate; 0 where there is none.
pub open spec fn first_size(c: Seq<Option<Candidate>>) -> u64 {
    if c.len() > 0 {
        match c[0] {
            Some(x) => x.size,
            None => 0,
        }
    } else {
        0
    }
}

/// Candidate `k` is larger than the first.
pub open spec fn outgrows_first(c: Seq<Option<Candidate>>, k: int) -> bool {
    c[k] matches Some(x) && x.size > first_size(c)
}

/// Candidate `j` is the earliest that is larger than the first, be it an image or not.
pub open spec fn leads(c: Seq<Option<Candidate>>, j: int) -> bool {
    &&& 1 <= j < c.len()
    &&& outgrows_first(c, j)
    &&& forall|k: int| 1 <= k < j ==> !outgrows_first(c, k)
}

/// Where `j` leads, candidate `i` can be chosen: it is `j` itself, or an image behind it that is
/// larger.
pub open spec fn can_follow(c: Seq<Option<Candidate>>, j: int, i: int) -> bool {
    ||| i == j
    ||| j < i < c.len() && (c[i] matches Some(x) && x.image && x.size > c[j]->0.size)
}

/// Where `j` leads, `r` is the largest candidate that can be chosen, and of equals the earliest.
pub open spec fn tops(c: Seq<Option<Candidate>>, j: int, r: int) -> bool {
    &&& can_follow(c, j, r)
    &&& forall|i: int| #[trigger]
        can_follow(c, j, i) ==> c[i]->0.size <= c[r]->0.size && (i < r ==> c[i]->0.size
            < c[r]->0.size)
}

/// `r` is the candidate to choose. Where none is larger than the first, it is the first. Where one
/// is, the earliest such leads, and `r` is the largest among it and the larger images behind it.
pub open spec fn is_best(c: Seq<Option<Candidate>>, r: int) -> bool {
    ||| r == 0 && forall|k: int| 1 <= k < c.len() ==> !outgrows_first(c, k)
    ||| exists|j: int| #[trigger] leads(c, j) && tops(c, j, r)
}

/// The candidate to choose.
pub open spec fn best(c: Seq<Option<Candidate>>) -> int {
    choose|r: int| is_best(c, r)
}

/// The choice between candidates is never open.
pub proof fn best_is_unique(c: Seq<Option<Candidate>>, r: int, s: int)
    requires
        is_best(c, r),
        is_best(c, s),
    ensures
        r == s,
{
    if exists|k: int| 1 <= k < c.len() && #[trigger] outgrows_first(c, k) {
        let j = choose|j: int| #[trigger] leads(c, j) && tops(c, j, r);
        let l = choose|l: int| #[trigger] leads(c, l) && tops(c, l, s);
        assert(j == l) by {
            if j < l {
                assert(!outgrows_first(c, j));
            } else if l < j {
                assert(!outgrows_first(c, l));
            }
        }
        assert(can_follow(c, j, r) && can_follow(c, j, s));
    } else {
        assert forall|j: int| !leads(c, j) by {
            if leads(c, j) {
                assert(outgrows_first(c, j));
            }
        }
    }
}

/// The chosen entry exists where there is an entry at all.
pub proof fn best_is_an_entry(c: Seq<Option<Candidate>>, r: int)
    requires
        c.len() > 0,
        is_best(c, r),
    ensures
        0 <= r < c.len(),
{
    if r != 0 {
        let j = choose|j: int| #[trigger] leads(c, j) && tops(c, j, r);
        assert(can_follow(c, j, r));
    }
}

/// Chooses between candidates.
pub fn best_candidate(c: &Vec<Option<Candidate>>) -> (r: usize)
    ensures
        is_best(c@, r as int),
        r == best(c@),
{
    let mut best: usize = 0;
    let mut best_size: u64 = 0;
    let ghost mut j: int = 0;
    for i in 0..c.len()
        invariant
            best == 0 ==> j == 0 && best_size == (if i == 0 {
                0
            } else {
                first_size(c@)
            }) && forall|k: int| 1 <= k < i ==> !outgrows_first(c@, k),
            best > 0 ==> {
                &&& leads(c@, j)
                &&& j <= best < i
                &&& c@[best as int] is Some
                &&& best_size == c@[best as int]->0.size
                &&& can_follow(c@, j, best as int)
                &&& forall|m: int| #[trigger]
                    can_follow(c@, j, m) && m < i ==> c@[m]->0.size <= best_size && (m < best
                        ==> c@[m]->0.size < best_size)
            },
    {
        if let Some(x) = c[i] {
            let was: usize = best;
            if x.size > best_size && x.image {
                best = i;
                best_size = x.size;
            }
            if best == 0 && x.size > best_size {
                best = i;
                best_size = x.size;
            }
            proof {
                if was == 0 && best > 0 {
                    j = i as int;
                    assert(outgrows_first(c@, j));
                }
            }
        }
    }
    proof {
        if best > 0 {
            assert(tops(c@, j, best as int));
        }
        best_is_unique(c@, best as int, self::best(c@));
    }
    best
}

/// A name that ends like that of a disk image, apart from the case of ASCII letters, does so in
/// lower case.
proof fn image_end_is_kept(name: Seq<char>, low: Seq<char>)
    requires
        text::keeps_ascii_ends(name, low),
    ensures
        image_suffix(text::folded(name)) ==> image_suffix(low),
{
    reveal_strlit(".iso");
    reveal_strlit(".img");
    reveal_strlit(".raw");
    reveal_strlit(".bin");
    let fold = text::folded(name);
    if ".iso"@.is_suffix_of(fold) {
        text::folded_end_is_kept(name, low, ".iso"@);
    } else if ".img"@.is_suffix_of(fold) {
        text::folded_end_is_kept(name, low, ".img"@);
    } else if ".raw"@.is_suffix_of(fold) {
        text::folded_end_is_kept(name, low, ".raw"@);
    } else if ".bin"@.is_suffix_of(fold) {
        text::folded_end_is_kept(name, low, ".bin"@);
    }
}

/// Chooses the entry of an archive to flash, by the names and the sizes of the entries.
pub fn find_best_zip_entry(entries: &Vec<Option<ZipEntry>>) -> (r: usize)
    ensures
        is_best(candidates(job::entry_views(entries@)), r as int),
        r == best(candidates(job::entry_views(entries@))),
        plain_names(job::entry_views(entries@)) ==> candidates(job::entry_views(entries@))
            == folded_candidates(job::entry_views(entries@)) && is_best(
            folded_candidates(job::entry_views(entries@)),
            r as int,
        ) && r == best(folded_candidates(job::entry_views(entries@))),
{
    let ghost views = job::entry_views(entries@);
    let ghost all = candidates(views);
    let mut c: Vec<Option<Candidate>> = Vec::new();
    for i in 0..entries.len()
        invariant
            views == job::entry_views(entries@),
            all == candidates(views),
            c@ == all.take(i as int),
            plain_names(views) ==> c@ == folded_candidates(views).take(i as int),
    {
        assert(views[i as int] == match entries@[i as int] {
            Some(x) => Some(x@),
            None => None,
        });
        let next = match &entries[i] {
            Some(e) => {
                let name = lower(e.name.as_str());
                proof {
                    image_end_is_kept(e.name@, name@);
                }
                Some(Candidate { image: is_image_name(name.as_str()), size: e.size })
            },
            None => None,
        };
        c.push(next);
        assert(c@ =~= all.take(i + 1));
        assert(plain_names(views) ==> c@ =~= folded_candidates(views).take(i + 1));
    }
    assert(c@ =~= all);
    assert(plain_names(views) ==> c@ =~= folded_candidates(views));
    best_candidate(&c)
}

// ---------------------------------------------------------------------------
// The extraction
// ---------------------------------------------------------------------------

/// What an extraction waits for.
#[derive(Clone, Copy, PartialEq, Eq, Structural)]
pub enum ZipStage {
    /// The archive being opened.
    Image,
    /// The directory of the archive.
    Archive,
    /// The entries of the archive.
    List,
    /// An entry being opened.
    Entry(usize),
    /// The device being opened, for an entry of so many bytes.
    Device(u64),
    /// The entry being copied.
    Copy(CopyStage),
}

/// What an extraction asks for at stage `st`.
pub open spec fn zip_asks(st: ZipStage) -> ActionView {
    match st {
        ZipStage::Image => ActionView::OpenImage,
        ZipStage::Archive => ActionView::OpenArchive,
        ZipStage::List => ActionView::ListEntries,
        ZipStage::Entry(i) => ActionView::OpenEntry(i),
        ZipStage::Device(_) => ActionView::OpenDevice,
        ZipStage::Copy(c) => copy::copy_asks(c),
    }
}

/// The count of bytes written still fits 64 bits after `event`.
pub open spec fn zip_room(st: ZipStage, event: EventView) -> bool {
    st matches ZipStage::Copy(c) ==> copy::copy_room(c, event)
}

/// A write that is under way can be counted.
pub open spec fn zip_valid(st: ZipStage) -> bool {
    st matches ZipStage::Copy(c) ==> copy::copy_valid(c)
}

/// The log line on the entry and its size.
pub open spec fn entry_line(e: ZipEntryView) -> MessageView {
    MessageView::Log(
        seq![
            PieceView::Text("Extracting from ZIP: "@ + e.name + " ("@),
            PieceView::Full(e.size, MIB),
            PieceView::Text(" MB)"@),
        ],
    )
}

/// The log line on the entry and its size.
fn entry_log(e: &ZipEntry) -> (r: Message)
    ensures
        r@ == entry_line(e@),
{
    let mut t = "Extracting from ZIP: ".to_owned();
    t.append(e.name.as_str());
    t.append(" (");
    let v = vec![Piece::Text(t), Piece::Full(e.size, MIB), text_piece(" MB)")];
    let m = Message::Log(v);
    assert(message::line_view(v@) =~= entry_line(e@)->Log_0);
    m
}

/// Where an extraction goes from stage `st` on `event`, and what it reports. An event that is no
/// answer to what it asked for changes nothing.
pub open spec fn zip_next(facts: FactsView, st: ZipStage, event: EventView) -> (
    Step<ZipStage>,
    Seq<MessageView>,
) {
    match (st, event) {
        (ZipStage::Image, EventView::Ran) => (Step::Next(ZipStage::Archive), seq![]),
        (ZipStage::Image, EventView::Failed(e)) => (
            Step::Ended(false),
            seq![message::log_text("Failed to open ZIP: "@ + e)],
        ),
        (ZipStage::Archive, EventView::Counted(0)) => (
            Step::Ended(false),
            seq![message::log_text("ZIP archive is empty"@)],
        ),
        (ZipStage::Archive, EventView::Counted(_)) => (Step::Next(ZipStage::List), seq![]),
        (ZipStage::Archive, EventView::Failed(e)) => (
            Step::Ended(false),
            seq![message::log_text("Failed to read ZIP archive: "@ + e)],
        ),
        (ZipStage::List, EventView::Entries(v)) => (
            Step::Next(ZipStage::Entry(best(candidates(v)) as usize)),
            seq![],
        ),
        (ZipStage::Entry(_), EventView::Entry(e)) => (
            Step::Next(ZipStage::Device(e.size)),
            seq![entry_line(e)],
        ),
        (ZipStage::Entry(_), EventView::Failed(e)) => (
            Step::Ended(false),
            seq![message::log_text("Failed to read ZIP entry: "@ + e)],
        ),
        (ZipStage::Device(total), EventView::Ran) => (
            Step::Next(
                ZipStage::Copy(
                    CopyStage::Poll(Copying { source: Source::Entry, total, written: 0 }),
                ),
            ),
            seq![],
        ),
        (ZipStage::Device(_), EventView::Failed(e)) => (
            Step::Ended(false),
            seq![message::log_text("Failed to open device: "@ + e)],
        ),
        (ZipStage::Copy(c), _) => {
            let next = copy::copy_next(facts, c, event);
            (
                match next.0 {
                    Step::Next(d) => Step::Next(ZipStage::Copy(d)),
                    Step::Ended(ok) => Step::Ended(ok),
                },
                next.1,
            )
        },
        _ => (Step::Next(st), seq![]),
    }
}

/// What an extraction asks for at stage `st`.
pub fn zip_pending(st: ZipStage) -> (r: Action)
    ensures
        r@ == zip_asks(st),
{
    match st {
        ZipStage::Image => Action::OpenImage,
        ZipStage::Archive => Action::OpenArchive,
        ZipStage::List => Action::ListEntries,
        ZipStage::Entry(i) => Action::OpenEntry(i),
        ZipStage::Device(_) => Action::OpenDevice,
        ZipStage::Copy(c) => copy_pending(c),
    }
}

/// Whether the count of bytes written still fits 64 bits after `event`.
pub fn has_zip_room(st: ZipStage, event: &Event) -> (r: bool)
    ensures
        r == zip_room(st, event@),
{
    match st {
        ZipStage::Copy(c) => has_copy_room(c, event),
        _ => true,
    }
}

/// Takes an extraction from stage `st` on by one event.
pub fn zip_step(facts: &Facts, st: ZipStage, event: &Event) -> (r: (Step<ZipStage>, Vec<Message>))
    requires
        zip_valid(st),
        zip_room(st, event@),
    ensures
        (r.0, message::message_views(r.1@)) == zip_next(facts@, st, event@),
        r.0 matches Step::Next(s) ==> zip_valid(s),
        st is List ==> (event@ matches EventView::Entries(v) ==> plain_names(v) ==> r.0
            == Step::Next(ZipStage::Entry(best(folded_candidates(v)) as usize))),
{
    let none: Vec<Message> = Vec::new();
    assert(message::message_views(none@) =~= seq![]);
    match (st, event) {
        (ZipStage::Image, Event::Ran) => (Step::Next(ZipStage::Archive), none),
        (ZipStage::Image, Event::Failed(e)) => (
            Step::Ended(false),
            only(log_with("Failed to open ZIP: ", e.as_str())),
        ),
        (ZipStage::Archive, Event::Counted(n)) => {
            if *n == 0 {
                (Step::Ended(false), only(log("ZIP archive is empty")))
            } else {
                (Step::Next(ZipStage::List), none)
            }
        },
        (ZipStage::Archive, Event::Failed(e)) => (
            Step::Ended(false),
            only(log_with("Failed to read ZIP archive: ", e.as_str())),
        ),
        (ZipStage::List, Event::Entries(v)) => {
            let i: usize = find_best_zip_entry(v);
            (Step::Next(ZipStage::Entry(i)), none)
        },
        (ZipStage::Entry(_), Event::Entry(e)) => (
            Step::Next(ZipStage::Device(e.size)),
            only(entry_log(e)),
        ),
        (ZipStage::Entry(_), Event::Failed(e)) => (
            Step::Ended(false),
            only(log_with("Failed to read ZIP entry: ", e.as_str())),
        ),
        (ZipStage::Device(total), Event::Ran) => (
            Step::Next(
                ZipStage::Copy(
                    CopyStage::Poll(Copying { source: Source::Entry, total, written: 0 }),
                ),
            ),
            none,
        ),
        (ZipStage::Device(_), Event::Failed(e)) => (
            Step::Ended(false),
            only(log_with("Failed to open device: ", e.as_str())),
        ),
        (ZipStage::Copy(c), _) => {
            let (next, told) = copy_step(facts, c, event);
            match next {
                Step::Next(d) => (Step::Next(ZipStage::Copy(d)), told),
                Step::Ended(ok) => (Step::Ended(ok), told),
            }
        },
        _ => (Step::Next(st), none),
    }
}

} // verus!
