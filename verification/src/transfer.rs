//! The bytes that a copy moves from its source to the device.
//!
//! A job counts bytes and never holds them. This follows the bytes themselves: what is read is held
//! until it is written, and each write takes as many of the held bytes as the job asks for.
use vstd::prelude::*;

use crate::archive::ZipStage;
use crate::copy;
use crate::copy::{CopyStage, Source};
use crate::flasher;
use crate::flasher::{Flash, ImageType, RunView, StageView};
use crate::job::{ActionView, EventView, FactsView, Platform, Step};
use crate::laws;
use crate::laws::{after, content};

verus! {

/// Where the bytes of a copy are.
#[verifier::ext_equal]
pub struct Wire {
    /// The pieces in which the source is still to be read.
    pub unread: Seq<Seq<u8>>,
    /// The bytes that were read last.
    pub held: Seq<u8>,
    /// The bytes that were written to the device.
    pub device: Seq<u8>,
}

impl Wire {
    /// The start of a copy of a source that is read as `chunks`.
    pub open spec fn start(chunks: Seq<Seq<u8>>) -> Wire {
        Wire { unread: chunks, held: seq![], device: seq![] }
    }

    /// The number of bytes that the next read gives; 0 at the end of the source.
    pub open spec fn next_read(self) -> nat {
        if self.unread.len() > 0 {
            self.unread[0].len()
        } else {
            0
        }
    }

    /// `event`, in answer to `action`, tells the truth about a read of the source.
    pub open spec fn allows(self, action: ActionView, event: EventView) -> bool {
        action is Read ==> (event matches EventView::Read(n) ==> n == self.next_read())
    }

    /// Where the bytes are once `action` was answered with `event`.
    pub open spec fn moved(self, action: ActionView, event: EventView) -> Wire {
        match (action, event) {
            (ActionView::Read(_), EventView::Read(_)) => if self.unread.len() > 0 {
                Wire { unread: self.unread.drop_first(), held: self.unread[0], ..self }
            } else {
                self
            },
            (ActionView::Write(n), EventView::Ran) => Wire {
                device: self.device + self.held.take(n as int),
                ..self
            },
            _ => self,
        }
    }
}

/// Where the bytes are after `events`.
pub open spec fn wire_after(run: RunView, wire: Wire, events: Seq<EventView>) -> Wire
    decreases events.len(),
{
    if events.len() == 0 {
        wire
    } else {
        wire_after(run, wire, events.drop_last()).moved(
            after(run, events.drop_last()).0.asks(),
            events.last(),
        )
    }
}

/// All of `events` tell the truth about the reads of the source.
pub open spec fn truthful(run: RunView, wire: Wire, events: Seq<EventView>) -> bool
    decreases events.len(),
{
    events.len() > 0 ==> {
        &&& truthful(run, wire, events.drop_last())
        &&& wire_after(run, wire, events.drop_last()).allows(
            after(run, events.drop_last()).0.asks(),
            events.last(),
        )
    }
}

/// Each of `chunks` can come of one read of `source`.
pub open spec fn read_sizes(source: Source, chunks: Seq<Seq<u8>>) -> bool {
    forall|i: int|
        0 <= i < chunks.len() ==> 0 < (#[trigger] chunks[i]).len() <= copy::piece_size(source)
}

/// What is copied at this stage of a copy, where it is settled.
pub open spec fn copies(c: CopyStage, source: Source) -> bool {
    match c {
        CopyStage::Poll(d) => d.source == source,
        CopyStage::Read(d) => d.source == source,
        CopyStage::Write(d, _) => d.source == source,
        _ => source is Image,
    }
}

/// Nothing of `data` is lost at this stage of a copy.
pub open spec fn copy_holds(c: CopyStage, source: Source, wire: Wire, data: Seq<u8>) -> bool {
    &&& copies(c, source)
    &&& read_sizes(source, wire.unread)
    &&& match c {
        CopyStage::Write(_, n) => n == wire.held.len() && wire.device + wire.held + content(
            wire.unread,
        ) == data,
        _ => wire.device + content(wire.unread) == data,
    }
}

/// Nothing of `data` is lost on its way to the device, and once the image is flashed the device
/// holds it all.
pub open spec fn nothing_lost(run: RunView, source: Source, wire: Wire, data: Seq<u8>) -> bool {
    match run.stage {
        StageView::Flash(Flash::Copy(c)) => source is Image && copy_holds(c, source, wire, data),
        StageView::Flash(Flash::Zip(ZipStage::Copy(c))) => source is Entry && copy_holds(
            c,
            source,
            wire,
            data,
        ),
        StageView::Flash(Flash::Zip(_)) => {
            &&& source is Entry
            &&& read_sizes(source, wire.unread)
            &&& wire.device + content(wire.unread) == data
        },
        StageView::Flash(_) => false,
        StageView::Over => true,
        _ => wire.device == data,
    }
}

proof fn copy_step_loses_nothing(
    facts: FactsView,
    c: CopyStage,
    source: Source,
    wire: Wire,
    data: Seq<u8>,
    event: EventView,
)
    requires
        copy_holds(c, source, wire, data),
        wire.allows(copy::copy_asks(c), event),
    ensures
        ({
            let next = copy::copy_next(facts, c, event).0;
            let moved = wire.moved(copy::copy_asks(c), event);
            match next {
                Step::Next(d) => copy_holds(d, source, moved, data),
                Step::Ended(ok) => ok ==> moved.device == data,
            }
        }),
{
    let moved = wire.moved(copy::copy_asks(c), event);
    match (c, event) {
        (CopyStage::Read(_), EventView::Read(_)) => {
            if wire.unread.len() > 0 {
                let rest = wire.unread.drop_first();
                assert(wire.unread[0].len() > 0);
                assert forall|i: int| 0 <= i < rest.len() implies 0 < (#[trigger] rest[i]).len()
                    <= copy::piece_size(source) by {
                    assert(rest[i] == wire.unread[i + 1]);
                }
                assert(wire.device + wire.unread[0] + content(rest) =~= wire.device + (
                wire.unread[0] + content(rest)));
            } else {
                assert(wire.device + content(wire.unread) =~= wire.device);
            }
        },
        (CopyStage::Write(_, n), EventView::Ran) => {
            assert(wire.held.take(n as int) =~= wire.held);
        },
        _ => {},
    }
}

proof fn step_loses_nothing(
    run: RunView,
    source: Source,
    wire: Wire,
    data: Seq<u8>,
    event: EventView,
)
    requires
        nothing_lost(run, source, wire, data),
        wire.allows(run.asks(), event),
    ensures
        nothing_lost(run.next(event).0, source, wire.moved(run.asks(), event), data),
        !laws::no_success(run.next(event).1) ==> wire.moved(run.asks(), event).device == data,
{
    match run.stage {
        StageView::Flash(f) => {
            laws::no_success_while_flashing(run, event);
            match f {
                Flash::Copy(c) => {
                    copy_step_loses_nothing(run.facts, c, source, wire, data, event);
                },
                Flash::Zip(ZipStage::Copy(c)) => {
                    copy_step_loses_nothing(run.facts, c, source, wire, data, event);
                },
                _ => {},
            }
        },
        _ => {},
    }
}

proof fn run_loses_nothing(
    run: RunView,
    source: Source,
    wire: Wire,
    data: Seq<u8>,
    events: Seq<EventView>,
)
    requires
        nothing_lost(run, source, wire, data),
        truthful(run, wire, events),
    ensures
        nothing_lost(after(run, events).0, source, wire_after(run, wire, events), data),
        !laws::no_success(after(run, events).1) ==> wire_after(run, wire, events).device == data,
    decreases events.len(),
{
    if events.len() > 0 {
        let most = events.drop_last();
        run_loses_nothing(run, source, wire, data, most);
        let there = after(run, most).0;
        let held = wire_after(run, wire, most);
        step_loses_nothing(there, source, held, data, events.last());
        let m = after(run, most).1;
        let n = there.next(events.last()).1;
        if !laws::no_success(m + n) {
            if laws::no_success(m) {
                assert(!laws::no_success(n)) by {
                    let i = choose|i: int|
                        0 <= i < (m + n).len() && laws::reports_success(#[trigger] (m + n)[i]);
                    assert(i >= m.len()) by {
                        if i < m.len() {
                            assert(m[i] == (m + n)[i]);
                        }
                    }
                    assert(n[i - m.len()] == (m + n)[i]);
                }
            } else {
                success_comes_last(run, most);
            }
        }
    }
}

/// A job that reported a success is over.
proof fn success_comes_last(run: RunView, events: Seq<EventView>)
    requires
        !laws::no_success(after(run, events).1),
    ensures
        after(run, events).0.over(),
{
    let m = after(run, events).1;
    let i = choose|i: int| 0 <= i < m.len() && laws::reports_success(#[trigger] m[i]);
    if run.over() {
        laws::over_stays_over(run, events);
    } else {
        laws::job_ends_once(run, events);
        assert(m[i].ends_job());
    }
}

/// The job copies the bytes of `source` itself: of a plain image on Windows, or of an entry of an
/// archive.
pub open spec fn copies_bytes(image: ImageType, platform: Platform, source: Source) -> bool {
    match image {
        ImageType::Raw => platform is Windows && source is Image,
        ImageType::Zip => source is Entry,
        ImageType::Xz => false,
    }
}

/// A job that copies bytes has written the source to the device, byte by byte and in its order,
/// however it was cut into reads, as soon as the image counts as flashed; and it reports a success
/// only where it has.
pub proof fn copy_writes_the_source(
    facts: FactsView,
    image: ImageType,
    verify: bool,
    platform: Platform,
    source: Source,
    chunks: Seq<Seq<u8>>,
    events: Seq<EventView>,
)
    requires
        copies_bytes(image, platform, source),
        read_sizes(source, chunks),
        truthful(
            flasher::run_start(facts, image, verify, platform).0,
            Wire::start(chunks),
            events,
        ),
    ensures
        ({
            let run = flasher::run_start(facts, image, verify, platform).0;
            let end = after(run, events);
            let device = wire_after(run, Wire::start(chunks), events).device;
            &&& end.0.stage is Flashed || end.0.stage is Size || end.0.stage is Verify ==> device
                == content(chunks)
            &&& !laws::no_success(end.1) ==> device == content(chunks)
        }),
{
    let run = flasher::run_start(facts, image, verify, platform).0;
    let wire = Wire::start(chunks);
    assert(wire.device + content(chunks) =~= content(chunks));
    run_loses_nothing(run, source, wire, content(chunks), events);
}

} // verus!
