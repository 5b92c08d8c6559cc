//! Relay of grabbed touchpad frames onto a virtual clone of the touchpad.
//!
//! While the NumberPad holds the touchpad, frames are withheld from the
//! moment a finger lands until it is clear whether the touch points or types.
//! A pointing touch is committed: the backlog is replayed at once and later
//! frames go out live. A typing touch is reset and its frames are dropped.
//! A backlog that outgrows [`MAX_HELD_EVENTS`] (a finger resting on the pad)
//! is thrown away instead of being replayed.

use crate::geraet::{an_geraet_senden, Geraet};
use evdev::uinput::VirtualDevice;
use vstd::prelude::*;

verus! {

/// Event type `EV_SYN` of the kernel input protocol.
pub const EV_SYN: u16 = 0;

/// Event type `EV_KEY` of the kernel input protocol.
pub const EV_KEY: u16 = 1;

/// Event type `EV_ABS` of the kernel input protocol.
pub const EV_ABS: u16 = 3;

/// Code `SYN_REPORT` of an `EV_SYN` event: the end of a frame.
pub const SYN_REPORT: u16 = 0;

/// Ceiling on withheld events, about four seconds of a jittering contact.
pub const MAX_HELD_EVENTS: usize = 2048;

/// One input event, as type, code and value.
#[derive(Clone, Copy, Debug, PartialEq, Eq, Structural)]
pub struct Ereignis {
    pub typ: u16,
    pub code: u16,
    pub wert: i32,
}

/// The frame separator `EV_SYN / SYN_REPORT / 0`.
pub open spec fn syn_ereignis() -> Ereignis {
    Ereignis { typ: EV_SYN, code: SYN_REPORT, wert: 0 }
}

/// Builds the frame separator kept between withheld frames.
pub fn syn_report() -> (e: Ereignis)
    ensures
        e == syn_ereignis(),
{
    Ereignis { typ: EV_SYN, code: SYN_REPORT, wert: 0 }
}

/// Only key and absolute-axis events are relayed: the clone advertises nothing else.
pub open spec fn relaisfaehig(e: Ereignis) -> bool {
    e.typ == EV_KEY || e.typ == EV_ABS
}

/// The state of the relay's buffers.
pub struct PufferModell {
    /// Events of the frame currently being read, without its `SYN_REPORT`.
    pub frame: Seq<Ereignis>,
    /// Completed frames withheld while the verdict on the touch is open.
    pub held: Seq<Ereignis>,
    /// The backlog outgrew the ceiling and was thrown away.
    pub stalled: bool,
    /// The touch is committed to pointing; frames go out live.
    pub forwarding: bool,
}

/// The state at the start of a touch.
pub open spec fn leerer_puffer() -> PufferModell {
    PufferModell { frame: Seq::empty(), held: Seq::empty(), stalled: false, forwarding: false }
}

impl PufferModell {
    /// What every reachable state satisfies.
    pub open spec fn wf(self) -> bool {
        &&& self.held.len() <= MAX_HELD_EVENTS
        &&& self.stalled ==> self.held.len() == 0
        &&& self.forwarding ==> self.held.len() == 0
        &&& forall|i: int| 0 <= i < self.frame.len() ==> relaisfaehig(#[trigger] self.frame[i])
    }
}

/// Recording one event of the frame being read.
pub open spec fn push_spec(s: PufferModell, e: Ereignis) -> PufferModell {
    if relaisfaehig(e) {
        PufferModell { frame: s.frame.push(e), ..s }
    } else {
        s
    }
}

/// Closing the frame at its `SYN_REPORT`: the new state, and the events sent
/// out now, if any.
pub open spec fn end_frame_spec(s: PufferModell) -> (PufferModell, Option<Seq<Ereignis>>) {
    if s.frame.len() == 0 {
        (s, None)
    } else if s.forwarding {
        (PufferModell { frame: Seq::empty(), ..s }, Some(s.frame))
    } else if s.stalled {
        (PufferModell { frame: Seq::empty(), ..s }, None)
    } else {
        let h = s.held + s.frame.push(syn_ereignis());
        if h.len() > MAX_HELD_EVENTS {
            (PufferModell { frame: Seq::empty(), held: Seq::empty(), stalled: true, ..s }, None)
        } else {
            (PufferModell { frame: Seq::empty(), held: h, ..s }, None)
        }
    }
}

/// Declaring the touch to be pointing: the new state, and the replayed
/// backlog, if any (without its trailing separator, which the device adds).
pub open spec fn commit_spec(s: PufferModell) -> (PufferModell, Option<Seq<Ereignis>>) {
    if s.forwarding {
        (s, None)
    } else if s.stalled || s.held.len() == 0 {
        (PufferModell { held: Seq::empty(), forwarding: true, ..s }, None)
    } else {
        (PufferModell { held: Seq::empty(), forwarding: true, ..s }, Some(s.held.drop_last()))
    }
}

/// The withheld backlog of a sequence of complete frames: each frame followed
/// by its separator.
pub open spec fn verbinden(fs: Seq<Seq<Ereignis>>) -> Seq<Ereignis>
    decreases fs.len(),
{
    if fs.len() == 0 {
        Seq::empty()
    } else {
        verbinden(fs.drop_last()) + fs.last().push(syn_ereignis())
    }
}

/// Recording the events `es` in order.
pub open spec fn einspeisen(s: PufferModell, es: Seq<Ereignis>) -> PufferModell
    decreases es.len(),
{
    if es.len() == 0 {
        s
    } else {
        push_spec(einspeisen(s, es.drop_last()), es.last())
    }
}

/// Reading the frames `fs` in order, each closed by its `SYN_REPORT`.
pub open spec fn frames_einspeisen(s: PufferModell, fs: Seq<Seq<Ereignis>>) -> PufferModell
    decreases fs.len(),
{
    if fs.len() == 0 {
        s
    } else {
        end_frame_spec(einspeisen(frames_einspeisen(s, fs.drop_last()), fs.last())).0
    }
}

/// Every event of every frame is relayed and no frame is empty.
pub open spec fn frames_relaisfaehig(fs: Seq<Seq<Ereignis>>) -> bool {
    forall|k: int|
        0 <= k < fs.len() ==> {
            &&& (#[trigger] fs[k]).len() > 0
            &&& forall|i: int| 0 <= i < fs[k].len() ==> relaisfaehig(#[trigger] fs[k][i])
        }
}


/// Recording relayable events appends them to the frame being read.
proof fn lemma_einspeisen(s: PufferModell, es: Seq<Ereignis>)
    requires
        forall|i: int| 0 <= i < es.len() ==> relaisfaehig(#[trigger] es[i]),
    ensures
        einspeisen(s, es) == (PufferModell { frame: s.frame + es, ..s }),
    decreases es.len(),
{
    if es.len() == 0 {
        assert(s.frame + es =~= s.frame);
    } else {
        let kurz = es.drop_last();
        assert forall|i: int| 0 <= i < kurz.len() implies relaisfaehig(#[trigger] kurz[i]) by {
            assert(kurz[i] == es[i]);
        }
        lemma_einspeisen(s, kurz);
        assert(relaisfaehig(es[es.len() - 1]));
        assert((s.frame + kurz).push(es.last()) =~= s.frame + es);
    }
}

/// Reading complete frames from the start of a touch either withholds all of
/// them, separators included, or, once the backlog has outgrown the ceiling,
/// none of them.
proof fn lemma_frames_einspeisen(fs: Seq<Seq<Ereignis>>)
    requires
        frames_relaisfaehig(fs),
    ensures
        frames_einspeisen(leerer_puffer(), fs) == (if verbinden(fs).len() <= MAX_HELD_EVENTS {
            PufferModell { held: verbinden(fs), ..leerer_puffer() }
        } else {
            PufferModell { stalled: true, ..leerer_puffer() }
        }),
    decreases fs.len(),
{
    if fs.len() > 0 {
        let kurz = fs.drop_last();
        assert forall|k: int| 0 <= k < kurz.len() implies {
            &&& (#[trigger] kurz[k]).len() > 0
            &&& forall|i: int| 0 <= i < kurz[k].len() ==> relaisfaehig(#[trigger] kurz[k][i])
        } by {
            assert(kurz[k] == fs[k]);
        }
        lemma_frames_einspeisen(kurz);
        let letzter = fs.last();
        assert(letzter == fs[fs.len() - 1]);
        assert forall|i: int| 0 <= i < letzter.len() implies relaisfaehig(#[trigger] letzter[i]) by {
            assert(letzter[i] == fs[fs.len() - 1][i]);
        }
        let vorher = frames_einspeisen(leerer_puffer(), kurz);
        lemma_einspeisen(vorher, letzter);
        assert(Seq::<Ereignis>::empty() + letzter =~= letzter);
    }
}

/// Replay law: when a touch whose frames stayed within the ceiling is
/// committed, exactly those frames are replayed, in order and with their
/// separators, except the last separator, which the device itself appends.
pub proof fn gesetz_wiedergabe(fs: Seq<Seq<Ereignis>>)
    requires
        fs.len() > 0,
        frames_relaisfaehig(fs),
        verbinden(fs).len() <= MAX_HELD_EVENTS,
    ensures
        commit_spec(frames_einspeisen(leerer_puffer(), fs)).1 == Some(verbinden(fs).drop_last()),
        commit_spec(frames_einspeisen(leerer_puffer(), fs)).0.forwarding,
{
    lemma_frames_einspeisen(fs);
}

/// Stall law: once the withheld frames of a touch outgrow the ceiling,
/// committing that touch replays nothing.
pub proof fn gesetz_stau(fs: Seq<Seq<Ereignis>>)
    requires
        frames_relaisfaehig(fs),
        verbinden(fs).len() > MAX_HELD_EVENTS,
    ensures
        commit_spec(frames_einspeisen(leerer_puffer(), fs)).1 == None::<Seq<Ereignis>>,
        frames_einspeisen(leerer_puffer(), fs).stalled,
{
    lemma_frames_einspeisen(fs);
}

/// Live law: after a commit, each further frame goes out on its own as soon
/// as its `SYN_REPORT` arrives, and nothing is withheld.
pub proof fn gesetz_live(s: PufferModell, es: Seq<Ereignis>)
    requires
        s.forwarding,
        s.frame.len() == 0,
        es.len() > 0,
        forall|i: int| 0 <= i < es.len() ==> relaisfaehig(#[trigger] es[i]),
    ensures
        end_frame_spec(einspeisen(s, es)).1 == Some(es),
        end_frame_spec(einspeisen(s, es)).0 == s,
{
    lemma_einspeisen(s, es);
    assert(s.frame + es =~= es);
    assert(Seq::<Ereignis>::empty() =~= s.frame);
}

/// A commit is final: committing a second time replays nothing and changes nothing.
pub proof fn gesetz_commit_einmalig(s: PufferModell)
    ensures
        commit_spec(commit_spec(s).0) == (commit_spec(s).0, None::<Seq<Ereignis>>),
{
}

/// Every operation keeps the relay's state well formed.
pub proof fn gesetz_wohlgeformt(s: PufferModell, e: Ereignis)
    requires
        s.wf(),
    ensures
        push_spec(s, e).wf(),
        end_frame_spec(s).0.wf(),
        commit_spec(s).0.wf(),
        leerer_puffer().wf(),
{
    let p = push_spec(s, e);
    assert forall|i: int| 0 <= i < p.frame.len() implies relaisfaehig(#[trigger] p.frame[i]) by {
        if i < s.frame.len() {
            assert(p.frame[i] == s.frame[i]);
        }
    }
}


/// The relay's buffers, apart from the device they feed.
pub struct RelaisPuffer {
    frame: Vec<Ereignis>,
    held: Vec<Ereignis>,
    stalled: bool,
    forwarding: bool,
}

impl View for RelaisPuffer {
    type V = PufferModell;

    closed spec fn view(&self) -> PufferModell {
        PufferModell {
            frame: self.frame@,
            held: self.held@,
            stalled: self.stalled,
            forwarding: self.forwarding,
        }
    }
}

/// The events of an optional batch, as a sequence.
pub open spec fn stapel(b: Option<Vec<Ereignis>>) -> Option<Seq<Ereignis>> {
    match b {
        Some(v) => Some(v@),
        None => None,
    }
}

impl RelaisPuffer {
    #[verifier::type_invariant]
    spec fn puffer_inv(self) -> bool {
        self@.wf()
    }

    /// Empty buffers, at the start of a touch.
    pub fn new() -> (r: Self)
        ensures
            r@ == leerer_puffer(),
            r@.wf(),
    {
        RelaisPuffer { frame: Vec::new(), held: Vec::new(), stalled: false, forwarding: false }
    }

    /// The number of events withheld; the buffers are well formed.
    pub fn zurueckgehalten(&self) -> (n: usize)
        ensures
            n == self@.held.len(),
            self@.wf(),
    {
        proof {
            use_type_invariant(self);
        }
        self.held.len()
    }

    /// Records one event of the frame being read; only key and
    /// absolute-axis events are kept.
    pub fn push(&mut self, event: Ereignis)
        ensures
            final(self)@ == push_spec(old(self)@, event),
            old(self)@.wf(),
            final(self)@.wf(),
    {
        proof {
            use_type_invariant(&*self);
            gesetz_wohlgeformt(self@, event);
        }
        if event.typ == EV_KEY || event.typ == EV_ABS {
            let mut frame: Vec<Ereignis> = Vec::new();
            std::mem::swap(&mut frame, &mut self.frame);
            frame.push(event);
            self.frame = frame;
        }
    }

    /// Closes the frame at its `SYN_REPORT`. Returns the events to send
    /// now: the frame itself once the touch is committed, else nothing.
    pub fn end_frame(&mut self) -> (gesendet: Option<Vec<Ereignis>>)
        ensures
            (final(self)@, stapel(gesendet)) == end_frame_spec(old(self)@),
            old(self)@.wf(),
            final(self)@.wf(),
    {
        proof {
            use_type_invariant(&*self);
            gesetz_wohlgeformt(self@, syn_ereignis());
        }
        if self.frame.len() == 0 {
            return None;
        }
        let mut frame: Vec<Ereignis> = Vec::new();
        std::mem::swap(&mut frame, &mut self.frame);
        if self.forwarding {
            Some(frame)
        } else if self.stalled {
            None
        } else {
            let mut held: Vec<Ereignis> = Vec::new();
            std::mem::swap(&mut held, &mut self.held);
            if frame.len() >= MAX_HELD_EVENTS - held.len() {
                self.stalled = true;
            } else {
                held.append(&mut frame);
                held.push(syn_report());
                assert(held@ =~= old(self)@.held + old(self)@.frame.push(syn_ereignis()));
                self.held = held;
            }
            None
        }
    }

    /// Declares the touch to be pointing. Returns the backlog to replay,
    /// without its trailing separator; later frames go out live.
    pub fn commit(&mut self) -> (gesendet: Option<Vec<Ereignis>>)
        ensures
            (final(self)@, stapel(gesendet)) == commit_spec(old(self)@),
            old(self)@.wf(),
            final(self)@.wf(),
    {
        proof {
            use_type_invariant(&*self);
            gesetz_wohlgeformt(self@, syn_ereignis());
        }
        if self.forwarding {
            return None;
        }
        let mut held: Vec<Ereignis> = Vec::new();
        std::mem::swap(&mut held, &mut self.held);
        self.forwarding = true;
        if self.stalled || held.len() == 0 {
            return None;
        }
        held.pop();
        assert(held@ =~= old(self)@.held.drop_last());
        Some(held)
    }

    /// Ends the touch; whatever is still withheld belongs to a tap and is dropped.
    pub fn reset(&mut self)
        ensures
            final(self)@ == leerer_puffer(),
            final(self)@.wf(),
            old(self)@.wf(),
    {
        proof {
            use_type_invariant(&*self);
        }
        self.frame = Vec::new();
        self.held = Vec::new();
        self.stalled = false;
        self.forwarding = false;
    }
}

/// Replays grabbed touchpad frames onto a virtual clone of the touchpad.
pub struct PointerRelay {
    geraet: Geraet,
    puffer: RelaisPuffer,
    /// A write to the device failed and has not been reported yet.
    schreibfehler: bool,
}

/// What one operation writes to the device and reports: with no batch,
/// nothing is written and the failure note is kept; with a batch, it is
/// written exactly once and a failed write is noted.
pub open spec fn geschrieben_nach(
    alt: Seq<Seq<Ereignis>>,
    neu: Seq<Seq<Ereignis>>,
    alt_erfolge: Seq<bool>,
    neu_erfolge: Seq<bool>,
    alt_fehler: bool,
    neu_fehler: bool,
    stapel: Option<Seq<Ereignis>>,
) -> bool {
    match stapel {
        Some(b) => {
            &&& neu == alt.push(b)
            &&& neu_erfolge.len() == alt_erfolge.len() + 1
            &&& neu_erfolge.drop_last() == alt_erfolge
            &&& neu_fehler == (alt_fehler || !neu_erfolge.last())
        },
        None => {
            &&& neu == alt
            &&& neu_erfolge == alt_erfolge
            &&& neu_fehler == alt_fehler
        },
    }
}

impl PointerRelay {
    /// The state of the relay's buffers.
    pub closed spec fn zustand(&self) -> PufferModell {
        self.puffer@
    }

    /// The batches written to the device so far, in order.
    pub closed spec fn gesendete_stapel(&self) -> Seq<Seq<Ereignis>> {
        self.geraet.geschrieben()
    }

    /// For each write to the device so far, whether it succeeded.
    pub closed spec fn schreiberfolge(&self) -> Seq<bool> {
        self.geraet.erfolge()
    }

    /// A write to the device failed and has not been reported yet.
    pub closed spec fn fehler_offen(&self) -> bool {
        self.schreibfehler
    }

    /// What an operation from `alt` to `self` wrote and reported, given the
    /// batch it was to write.
    pub open spec fn schrieb(&self, alt: &PointerRelay, stapel: Option<Seq<Ereignis>>) -> bool {
        geschrieben_nach(
            alt.gesendete_stapel(),
            self.gesendete_stapel(),
            alt.schreiberfolge(),
            self.schreiberfolge(),
            alt.fehler_offen(),
            self.fehler_offen(),
            stapel,
        )
    }

    /// A relay in front of `device`, the clone of the touchpad.
    pub fn new(device: VirtualDevice) -> (r: Self)
        ensures
            r.zustand() == leerer_puffer(),
            r.zustand().wf(),
            r.gesendete_stapel() == Seq::<Seq<Ereignis>>::empty(),
            r.schreiberfolge() == Seq::<bool>::empty(),
            !r.fehler_offen(),
    {
        PointerRelay { geraet: Geraet::new(device), puffer: RelaisPuffer::new(), schreibfehler: false }
    }

    /// The number of events withheld; the relay's state is well formed.
    pub fn zurueckgehalten(&self) -> (n: usize)
        ensures
            n == self.zustand().held.len(),
            self.zustand().wf(),
    {
        self.puffer.zurueckgehalten()
    }

    /// Reports whether a write to the device failed since the last report,
    /// and clears that.
    pub fn schreibfehler_nehmen(&mut self) -> (r: bool)
        ensures
            r == old(self).fehler_offen(),
            !final(self).fehler_offen(),
            final(self).zustand() == old(self).zustand(),
            final(self).gesendete_stapel() == old(self).gesendete_stapel(),
            final(self).schreiberfolge() == old(self).schreiberfolge(),
    {
        let r = self.schreibfehler;
        self.schreibfehler = false;
        r
    }

    /// Writes a batch to the device, if there is one, and notes a failed write.
    fn senden(&mut self, stapel_opt: Option<Vec<Ereignis>>)
        ensures
            final(self).zustand() == old(self).zustand(),
            final(self).schrieb(old(self), stapel(stapel_opt)),
    {
        if let Some(b) = stapel_opt {
            let ok = an_geraet_senden(&mut self.geraet, &b);
            if !ok {
                self.schreibfehler = true;
            }
            assert(self.geraet.erfolge().drop_last() =~= old(self).geraet.erfolge());
        }
    }

    /// Records one event of the frame being read. Only key and
    /// absolute-axis events are relayed; nothing is written.
    pub fn push(&mut self, event: Ereignis)
        ensures
            final(self).zustand() == push_spec(old(self).zustand(), event),
            final(self).zustand().wf(),
            old(self).zustand().wf(),
            final(self).schrieb(old(self), None),
    {
        self.puffer.push(event);
    }

    /// Closes the frame at its `SYN_REPORT`: written straight out once the
    /// touch is committed to pointing, withheld until then (nothing is
    /// written). A failed write is noted for [`PointerRelay::schreibfehler_nehmen`].
    pub fn end_frame(&mut self)
        ensures
            final(self).zustand() == end_frame_spec(old(self).zustand()).0,
            final(self).zustand().wf(),
            old(self).zustand().wf(),
            final(self).schrieb(old(self), end_frame_spec(old(self).zustand()).1),
    {
        let b = self.puffer.end_frame();
        self.senden(b);
    }

    /// Declares the current touch to be pointing, not typing: the backlog is
    /// written at once, nothing stays withheld, and later frames go out
    /// live. A failed write is noted for [`PointerRelay::schreibfehler_nehmen`].
    pub fn commit(&mut self)
        ensures
            final(self).zustand() == commit_spec(old(self).zustand()).0,
            final(self).zustand().wf(),
            old(self).zustand().wf(),
            final(self).zustand().held.len() == 0,
            final(self).zustand().forwarding,
            final(self).schrieb(old(self), commit_spec(old(self).zustand()).1),
    {
        let b = self.puffer.commit();
        self.senden(b);
    }

    /// Ends the touch. Anything still withheld belongs to a tap that typed a
    /// key, so it is dropped; nothing is written.
    pub fn reset(&mut self)
        ensures
            final(self).zustand() == leerer_puffer(),
            final(self).zustand().wf(),
            old(self).zustand().wf(),
            final(self).schrieb(old(self), None),
    {
        self.puffer.reset();
    }
}

} // verus!
