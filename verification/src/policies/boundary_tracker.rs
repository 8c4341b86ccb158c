//! The command-block boundary tracker. Takes the ordered stream of identified lines, OSC 133
//! markers and screen transitions the terminal engine emits, and says where each command
//! block begins and ends and which region every line fell in.
//!
//! It cuts; it never extracts and never filters. Items pass through unchanged except for the
//! region label: same id, same text, same revision, in the same order.

use vstd::prelude::*;
use vstd::std_specs::iter::IteratorSpec;

use crate::entities::{ExitCode, LineId, LineRevision, Osc133Marker, Screen, TerminalItem};

verus! {

broadcast use vstd::std_specs::vec::group_vec_axioms;

/// Where a piece of text fell relative to the markers around it.
#[derive(Debug, Clone, Copy, PartialEq, Eq, Structural)]
pub enum Region {
    /// No block context at all: before the first marker, in a session whose integration never
    /// appeared, or between a command's end and the next prompt.
    Unstructured,
    /// A..B: the prompt the shell drew.
    Prompt,
    /// B..C: the shell's echo of the submitted line.
    CommandLine,
    /// C..D: the command's output. The only region that is block content.
    Output,
}

impl Default for Region {
    fn default() -> (r: Self)
        ensures
            r == Region::Unstructured,
    {
        Region::Unstructured
    }
}

/// What the tracker concluded about one item.
#[derive(Debug, PartialEq, Eq)]
pub enum BoundaryEvent {
    /// The first marker of the session arrived: shell integration is present. Fires once.
    MarkersObserved,
    /// A command's output region opened.
    BlockStarted,
    /// One line item, labelled with the region it fell in.
    Line { region: Region, id: LineId, text: String, revision: LineRevision },
    /// The open block closed. `exit` is `None` when the end was not a `D` carrying a code.
    BlockEnded { exit: Option<ExitCode> },
    /// The emulator switched screens, passed through at its place in the stream.
    ScreenChanged(Screen),
}

/// The tracker's whole state: the current region, and whether a marker was ever seen.
pub struct Boundaries {
    pub region: Region,
    pub markers_seen: bool,
}

/// One session's boundary state machine. A block being open is exactly `region == Output`.
#[derive(Debug)]
pub struct BoundaryTracker {
    region: Region,
    markers_seen: bool,
}

impl View for BoundaryTracker {
    type V = Boundaries;

    closed spec fn view(&self) -> Boundaries {
        Boundaries { region: self.region, markers_seen: self.markers_seen }
    }
}

pub open spec fn end_open(region: Region, exit: Option<ExitCode>) -> Seq<BoundaryEvent> {
    if region == Region::Output {
        seq![BoundaryEvent::BlockEnded { exit }]
    } else {
        seq![]
    }
}

/// What one marker does: the new region, and the events it concluded.
pub open spec fn marker_step(t: Boundaries, marker: Osc133Marker) -> (Boundaries, Seq<
    BoundaryEvent,
>) {
    let first: Seq<BoundaryEvent> = if !t.markers_seen {
        seq![BoundaryEvent::MarkersObserved]
    } else {
        seq![]
    };
    let (region, said) = match marker {
        Osc133Marker::PromptStart => (Region::Prompt, end_open(t.region, None)),
        Osc133Marker::CommandStart => (Region::CommandLine, end_open(t.region, None)),
        Osc133Marker::OutputStart => if t.region != Region::Output {
            (Region::Output, seq![BoundaryEvent::BlockStarted])
        } else {
            (t.region, seq![])
        },
        Osc133Marker::CommandEnd(exit) => if t.region == Region::Output {
            (Region::Unstructured, seq![BoundaryEvent::BlockEnded { exit }])
        } else {
            (t.region, seq![])
        },
    };
    (Boundaries { region, markers_seen: true }, first + said)
}

pub open spec fn item_step(t: Boundaries, item: TerminalItem) -> (Boundaries, Seq<BoundaryEvent>) {
    match item {
        TerminalItem::Line { id, text, revision } => (
            t,
            seq![BoundaryEvent::Line { region: t.region, id, text, revision }],
        ),
        TerminalItem::Marker(marker) => marker_step(t, marker),
        TerminalItem::ScreenChanged(screen) => (t, seq![BoundaryEvent::ScreenChanged(screen)]),
    }
}

/// What a batch does, item by item from the front.
pub open spec fn observed(t: Boundaries, items: Seq<TerminalItem>) -> (Boundaries, Seq<
    BoundaryEvent,
>)
    decreases items.len(),
{
    if items.len() == 0 {
        (t, seq![])
    } else {
        let (before, said) = observed(t, items.drop_last());
        let (after, more) = item_step(before, items.last());
        (after, said + more)
    }
}

impl BoundaryTracker {
    pub fn new() -> (r: Self)
        ensures
            r@ == (Boundaries { region: Region::Unstructured, markers_seen: false }),
    {
        BoundaryTracker { region: Region::Unstructured, markers_seen: false }
    }

    /// The region the next line will fall in.
    pub fn region(&self) -> (r: Region)
        ensures
            r == self@.region,
    {
        self.region
    }

    /// Observes a batch of items and returns what it concluded. State carries across calls:
    /// a marker in one batch governs the lines in the next.
    pub fn observe(&mut self, items: Vec<TerminalItem>) -> (r: Vec<BoundaryEvent>)
        ensures
            final(self)@ == observed(old(self)@, items@).0,
            r@ == observed(old(self)@, items@).1,
    {
        let ghost start = self@;
        let ghost all = items@;
        let mut events: Vec<BoundaryEvent> = Vec::new();
        for item in it: items
            invariant
                it.seq() == all,
                self@ == observed(start, all.take(it.index())).0,
                events@ == observed(start, all.take(it.index())).1,
        {
            proof {
                assert(all.take(it.index() + 1).drop_last() =~= all.take(it.index()));
                assert(all.take(it.index() + 1).last() == item);
            }
            match item {
                TerminalItem::Line { id, text, revision } => {
                    events.push(BoundaryEvent::Line { region: self.region, id, text, revision });
                },
                TerminalItem::Marker(marker) => self.observe_marker(marker, &mut events),
                TerminalItem::ScreenChanged(screen) => {
                    events.push(BoundaryEvent::ScreenChanged(screen));
                },
            }
        }
        assert(all.take(all.len() as int) =~= all);
        events
    }

    fn observe_marker(&mut self, marker: Osc133Marker, events: &mut Vec<BoundaryEvent>)
        ensures
            final(self)@ == marker_step(old(self)@, marker).0,
            final(events)@ == old(events)@ + marker_step(old(self)@, marker).1,
    {
        let ghost before = events@;
        if !self.markers_seen {
            self.markers_seen = true;
            events.push(BoundaryEvent::MarkersObserved);
        }
        let ghost mid = events@;
        match marker {
            Osc133Marker::PromptStart => {
                self.end_open_block(None, events);
                self.region = Region::Prompt;
            },
            Osc133Marker::CommandStart => {
                self.end_open_block(None, events);
                self.region = Region::CommandLine;
            },
            Osc133Marker::OutputStart => {
                if self.region != Region::Output {
                    self.region = Region::Output;
                    events.push(BoundaryEvent::BlockStarted);
                }
            },
            Osc133Marker::CommandEnd(exit) => {
                if self.region == Region::Output {
                    events.push(BoundaryEvent::BlockEnded { exit });
                    self.region = Region::Unstructured;
                }
            },
        }
        assert(events@ =~= before + marker_step(old(self)@, marker).1);
    }

    /// Emits the close for an open block, if one is open. The caller sets the new region.
    fn end_open_block(&self, exit: Option<ExitCode>, events: &mut Vec<BoundaryEvent>)
        ensures
            final(events)@ == old(events)@ + end_open(self.region, exit),
    {
        if self.region == Region::Output {
            events.push(BoundaryEvent::BlockEnded { exit });
        } else {
            assert(old(events)@ + end_open(self.region, exit) =~= old(events)@);
        }
    }
}

impl Default for BoundaryTracker {
    fn default() -> (r: Self)
        ensures
            r@ == (Boundaries { region: Region::Unstructured, markers_seen: false }),
    {
        BoundaryTracker::new()
    }
}

// --- What a batch keeps of its items ------------------------------------------------------

/// The items that are not markers, in order: what must come out again.
pub open spec fn unmarked(items: Seq<TerminalItem>) -> Seq<TerminalItem>
    decreases items.len(),
{
    if items.len() == 0 {
        seq![]
    } else {
        unmarked(items.drop_last()) + match items.last() {
            TerminalItem::Marker(_) => seq![],
            other => seq![other],
        }
    }
}

/// The events that carry an item, turned back into that item, in order.
pub open spec fn relayed(events: Seq<BoundaryEvent>) -> Seq<TerminalItem>
    decreases events.len(),
{
    if events.len() == 0 {
        seq![]
    } else {
        relayed(events.drop_last()) + match events.last() {
            BoundaryEvent::Line { id, text, revision, .. } => seq![
                TerminalItem::Line { id, text, revision },
            ],
            BoundaryEvent::ScreenChanged(screen) => seq![TerminalItem::ScreenChanged(screen)],
            _ => seq![],
        }
    }
}

pub proof fn lemma_relayed_concat(a: Seq<BoundaryEvent>, b: Seq<BoundaryEvent>)
    ensures
        relayed(a + b) == relayed(a) + relayed(b),
    decreases b.len(),
{
    if b.len() == 0 {
        assert(a + b =~= a);
        assert(relayed(a) + relayed(b) =~= relayed(a));
    } else {
        lemma_relayed_concat(a, b.drop_last());
        assert((a + b).drop_last() =~= a + b.drop_last());
        assert((a + b).last() == b.last());
        assert(relayed(a) + relayed(b.drop_last()) + relayed(b).subrange(
            relayed(b.drop_last()).len() as int,
            relayed(b).len() as int,
        ) =~= relayed(a) + relayed(b));
    }
}

pub proof fn lemma_marker_relays_nothing(t: Boundaries, marker: Osc133Marker)
    ensures
        relayed(marker_step(t, marker).1) == Seq::<TerminalItem>::empty(),
{
    let said = marker_step(t, marker).1;
    reveal_with_fuel(relayed, 4);
    assert(said.len() <= 2);
    if said.len() == 2 {
        assert(said.drop_last().drop_last() =~= seq![]);
    }
    if said.len() == 1 {
        assert(said.drop_last() =~= seq![]);
    }
}

/// Nothing is lost: every item that is not a marker comes out, in order, carrying the same
/// id, the same text and the same revision it went in with; screen changes are relayed on the
/// same terms. The tracker adds a label and nothing else.
pub proof fn lemma_items_pass_through(t: Boundaries, items: Seq<TerminalItem>)
    ensures
        relayed(observed(t, items).1) == unmarked(items),
    decreases items.len(),
{
    if items.len() > 0 {
        lemma_items_pass_through(t, items.drop_last());
        let (before, said) = observed(t, items.drop_last());
        let more = item_step(before, items.last()).1;
        lemma_relayed_concat(said, more);
        match items.last() {
            TerminalItem::Marker(marker) => {
                lemma_marker_relays_nothing(before, marker);
                assert(unmarked(items.drop_last()) + seq![] =~= unmarked(items.drop_last()));
            },
            TerminalItem::Line { .. } => {
                reveal_with_fuel(relayed, 2);
                assert(more.drop_last() =~= seq![]);
            },
            TerminalItem::ScreenChanged(_) => {
                reveal_with_fuel(relayed, 2);
                assert(more.drop_last() =~= seq![]);
            },
        }
    }
}

// --- Blocks are balanced ----------------------------------------------------------------

/// Walks the events with a block open or not: `None` when a block starts while one is open
/// or ends while none is, else whether one is open at the end.
pub open spec fn balanced(events: Seq<BoundaryEvent>, open: bool) -> Option<bool>
    decreases events.len(),
{
    if events.len() == 0 {
        Some(open)
    } else {
        match balanced(events.drop_last(), open) {
            None => None,
            Some(was) => match events.last() {
                BoundaryEvent::BlockStarted => if was {
                    None
                } else {
                    Some(true)
                },
                BoundaryEvent::BlockEnded { .. } => if was {
                    Some(false)
                } else {
                    None
                },
                _ => Some(was),
            },
        }
    }
}

pub proof fn lemma_balanced_concat(a: Seq<BoundaryEvent>, b: Seq<BoundaryEvent>, open: bool)
    ensures
        balanced(a + b, open) == match balanced(a, open) {
            None => None,
            Some(mid) => balanced(b, mid),
        },
    decreases b.len(),
{
    if b.len() == 0 {
        assert(a + b =~= a);
    } else {
        lemma_balanced_concat(a, b.drop_last(), open);
        assert((a + b).drop_last() =~= a + b.drop_last());
        assert((a + b).last() == b.last());
    }
}

pub proof fn lemma_step_balanced(t: Boundaries, item: TerminalItem)
    ensures
        balanced(item_step(t, item).1, t.region == Region::Output) == Some(
            item_step(t, item).0.region == Region::Output,
        ),
{
    let said = item_step(t, item).1;
    reveal_with_fuel(balanced, 4);
    assert(said.len() <= 2);
    if said.len() == 2 {
        assert(said.drop_last().drop_last() =~= seq![]);
    }
    if said.len() == 1 {
        assert(said.drop_last() =~= seq![]);
    }
}

/// Blocks are balanced and never nest: a block starts only while none is open, ends only
/// while one is, and the walk ends exactly where the tracker's region says.
pub proof fn lemma_blocks_are_balanced(t: Boundaries, items: Seq<TerminalItem>)
    ensures
        balanced(observed(t, items).1, t.region == Region::Output) == Some(
            observed(t, items).0.region == Region::Output,
        ),
    decreases items.len(),
{
    if items.len() > 0 {
        lemma_blocks_are_balanced(t, items.drop_last());
        let (before, said) = observed(t, items.drop_last());
        lemma_step_balanced(before, items.last());
        lemma_balanced_concat(said, item_step(before, items.last()).1, t.region == Region::Output);
    }
}

// --- The first marker is announced once --------------------------------------------------

pub open spec fn observations(events: Seq<BoundaryEvent>) -> nat
    decreases events.len(),
{
    if events.len() == 0 {
        0
    } else {
        observations(events.drop_last()) + if events.last() is MarkersObserved {
            1nat
        } else {
            0nat
        }
    }
}

pub open spec fn has_marker(items: Seq<TerminalItem>) -> bool {
    exists|i: int| 0 <= i < items.len() && #[trigger] items[i] is Marker
}

pub proof fn lemma_observations_concat(a: Seq<BoundaryEvent>, b: Seq<BoundaryEvent>)
    ensures
        observations(a + b) == observations(a) + observations(b),
    decreases b.len(),
{
    if b.len() == 0 {
        assert(a + b =~= a);
    } else {
        lemma_observations_concat(a, b.drop_last());
        assert((a + b).drop_last() =~= a + b.drop_last());
    }
}

pub proof fn lemma_step_observations(t: Boundaries, item: TerminalItem)
    ensures
        observations(item_step(t, item).1) == if !t.markers_seen && item is Marker {
            1nat
        } else {
            0nat
        },
        item_step(t, item).0.markers_seen == (t.markers_seen || item is Marker),
{
    let said = item_step(t, item).1;
    reveal_with_fuel(observations, 4);
    assert(said.len() <= 3);
    if said.len() == 3 {
        assert(said.drop_last().drop_last().drop_last() =~= seq![]);
    }
    if said.len() == 2 {
        assert(said.drop_last().drop_last() =~= seq![]);
    }
    if said.len() == 1 {
        assert(said.drop_last() =~= seq![]);
    }
}

/// `MarkersObserved` fires at most once over the life of a tracker, and only when a marker
/// arrived: exactly once for the batch holding the session's first marker.
pub proof fn lemma_markers_observed_once(t: Boundaries, items: Seq<TerminalItem>)
    ensures
        observations(observed(t, items).1) == if !t.markers_seen && has_marker(items) {
            1nat
        } else {
            0nat
        },
        observed(t, items).0.markers_seen == (t.markers_seen || has_marker(items)),
    decreases items.len(),
{
    if items.len() > 0 {
        lemma_markers_observed_once(t, items.drop_last());
        let (before, said) = observed(t, items.drop_last());
        lemma_step_observations(before, items.last());
        lemma_observations_concat(said, item_step(before, items.last()).1);
        if has_marker(items.drop_last()) {
            let i = choose|i: int| 0 <= i < items.drop_last().len() && #[trigger] items.drop_last()[i] is Marker;
            assert(items[i] is Marker);
        }
        if has_marker(items) && !has_marker(items.drop_last()) {
            let i = choose|i: int| 0 <= i < items.len() && #[trigger] items[i] is Marker;
            if i < items.len() - 1 {
                assert(items.drop_last()[i] is Marker);
            }
        }
        if items.last() is Marker {
            assert(items[items.len() - 1] is Marker);
        }
    } else {
        assert(!has_marker(items));
    }
}


/// What observing batches one call after another does, call by call from the first.
pub open spec fn observed_in_turn(t: Boundaries, batches: Seq<Seq<TerminalItem>>) -> (Boundaries, Seq<BoundaryEvent>)
    decreases batches.len(),
{
    if batches.len() == 0 {
        (t, seq![])
    } else {
        let (before, said) = observed_in_turn(t, batches.drop_last());
        let (after, more) = observed(before, batches.last());
        (after, said + more)
    }
}

/// Whether some batch holds a marker.
pub open spec fn any_marker(batches: Seq<Seq<TerminalItem>>) -> bool {
    exists|i: int| 0 <= i < batches.len() && has_marker(#[trigger] batches[i])
}

/// Whether `MarkersObserved` is among `events`, before position `k`.
pub open spec fn told_markers_before(events: Seq<BoundaryEvent>, k: int) -> bool {
    exists|j: int| 0 <= j < k && j < events.len() && (#[trigger] events[j]) is MarkersObserved
}

/// Whether every block event in `events` comes after a `MarkersObserved`.
pub open spec fn blocks_follow_markers(events: Seq<BoundaryEvent>) -> bool {
    forall|k: int|
        0 <= k < events.len() && ((#[trigger] events[k]) is BlockStarted || events[k] is BlockEnded)
            ==> told_markers_before(events, k)
}

proof fn lemma_told_markers_extends(a: Seq<BoundaryEvent>, b: Seq<BoundaryEvent>, k: int)
    requires
        told_markers_before(a, k),
        k <= a.len(),
    ensures
        told_markers_before(a + b, k),
{
    let j = choose|j: int| 0 <= j < k && j < a.len() && (#[trigger] a[j]) is MarkersObserved;
    assert((a + b)[j] == a[j]);
}

proof fn lemma_step_follows(t: Boundaries, item: TerminalItem, earlier: Seq<BoundaryEvent>)
    requires
        blocks_follow_markers(earlier),
        t.markers_seen ==> told_markers_before(earlier, earlier.len() as int),
    ensures
        blocks_follow_markers(earlier + item_step(t, item).1),
        item_step(t, item).0.markers_seen ==> told_markers_before(
            earlier + item_step(t, item).1,
            (earlier + item_step(t, item).1).len() as int,
        ),
{
    let more = item_step(t, item).1;
    let all = earlier + more;
    assert forall|k: int|
        0 <= k < all.len() && ((#[trigger] all[k]) is BlockStarted || all[k] is BlockEnded) implies told_markers_before(
        all,
        k,
    ) by {
        if k < earlier.len() {
            assert(all[k] == earlier[k]);
            lemma_told_markers_extends(earlier, more, k);
        } else {
            assert(all[k] == more[k - earlier.len()]);
            if t.markers_seen {
                lemma_told_markers_extends(earlier, more, earlier.len() as int);
                let j = choose|j: int| 0 <= j < earlier.len() && j < all.len() && (#[trigger] all[j]) is MarkersObserved;
                assert(told_markers_before(all, k));
            } else {
                assert(more[0] is MarkersObserved);
                assert(all[earlier.len() as int] == more[0]);
                assert(k > earlier.len());
                assert(told_markers_before(all, k));
            }
        }
    }
    if item_step(t, item).0.markers_seen {
        if t.markers_seen {
            lemma_told_markers_extends(earlier, more, earlier.len() as int);
        } else {
            assert(all[earlier.len() as int] == more[0]);
            assert(told_markers_before(all, all.len() as int));
        }
    }
}

proof fn lemma_batch_follows(t: Boundaries, items: Seq<TerminalItem>, earlier: Seq<BoundaryEvent>)
    requires
        blocks_follow_markers(earlier),
        t.markers_seen ==> told_markers_before(earlier, earlier.len() as int),
    ensures
        blocks_follow_markers(earlier + observed(t, items).1),
        observed(t, items).0.markers_seen ==> told_markers_before(
            earlier + observed(t, items).1,
            (earlier + observed(t, items).1).len() as int,
        ),
    decreases items.len(),
{
    if items.len() == 0 {
        assert(earlier + observed(t, items).1 =~= earlier);
    } else {
        lemma_batch_follows(t, items.drop_last(), earlier);
        let (before, said) = observed(t, items.drop_last());
        lemma_step_follows(before, items.last(), earlier + said);
        assert(earlier + said + item_step(before, items.last()).1 =~= earlier + observed(t, items).1);
    }
}

/// However a session's output is cut into reads, a tracker that has seen no marker yet tells
/// of markers once over all the reads if any of them held a marker, and never otherwise; and
/// no block starts or ends before it has told of them.
pub proof fn lemma_markers_observed_once_across_reads(t: Boundaries, batches: Seq<Seq<TerminalItem>>)
    requires
        !t.markers_seen,
    ensures
        observations(observed_in_turn(t, batches).1) == if any_marker(batches) {
            1nat
        } else {
            0nat
        },
        observed_in_turn(t, batches).0.markers_seen == any_marker(batches),
        blocks_follow_markers(observed_in_turn(t, batches).1),
        any_marker(batches) ==> told_markers_before(
            observed_in_turn(t, batches).1,
            observed_in_turn(t, batches).1.len() as int,
        ),
    decreases batches.len(),
{
    if batches.len() > 0 {
        let prefix = batches.drop_last();
        lemma_markers_observed_once_across_reads(t, prefix);
        let (before, said) = observed_in_turn(t, prefix);
        let last = batches.last();
        lemma_markers_observed_once(before, last);
        lemma_observations_concat(said, observed(before, last).1);
        lemma_batch_follows(before, last, said);
        if any_marker(prefix) {
            let i = choose|i: int| 0 <= i < prefix.len() && has_marker(#[trigger] prefix[i]);
            assert(batches[i] == prefix[i]);
        }
        if has_marker(last) {
            assert(batches[batches.len() - 1] == last);
        }
        if any_marker(batches) && !any_marker(prefix) {
            let i = choose|i: int| 0 <= i < batches.len() && has_marker(#[trigger] batches[i]);
            if i < batches.len() - 1 {
                assert(prefix[i] == batches[i]);
            }
        }
    } else {
        assert(!any_marker(batches));
        assert(blocks_follow_markers(seq![]));
    }
}


/// A batch that holds no marker tells of no boundary: only its lines and screen changes.
pub proof fn lemma_unmarked_batch_tells_no_boundary(t: Boundaries, items: Seq<TerminalItem>)
    requires
        !has_marker(items),
    ensures
        forall|k: int|
            0 <= k < observed(t, items).1.len() ==> (#[trigger] observed(t, items).1[k]) is Line
                || observed(t, items).1[k] is ScreenChanged,
    decreases items.len(),
{
    if items.len() > 0 {
        let rest = items.drop_last();
        if has_marker(rest) {
            let i = choose|i: int| 0 <= i < rest.len() && #[trigger] rest[i] is Marker;
            assert(items[i] is Marker);
        }
        lemma_unmarked_batch_tells_no_boundary(t, rest);
        assert(!(items[items.len() - 1] is Marker));
        let (before, said) = observed(t, rest);
        let more = item_step(before, items.last()).1;
        assert forall|k: int| 0 <= k < (said + more).len() implies (#[trigger] (said + more)[k]) is Line
            || (said + more)[k] is ScreenChanged by {
            if k < said.len() {
                assert((said + more)[k] == said[k]);
            } else {
                assert((said + more)[k] == more[k - said.len()]);
            }
        }
    }
}

} // verus!
