//! How a run of the pump's actions frames the blocks it opens at the actor: a block is
//! started only while none is open, ended only while one is, and output is sent only into
//! an open block.

use vstd::prelude::*;

use crate::controllers::SessionInput;
use crate::services::session::PumpAction;

verus! {

/// What one action does to whether a block is open: `None` when it starts a block while
/// one is open, ends a block while none is, or sends output while none is.
pub open spec fn frame_one(action: PumpAction, open: bool) -> Option<bool> {
    match action {
        PumpAction::Send(input) => match input {
            SessionInput::CommandStarted { .. } => if open {
                None
            } else {
                Some(true)
            },
            SessionInput::CommandEnded { .. }
            | SessionInput::CommandInterrupted { .. }
            | SessionInput::NothingRan { .. } => if open {
                Some(false)
            } else {
                None
            },
            SessionInput::Output { .. } => if open {
                Some(true)
            } else {
                None
            },
            _ => Some(open),
        },
        _ => Some(open),
    }
}

/// What a run of actions does to whether a block is open, action by action from the front.
pub open spec fn framed(actions: Seq<PumpAction>, open: bool) -> Option<bool>
    decreases actions.len(),
{
    if actions.len() == 0 {
        Some(open)
    } else {
        match framed(actions.drop_last(), open) {
            Some(was) => frame_one(actions.last(), was),
            None => None,
        }
    }
}

/// `after` is `before` with more actions behind it, which take a block from `was` open to
/// `now` open and never start one while one is open, end one while none is, or send output
/// while none is.
pub open spec fn framed_from(before: Seq<PumpAction>, after: Seq<PumpAction>, was: bool, now: bool) -> bool {
    &&& before.len() <= after.len()
    &&& after.take(before.len() as int) == before
    &&& framed(after.skip(before.len() as int), was) == Some(now)
}

pub proof fn lemma_framed_concat(a: Seq<PumpAction>, b: Seq<PumpAction>, open: bool)
    ensures
        framed(a + b, open) == match framed(a, open) {
            Some(o) => framed(b, o),
            None => None,
        },
    decreases b.len(),
{
    if b.len() == 0 {
        assert(a + b =~= a);
    } else {
        assert((a + b).drop_last() =~= a + b.drop_last());
        assert((a + b).last() == b.last());
        lemma_framed_concat(a, b.drop_last(), open);
    }
}

pub broadcast proof fn lemma_framed_chain(
    a: Seq<PumpAction>,
    b: Seq<PumpAction>,
    c: Seq<PumpAction>,
    x: bool,
    y: bool,
    z: bool,
)
    requires
        framed_from(a, b, x, y),
        framed_from(b, c, y, z),
    ensures
        #![trigger framed_from(a, b, x, y), framed_from(b, c, y, z)]
        framed_from(a, c, x, z),
{
    let d1 = b.skip(a.len() as int);
    let d2 = c.skip(b.len() as int);
    assert(c.skip(a.len() as int) =~= d1 + d2) by {
        assert forall|i: int| 0 <= i < c.len() - a.len() implies #[trigger] c.skip(a.len() as int)[i] == (d1 + d2)[i] by {
            if i < d1.len() {
                assert(c.take(b.len() as int)[a.len() + i] == b[a.len() + i]);
            }
        }
    }
    lemma_framed_concat(d1, d2, x);
    assert(c.take(a.len() as int) =~= a) by {
        assert forall|i: int| 0 <= i < a.len() implies #[trigger] c.take(a.len() as int)[i] == a[i] by {
            assert(c.take(b.len() as int)[i] == b[i]);
            assert(b.take(a.len() as int)[i] == a[i]);
        }
    }
}

pub proof fn lemma_framed_still(a: Seq<PumpAction>, x: bool)
    ensures
        framed_from(a, a, x, x),
{
    assert(a.skip(a.len() as int) =~= Seq::<PumpAction>::empty());
    assert(a.take(a.len() as int) =~= a);
}

pub proof fn lemma_framed_push(a: Seq<PumpAction>, action: PumpAction, x: bool)
    requires
        frame_one(action, x) is Some,
    ensures
        framed_from(a, a.push(action), x, frame_one(action, x).unwrap()),
{
    let d = a.push(action).skip(a.len() as int);
    assert(d =~= seq![action]);
    assert(d.drop_last() =~= Seq::<PumpAction>::empty());
    assert(framed(d.drop_last(), x) == Some(x));
    assert(d.last() == action);
    assert(framed(d, x) == frame_one(action, x));
    assert(a.push(action).take(a.len() as int) =~= a);
}

} // verus!
