//! The move dispatcher: one turn of the adapter.  It validates the host's
//! world description into a snapshot, hands the snapshot and the player's
//! persistent session state to the decision routine, stores the session
//! state the routine leaves behind, harvests the announcement slot, and
//! returns the chosen destination.
//!
//! The session is owned by exactly one dispatcher call at a time: taking it
//! as an exclusive reference makes the mutual-exclusion discipline part of
//! the function's type.  On an extraction failure the routine is never
//! entered and the session is left untouched.

use vstd::prelude::*;

use crate::announce::text_view;
use crate::geometry::Pos;
use crate::model::Bot;
use crate::model::bot_wf;
use crate::raw::ExtractError;
use crate::raw::RawState;
use crate::raw::bot_matches;
use crate::raw::build_bot;
use crate::raw::state_complete;
use crate::raw::state_valid;

verus! {

/// The player's persistent session state: created once per process, absent
/// until the decision routine first fills it, and carried unchanged from
/// one turn to the next.
pub struct Session<S> {
    pub value: Option<S>,
}

impl<S> Session<S> {
    /// A fresh session, holding nothing until a decision routine first
    /// stores its state.
    pub fn new() -> (r: Session<S>)
        ensures
            r.value is None,
    {
        Session { value: None }
    }
}

/// What one turn hands back to the host: the chosen destination and the
/// announcement the decision routine left in the slot, if any.
#[derive(Debug)]
pub struct MoveReply {
    pub position: Pos,
    pub announcement: Option<String>,
}

/// Runs one turn.  The decision routine receives the validated snapshot and
/// the session state of the previous turn, and returns its chosen
/// destination, the snapshot (whose announcement slot it may have written),
/// and the session state to keep for the next turn.
///
/// The contract states the turn discipline exactly: extraction succeeds if
/// and only if the host's description is complete and valid; on failure the
/// error names the reason, the session is untouched and no routine output is
/// involved; on success the reply's destination and announcement are the
/// routine's own, the snapshot the routine saw carries the host's values
/// with a fresh announcement slot, and the session holds exactly what the
/// routine left (what turn N leaves is what turn N+1 observes).
pub fn handle_move<S, F: FnOnce(Bot, Option<S>) -> (Pos, Bot, Option<S>)>(
    raw: RawState,
    session: &mut Session<S>,
    routine: F,
) -> (r: Result<MoveReply, ExtractError>)
    requires
        forall|b: Bot, s: Option<S>|
            bot_wf(b) && bot_matches(b, raw) && s == old(session).value ==> call_requires(
                routine,
                (b, s),
            ),
    ensures
        r is Ok <==> state_complete(raw) && state_valid(raw),
        !state_complete(raw) ==> r == Err::<MoveReply, ExtractError>(ExtractError::MissingField),
        state_complete(raw) && !state_valid(raw) ==> r == Err::<MoveReply, ExtractError>(
            ExtractError::ShapeMismatch,
        ),
        r is Err ==> *final(session) == *old(session),
        r is Ok ==> exists|b: Bot, out: (Pos, Bot, Option<S>)|
            {
                &&& bot_wf(b)
                &&& bot_matches(b, raw)
                &&& #[trigger] call_ensures(routine, (b, old(session).value), out)
                &&& r->Ok_0.position == out.0
                &&& text_view(r->Ok_0.announcement) == out.1._say@
                &&& final(session).value == out.2
            },
{
    let bot = match build_bot(raw) {
        Ok(b) => b,
        Err(err) => {
            return Err(err);
        },
    };
    let prev = session.value.take();
    let ghost gbot = bot;
    let ghost gprev = prev;
    let (position, bot_after, next) = routine(bot, prev);
    let ghost gout = (position, bot_after, next);
    session.value = next;
    let announcement = bot_after._say.into_text();
    let reply = MoveReply { position, announcement };
    proof {
        assert(call_ensures(routine, (gbot, gprev), gout));
    }
    Ok(reply)
}

} // verus!
