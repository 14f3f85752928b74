//! Rows of the event tables and the handling of what a lookup returns.

use vstd::prelude::*;

verus! {

/// A Matrix event as the event table records it.
#[derive(Debug)]
pub struct Event {
    pub event_id: String,
    /// The kind of event: `message` or `member`.
    pub ty: String,
    /// When the server received it, in milliseconds since the Unix epoch.
    pub timestamp: i64,
}

/// A table and the type of its rows.
pub trait TableAssociatedType {
    type Model;
}

/// What a single-row lookup came back with.
pub enum RowLookup<T, E> {
    Found(T),
    NoRows,
    Failed(E),
}

/// A lookup that found no row is an absent row; any other failure stays an
/// error.
pub fn handle_query_row_result<T, E>(lookup: RowLookup<T, E>) -> (r: Result<Option<T>, E>)
    ensures
        match lookup {
            RowLookup::Found(row) => r == Ok::<Option<T>, E>(Some(row)),
            RowLookup::NoRows => r == Ok::<Option<T>, E>(None),
            RowLookup::Failed(e) => r == Err::<Option<T>, E>(e),
        },
{
    match lookup {
        RowLookup::Found(row) => Ok(Some(row)),
        RowLookup::NoRows => Ok(None),
        RowLookup::Failed(e) => Err(e),
    }
}

/// Whether the event table already holds the event that a lookup by its id
/// returned.
pub fn query_event_is_in_db(queried: &Option<Event>) -> (r: bool)
    ensures
        r == queried.is_some(),
{
    match queried {
        Some(_) => true,
        None => false,
    }
}

/// What the event handlers do with an incoming event.
#[derive(Clone, Copy, Debug, PartialEq, Eq)]
pub enum EventIntake {
    /// The event is already recorded: it is history that a sync delivered
    /// again, and is left alone.
    Skip,
    /// Record the event, then handle it.
    RecordAndHandle,
}

/// An event is handled unless it is already recorded.
pub open spec fn intake_decision(recorded: bool) -> EventIntake {
    if recorded {
        EventIntake::Skip
    } else {
        EventIntake::RecordAndHandle
    }
}

/// The first step of both event handlers, given what a lookup of the event's
/// id in the event table returned.
pub fn take_in_event(queried: &Option<Event>) -> (r: EventIntake)
    ensures
        r == intake_decision(queried.is_some()),
{
    if query_event_is_in_db(queried) {
        EventIntake::Skip
    } else {
        EventIntake::RecordAndHandle
    }
}

/// The decisions for a run of incoming event ids, starting from the set of
/// ids already recorded: each event is decided by `intake_decision` on
/// whether its id is recorded, and a handled event's id is recorded.
pub open spec fn run_intake(recorded: Set<Seq<char>>, ids: Seq<Seq<char>>) -> Seq<EventIntake>
    decreases ids.len(),
{
    if ids.len() == 0 {
        Seq::empty()
    } else {
        let d = intake_decision(recorded.contains(ids[0]));
        let next = if d == EventIntake::RecordAndHandle {
            recorded.insert(ids[0])
        } else {
            recorded
        };
        seq![d] + run_intake(next, ids.drop_first())
    }
}

/// Each event id is handled at most once: an event is skipped exactly when
/// its id was recorded before the run or came earlier in it. So an id that
/// was recorded is never handled again, and of several events with one id
/// only the first that is not already recorded is handled.
pub proof fn lemma_event_handled_at_most_once(recorded: Set<Seq<char>>, ids: Seq<Seq<char>>)
    ensures
        run_intake(recorded, ids).len() == ids.len(),
        forall|j: int|
            0 <= j < ids.len() ==> ((#[trigger] run_intake(recorded, ids)[j] == EventIntake::Skip)
                <==> (recorded.contains(ids[j]) || exists|i: int| 0 <= i < j && ids[i] == ids[j])),
    decreases ids.len(),
{
    if ids.len() > 0 {
        let d = intake_decision(recorded.contains(ids[0]));
        let next = if d == EventIntake::RecordAndHandle {
            recorded.insert(ids[0])
        } else {
            recorded
        };
        let rest = ids.drop_first();
        lemma_event_handled_at_most_once(next, rest);
        let run = run_intake(recorded, ids);
        assert forall|j: int| 0 <= j < ids.len() implies ((#[trigger] run[j] == EventIntake::Skip)
            <==> (recorded.contains(ids[j]) || exists|i: int| 0 <= i < j && ids[i] == ids[j])) by {
            if j > 0 {
                assert(run[j] == run_intake(next, rest)[j - 1]);
                assert(rest[j - 1] == ids[j]);
                if exists|i: int| 0 <= i < j && ids[i] == ids[j] {
                    let i = choose|i: int| 0 <= i < j && ids[i] == ids[j];
                    if i > 0 {
                        assert(rest[i - 1] == ids[i]);
                    }
                }
                if exists|i: int| 0 <= i < j - 1 && #[trigger] rest[i] == rest[j - 1] {
                    let i = choose|i: int| 0 <= i < j - 1 && #[trigger] rest[i] == rest[j - 1];
                    assert(ids[i + 1] == rest[i]);
                }
            }
        }
    }
}

} // verus!
