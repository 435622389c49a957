//! The read-through geocoding cache: a city is looked up in the table first,
//! the geocoding service is asked only for a city that the table lacks, and what
//! the service finds is stored for the next request.
//!
//! The waiting is the caller's. [`step`] makes the decisions in between: the
//! caller starts by reading the table, reports each reply as an [`Event`], and
//! does what the returned [`Action`] says. [`resolve`] runs the same decisions
//! against a [`CityTable`], with the replies of the outside world given up
//! front.

use vstd::prelude::*;
use crate::store::{
    find, inserted, knows, lemma_find_at, lemma_inserted, names_unique, CityTable, Row,
};
use crate::utils::{AppError, ErrorKind, GeoResponse, LatLong};

verus! {

/// Where one request stands.
#[derive(Clone, Copy, Debug, PartialEq, Eq, Structural)]
pub enum Phase {
    /// The table is being read.
    Reading,
    /// The geocoding service is being asked.
    Resolving,
    /// The coordinates that the service gave are being stored.
    Writing(LatLong),
    /// The request has its answer or its error.
    Done,
}

/// What came back from the table or from the geocoding service.
#[derive(Clone, Copy, Debug, PartialEq, Eq, Structural)]
pub enum Event {
    /// The table holds the city.
    Found(LatLong),
    /// The table was read and lacks the city.
    Missing,
    /// The table could not be read.
    ReadFailed,
    /// The service's first match.
    Resolved(LatLong),
    /// The service answered with no match.
    NoMatch,
    /// The service could not be reached, or its answer could not be read.
    ResolverFailed,
    /// The row was stored, or dropped because the name was already there.
    Written,
    /// The table refused the write.
    WriteFailed,
}

/// What the caller has to do next.
#[derive(Clone, Copy, Debug, PartialEq, Eq, Structural)]
pub enum Action {
    /// Ask the geocoding service for the city.
    AskResolver,
    /// Store these coordinates under the city's name, tolerating a name that
    /// is already there.
    Store(LatLong),
    /// Answer the request with these coordinates.
    Answer(LatLong),
    /// Fail the request.
    Fail(ErrorKind),
}

/// One move of a request.
#[derive(Clone, Copy, Debug, PartialEq, Eq, Structural)]
pub struct Transition {
    pub next: Phase,
    pub action: Action,
}

/// The move that `event` causes in `phase`; none where the event cannot occur
/// in that phase.
pub open spec fn step_spec(phase: Phase, event: Event) -> Option<Transition> {
    match (phase, event) {
        (Phase::Reading, Event::Found(c)) => Some(
            Transition { next: Phase::Done, action: Action::Answer(c) },
        ),
        (Phase::Reading, Event::Missing) => Some(
            Transition { next: Phase::Resolving, action: Action::AskResolver },
        ),
        (Phase::Reading, Event::ReadFailed) => Some(
            Transition { next: Phase::Done, action: Action::Fail(ErrorKind::StoreUnavailable) },
        ),
        (Phase::Resolving, Event::Resolved(c)) => Some(
            Transition { next: Phase::Writing(c), action: Action::Store(c) },
        ),
        (Phase::Resolving, Event::NoMatch) => Some(
            Transition { next: Phase::Done, action: Action::Fail(ErrorKind::NotFound) },
        ),
        (Phase::Resolving, Event::ResolverFailed) => Some(
            Transition { next: Phase::Done, action: Action::Fail(ErrorKind::UpstreamUnavailable) },
        ),
        (Phase::Writing(c), Event::Written) => Some(
            Transition { next: Phase::Done, action: Action::Answer(c) },
        ),
        (Phase::Writing(c), Event::WriteFailed) => Some(
            Transition { next: Phase::Done, action: Action::Answer(c) },
        ),
        _ => None,
    }
}

/// The last action after `events` have arrived one by one, starting in
/// `phase`; none where one of them could not occur, or where there are none.
pub open spec fn run_spec(phase: Phase, events: Seq<Event>) -> Option<Action>
    decreases events.len(),
{
    if events.len() == 0 {
        None
    } else {
        match step_spec(phase, events[0]) {
            None => None,
            Some(t) => if events.len() == 1 {
                Some(t.action)
            } else {
                run_spec(t.next, events.drop_first())
            },
        }
    }
}

/// Decides what follows `event` in `phase`.
pub fn step(phase: Phase, event: Event) -> (t: Option<Transition>)
    ensures
        t == step_spec(phase, event),
{
    match phase {
        Phase::Reading => match event {
            Event::Found(c) => Some(Transition { next: Phase::Done, action: Action::Answer(c) }),
            Event::Missing => Some(
                Transition { next: Phase::Resolving, action: Action::AskResolver },
            ),
            Event::ReadFailed => Some(
                Transition { next: Phase::Done, action: Action::Fail(ErrorKind::StoreUnavailable) },
            ),
            _ => None,
        },
        Phase::Resolving => match event {
            Event::Resolved(c) => Some(
                Transition { next: Phase::Writing(c), action: Action::Store(c) },
            ),
            Event::NoMatch => Some(
                Transition { next: Phase::Done, action: Action::Fail(ErrorKind::NotFound) },
            ),
            Event::ResolverFailed => Some(
                Transition {
                    next: Phase::Done,
                    action: Action::Fail(ErrorKind::UpstreamUnavailable),
                },
            ),
            _ => None,
        },
        Phase::Writing(c) => match event {
            Event::Written | Event::WriteFailed => Some(
                Transition { next: Phase::Done, action: Action::Answer(c) },
            ),
            _ => None,
        },
        Phase::Done => None,
    }
}

/// What the geocoding service did with one question.
#[derive(Clone, Copy, Debug, PartialEq, Eq, Structural)]
pub enum ResolverReply {
    /// Its first match.
    Match(LatLong),
    /// An answer without matches.
    NoMatch,
    /// No usable answer.
    Unavailable,
}

impl ResolverReply {
    /// The reply as the event that it is for a request.
    pub open spec fn event_spec(self) -> Event {
        match self {
            ResolverReply::Match(c) => Event::Resolved(c),
            ResolverReply::NoMatch => Event::NoMatch,
            ResolverReply::Unavailable => Event::ResolverFailed,
        }
    }

    /// The reply as the event that it is for a request.
    pub fn event(self) -> (e: Event)
        ensures
            e == self.event_spec(),
    {
        match self {
            ResolverReply::Match(c) => Event::Resolved(c),
            ResolverReply::NoMatch => Event::NoMatch,
            ResolverReply::Unavailable => Event::ResolverFailed,
        }
    }

    /// Reads the service's answer: only the first match counts, and an answer
    /// without matches is a reply of its own, not a failure.
    pub fn from_response(response: &GeoResponse) -> (reply: ResolverReply)
        ensures
            reply == (if response.results@.len() > 0 {
                ResolverReply::Match(response.results@[0])
            } else {
                ResolverReply::NoMatch
            }),
    {
        match response.first_match() {
            Some(c) => ResolverReply::Match(c),
            None => ResolverReply::NoMatch,
        }
    }
}

/// How the world outside answers while one request runs: whether the table can
/// be read, whether it takes a write, and what the geocoding service says when
/// asked.
#[derive(Clone, Copy, Debug, PartialEq, Eq, Structural)]
pub struct Outside {
    pub store_reads: bool,
    pub store_writes: bool,
    pub resolver: ResolverReply,
}

/// True when the request has to ask the geocoding service: the table was read
/// and lacks the city.
pub open spec fn resolver_consulted(rows: Seq<Row>, name: Seq<char>, outside: Outside) -> bool {
    outside.store_reads && find(rows, name).is_none()
}

/// The coordinates that the request is answered with, or why it fails.
pub open spec fn resolve_outcome(rows: Seq<Row>, name: Seq<char>, outside: Outside) -> Result<
    LatLong,
    ErrorKind,
> {
    if !outside.store_reads {
        Err(ErrorKind::StoreUnavailable)
    } else {
        match find(rows, name) {
            Some(c) => Ok(c),
            None => match outside.resolver {
                ResolverReply::Match(c) => Ok(c),
                ResolverReply::NoMatch => Err(ErrorKind::NotFound),
                ResolverReply::Unavailable => Err(ErrorKind::UpstreamUnavailable),
            },
        }
    }
}

/// The table after the request: it grows by one row exactly when the service
/// was asked, found the city, and the table took the write.
pub open spec fn rows_after_resolve(rows: Seq<Row>, name: Seq<char>, outside: Outside) -> Seq<
    Row,
> {
    match outside.resolver {
        ResolverReply::Match(c) => if resolver_consulted(rows, name, outside)
            && outside.store_writes {
            rows.push((name, c))
        } else {
            rows
        },
        _ => rows,
    }
}

/// How one request ended.
#[derive(Debug)]
pub struct Resolution {
    pub outcome: Result<LatLong, AppError>,
    /// Whether the geocoding service was asked.
    pub resolver_called: bool,
}

/// Resolves `name` to coordinates through the table. A city that the table
/// holds is answered from it and the service is not asked. Otherwise the
/// service's reply decides: a match is stored and returned, and it is returned
/// as well where the table refuses the write; no match fails the request as not
/// found and stores nothing. A table that cannot be read fails the request
/// before anything else happens.
pub fn resolve(table: &mut CityTable, name: &str, outside: &Outside) -> (done: Resolution)
    requires
        old(table).wf(),
    ensures
        final(table).wf(),
        final(table)@ == rows_after_resolve(old(table)@, name@, *outside),
        done.resolver_called == resolver_consulted(old(table)@, name@, *outside),
        match done.outcome {
            Ok(c) => resolve_outcome(old(table)@, name@, *outside) == Ok::<LatLong, ErrorKind>(c),
            Err(e) => resolve_outcome(old(table)@, name@, *outside) == Err::<LatLong, ErrorKind>(
                e.kind,
            ) && e.city@ == name@,
        },
{
    let mut phase = Phase::Reading;
    let mut event = if outside.store_reads {
        match table.lookup(name) {
            Some(c) => Event::Found(c),
            None => Event::Missing,
        }
    } else {
        Event::ReadFailed
    };
    let mut resolver_called = false;
    loop
        invariant
            table.wf(),
            resolver_called == (phase != Phase::Reading),
            match phase {
                Phase::Reading => {
                    &&& table@ == old(table)@
                    &&& event == (if !outside.store_reads {
                        Event::ReadFailed
                    } else {
                        match find(old(table)@, name@) {
                            Some(c) => Event::Found(c),
                            None => Event::Missing,
                        }
                    })
                },
                Phase::Resolving => {
                    &&& table@ == old(table)@
                    &&& resolver_consulted(old(table)@, name@, *outside)
                    &&& event == outside.resolver.event_spec()
                },
                Phase::Writing(c) => {
                    &&& resolver_consulted(old(table)@, name@, *outside)
                    &&& outside.resolver == ResolverReply::Match(c)
                    &&& table@ == rows_after_resolve(old(table)@, name@, *outside)
                    &&& (event == Event::Written || event == Event::WriteFailed)
                },
                Phase::Done => false,
            },
        decreases
            match phase {
                Phase::Reading => 3int,
                Phase::Resolving => 2int,
                Phase::Writing(_) => 1int,
                Phase::Done => 0int,
            },
    {
        let t = match step(phase, event) {
            Some(t) => t,
            None => vstd::pervasive::unreached(),
        };
        match t.action {
            Action::Answer(c) => {
                return Resolution { outcome: Ok(c), resolver_called };
            },
            Action::Fail(kind) => {
                return Resolution { outcome: Err(AppError::new(kind, name)), resolver_called };
            },
            Action::AskResolver => {
                resolver_called = true;
                event = outside.resolver.event();
            },
            Action::Store(c) => {
                if outside.store_writes {
                    let _ = table.insert(name, c);
                    event = Event::Written;
                } else {
                    event = Event::WriteFailed;
                }
            },
        }
        phase = t.next;
    }
}

/// The table after a run of requests for `name`, one after the other.
pub open spec fn rows_after_calls(rows: Seq<Row>, name: Seq<char>, calls: Seq<Outside>) -> Seq<
    Row,
>
    decreases calls.len(),
{
    if calls.len() == 0 {
        rows
    } else {
        rows_after_resolve(rows_after_calls(rows, name, calls.drop_last()), name, calls.last())
    }
}

/// The table after each of `writers` has tried to store its coordinates under
/// `name`, in that order.
pub open spec fn rows_after_writes(rows: Seq<Row>, name: Seq<char>, writers: Seq<LatLong>) -> Seq<
    Row,
>
    decreases writers.len(),
{
    if writers.len() == 0 {
        rows
    } else {
        inserted(rows_after_writes(rows, name, writers.drop_last()), name, writers.last())
    }
}

/// Once a request for a city has succeeded and its row is in the table, every
/// later request for that city, however many follow and whatever the outside
/// world would say, leaves the table as it is and does not ask the geocoding
/// service; each one that can read the table returns the same coordinates.
///
/// The row is in the table when the city was already known or the table took
/// the write: a first request whose write was refused is answered too, but
/// leaves nothing behind for the next.
pub proof fn law_cached_answer_is_stable(
    rows: Seq<Row>,
    name: Seq<char>,
    first: Outside,
    coords: LatLong,
    later: Seq<Outside>,
)
    requires
        names_unique(rows),
        resolve_outcome(rows, name, first) == Ok::<LatLong, ErrorKind>(coords),
        first.store_writes || knows(rows, name),
    ensures
        names_unique(rows_after_resolve(rows, name, first)),
        find(rows_after_resolve(rows, name, first), name) == Some(coords),
        rows_after_calls(rows_after_resolve(rows, name, first), name, later)
            == rows_after_resolve(rows, name, first),
        forall|k: int|
            0 <= k < later.len() ==> {
                let kept = rows_after_calls(
                    rows_after_resolve(rows, name, first),
                    name,
                    later.take(k),
                );
                &&& !resolver_consulted(kept, name, #[trigger] later[k])
                &&& later[k].store_reads ==> resolve_outcome(kept, name, later[k]) == Ok::<
                    LatLong,
                    ErrorKind,
                >(coords)
            },
    decreases later.len(),
{
    let kept = rows_after_resolve(rows, name, first);
    lemma_inserted(rows, name, coords);
    assert(kept == inserted(rows, name, coords));
    if later.len() > 0 {
        law_cached_answer_is_stable(rows, name, first, coords, later.drop_last());
        assert forall|k: int| 0 <= k < later.len() implies {
            let before = rows_after_calls(kept, name, later.take(k));
            &&& !resolver_consulted(before, name, #[trigger] later[k])
            &&& later[k].store_reads ==> resolve_outcome(before, name, later[k]) == Ok::<
                LatLong,
                ErrorKind,
            >(coords)
        } by {
            law_cached_answer_is_stable(rows, name, first, coords, later.take(k));
        }
    }
}

/// Any number of first requests for one unseen city may run side by side: all
/// of them miss the table, each is given coordinates by the geocoding service,
/// and each tries to store them. Every one answers with the coordinates it was
/// given, whether its write went in or failed, and the table ends up with
/// exactly one row for the city: the one of the first writer.
pub proof fn law_race_leaves_one_row(rows: Seq<Row>, name: Seq<char>, writers: Seq<LatLong>)
    requires
        names_unique(rows),
        !knows(rows, name),
        writers.len() > 0,
    ensures
        forall|k: int|
            0 <= k < writers.len() ==> {
                &&& run_spec(
                    Phase::Reading,
                    seq![Event::Missing, Event::Resolved(#[trigger] writers[k]), Event::Written],
                ) == Some(Action::Answer(writers[k]))
                &&& run_spec(
                    Phase::Reading,
                    seq![Event::Missing, Event::Resolved(writers[k]), Event::WriteFailed],
                ) == Some(Action::Answer(writers[k]))
            },
        rows_after_writes(rows, name, writers) == rows.push((name, writers[0])),
        names_unique(rows_after_writes(rows, name, writers)),
        find(rows_after_writes(rows, name, writers), name) == Some(writers[0]),
        forall|i: int|
            0 <= i < rows_after_writes(rows, name, writers).len() ==> (
            (#[trigger] rows_after_writes(rows, name, writers)[i]).0 == name <==> i == rows.len()),
    decreases writers.len(),
{
    let after = rows_after_writes(rows, name, writers);
    assert forall|k: int| 0 <= k < writers.len() implies {
        &&& run_spec(
            Phase::Reading,
            seq![Event::Missing, Event::Resolved(#[trigger] writers[k]), Event::Written],
        ) == Some(Action::Answer(writers[k]))
        &&& run_spec(
            Phase::Reading,
            seq![Event::Missing, Event::Resolved(writers[k]), Event::WriteFailed],
        ) == Some(Action::Answer(writers[k]))
    } by {
        lemma_run_after_miss(writers[k], Event::Written);
        lemma_run_after_miss(writers[k], Event::WriteFailed);
    }
    lemma_inserted(rows, name, writers[0]);
    let one = rows.push((name, writers[0]));
    assert(one == inserted(rows, name, writers[0]));
    if writers.len() == 1 {
        assert(writers.drop_last().len() == 0);
        assert(rows_after_writes(rows, name, writers.drop_last()) == rows);
    } else {
        law_race_leaves_one_row(rows, name, writers.drop_last());
        assert(writers.drop_last()[0] == writers[0]);
        assert(one[rows.len() as int].0 == name);
    }
    assert(after == one);
    lemma_find_at(after, rows.len() as int);
    assert forall|i: int| 0 <= i < after.len() implies ((#[trigger] after[i]).0 == name <==> i
        == rows.len()) by {
        if i < rows.len() {
            assert(rows[i].0 != name);
        }
    }
}

/// A request that misses the table and is given `coords` by the service
/// answers with them, whatever became of its write.
proof fn lemma_run_after_miss(coords: LatLong, write: Event)
    requires
        write == Event::Written || write == Event::WriteFailed,
    ensures
        run_spec(Phase::Reading, seq![Event::Missing, Event::Resolved(coords), write]) == Some(
            Action::Answer(coords),
        ),
{
    let all = seq![Event::Missing, Event::Resolved(coords), write];
    let two = all.drop_first();
    let one = two.drop_first();
    assert(two.len() == 2 && two[0] == Event::Resolved(coords));
    assert(one.len() == 1 && one[0] == write);
    assert(run_spec(Phase::Writing(coords), one) == Some(Action::Answer(coords)));
    assert(run_spec(Phase::Resolving, two) == Some(Action::Answer(coords)));
}

/// Where the geocoding service has no match for a city that the table lacks,
/// the request fails as not found and the table gains nothing.
pub proof fn law_miss_stores_nothing(rows: Seq<Row>, name: Seq<char>, outside: Outside)
    requires
        resolver_consulted(rows, name, outside),
        outside.resolver == ResolverReply::NoMatch,
    ensures
        resolve_outcome(rows, name, outside) == Err::<LatLong, ErrorKind>(ErrorKind::NotFound),
        rows_after_resolve(rows, name, outside) == rows,
        run_spec(Phase::Reading, seq![Event::Missing, Event::NoMatch]) == Some(
            Action::Fail(ErrorKind::NotFound),
        ),
{
    let all = seq![Event::Missing, Event::NoMatch];
    let one = all.drop_first();
    assert(one.len() == 1 && one[0] == Event::NoMatch);
    assert(run_spec(Phase::Resolving, one) == Some(Action::Fail(ErrorKind::NotFound)));
}

/// The events that reach one request for `name`, in order, when the table
/// holds `rows` and the outside world answers as `outside` says.
pub open spec fn events_of(rows: Seq<Row>, name: Seq<char>, outside: Outside) -> Seq<Event> {
    if !outside.store_reads {
        seq![Event::ReadFailed]
    } else {
        match find(rows, name) {
            Some(c) => seq![Event::Found(c)],
            None => match outside.resolver {
                ResolverReply::Match(c) => seq![
                    Event::Missing,
                    Event::Resolved(c),
                    if outside.store_writes { Event::Written } else { Event::WriteFailed },
                ],
                ResolverReply::NoMatch => seq![Event::Missing, Event::NoMatch],
                ResolverReply::Unavailable => seq![Event::Missing, Event::ResolverFailed],
            },
        }
    }
}

/// A caller that starts by reading the table and then follows [`step`], one
/// reply after the other, ends with the outcome that [`resolve`] returns: the
/// answer where there is one, the failure where there is none.
pub proof fn law_steps_reach_the_outcome(rows: Seq<Row>, name: Seq<char>, outside: Outside)
    ensures
        run_spec(Phase::Reading, events_of(rows, name, outside)) == Some(
            match resolve_outcome(rows, name, outside) {
                Ok(c) => Action::Answer(c),
                Err(kind) => Action::Fail(kind),
            },
        ),
{
    let events = events_of(rows, name, outside);
    if outside.store_reads && find(rows, name).is_none() {
        match outside.resolver {
            ResolverReply::Match(c) => {
                lemma_run_after_miss(
                    c,
                    if outside.store_writes { Event::Written } else { Event::WriteFailed },
                );
            },
            _ => {
                let one = events.drop_first();
                assert(one.len() == 1 && one[0] == outside.resolver.event_spec());
                assert(run_spec(Phase::Resolving, one) == Some(
                    match resolve_outcome(rows, name, outside) {
                        Ok(c) => Action::Answer(c),
                        Err(kind) => Action::Fail(kind),
                    },
                ));
            },
        }
    }
}

} // verus!
