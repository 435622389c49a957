use forecast::geocode::{
    resolve, step, Action, Event, Outside, Phase, ResolverReply, Transition,
};
use forecast::pipeline::{get_last_cities, RECENT_CITIES};
use forecast::store::CityTable;
use forecast::utils::{AppError, ErrorKind, GeoResponse, LatLong};

fn at(latitude: f64, longitude: f64) -> LatLong {
    LatLong { latitude: latitude.to_bits(), longitude: longitude.to_bits() }
}

fn world(resolver: ResolverReply) -> Outside {
    Outside { store_reads: true, store_writes: true, resolver }
}

#[test]
fn first_resolve_asks_the_service_and_stores_the_city() {
    let mut table = CityTable::new();
    let paris = at(48.85, 2.35);
    let done = resolve(&mut table, "Paris", &world(ResolverReply::Match(paris)));
    assert!(done.resolver_called);
    assert_eq!(done.outcome.unwrap(), paris);
    assert_eq!(table.len(), 1);
    assert_eq!(table.lookup("Paris"), Some(paris));
    let entry = table.entry(0);
    assert_eq!(entry.name, "Paris");
    assert_eq!(f64::from_bits(entry.latitude), 48.85);
    assert_eq!(f64::from_bits(entry.longitude), 2.35);
    assert_eq!(entry.insertion_order, 0);
}

#[test]
fn later_resolves_are_answered_from_the_table() {
    let mut table = CityTable::new();
    let paris = at(48.85, 2.35);
    let first = resolve(&mut table, "Paris", &world(ResolverReply::Match(paris)));
    assert_eq!(first.outcome.unwrap(), paris);
    let replies = [
        ResolverReply::Match(at(1.0, 2.0)),
        ResolverReply::NoMatch,
        ResolverReply::Unavailable,
        ResolverReply::Match(paris),
    ];
    for reply in replies {
        let again = resolve(&mut table, "Paris", &world(reply));
        assert!(!again.resolver_called);
        assert_eq!(again.outcome.unwrap(), paris);
        assert_eq!(table.len(), 1);
    }
}

#[test]
fn names_are_not_normalised() {
    let mut table = CityTable::new();
    let upper = at(48.85, 2.35);
    let lower = at(33.66, -95.55);
    assert!(table.insert("Paris", upper));
    let done = resolve(&mut table, "paris", &world(ResolverReply::Match(lower)));
    assert!(done.resolver_called);
    assert_eq!(done.outcome.unwrap(), lower);
    let padded = resolve(&mut table, "Paris ", &world(ResolverReply::NoMatch));
    assert!(padded.resolver_called);
    assert_eq!(padded.outcome.unwrap_err().kind, ErrorKind::NotFound);
    assert_eq!(table.len(), 2);
    assert_eq!(table.lookup("Paris"), Some(upper));
    assert_eq!(table.lookup("paris"), Some(lower));
}

#[test]
fn no_match_fails_as_not_found_and_stores_nothing() {
    let mut table = CityTable::new();
    let done = resolve(&mut table, "Atlantis", &world(ResolverReply::NoMatch));
    assert!(done.resolver_called);
    let e = done.outcome.unwrap_err();
    assert_eq!(e.kind, ErrorKind::NotFound);
    assert_eq!(e.city, "Atlantis");
    assert!(e.is_user_correctable());
    assert_eq!(table.len(), 0);
    assert_eq!(table.lookup("Atlantis"), None);
}

#[test]
fn unreachable_service_fails_as_upstream_unavailable() {
    let mut table = CityTable::new();
    let done = resolve(&mut table, "Paris", &world(ResolverReply::Unavailable));
    assert!(done.resolver_called);
    let e = done.outcome.unwrap_err();
    assert_eq!(e.kind, ErrorKind::UpstreamUnavailable);
    assert_eq!(e.city, "Paris");
    assert!(!e.is_user_correctable());
    assert_eq!(table.len(), 0);
}

#[test]
fn unreadable_table_fails_before_the_service_is_asked() {
    let mut table = CityTable::new();
    let paris = at(48.85, 2.35);
    assert!(table.insert("Paris", paris));
    let outside = Outside {
        store_reads: false,
        store_writes: true,
        resolver: ResolverReply::Match(paris),
    };
    let done = resolve(&mut table, "Paris", &outside);
    assert!(!done.resolver_called);
    assert_eq!(done.outcome.unwrap_err().kind, ErrorKind::StoreUnavailable);
    let other = resolve(&mut table, "Lyon", &outside);
    assert!(!other.resolver_called);
    assert_eq!(other.outcome.unwrap_err().kind, ErrorKind::StoreUnavailable);
    assert_eq!(table.len(), 1);
}

#[test]
fn refused_write_still_answers_and_the_next_request_asks_again() {
    let mut table = CityTable::new();
    let paris = at(48.85, 2.35);
    let outside = Outside {
        store_reads: true,
        store_writes: false,
        resolver: ResolverReply::Match(paris),
    };
    let first = resolve(&mut table, "Paris", &outside);
    assert!(first.resolver_called);
    assert_eq!(first.outcome.unwrap(), paris);
    assert_eq!(table.len(), 0);
    let second = resolve(&mut table, "Paris", &world(ResolverReply::Match(paris)));
    assert!(second.resolver_called);
    assert_eq!(second.outcome.unwrap(), paris);
    assert_eq!(table.len(), 1);
}

#[test]
fn insert_keeps_the_first_row_of_a_name() {
    let mut table = CityTable::new();
    let one = at(1.0, 1.0);
    let two = at(2.0, 2.0);
    assert!(table.insert("Rome", one));
    assert!(!table.insert("Rome", two));
    assert_eq!(table.len(), 1);
    assert_eq!(table.lookup("Rome"), Some(one));
}

#[test]
fn racing_first_requests_leave_one_row() {
    let mut table = CityTable::new();
    let oslo = at(59.91, 10.75);
    let racers: usize = 5;
    let mut phases: Vec<Phase> = Vec::new();
    // every racer reads the table before any of them has written
    for _ in 0..racers {
        let event = match table.lookup("Oslo") {
            Some(c) => Event::Found(c),
            None => Event::Missing,
        };
        let t = step(Phase::Reading, event).unwrap();
        assert_eq!(t.action, Action::AskResolver);
        phases.push(t.next);
    }
    let mut answers: Vec<LatLong> = Vec::new();
    for phase in phases {
        let t = step(phase, ResolverReply::Match(oslo).event()).unwrap();
        assert_eq!(t.action, Action::Store(oslo));
        let _ = table.insert("Oslo", oslo);
        let last = step(t.next, Event::Written).unwrap();
        assert_eq!(last.next, Phase::Done);
        match last.action {
            Action::Answer(c) => answers.push(c),
            other => panic!("a racer ended with {:?}", other),
        }
    }
    assert_eq!(answers, vec![oslo; racers]);
    assert_eq!(table.len(), 1);
    assert_eq!(table.lookup("Oslo"), Some(oslo));
}

#[test]
fn step_follows_the_request_through_its_phases() {
    let c = at(10.0, 20.0);
    assert_eq!(
        step(Phase::Reading, Event::Found(c)),
        Some(Transition { next: Phase::Done, action: Action::Answer(c) })
    );
    assert_eq!(
        step(Phase::Reading, Event::Missing),
        Some(Transition { next: Phase::Resolving, action: Action::AskResolver })
    );
    assert_eq!(
        step(Phase::Reading, Event::ReadFailed),
        Some(Transition { next: Phase::Done, action: Action::Fail(ErrorKind::StoreUnavailable) })
    );
    assert_eq!(
        step(Phase::Resolving, Event::Resolved(c)),
        Some(Transition { next: Phase::Writing(c), action: Action::Store(c) })
    );
    assert_eq!(
        step(Phase::Resolving, Event::NoMatch),
        Some(Transition { next: Phase::Done, action: Action::Fail(ErrorKind::NotFound) })
    );
    assert_eq!(
        step(Phase::Resolving, Event::ResolverFailed),
        Some(Transition {
            next: Phase::Done,
            action: Action::Fail(ErrorKind::UpstreamUnavailable)
        })
    );
    assert_eq!(
        step(Phase::Writing(c), Event::Written),
        Some(Transition { next: Phase::Done, action: Action::Answer(c) })
    );
    assert_eq!(
        step(Phase::Writing(c), Event::WriteFailed),
        Some(Transition { next: Phase::Done, action: Action::Answer(c) })
    );
}

#[test]
fn step_refuses_an_event_that_cannot_occur() {
    let c = at(10.0, 20.0);
    assert_eq!(step(Phase::Reading, Event::Resolved(c)), None);
    assert_eq!(step(Phase::Reading, Event::Written), None);
    assert_eq!(step(Phase::Resolving, Event::Found(c)), None);
    assert_eq!(step(Phase::Resolving, Event::WriteFailed), None);
    assert_eq!(step(Phase::Writing(c), Event::Missing), None);
    assert_eq!(step(Phase::Writing(c), Event::NoMatch), None);
    assert_eq!(step(Phase::Done, Event::Found(c)), None);
    assert_eq!(step(Phase::Done, Event::Written), None);
}

#[test]
fn only_the_first_match_of_the_service_counts() {
    let first = at(48.85, 2.35);
    let second = at(33.66, -95.55);
    let response = GeoResponse { results: vec![first, second] };
    assert_eq!(response.first_match(), Some(first));
    assert_eq!(ResolverReply::from_response(&response), ResolverReply::Match(first));
    let empty = GeoResponse { results: Vec::new() };
    assert_eq!(empty.first_match(), None);
    assert_eq!(ResolverReply::from_response(&empty), ResolverReply::NoMatch);
}

#[test]
fn list_recent_returns_newest_first() {
    let mut table = CityTable::new();
    assert!(table.insert("A", at(1.0, 1.0)));
    assert!(table.insert("B", at(2.0, 2.0)));
    assert!(table.insert("C", at(3.0, 3.0)));
    assert_eq!(table.list_recent(2), vec!["C".to_string(), "B".to_string()]);
}

#[test]
fn list_recent_at_its_limits() {
    let mut table = CityTable::new();
    assert_eq!(table.list_recent(3), Vec::<String>::new());
    assert!(table.insert("A", at(1.0, 1.0)));
    assert!(table.insert("B", at(2.0, 2.0)));
    assert!(!table.insert("A", at(9.0, 9.0)));
    assert_eq!(table.list_recent(0), Vec::<String>::new());
    assert_eq!(table.list_recent(1), vec!["B".to_string()]);
    assert_eq!(table.list_recent(2), vec!["B".to_string(), "A".to_string()]);
    assert_eq!(table.list_recent(usize::MAX), vec!["B".to_string(), "A".to_string()]);
}

#[test]
fn statistics_list_the_last_ten_cities() {
    let mut table = CityTable::new();
    for i in 0..12u32 {
        assert!(table.insert(&format!("city{}", i), at(f64::from(i), 0.0)));
    }
    let names = get_last_cities(&table);
    assert_eq!(RECENT_CITIES, 10);
    assert_eq!(names.len(), 10);
    assert_eq!(names[0], "city11");
    assert_eq!(names[9], "city2");
    assert_eq!(table.entry(7).insertion_order, 7);
    assert_eq!(table.entry(7).name, "city7");
}

#[test]
fn failures_are_reported_in_words() {
    assert_eq!(
        AppError::new(ErrorKind::NotFound, "Atlantis").message(),
        "Something went wrong: No results found"
    );
    assert_eq!(
        AppError::new(ErrorKind::UpstreamUnavailable, "Paris").message(),
        "Something went wrong: an outside service did not answer"
    );
    assert_eq!(
        AppError::new(ErrorKind::StoreUnavailable, "Paris").message(),
        "Something went wrong: the table of cities could not be read"
    );
    assert_eq!(ErrorKind::NotFound.text(), "No results found");
}
