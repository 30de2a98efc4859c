use std::collections::VecDeque;

use listing_notifier::config::Limits;
use listing_notifier::history::SeenHistory;
use listing_notifier::listing::ListingRecord;
use listing_notifier::notify::{DeliveryMode, DeliveryOutcome, Message};
use listing_notifier::run::{classify_page, count_fresh, Action, Event, Phase, Run, Standing};

fn history(ids: &[&str]) -> SeenHistory {
    SeenHistory::from_ids(ids.iter().map(|s| s.to_string()).collect::<VecDeque<String>>())
}

fn ids(h: &SeenHistory) -> Vec<String> {
    (0..h.len()).map(|i| h.get(i).clone()).collect()
}

fn record(id: &str, image: bool) -> ListingRecord {
    ListingRecord {
        id: id.to_string(),
        title: format!("Titel {}", id),
        link: format!("https://www.kleinanzeigen.de/s-anzeige/x/{}", id),
        image_url: if image { Some(format!("https://img/{}.jpg?rule=$_59.AUTO", id)) } else { None },
    }
}

fn page(ids: &[&str]) -> Vec<ListingRecord> {
    ids.iter().map(|id| record(id, false)).collect()
}

/// What a driver saw of a run.
struct Seen {
    fetched: Vec<u32>,
    /// Identifier (read off the caption) and mode of every message sent.
    sent: Vec<(String, DeliveryMode)>,
    slept: Vec<u64>,
    persist: Option<bool>,
    aborted: bool,
    history: Vec<String>,
    found: u128,
}

fn id_of(caption: &str) -> String {
    let start = caption.find("/s-anzeige/x/").expect("link") + "/s-anzeige/x/".len();
    let end = caption[start..].find('\'').expect("quote") + start;
    caption[start..end].to_string()
}

/// Runs the loop that a caller of the library runs: performs each action
/// against scripted pages and outcomes and reports the event.
fn drive(
    limits: Limits,
    loaded: SeenHistory,
    pages: Vec<Option<Vec<ListingRecord>>>,
    outcomes: Vec<DeliveryOutcome>,
) -> Seen {
    let mut pages: VecDeque<Option<Vec<ListingRecord>>> = pages.into();
    let mut outcomes: VecDeque<DeliveryOutcome> = outcomes.into();
    let mut seen = Seen {
        fetched: Vec::new(),
        sent: Vec::new(),
        slept: Vec::new(),
        persist: None,
        aborted: false,
        history: Vec::new(),
        found: 0,
    };
    let mut run = Run::new(limits, loaded);
    for _ in 0..10_000 {
        let event = match run.action() {
            Action::Fetch { page } => {
                seen.fetched.push(page);
                match pages.pop_front().unwrap_or(Some(Vec::new())) {
                    Some(records) => Event::Page(records),
                    None => Event::FetchFailed,
                }
            }
            Action::Send(Message::Photo { caption, .. }) => {
                seen.sent.push((id_of(&caption), DeliveryMode::Rich));
                Event::Outcome(outcomes.pop_front().unwrap_or(DeliveryOutcome::Delivered))
            }
            Action::Send(Message::Text { caption }) => {
                seen.sent.push((id_of(&caption), DeliveryMode::Plain));
                Event::Outcome(outcomes.pop_front().unwrap_or(DeliveryOutcome::Delivered))
            }
            Action::Sleep { seconds } => {
                seen.slept.push(seconds);
                Event::Resumed
            }
            Action::Finish { persist } => {
                seen.persist = Some(persist);
                break;
            }
            Action::Abort => {
                seen.aborted = true;
                break;
            }
        };
        run = run.handle(event);
    }
    seen.history = ids(run.history());
    seen.found = run.found();
    seen
}

fn sent_ids(seen: &Seen) -> Vec<&str> {
    seen.sent.iter().map(|(id, _)| id.as_str()).collect()
}

fn failed() -> DeliveryOutcome {
    DeliveryOutcome::Failed("boom".to_string())
}

#[test]
fn run_starts_by_asking_for_the_first_page() {
    let run = Run::new(Limits::default(), history(&["X"]));
    assert!(matches!(run.action(), Action::Fetch { page: 1 }));
    assert_eq!(run.phase(), Phase::AwaitPage);
    assert_eq!(run.found(), 0);
    assert!(!run.is_first_run());
    assert_eq!(ids(run.seen()), vec!["X"]);
    assert_eq!(ids(run.history()), vec!["X"]);
    assert!(Run::new(Limits::default(), SeenHistory::new()).is_first_run());
}

#[test]
fn run_without_pages_allowed_is_finished_at_once() {
    let limits = Limits { max_pages: 0, ..Limits::default() };
    let run = Run::new(limits, history(&["X"]));
    assert!(matches!(run.action(), Action::Finish { persist: false }));
    assert_eq!(run.phase(), Phase::Done { persist: false });
}

#[test]
fn empty_history_three_new_records_then_empty_page() {
    let seen = drive(
        Limits::default(),
        SeenHistory::new(),
        vec![Some(page(&["A", "B", "C"])), Some(Vec::new())],
        Vec::new(),
    );
    assert_eq!(sent_ids(&seen), vec!["A", "B", "C"]);
    assert_eq!(seen.history, vec!["A", "B", "C"]);
    assert_eq!(seen.persist, Some(true));
    assert_eq!(seen.fetched, vec![1, 2]);
    assert_eq!(seen.found, 3);
    assert_eq!(seen.slept, vec![2, 2, 2, 1]);
}

#[test]
fn seen_record_stops_the_scan() {
    let seen = drive(
        Limits::default(),
        history(&["X", "Y"]),
        vec![Some(page(&["N1", "X", "N2"])), Some(page(&["N3"]))],
        Vec::new(),
    );
    assert_eq!(sent_ids(&seen), vec!["N1"]);
    assert_eq!(seen.history, vec!["X", "Y", "N1"]);
    assert_eq!(seen.persist, Some(true));
    assert_eq!(seen.fetched, vec![1]);
    assert_eq!(seen.slept, vec![2]);
}

#[test]
fn no_new_records_leaves_the_history_unwritten() {
    let seen = drive(
        Limits::default(),
        history(&["X", "Y"]),
        vec![Some(page(&["X", "N2"]))],
        Vec::new(),
    );
    assert!(seen.sent.is_empty());
    assert_eq!(seen.persist, Some(false));
    assert_eq!(seen.history, vec!["X", "Y"]);
    assert_eq!(seen.found, 0);
    assert_eq!(seen.fetched, vec![1]);
    assert!(seen.slept.is_empty());
}

#[test]
fn empty_first_page_leaves_the_history_unwritten() {
    let seen = drive(Limits::default(), history(&["X"]), vec![Some(Vec::new())], Vec::new());
    assert!(seen.sent.is_empty());
    assert_eq!(seen.persist, Some(false));
    assert_eq!(seen.history, vec!["X"]);
}

#[test]
fn rate_limit_then_success_waits_once_and_counts_as_delivered() {
    let seen = drive(
        Limits::default(),
        history(&["X"]),
        vec![Some(page(&["N1", "X"]))],
        vec![DeliveryOutcome::RateLimited(Some(5)), DeliveryOutcome::Delivered],
    );
    assert_eq!(seen.sent, vec![("N1".to_string(), DeliveryMode::Plain); 2]);
    assert_eq!(seen.slept, vec![5, 2]);
    assert_eq!(seen.history, vec!["X", "N1"]);
    assert_eq!(seen.persist, Some(true));
}

#[test]
fn run_waits_the_default_after_a_rate_limit_without_suggestion() {
    let seen = drive(
        Limits::default(),
        history(&["X"]),
        vec![Some(page(&["N1", "X"]))],
        vec![DeliveryOutcome::RateLimited(None), DeliveryOutcome::Delivered],
    );
    assert_eq!(seen.slept, vec![30, 2]);
    assert_eq!(seen.history, vec!["X", "N1"]);
}

#[test]
fn rate_limit_is_retried_twice_then_the_record_is_given_up() {
    let seen = drive(
        Limits::default(),
        history(&["X"]),
        vec![Some(page(&["N1", "N2", "X"]))],
        vec![
            DeliveryOutcome::RateLimited(Some(5)),
            DeliveryOutcome::RateLimited(Some(6)),
            DeliveryOutcome::RateLimited(Some(7)),
            DeliveryOutcome::Delivered,
        ],
    );
    assert_eq!(sent_ids(&seen), vec!["N1", "N1", "N1", "N2"]);
    assert_eq!(seen.slept, vec![5, 6, 2]);
    assert_eq!(seen.history, vec!["X", "N2"]);
    assert_eq!(seen.found, 2);
    assert_eq!(seen.persist, Some(true));
}

#[test]
fn second_retry_can_still_deliver() {
    let seen = drive(
        Limits::default(),
        history(&["X"]),
        vec![Some(page(&["N1", "X"]))],
        vec![
            DeliveryOutcome::RateLimited(Some(5)),
            DeliveryOutcome::RateLimited(Some(6)),
            DeliveryOutcome::Delivered,
        ],
    );
    assert_eq!(sent_ids(&seen), vec!["N1", "N1", "N1"]);
    assert_eq!(seen.slept, vec![5, 6, 2]);
    assert_eq!(seen.history, vec!["X", "N1"]);
}

#[test]
fn picture_failure_falls_back_to_text() {
    let seen = drive(
        Limits::default(),
        history(&["X"]),
        vec![Some(vec![record("N1", true), record("X", false)])],
        vec![failed(), DeliveryOutcome::Delivered],
    );
    assert_eq!(
        seen.sent,
        vec![("N1".to_string(), DeliveryMode::Rich), ("N1".to_string(), DeliveryMode::Plain)]
    );
    assert_eq!(seen.history, vec!["X", "N1"]);
    assert_eq!(seen.slept, vec![2]);
}

#[test]
fn picture_is_retried_in_the_same_mode_after_a_rate_limit() {
    let seen = drive(
        Limits::default(),
        history(&["X"]),
        vec![Some(vec![record("N1", true), record("X", false)])],
        vec![DeliveryOutcome::RateLimited(Some(3)), DeliveryOutcome::Delivered],
    );
    assert_eq!(seen.sent, vec![("N1".to_string(), DeliveryMode::Rich); 2]);
    assert_eq!(seen.slept, vec![3, 2]);
    assert_eq!(seen.history, vec!["X", "N1"]);
}

#[test]
fn fallback_has_its_own_retries() {
    let seen = drive(
        Limits::default(),
        history(&["X"]),
        vec![Some(vec![record("N1", true), record("X", false)])],
        vec![
            DeliveryOutcome::RateLimited(Some(1)),
            DeliveryOutcome::RateLimited(Some(2)),
            failed(),
            DeliveryOutcome::RateLimited(Some(3)),
            DeliveryOutcome::RateLimited(Some(4)),
            DeliveryOutcome::Delivered,
        ],
    );
    let modes: Vec<DeliveryMode> = seen.sent.iter().map(|(_, m)| *m).collect();
    assert_eq!(
        modes,
        vec![
            DeliveryMode::Rich,
            DeliveryMode::Rich,
            DeliveryMode::Rich,
            DeliveryMode::Plain,
            DeliveryMode::Plain,
            DeliveryMode::Plain,
        ]
    );
    assert_eq!(seen.slept, vec![1, 2, 3, 4, 2]);
    assert_eq!(seen.history, vec!["X", "N1"]);
}

#[test]
fn failed_record_is_not_added_and_the_scan_goes_on() {
    let seen = drive(
        Limits::default(),
        history(&["X"]),
        vec![Some(vec![record("N1", true), record("N2", false), record("N3", false), record("X", false)])],
        vec![failed(), failed(), failed(), DeliveryOutcome::Delivered],
    );
    assert_eq!(sent_ids(&seen), vec!["N1", "N1", "N2", "N3"]);
    assert_eq!(seen.history, vec!["X", "N3"]);
    assert_eq!(seen.found, 3);
    assert_eq!(seen.slept, vec![2]);
    assert_eq!(seen.persist, Some(true));
}

#[test]
fn history_is_written_even_if_every_delivery_failed() {
    let seen = drive(
        Limits::default(),
        history(&["X"]),
        vec![Some(page(&["N1", "X"]))],
        vec![failed()],
    );
    assert_eq!(seen.history, vec!["X"]);
    assert_eq!(seen.found, 1);
    assert_eq!(seen.persist, Some(true));
    assert!(seen.slept.is_empty());
}

#[test]
fn first_run_attempts_no_more_than_the_limit() {
    let many: Vec<String> = (0..40).map(|i| format!("P{}", i)).collect();
    let refs: Vec<&str> = many.iter().map(|s| s.as_str()).collect();
    let seen = drive(
        Limits::default(),
        SeenHistory::new(),
        vec![Some(page(&refs[..20])), Some(page(&refs[20..])), Some(page(&["Q"]))],
        Vec::new(),
    );
    assert_eq!(seen.sent.len(), 25);
    assert_eq!(sent_ids(&seen), refs[..25].to_vec());
    assert_eq!(seen.history, many[..25].to_vec());
    assert_eq!(seen.fetched, vec![1, 2]);
    assert_eq!(seen.found, 25);
    assert_eq!(seen.persist, Some(true));
}

#[test]
fn first_run_limit_counts_attempts_not_successes() {
    let limits = Limits { first_run_limit: 2, ..Limits::default() };
    let seen = drive(
        limits,
        SeenHistory::new(),
        vec![Some(page(&["A", "B", "C"]))],
        vec![failed(), DeliveryOutcome::Delivered],
    );
    assert_eq!(sent_ids(&seen), vec!["A", "B"]);
    assert_eq!(seen.history, vec!["B"]);
    assert_eq!(seen.fetched, vec![1]);
}

#[test]
fn first_run_limit_reached_at_the_end_of_a_page_stops_paging() {
    let limits = Limits { first_run_limit: 2, ..Limits::default() };
    let seen =
        drive(limits, SeenHistory::new(), vec![Some(page(&["A", "B"])), Some(page(&["C"]))], Vec::new());
    assert_eq!(sent_ids(&seen), vec!["A", "B"]);
    assert_eq!(seen.fetched, vec![1]);
    assert_eq!(seen.slept, vec![2, 2]);
}

#[test]
fn first_run_limit_of_zero_delivers_nothing() {
    let limits = Limits { first_run_limit: 0, ..Limits::default() };
    let seen = drive(limits, SeenHistory::new(), vec![Some(page(&["A", "B"]))], Vec::new());
    assert!(seen.sent.is_empty());
    assert_eq!(seen.persist, Some(false));
    assert!(seen.history.is_empty());
}

#[test]
fn later_runs_are_not_capped() {
    let many: Vec<String> = (0..40).map(|i| format!("P{}", i)).collect();
    let refs: Vec<&str> = many.iter().map(|s| s.as_str()).collect();
    let seen = drive(
        Limits::default(),
        history(&["X"]),
        vec![Some(page(&refs)), Some(Vec::new())],
        Vec::new(),
    );
    assert_eq!(seen.sent.len(), 40);
    assert_eq!(seen.history.len(), 41);
}

#[test]
fn paging_stops_at_the_page_limit_without_a_further_pause() {
    let limits = Limits { max_pages: 3, ..Limits::default() };
    let seen = drive(
        limits,
        history(&["X"]),
        vec![Some(page(&["A"])), Some(page(&["B"])), Some(page(&["C"])), Some(page(&["D"]))],
        Vec::new(),
    );
    assert_eq!(seen.fetched, vec![1, 2, 3]);
    assert_eq!(sent_ids(&seen), vec!["A", "B", "C"]);
    assert_eq!(seen.slept, vec![2, 1, 2, 1, 2]);
    assert_eq!(seen.history, vec!["X", "A", "B", "C"]);
}

#[test]
fn fetch_failure_aborts_without_writing() {
    let seen = drive(
        Limits::default(),
        history(&["X"]),
        vec![Some(page(&["A"])), None],
        Vec::new(),
    );
    assert!(seen.aborted);
    assert_eq!(seen.persist, None);
    assert_eq!(sent_ids(&seen), vec!["A"]);
    assert_eq!(seen.fetched, vec![1, 2]);
}

#[test]
fn history_is_pruned_to_the_cap_when_the_run_ends() {
    let limits = Limits { history_cap: 3, ..Limits::default() };
    let seen = drive(
        limits,
        history(&["1", "2", "3"]),
        vec![Some(page(&["A", "B", "1"]))],
        Vec::new(),
    );
    assert_eq!(seen.history, vec!["3", "A", "B"]);
    assert_eq!(seen.persist, Some(true));
}

#[test]
fn history_is_not_pruned_without_new_records() {
    let limits = Limits { history_cap: 2, ..Limits::default() };
    let seen = drive(limits, history(&["1", "2", "3"]), vec![Some(page(&["1"]))], Vec::new());
    assert_eq!(seen.history, vec!["1", "2", "3"]);
    assert_eq!(seen.persist, Some(false));
}

#[test]
fn record_delivered_earlier_in_the_run_still_counts_as_new() {
    let seen = drive(
        Limits::default(),
        history(&["X"]),
        vec![Some(page(&["A", "B"])), Some(page(&["B", "X"]))],
        Vec::new(),
    );
    assert_eq!(sent_ids(&seen), vec!["A", "B", "B"]);
    assert_eq!(seen.history, vec!["X", "A", "B", "B"]);
}

#[test]
fn unexpected_events_change_nothing() {
    let run = Run::new(Limits::default(), history(&["X"]));
    let run = run.handle(Event::Resumed);
    assert_eq!(run.phase(), Phase::AwaitPage);
    let run = run.handle(Event::Outcome(DeliveryOutcome::Delivered));
    assert_eq!(run.phase(), Phase::AwaitPage);
    assert_eq!(ids(run.history()), vec!["X"]);

    let run = run.handle(Event::Page(page(&["N1", "X"])));
    assert_eq!(run.phase(), Phase::AwaitOutcome { mode: DeliveryMode::Plain, retries: 0 });
    let run = run.handle(Event::Page(page(&["N9"])));
    let run = run.handle(Event::FetchFailed);
    let run = run.handle(Event::Resumed);
    assert_eq!(run.phase(), Phase::AwaitOutcome { mode: DeliveryMode::Plain, retries: 0 });
    assert_eq!(run.found(), 1);

    let run = run.handle(Event::Outcome(DeliveryOutcome::Delivered));
    assert_eq!(run.phase(), Phase::MessagePause);
    let run = run.handle(Event::Outcome(DeliveryOutcome::Delivered));
    assert_eq!(ids(run.history()), vec!["X", "N1"]);

    let run = run.handle(Event::Resumed);
    assert_eq!(run.phase(), Phase::Done { persist: true });
    let run = run.handle(Event::Page(page(&["N9"])));
    let run = run.handle(Event::Resumed);
    let run = run.handle(Event::Outcome(DeliveryOutcome::Delivered));
    assert_eq!(run.phase(), Phase::Done { persist: true });
    assert_eq!(ids(run.history()), vec!["X", "N1"]);
}

#[test]
fn phases_of_a_rate_limited_delivery() {
    let run = Run::new(Limits::default(), history(&["X"]));
    let run = run.handle(Event::Page(vec![record("N1", true)]));
    assert_eq!(run.phase(), Phase::AwaitOutcome { mode: DeliveryMode::Rich, retries: 0 });
    let run = run.handle(Event::Outcome(DeliveryOutcome::RateLimited(Some(5))));
    assert_eq!(run.phase(), Phase::Backoff { mode: DeliveryMode::Rich, retries: 1, seconds: 5 });
    assert!(matches!(run.action(), Action::Sleep { seconds: 5 }));
    let run = run.handle(Event::Resumed);
    assert_eq!(run.phase(), Phase::AwaitOutcome { mode: DeliveryMode::Rich, retries: 1 });
    let run = run.handle(Event::Outcome(failed()));
    assert_eq!(run.phase(), Phase::AwaitOutcome { mode: DeliveryMode::Plain, retries: 0 });
    let run = run.handle(Event::Outcome(failed()));
    assert_eq!(run.phase(), Phase::PagePause);
    assert!(matches!(run.action(), Action::Sleep { seconds: 1 }));
    let run = run.handle(Event::Resumed);
    assert!(matches!(run.action(), Action::Fetch { page: 2 }));
}

#[test]
fn count_fresh_is_the_position_of_the_first_seen_record() {
    let seen = history(&["X", "Y"]);
    assert_eq!(count_fresh(&seen, &page(&["N1", "X", "N2"])), 1);
    assert_eq!(count_fresh(&seen, &page(&["Y"])), 0);
    assert_eq!(count_fresh(&seen, &page(&["A", "B", "C"])), 3);
    assert_eq!(count_fresh(&seen, &Vec::new()), 0);
    assert_eq!(count_fresh(&SeenHistory::new(), &page(&["X", "Y"])), 2);
}

#[test]
fn classify_page_marks_new_seen_and_skipped() {
    let seen = history(&["X", "Y"]);
    assert_eq!(
        classify_page(&seen, &page(&["N1", "N2", "X", "N3", "Y"])),
        vec![Standing::New, Standing::New, Standing::Seen, Standing::Skipped, Standing::Skipped]
    );
    assert_eq!(
        classify_page(&seen, &page(&["A", "B"])),
        vec![Standing::New, Standing::New]
    );
    assert!(classify_page(&seen, &Vec::new()).is_empty());
}

#[test]
fn classification_is_the_same_when_repeated() {
    let seen = history(&["X", "Y"]);
    let records = page(&["N1", "X", "N2"]);
    let first = classify_page(&seen, &records);
    let second = classify_page(&seen, &records);
    assert_eq!(first, second);
    assert_eq!(first, vec![Standing::New, Standing::Seen, Standing::Skipped]);
}

#[test]
fn two_runs_from_the_same_history_attempt_the_same_records() {
    let pages = || vec![Some(page(&["N1", "N2", "X", "N3"]))];
    let first = drive(Limits::default(), history(&["X", "Y"]), pages(), vec![failed(), failed()]);
    let second = drive(Limits::default(), history(&["X", "Y"]), pages(), Vec::new());
    assert_eq!(sent_ids(&first), vec!["N1", "N2"]);
    assert_eq!(sent_ids(&second), vec!["N1", "N2"]);
    assert_eq!(first.history, vec!["X", "Y"]);
    assert_eq!(second.history, vec!["X", "Y", "N1", "N2"]);
}
