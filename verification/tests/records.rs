use cqrs_eventsourcing::error::JsonFailure;
use cqrs_eventsourcing::file_eventstore::{is_one_line, join_records, split_records};
use cqrs_eventsourcing::text::{opt_str_eq, str_eq};
use cqrs_eventsourcing::{
    Aggregate, AggregateContext, DomainEvent, Error, FileData, FileEventStore, FormatedEvent,
};
use std::collections::HashMap;

#[derive(Debug, Clone, PartialEq, Default)]
struct Counter {
    total: u64,
}

impl Aggregate for Counter {
    fn tag() -> &'static str {
        "counter"
    }

    fn initial() -> Counter {
        Counter::default()
    }

    fn default_is_initial(_state: Counter) {}

    fn aggregate_type() -> &'static str {
        "counter"
    }
}

#[derive(Debug, Clone, PartialEq)]
struct Added(u64);

impl DomainEvent<Counter> for Added {
    fn applied(self, counter: Counter) -> Counter {
        Counter {
            total: counter.total + self.0,
        }
    }

    fn clone_is_copy(_source: Added, _copy: Added) {}

    fn apply(self, counter: &mut Counter) {
        counter.total += self.0;
    }

    fn name() -> &'static str {
        "Added"
    }
}

type Event = FormatedEvent<Counter, Added>;

/// Whether `stamp` reads like `Tue, 1 Jul 2003 10:52:37 +0000`.
fn stamped_now(stamp: &str) -> bool {
    let s: Vec<char> = stamp.chars().collect();
    if s.len() != 30 && s.len() != 31 {
        return false;
    }
    let d = s.len() - 29;
    let letters = |from: usize, to: usize| s[from..to].iter().all(|c| c.is_ascii_alphabetic());
    let digits = |from: usize, to: usize| s[from..to].iter().all(|c| c.is_ascii_digit());
    letters(0, 3)
        && s[3..5] == [',', ' ']
        && digits(5, 5 + d)
        && s[5 + d] == ' '
        && letters(6 + d, 9 + d)
        && s[9 + d] == ' '
        && digits(10 + d, 14 + d)
        && s[14 + d] == ' '
        && digits(15 + d, 17 + d)
        && s[17 + d] == ':'
        && digits(18 + d, 20 + d)
        && s[20 + d] == ':'
        && digits(21 + d, 23 + d)
        && s[23 + d..] == [' ', '+', '0', '0', '0', '0']
}

/// Whether `id` reads like `7a2c4b6e-1f0d-4e89-9c55-0d3b1a2f4c6e`.
fn drawn_at_random(id: &str) -> bool {
    let s: Vec<char> = id.chars().collect();
    s.len() == 36
        && s.iter().enumerate().all(|(i, c)| {
            if i == 8 || i == 13 || i == 18 || i == 23 {
                *c == '-'
            } else {
                c.is_ascii_digit() || ('a'..='f').contains(c)
            }
        })
        && s[14] == '4'
        && ['8', '9', 'a', 'b'].contains(&s[19])
}

fn lines(records: &[&str]) -> Vec<Vec<u8>> {
    records.iter().map(|r| r.as_bytes().to_vec()).collect()
}

fn extension(pairs: &[(&str, &str)]) -> Option<HashMap<String, String>> {
    Some(
        pairs
            .iter()
            .map(|(k, v)| (k.to_string(), v.to_string()))
            .collect(),
    )
}

// TEXT

#[test]
fn str_eq_compares_content() {
    assert!(str_eq("", ""));
    assert!(str_eq("dispatch", "dispatch"));
    assert!(!str_eq("dispatch", "dispatcH"));
    assert!(!str_eq("dispatch", "dispatc"));
    assert!(!str_eq("", "a"));
    assert!(str_eq("naïve ☂", "naïve ☂"));
    assert!(!str_eq("naïve ☂", "naive ☂"));
}

#[test]
fn opt_str_eq_tells_absent_from_empty() {
    assert!(opt_str_eq(None, None));
    assert!(opt_str_eq(Some("a"), Some("a")));
    assert!(!opt_str_eq(Some("a"), Some("b")));
    assert!(!opt_str_eq(Some(""), None));
    assert!(!opt_str_eq(None, Some("")));
}

// ERRORS

#[test]
fn error_says_what_it_was_given() {
    let e = Error::new("No such dispatch", Some("USERINPUT"), None);
    assert_eq!(e.message(), "No such dispatch");
    assert_eq!(e.code(), "USERINPUT");
}

#[test]
fn error_comes_apart_into_what_it_was_made_of() {
    let e = Error::new("m", Some("INTERNAL"), extension(&[("a", "1")]));
    let (message, code, context) = e.into_parts();
    assert_eq!(message, "m");
    assert_eq!(code, Some("INTERNAL"));
    assert_eq!(context, extension(&[("a", "1")]));
    assert_eq!(
        Error::new(message, code, context),
        Error::new("m", Some("INTERNAL"), extension(&[("a", "1")]))
    );
    let (_, no_code, no_context) = Error::new("m", None, None).into_parts();
    assert_eq!(no_code, None);
    assert_eq!(no_context, None);
}

#[test]
fn error_without_a_code_has_the_empty_code() {
    let e = Error::new("No such dispatch", None, None);
    assert_eq!(e.code(), "");
    assert_eq!(e.message(), "No such dispatch");
}

#[test]
fn errors_are_equal_when_every_part_is() {
    let e = Error::new("m", Some("INTERNAL"), extension(&[("a", "1"), ("b", "2")]));
    assert_eq!(
        e,
        Error::new("m", Some("INTERNAL"), extension(&[("b", "2"), ("a", "1")]))
    );
    assert_ne!(
        e,
        Error::new("n", Some("INTERNAL"), extension(&[("a", "1"), ("b", "2")]))
    );
    assert_ne!(
        e,
        Error::new("m", Some("USERINPUT"), extension(&[("a", "1"), ("b", "2")]))
    );
    assert_ne!(e, Error::new("m", None, extension(&[("a", "1"), ("b", "2")])));
    assert_ne!(
        e,
        Error::new("m", Some("INTERNAL"), extension(&[("a", "1"), ("b", "3")]))
    );
    assert_ne!(e, Error::new("m", Some("INTERNAL"), extension(&[("a", "1")])));
    assert_ne!(e, Error::new("m", Some("INTERNAL"), None));
    assert_ne!(
        Error::new("m", Some("INTERNAL"), None),
        Error::new("m", Some("INTERNAL"), extension(&[]))
    );
    assert_eq!(
        Error::new("m", None, extension(&[])),
        Error::new("m", None, extension(&[]))
    );
}

#[test]
fn json_failures_are_internal_errors() {
    let invalid = Error::new("Serde: invalid json", Some("INTERNAL"), None);
    let fail = Error::new("Serde: fail", Some("INTERNAL"), None);
    assert_eq!(Error::from_json_failure(JsonFailure::Syntax), invalid);
    assert_eq!(Error::from_json_failure(JsonFailure::Io), fail);
    assert_eq!(Error::from_json_failure(JsonFailure::Data), fail);
    assert_eq!(Error::from_json_failure(JsonFailure::Eof), fail);
}

#[test]
fn json_syntax_error_is_invalid_json() {
    let err = serde_json::from_str::<serde_json::Value>("{\"a\": nope}").unwrap_err();
    let e = Error::from(err);
    assert_eq!(e.message(), "Serde: invalid json");
    assert_eq!(e.code(), "INTERNAL");
}

#[test]
fn json_error_at_the_end_of_input_is_a_failure() {
    let err = serde_json::from_str::<serde_json::Value>("{\"a\": ").unwrap_err();
    assert_eq!(
        Error::from(err),
        Error::new("Serde: fail", Some("INTERNAL"), None)
    );
    let empty = serde_json::from_str::<serde_json::Value>("").unwrap_err();
    assert_eq!(Error::from(empty).message(), "Serde: fail");
}

#[test]
fn json_error_of_the_wrong_shape_is_a_failure() {
    let err = serde_json::from_str::<u8>("\"text\"").unwrap_err();
    assert_eq!(
        Error::from(err),
        Error::new("Serde: fail", Some("INTERNAL"), None)
    );
}

#[test]
fn json_error_of_a_stream_is_a_failure() {
    let broken = std::io::Error::new(std::io::ErrorKind::BrokenPipe, "gone");
    let err = serde_json::Error::io(broken);
    assert_eq!(
        Error::from(err),
        Error::new("Serde: fail", Some("INTERNAL"), None)
    );
}

#[test]
fn io_error_is_an_internal_error() {
    let denied = std::io::Error::new(std::io::ErrorKind::PermissionDenied, "no");
    let e = Error::from(denied);
    assert_eq!(e.message(), "IO Isssues");
    assert_eq!(e.code(), "INTERNAL");
    assert_eq!(e, Error::new("IO Isssues", Some("INTERNAL"), None));
}

// CONTEXTS AND ENVELOPES

#[test]
fn default_context_is_untouched() {
    let context: AggregateContext<Counter> = AggregateContext::default();
    assert_eq!(context.id, "");
    assert_eq!(context.version, 0);
    assert_eq!(*context.aggregate(), Counter { total: 0 });
}

#[test]
fn set_id_takes_the_given_identifier() {
    let mut context: AggregateContext<Counter> = AggregateContext::default();
    context.version = 3;
    context.aggregate.total = 9;
    context.set_id(Some("abc".to_string()));
    assert_eq!(context.id, "abc");
    assert_eq!(context.version, 3);
    assert_eq!(context.aggregate.total, 9);
}

#[test]
fn set_id_draws_a_new_identifier() {
    let mut context: AggregateContext<Counter> = AggregateContext::default();
    context.set_id(Some("abc".to_string()));
    context.set_id(None);
    assert!(drawn_at_random(&context.id));
    let first = context.id.clone();
    context.set_id(None);
    assert!(drawn_at_random(&context.id));
    assert_ne!(context.id, first);
    assert_eq!(context.version, 0);
    assert_eq!(context.aggregate.total, 0);
}

#[test]
fn the_helpers_tell_shapes_apart() {
    assert!(stamped_now("Tue, 1 Jul 2003 10:52:37 +0000"));
    assert!(stamped_now("Fri, 14 Aug 2020 09:30:00 +0000"));
    assert!(!stamped_now("Fri, 14 Aug 2020 09:30:00 +0200"));
    assert!(!stamped_now("Fri, 014 Aug 2020 09:30:00 +0000"));
    assert!(!stamped_now(""));
    assert!(drawn_at_random("7a2c4b6e-1f0d-4e89-9c55-0d3b1a2f4c6e"));
    assert!(!drawn_at_random("7a2c4b6e-1f0d-1e89-9c55-0d3b1a2f4c6e"));
    assert!(!drawn_at_random("7A2C4B6E-1F0D-4E89-9C55-0D3B1A2F4C6E"));
    assert!(!drawn_at_random("abc"));
}

#[test]
fn new_envelope_keeps_the_given_time() {
    let mut meta = HashMap::new();
    meta.insert("k".to_string(), "v".to_string());
    let event: Event = FormatedEvent::new(
        "a".to_string(),
        "counter".to_string(),
        4,
        Added(2),
        meta.clone(),
        Some("Tue, 1 Jul 2003 10:52:37 +0200"),
    );
    assert_eq!(event.aggregate_id, "a");
    assert_eq!(event.aggregate_type, "counter");
    assert_eq!(event.version, 4);
    assert_eq!(event.payload, Added(2));
    assert_eq!(event.meta, meta);
    assert_eq!(event.created_at, "Tue, 1 Jul 2003 10:52:37 +0200");
}

#[test]
fn new_envelope_is_stamped_with_the_current_time() {
    let event: Event = FormatedEvent::new(
        "a".to_string(),
        "counter".to_string(),
        1,
        Added(2),
        HashMap::new(),
        None,
    );
    assert!(stamped_now(&event.created_at));
}

#[test]
fn create_many_counts_up_from_the_current_version() {
    let mut meta = HashMap::new();
    meta.insert("k".to_string(), "v".to_string());
    let batch: Vec<Event> =
        FormatedEvent::create_many("a", 10, vec![Added(1), Added(2), Added(3)], meta.clone());
    assert_eq!(batch.len(), 3);
    for (i, event) in batch.iter().enumerate() {
        assert_eq!(event.aggregate_id, "a");
        assert_eq!(event.aggregate_type, "counter");
        assert_eq!(event.version, 11 + i);
        assert_eq!(event.payload, Added(i as u64 + 1));
        assert_eq!(event.meta, meta);
        assert!(stamped_now(&event.created_at));
    }
}

#[test]
fn create_many_of_nothing_is_nothing() {
    let batch: Vec<Event> = FormatedEvent::create_many("a", 10, vec![], HashMap::new());
    assert!(batch.is_empty());
}

#[test]
fn create_many_reaches_the_last_version() {
    let batch: Vec<Event> =
        FormatedEvent::create_many("a", usize::MAX - 2, vec![Added(1), Added(2)], HashMap::new());
    assert_eq!(batch[0].version, usize::MAX - 1);
    assert_eq!(batch[1].version, usize::MAX);
}

#[test]
fn clone_of_an_envelope_says_the_same() {
    let mut meta = HashMap::new();
    meta.insert("k".to_string(), "v".to_string());
    let event: Event = FormatedEvent::new(
        "a".to_string(),
        "counter".to_string(),
        4,
        Added(2),
        meta,
        Some("then"),
    );
    let copy = event.clone();
    assert_eq!(copy.aggregate_id, event.aggregate_id);
    assert_eq!(copy.aggregate_type, event.aggregate_type);
    assert_eq!(copy.version, event.version);
    assert_eq!(copy.payload, event.payload);
    assert_eq!(copy.meta, event.meta);
    assert_eq!(copy.created_at, event.created_at);
}

// THE FILE

#[test]
fn file_event_store_knows_its_path() {
    let store: FileEventStore<Counter, Added> = FileEventStore::new("/tmp/events.log");
    assert_eq!(store.path(), "/tmp/events.log");
    assert_eq!(store.clone().path(), "/tmp/events.log");
    let nowhere: FileEventStore<Counter, Added> = FileEventStore::new("");
    assert_eq!(nowhere.path(), "");
}

#[test]
fn split_gives_one_record_to_a_line() {
    assert_eq!(split_records(b"{\"a\":1}\n{\"b\":2}\n"), lines(&["{\"a\":1}", "{\"b\":2}"]));
}

#[test]
fn split_takes_a_last_line_without_an_end() {
    assert_eq!(split_records(b"one\ntwo"), lines(&["one", "two"]));
    assert_eq!(split_records(b"one"), lines(&["one"]));
}

#[test]
fn split_of_nothing_is_nothing() {
    assert_eq!(split_records(b""), Vec::<Vec<u8>>::new());
}

#[test]
fn split_keeps_empty_lines_but_the_last() {
    assert_eq!(split_records(b"\n"), lines(&[""]));
    assert_eq!(split_records(b"\n\n"), lines(&["", ""]));
    assert_eq!(split_records(b"a\n\nb\n"), lines(&["a", "", "b"]));
    assert_eq!(split_records(b"\na"), lines(&["", "a"]));
}

#[test]
fn split_leaves_other_bytes_alone() {
    assert_eq!(
        split_records("a\r\nb\tc \u{2602}\n".as_bytes()),
        lines(&["a\r", "b\tc \u{2602}"])
    );
}

#[test]
fn join_ends_every_line() {
    assert_eq!(join_records(&lines(&["one", "two"])), b"one\ntwo\n".to_vec());
    assert_eq!(join_records(&lines(&["one"])), b"one\n".to_vec());
    assert_eq!(join_records(&lines(&["", "x", ""])), b"\nx\n\n".to_vec());
}

#[test]
fn join_of_nothing_is_no_bytes() {
    assert_eq!(join_records(&Vec::new()), Vec::<u8>::new());
}

#[test]
fn a_batch_reads_back() {
    let records = lines(&["{\"version\":1}", "", "{\"version\":2}", "x"]);
    assert_eq!(split_records(&join_records(&records)), records);
}

#[test]
fn a_batch_behind_a_file_adds_its_records() {
    let mut file = b"first\nsecond\n".to_vec();
    let before = split_records(&file);
    let batch = lines(&["third", "fourth"]);
    file.extend(join_records(&batch));
    let mut expected = before.clone();
    expected.extend(batch);
    assert_eq!(split_records(&file), expected);

    let mut untouched = b"first\nsecond\n".to_vec();
    untouched.extend(join_records(&Vec::new()));
    assert_eq!(untouched, b"first\nsecond\n".to_vec());
}

#[test]
fn is_one_line_finds_line_ends() {
    assert!(is_one_line(b""));
    assert!(is_one_line(b"{\"a\":\"b\\n\"}"));
    assert!(is_one_line(b"a\rb"));
    assert!(!is_one_line(b"\n"));
    assert!(!is_one_line(b"a\nb"));
    assert!(!is_one_line(b"ab\n"));
}

#[test]
fn record_and_envelope_correspond() {
    let mut meta = HashMap::new();
    meta.insert("k".to_string(), "v".to_string());
    let event: Event = FormatedEvent::new(
        "a".to_string(),
        "counter".to_string(),
        4,
        Added(2),
        meta.clone(),
        Some("Tue, 1 Jul 2003 10:52:37 +0200"),
    );

    let data = FileData::from_event(&event, "{\"Added\":2}".to_string());
    assert_eq!(data.aggregate_id, "a");
    assert_eq!(data.aggregate_type, "counter");
    assert_eq!(data.version, 4);
    assert_eq!(data.payload, "{\"Added\":2}");
    assert_eq!(data.meta, meta);
    assert_eq!(data.created_at, "Tue, 1 Jul 2003 10:52:37 +0200");

    let back: Event = data.into_event(Added(2));
    assert_eq!(back.aggregate_id, "a");
    assert_eq!(back.aggregate_type, "counter");
    assert_eq!(back.version, 4);
    assert_eq!(back.payload, Added(2));
    assert_eq!(back.meta, meta);
    assert_eq!(back.created_at, "Tue, 1 Jul 2003 10:52:37 +0200");
}
