use githuback::enumerator::{Enumerator, PageResult, Progress};
use githuback::error::EnumerationError;
use githuback::record::{collect_refs, Page, RawRecord};
use githuback::repository::RepositoryRef;
use githuback::response::PageResponse;

fn record(name: &str) -> RawRecord {
    RawRecord {
        name: Some(name.to_string()),
        clone_url: Some(format!("https://github.com/octo/{}", name)),
    }
}

fn reference(name: &str) -> RepositoryRef {
    RepositoryRef::new(name.to_string(), format!("https://github.com/octo/{}", name))
}

fn page(names: &[&str], has_next: bool) -> Page {
    Page { records: names.iter().map(|n| record(n)).collect(), has_next }
}

fn body(names: &[&str]) -> Vec<u8> {
    let items: Vec<String> = names
        .iter()
        .map(|n| {
            format!(
                "{{\"id\": 7, \"name\": \"{}\", \"html_url\": \"https://github.com/octo/{}\", \"fork\": false}}",
                n, n
            )
        })
        .collect();
    format!("[{}]", items.join(",")).into_bytes()
}

fn response(names: &[&str], link: bool) -> PageResponse {
    PageResponse {
        status: 200,
        link: if link { Some("<https://api.github.com/next>; rel=\"next\"".to_string()) } else { None },
        body: body(names),
    }
}

#[test]
fn octo_two_pages_gives_three_refs_after_two_requests() {
    let answers: Vec<PageResult> = vec![Ok(page(&["a", "b"], true)), Ok(page(&["c"], false))];
    let replay = Enumerator::new("octo".to_string(), None).unwrap().replay(&answers);
    assert_eq!(replay.requests, 2);
    match replay.progress {
        Progress::Done(refs) => {
            assert_eq!(refs, vec![reference("a"), reference("b"), reference("c")]);
        }
        other => panic!("unexpected {:?}", other),
    }
}

#[test]
fn octo_two_pages_over_the_wire() {
    let enumerator = Enumerator::new("octo".to_string(), None).unwrap();
    let first = enumerator.request();
    assert_eq!(first.url, "https://api.github.com/users/octo/repos?page=1&per_page=100");
    let enumerator = match enumerator.advance(Ok(response(&["a", "b"], true))) {
        Progress::Next(next) => next,
        other => panic!("unexpected {:?}", other),
    };
    assert_eq!(enumerator.page(), 2);
    assert_eq!(enumerator.found(), 2);
    let second = enumerator.request();
    assert_eq!(second.url, "https://api.github.com/users/octo/repos?page=2&per_page=100");
    match enumerator.advance(Ok(response(&["c"], false))) {
        Progress::Done(refs) => {
            assert_eq!(refs, vec![reference("a"), reference("b"), reference("c")]);
        }
        other => panic!("unexpected {:?}", other),
    }
}

#[test]
fn empty_org_ends_after_one_request_without_continuation() {
    let answers: Vec<PageResult> = vec![Ok(page(&[], false)), Ok(page(&["late"], false))];
    let replay = Enumerator::new("empty-org".to_string(), None).unwrap().replay(&answers);
    assert_eq!(replay.requests, 1);
    match replay.progress {
        Progress::Done(refs) => assert!(refs.is_empty()),
        other => panic!("unexpected {:?}", other),
    }
}

#[test]
fn empty_org_ends_after_one_request_with_continuation() {
    let answers: Vec<PageResult> = vec![Ok(page(&[], true)), Ok(page(&["late"], false))];
    let replay = Enumerator::new("empty-org".to_string(), None).unwrap().replay(&answers);
    assert_eq!(replay.requests, 1);
    match replay.progress {
        Progress::Done(refs) => assert!(refs.is_empty()),
        other => panic!("unexpected {:?}", other),
    }
}

#[test]
fn empty_body_array_is_no_error() {
    let enumerator = Enumerator::new("empty-org".to_string(), None).unwrap();
    match enumerator.advance(Ok(response(&[], true))) {
        Progress::Done(refs) => assert!(refs.is_empty()),
        other => panic!("unexpected {:?}", other),
    }
}

#[test]
fn three_pages_keep_every_item_in_page_order() {
    let answers: Vec<PageResult> = vec![
        Ok(page(&["r1", "r2", "r3"], true)),
        Ok(page(&["r4"], true)),
        Ok(page(&["r5", "r6"], false)),
        Ok(page(&["never"], false)),
    ];
    let replay = Enumerator::new("octo".to_string(), None).unwrap().replay(&answers);
    assert_eq!(replay.requests, 3);
    match replay.progress {
        Progress::Done(refs) => {
            assert_eq!(refs.len(), 3 + 1 + 2);
            let names: Vec<&str> = refs.iter().map(|r| r.name.as_str()).collect();
            assert_eq!(names, vec!["r1", "r2", "r3", "r4", "r5", "r6"]);
        }
        other => panic!("unexpected {:?}", other),
    }
}

#[test]
fn trailing_empty_page_ends_the_enumeration() {
    let answers: Vec<PageResult> = vec![Ok(page(&["a"], true)), Ok(page(&[], true))];
    let replay = Enumerator::new("octo".to_string(), None).unwrap().replay(&answers);
    assert_eq!(replay.requests, 2);
    match replay.progress {
        Progress::Done(refs) => assert_eq!(refs, vec![reference("a")]),
        other => panic!("unexpected {:?}", other),
    }
}

#[test]
fn full_page_without_continuation_ends_the_enumeration() {
    let names: Vec<String> = (0..100).map(|i| format!("repo{}", i)).collect();
    let names: Vec<&str> = names.iter().map(|n| n.as_str()).collect();
    let enumerator = Enumerator::new("octo".to_string(), None).unwrap();
    match enumerator.advance(Ok(response(&names, false))) {
        Progress::Done(refs) => {
            assert_eq!(refs.len(), 100);
            assert_eq!(refs[0], reference("repo0"));
            assert_eq!(refs[99], reference("repo99"));
        }
        other => panic!("unexpected {:?}", other),
    }
}

#[test]
fn answers_running_out_leave_the_enumeration_pending() {
    let answers: Vec<PageResult> = vec![Ok(page(&["a"], true)), Ok(page(&["b"], true))];
    let replay = Enumerator::new("octo".to_string(), None).unwrap().replay(&answers);
    assert_eq!(replay.requests, 2);
    match replay.progress {
        Progress::Next(enumerator) => {
            assert_eq!(enumerator.page(), 3);
            assert_eq!(enumerator.found(), 2);
        }
        other => panic!("unexpected {:?}", other),
    }
}

#[test]
fn no_answers_leave_the_first_request_pending() {
    let replay = Enumerator::new("octo".to_string(), None).unwrap().replay(&Vec::new());
    assert_eq!(replay.requests, 0);
    match replay.progress {
        Progress::Next(enumerator) => {
            assert_eq!(enumerator.page(), 1);
            assert_eq!(enumerator.found(), 0);
        }
        other => panic!("unexpected {:?}", other),
    }
}

#[test]
fn http_error_on_page_two_returns_no_partial_list() {
    let enumerator = Enumerator::new("octo".to_string(), None).unwrap();
    let enumerator = match enumerator.advance(Ok(response(&["a", "b"], true))) {
        Progress::Next(next) => next,
        other => panic!("unexpected {:?}", other),
    };
    let failing = PageResponse { status: 500, link: None, body: b"boom".to_vec() };
    match enumerator.advance(Ok(failing)) {
        Progress::Failed(e) => {
            assert_eq!(e, EnumerationError::HttpStatus { status: 500, body: b"boom".to_vec() });
        }
        other => panic!("unexpected {:?}", other),
    }
}

#[test]
fn replayed_error_on_page_two_returns_no_partial_list() {
    let answers: Vec<PageResult> = vec![
        Ok(page(&["a", "b"], true)),
        Err(EnumerationError::HttpStatus { status: 403, body: b"rate limit".to_vec() }),
        Ok(page(&["c"], false)),
    ];
    let replay = Enumerator::new("octo".to_string(), None).unwrap().replay(&answers);
    assert_eq!(replay.requests, 2);
    match replay.progress {
        Progress::Failed(e) => {
            assert_eq!(e, EnumerationError::HttpStatus { status: 403, body: b"rate limit".to_vec() });
        }
        other => panic!("unexpected {:?}", other),
    }
}

#[test]
fn error_status_wins_over_a_well_formed_body() {
    let enumerator = Enumerator::new("octo".to_string(), None).unwrap();
    let mut answer = response(&["a"], true);
    answer.status = 404;
    let sent = answer.body.clone();
    match enumerator.advance(Ok(answer)) {
        Progress::Failed(e) => assert_eq!(e, EnumerationError::HttpStatus { status: 404, body: sent }),
        other => panic!("unexpected {:?}", other),
    }
}

#[test]
fn redirect_status_is_an_error() {
    let enumerator = Enumerator::new("octo".to_string(), None).unwrap();
    let mut answer = response(&["a"], false);
    answer.status = 301;
    match enumerator.advance(Ok(answer)) {
        Progress::Failed(EnumerationError::HttpStatus { status, .. }) => assert_eq!(status, 301),
        other => panic!("unexpected {:?}", other),
    }
}

#[test]
fn transport_failure_is_fatal() {
    let enumerator = Enumerator::new("octo".to_string(), None).unwrap();
    let enumerator = match enumerator.advance(Ok(response(&["a"], true))) {
        Progress::Next(next) => next,
        other => panic!("unexpected {:?}", other),
    };
    match enumerator.advance(Err("connection reset".to_string())) {
        Progress::Failed(e) => {
            assert_eq!(e, EnumerationError::Transport { reason: "connection reset".to_string() });
        }
        other => panic!("unexpected {:?}", other),
    }
}

#[test]
fn body_that_is_not_json_is_malformed() {
    let enumerator = Enumerator::new("octo".to_string(), None).unwrap();
    let answer = PageResponse { status: 200, link: None, body: b"<html>".to_vec() };
    match enumerator.advance(Ok(answer)) {
        Progress::Failed(e) => assert_eq!(e, EnumerationError::MalformedBody),
        other => panic!("unexpected {:?}", other),
    }
}

#[test]
fn body_that_is_no_array_is_malformed() {
    let enumerator = Enumerator::new("octo".to_string(), None).unwrap();
    let answer = PageResponse {
        status: 200,
        link: None,
        body: b"{\"message\": \"Not Found\"}".to_vec(),
    };
    match enumerator.advance(Ok(answer)) {
        Progress::Failed(e) => assert_eq!(e, EnumerationError::MalformedBody),
        other => panic!("unexpected {:?}", other),
    }
}

#[test]
fn record_without_clone_url_fails_the_enumeration() {
    let enumerator = Enumerator::new("octo".to_string(), None).unwrap();
    let answer = PageResponse {
        status: 200,
        link: Some("next".to_string()),
        body: b"[{\"name\": \"a\", \"html_url\": \"u\"}, {\"name\": \"b\"}, {\"html_url\": \"v\"}]"
            .to_vec(),
    };
    match enumerator.advance(Ok(answer)) {
        Progress::Failed(e) => assert_eq!(e, EnumerationError::MalformedRecord { index: 1 }),
        other => panic!("unexpected {:?}", other),
    }
}

#[test]
fn record_whose_name_is_no_string_fails_the_enumeration() {
    let enumerator = Enumerator::new("octo".to_string(), None).unwrap();
    let answer = PageResponse {
        status: 200,
        link: None,
        body: b"[{\"name\": 5, \"html_url\": \"u\"}]".to_vec(),
    };
    match enumerator.advance(Ok(answer)) {
        Progress::Failed(e) => assert_eq!(e, EnumerationError::MalformedRecord { index: 0 }),
        other => panic!("unexpected {:?}", other),
    }
}

#[test]
fn element_that_is_no_object_fails_the_enumeration() {
    let enumerator = Enumerator::new("octo".to_string(), None).unwrap();
    let answer = PageResponse { status: 200, link: None, body: b"[\"a\"]".to_vec() };
    match enumerator.advance(Ok(answer)) {
        Progress::Failed(e) => assert_eq!(e, EnumerationError::MalformedRecord { index: 0 }),
        other => panic!("unexpected {:?}", other),
    }
}

#[test]
fn malformed_record_on_a_later_page_drops_the_earlier_pages() {
    let broken = Page {
        records: vec![record("c"), RawRecord { name: None, clone_url: Some("u".to_string()) }],
        has_next: false,
    };
    let answers: Vec<PageResult> = vec![Ok(page(&["a", "b"], true)), Ok(broken)];
    let replay = Enumerator::new("octo".to_string(), None).unwrap().replay(&answers);
    assert_eq!(replay.requests, 2);
    match replay.progress {
        Progress::Failed(e) => assert_eq!(e, EnumerationError::MalformedRecord { index: 1 }),
        other => panic!("unexpected {:?}", other),
    }
}

#[test]
fn collect_refs_keeps_the_order_of_the_records() {
    let records = vec![record("x"), record("y"), record("x")];
    let refs = collect_refs(&records).unwrap();
    assert_eq!(refs, vec![reference("x"), reference("y"), reference("x")]);
}

#[test]
fn collect_refs_names_the_first_incomplete_record() {
    let records = vec![
        record("x"),
        RawRecord { name: Some("y".to_string()), clone_url: None },
        RawRecord { name: None, clone_url: None },
    ];
    assert_eq!(collect_refs(&records), Err(EnumerationError::MalformedRecord { index: 1 }));
}

#[test]
fn collect_refs_of_nothing_is_nothing() {
    assert_eq!(collect_refs(&Vec::new()), Ok(Vec::new()));
}

#[test]
fn step_takes_an_error_as_it_is() {
    let enumerator = Enumerator::new("octo".to_string(), None).unwrap();
    match enumerator.step(&Err(EnumerationError::MalformedBody)) {
        Progress::Failed(e) => assert_eq!(e, EnumerationError::MalformedBody),
        other => panic!("unexpected {:?}", other),
    }
}

#[test]
fn token_that_cannot_be_sent_is_refused_before_any_request() {
    for token in ["line\nbreak", "carriage\rreturn", "nul\0", "delete\u{7f}", "\u{1b}[0m"] {
        match Enumerator::new("octo".to_string(), Some(token.to_string())) {
            Err(e) => assert_eq!(e, EnumerationError::InvalidToken),
            Ok(_) => panic!("accepted {:?}", token),
        }
    }
}

#[test]
fn token_that_can_be_sent_goes_with_every_request() {
    for token in ["Bearer abc123", "tab\tinside", "caf\u{e9} \u{1f600}", " ", "~"] {
        let enumerator = Enumerator::new("octo".to_string(), Some(token.to_string())).unwrap();
        let request = enumerator.request();
        assert_eq!(request.headers.len(), 3);
        assert_eq!(request.headers[2].name, "Authorization");
        assert_eq!(request.headers[2].value, token);
        let enumerator = match enumerator.advance(Ok(response(&["a"], true))) {
            Progress::Next(next) => next,
            other => panic!("unexpected {:?}", other),
        };
        assert_eq!(enumerator.request().headers, request.headers);
    }
}

#[test]
fn empty_token_is_no_token() {
    let enumerator = Enumerator::new("octo".to_string(), Some(String::new())).unwrap();
    let request = enumerator.request();
    assert_eq!(request.headers.len(), 2);
    assert!(request.headers.iter().all(|h| h.name != "Authorization"));
}
