//! Tests of the pagination engine: stitching, termination, per-page
//! reversal, fault propagation, and re-traversal.
use travis::error::Error;
use travis::paginate::{collect, list_outcome, Cursor, Envelope, FetchReply, PageLink, Pagination,
    Step, StreamEnd};

fn page<T>(items: Vec<T>, next: Option<&str>) -> Envelope<T> {
    Envelope {
        items,
        pagination: Pagination {
            count: 0,
            first: PageLink { href: String::from("/first") },
            next: next.map(|href| PageLink { href: String::from(href) }),
        },
    }
}

#[test]
fn three_pages_stitch_in_order() {
    let first = page(vec![2usize, 1], Some("/p2"));
    let second = page(vec![4usize, 3], Some("/p3"));
    let third = page(vec![5usize], None);
    let t = collect(
        FetchReply::Page(first),
        vec![FetchReply::Page(second), FetchReply::Page(third)],
    );
    assert_eq!(t.items, vec![1, 2, 3, 4, 5]);
    assert_eq!(t.fetches, 3);
    assert!(matches!(t.end, StreamEnd::Exhausted));
}

#[test]
fn single_page_terminates_after_one_fetch() {
    let only = page(vec![30usize, 20, 10], None);
    let t = collect(FetchReply::Page(only), Vec::new());
    assert_eq!(t.items, vec![10, 20, 30]);
    assert_eq!(t.fetches, 1);
    assert!(matches!(t.end, StreamEnd::Exhausted));
}

#[test]
fn wire_page_is_reversed() {
    let only = page(
        vec![String::from("C"), String::from("B"), String::from("A")],
        None,
    );
    let t = collect(FetchReply::Page(only), Vec::new());
    assert_eq!(t.items, vec!["A", "B", "C"]);
    assert!(matches!(t.end, StreamEnd::Exhausted));
}

#[test]
fn fault_stops_stream_after_yielded_items() {
    let first = page(vec![2usize, 1], Some("/p2"));
    let fault = FetchReply::Fault {
        status: 422,
        body: b"{\"error_message\":\"rate limited\"}".to_vec(),
    };
    let t = collect(FetchReply::Page(first), vec![fault]);
    assert_eq!(t.items, vec![1, 2]);
    assert_eq!(t.fetches, 2);
    match t.end {
        StreamEnd::Faulted(Error::Fault { code, message }) => {
            assert_eq!(code, 422);
            assert_eq!(message, "rate limited");
        }
        other => panic!("expected a fault, got {:?}", other),
    }
}

#[test]
fn unparseable_fault_body_is_codec() {
    let fault = FetchReply::<usize>::Fault {
        status: 500,
        body: b"not json at all".to_vec(),
    };
    let t = collect(fault, Vec::new());
    assert!(t.items.is_empty());
    assert!(matches!(t.end, StreamEnd::Faulted(Error::Codec)));
}

#[test]
fn transport_failure_stops_stream() {
    let first = page(vec![1usize], Some("/p2"));
    let t = collect(FetchReply::Page(first), vec![FetchReply::TransportFailed]);
    assert_eq!(t.items, vec![1]);
    assert!(matches!(t.end, StreamEnd::Faulted(Error::Transport)));
}

#[test]
fn undecodable_page_stops_stream() {
    let first = page(vec![1usize], Some("/p2"));
    let t = collect(FetchReply::Page(first), vec![FetchReply::DecodeFailed]);
    assert_eq!(t.items, vec![1]);
    assert!(matches!(t.end, StreamEnd::Faulted(Error::Codec)));
}

#[test]
fn starved_traversal_is_unfinished() {
    let first = page(vec![1usize], Some("/p2"));
    let t = collect(FetchReply::Page(first), Vec::new());
    assert_eq!(t.items, vec![1]);
    assert_eq!(t.fetches, 1);
    assert!(matches!(t.end, StreamEnd::Unfinished));
}

#[test]
fn retraversal_yields_same_sequence() {
    let run = || {
        collect(
            FetchReply::Page(page(vec![2usize, 1], Some("/p2"))),
            vec![FetchReply::Page(page(vec![4usize, 3], None))],
        )
    };
    let a = run();
    let b = run();
    assert_eq!(a.items, b.items);
    assert_eq!(a.fetches, b.fetches);
    assert!(matches!(a.end, StreamEnd::Exhausted));
    assert!(matches!(b.end, StreamEnd::Exhausted));
}

#[test]
fn cursor_pulls_items_before_fetching() {
    let mut cursor = Cursor::begin(page(vec![2usize, 1], Some("/p2")));
    assert!(matches!(cursor.step(), Step::Item(1)));
    assert!(matches!(cursor.step(), Step::Item(2)));
    match cursor.step() {
        Step::Fetch(href) => assert_eq!(href, "/p2"),
        other => panic!("expected a fetch request, got {:?}", other),
    }
    cursor.supply(page(vec![3usize], None));
    assert!(matches!(cursor.step(), Step::Item(3)));
    assert!(matches!(cursor.step(), Step::End));
}

#[test]
fn list_keeps_wire_order() {
    let only = page(vec![3usize, 2, 1], None);
    let items = list_outcome(FetchReply::Page(only)).unwrap();
    assert_eq!(items, vec![3, 2, 1]);
}

#[test]
fn list_classifies_fault() {
    let r = list_outcome::<usize>(FetchReply::Fault {
        status: 404,
        body: b"{\"error_message\":\"not found\"}".to_vec(),
    });
    match r {
        Err(Error::Fault { code, message }) => {
            assert_eq!(code, 404);
            assert_eq!(message, "not found");
        }
        other => panic!("expected a fault, got {:?}", other),
    }
}

#[test]
fn list_reports_transport_failure() {
    let r = list_outcome::<usize>(FetchReply::TransportFailed);
    assert!(matches!(r, Err(Error::Transport)));
}

#[test]
fn list_reports_local_io_failure() {
    let r = list_outcome::<usize>(FetchReply::IoFailed);
    assert!(matches!(r, Err(Error::IO)));
}
