use speare::macros::{check_handler, first_marked, handler_takes_ctx, read_process_args, ArgsReading, ArgsShape, Generics, HandlerShape, MessageArg, Output};
use speare::speare::req_res::{response_outcome, ReqErr};
use speare::speare::streams::{merge_first, merge_second, MergeStep, Polled, SourceSet};

#[test]
fn merge_prefers_the_first_source() {
    assert!(matches!(merge_first(Polled::Item(1)), MergeStep::Yield(1)));
    assert!(matches!(merge_first::<u8>(Polled::Finished), MergeStep::PollSecond { first_finished: true }));
    assert!(matches!(merge_second(true, Polled::<u8>::Finished), Polled::Finished));
    assert!(matches!(merge_second(false, Polled::<u8>::Finished), Polled::Pending));
    assert!(matches!(merge_second(false, Polled::Item(2)), Polled::Item(2)));
}

#[test]
fn source_sets_chain_streams() {
    let set: SourceSet<_> = SourceSet::<speare::NoStream<u8>>::new().stream(5u8).stream("x");
    let merged = set.into_inner();
    assert_eq!(merged.a.b, 5);
    assert_eq!(merged.b, "x");
}

#[test]
fn request_outcomes() {
    assert!(matches!(response_outcome(true, Some(3)), Ok(3)));
    assert!(matches!(response_outcome::<u8>(true, None), Err(ReqErr::Dropped)));
    assert!(matches!(response_outcome(false, Some(3)), Err(ReqErr::Timeout)));
    assert_eq!(ReqErr::Dropped.message(), "Request object dropped before replying.");
    assert_eq!(ReqErr::Timeout.message(), "Timed out before receiving response.");
}

#[test]
fn handler_signatures() {
    let ok = HandlerShape {
        has_first_arg: true,
        message: MessageArg::Typed,
        output: Output::Path { has_segments: true, is_reply: true, generics: Generics::AngleBracketed(2) },
    };
    assert_eq!(check_handler(ok), Ok(()));
    assert_eq!(check_handler(HandlerShape { has_first_arg: false, ..ok }), Err("Expected 'self' as first arg"));
    assert_eq!(check_handler(HandlerShape { message: MessageArg::Missing, ..ok }), Err("Expected a message argument"));
    assert_eq!(
        check_handler(HandlerShape { output: Output::Path { has_segments: true, is_reply: false, generics: Generics::Absent }, ..ok }),
        Err("Expected Reply type in handler return value")
    );
    assert_eq!(
        check_handler(HandlerShape { output: Output::Path { has_segments: true, is_reply: true, generics: Generics::AngleBracketed(1) }, ..ok }),
        Err("Expected two generics for Reply type, Ok type and Err type")
    );
    assert_eq!(check_handler(HandlerShape { output: Output::Default, ..ok }), Err("Expected Result type for return value"));
}

#[test]
fn ctx_arguments_and_markers() {
    assert!(handler_takes_ctx(&vec![None, Some(vec![(false, false), (true, true)])]));
    assert!(!handler_takes_ctx(&vec![None, Some(vec![(true, false)])]));
    assert_eq!(first_marked(&vec![false, true, true]), Some(1));
    assert_eq!(first_marked(&vec![false]), None);
    assert!(matches!(read_process_args(ArgsShape::Empty), ArgsReading::DefaultError));
    assert!(matches!(
        read_process_args(ArgsShape::Assign { keyword_is_error: false, starts_type: true }),
        ArgsReading::ExpectedErrorKeyword
    ));
}

/// One poll of a merge, from what its two sources would yield.
fn poll_merge(a: Polled<u32>, b: Polled<u32>) -> Polled<u32> {
    match merge_first(a) {
        MergeStep::Yield(x) => Polled::Item(x),
        MergeStep::PollSecond { first_finished } => merge_second(first_finished, b),
    }
}

#[test]
fn added_stream_yields_all_its_items_in_order() {
    let stream = vec![Polled::Item(1), Polled::Pending, Polled::Item(2), Polled::Finished];
    let mut got = Vec::new();
    for b in stream {
        if let Polled::Item(x) = poll_merge(Polled::Pending, b) {
            got.push(x);
        }
    }
    assert_eq!(got, vec![1, 2]);
}
