use storekit::status;
use storekit::stream::{StreamState, StreamStep};
use storekit::{Message, StoreKitError};

#[test]
fn the_end_of_a_stream_finishes_it() {
    let mut state = StreamState::new();
    assert!(!state.is_finished());
    assert_eq!(state.on_status(status::OK), StreamStep::Item);
    assert!(!state.is_finished());
    assert_eq!(state.on_status(status::END_OF_STREAM), StreamStep::End);
    assert!(state.is_finished());
    assert_eq!(state.on_status(status::OK), StreamStep::Item);
    assert!(state.is_finished());
}

#[test]
fn a_timeout_leaves_the_stream_open() {
    let mut state = StreamState::new();
    assert_eq!(state.on_status(status::TIMED_OUT), StreamStep::Timeout);
    assert!(!state.is_finished());
    assert_eq!(state.on_status(status::FRAMEWORK_ERROR), StreamStep::Failure);
    assert!(!state.is_finished());
}

#[test]
fn next_step_reads_an_item_on_ok() {
    let mut state = StreamState::new();
    let step = state.next_step(status::OK, || Ok::<u32, StoreKitError>(7), None, None, None);
    assert_eq!(step.ok(), Some(Some(7)));
    assert!(!state.is_finished());
}

#[test]
fn next_step_passes_on_a_read_error() {
    let mut state = StreamState::new();
    let step = state.next_step(
        status::OK,
        || Err::<u32, StoreKitError>(StoreKitError::InvalidArgument("bad item".to_owned())),
        None,
        None,
        None,
    );
    assert_eq!(step.unwrap_err().to_string(), "bad item");
}

#[test]
fn next_step_ends_the_stream() {
    let mut state = StreamState::new();
    let step = state.next_step(status::END_OF_STREAM, || -> Result<u32, StoreKitError> {
        panic!("no item is read at the end of a stream")
    }, None, None, None);
    assert!(matches!(step, Ok(None)));
    assert!(state.is_finished());
}

#[test]
fn next_step_times_out_and_stays_open() {
    let mut state = StreamState::new();
    let step = state.next_step(status::TIMED_OUT, || Ok::<u32, StoreKitError>(1), None, None, None);
    match step {
        Err(StoreKitError::TimedOut(message)) => assert_eq!(message, "StoreKit operation timed out"),
        other => panic!("expected a timeout, got {other:?}"),
    }
    assert!(!state.is_finished());
}

#[test]
fn next_step_reports_bridge_errors() {
    let mut state = StreamState::new();
    let step = state.next_step(
        status::NOT_SUPPORTED,
        || Ok::<u32, StoreKitError>(1),
        Some("needs macOS 13.0+".to_owned()),
        None,
        None,
    );
    assert!(matches!(step, Err(StoreKitError::NotSupported(m)) if m == "needs macOS 13.0+"));
}

#[test]
fn messages_are_not_supported_on_macos() {
    assert!(!Message::is_supported());
    match Message::messages() {
        Err(StoreKitError::NotSupported(message)) => {
            assert_eq!(message, "StoreKit.Message is unavailable on macOS")
        }
        Err(other) => panic!("expected NotSupported, got {other:?}"),
        Ok(_) => panic!("expected NotSupported"),
    }
}

#[test]
fn message_streams_report_not_supported() {
    let mut stream = storekit::MessageStream::default();
    assert!(matches!(stream.next(), Err(StoreKitError::NotSupported(_))));
}
