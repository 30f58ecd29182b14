use serving_core::dispatch::SubmitOutcome;
use serving_core::dispatch::dispatch_result;
use serving_core::errors::StreamItemError;
use serving_core::stream::JobPhase;
use serving_core::stream::PullStep;
use serving_core::stream::ResponseStreamAdapter;
use serving_core::stream::StreamEvent;

fn delivered(token: &str) -> StreamEvent {
    StreamEvent::Delivered { token: token.to_string() }
}

fn expect_token(step: PullStep, token: &str) {
    match step {
        PullStep::Yield { item: Ok(t) } => assert_eq!(t, token),
        other => panic!("expected a successful item, got {:?}", other),
    }
}

#[test]
fn clean_close_yields_items_in_order_then_terminates() {
    let mut adapter = ResponseStreamAdapter::new();
    assert_eq!(adapter.phase(), JobPhase::Dispatched);

    expect_token(adapter.on_event(delivered("a")), "a");
    expect_token(adapter.on_event(delivered("b")), "b");
    expect_token(adapter.on_event(delivered("c")), "c");
    assert_eq!(adapter.phase(), JobPhase::Streaming);

    match adapter.on_event(StreamEvent::ProducerClosed) {
        PullStep::Finished { phase } => assert_eq!(phase, JobPhase::Completed),
        other => panic!("expected the stream to finish, got {:?}", other),
    }
    assert!(adapter.is_finished());

    // The stream is over for good: nothing later blocks it open or yields.
    match adapter.on_event(delivered("d")) {
        PullStep::Finished { phase } => assert_eq!(phase, JobPhase::Completed),
        other => panic!("expected an inert finished stream, got {:?}", other),
    }
}

#[test]
fn generate_streaming_hello_two_chunks() {
    // A pool that answers "hello" with "he", "llo" and closes cleanly.
    let mut adapter = ResponseStreamAdapter::new();
    expect_token(adapter.on_event(delivered("he")), "he");
    expect_token(adapter.on_event(delivered("llo")), "llo");
    match adapter.on_event(StreamEvent::ProducerClosed) {
        PullStep::Finished { phase } => assert_eq!(phase, JobPhase::Completed),
        other => panic!("expected a clean end of stream, got {:?}", other),
    }
}

#[test]
fn inline_error_item_is_forwarded_not_terminal() {
    let mut adapter = ResponseStreamAdapter::new();
    let error = StreamItemError { detail: "worker hiccup".to_string() };
    match adapter.on_event(StreamEvent::DeliveredError { error: error.clone() }) {
        PullStep::Yield { item: Err(e) } => assert_eq!(e, error),
        other => panic!("expected the failure item forwarded, got {:?}", other),
    }
    // The stream keeps flowing after an inline failure...
    expect_token(adapter.on_event(delivered("more")), "more");
    // ...and a close after a successful item is a normal completion.
    match adapter.on_event(StreamEvent::ProducerClosed) {
        PullStep::Finished { phase } => assert_eq!(phase, JobPhase::Completed),
        other => panic!("expected completion, got {:?}", other),
    }
}

#[test]
fn close_right_after_error_item_fails_the_job() {
    let mut adapter = ResponseStreamAdapter::new();
    let error = StreamItemError { detail: "terminal".to_string() };
    adapter.on_event(StreamEvent::DeliveredError { error });
    match adapter.on_event(StreamEvent::ProducerClosed) {
        PullStep::Finished { phase } => assert_eq!(phase, JobPhase::Failed),
        other => panic!("expected the job to fail, got {:?}", other),
    }
}

#[test]
fn consumer_drop_cancels_and_releases_channel() {
    let mut adapter = ResponseStreamAdapter::new();
    expect_token(adapter.on_event(delivered("first")), "first");

    match adapter.on_event(StreamEvent::ConsumerDisconnected) {
        PullStep::ReleaseChannel => {}
        other => panic!("expected the channel released, got {:?}", other),
    }
    assert_eq!(adapter.phase(), JobPhase::Cancelled);

    // Two more items were on their way: neither is yielded nor changes
    // anything once the job is cancelled.
    match adapter.on_event(delivered("second")) {
        PullStep::Finished { phase } => assert_eq!(phase, JobPhase::Cancelled),
        other => panic!("expected an inert cancelled stream, got {:?}", other),
    }
    match adapter.on_event(delivered("third")) {
        PullStep::Finished { phase } => assert_eq!(phase, JobPhase::Cancelled),
        other => panic!("expected an inert cancelled stream, got {:?}", other),
    }
}

#[test]
fn adapter_over_real_bounded_channel() {
    // The same pull loop the server runs, against a real bounded channel:
    // the producer sends three items and closes; the adapter yields exactly
    // those, in order, then terminates instead of blocking.
    let runtime =
        tokio::runtime::Builder::new_current_thread().enable_time().build().unwrap();
    runtime.block_on(async {
        let (tx, mut rx) = tokio::sync::mpsc::channel::<String>(4);
        let mut adapter = dispatch_result(SubmitOutcome::Accepted).unwrap();

        tokio::spawn(async move {
            for chunk in ["a", "b", "c"] {
                tx.send(chunk.to_string()).await.unwrap();
            }
            // tx dropped here: explicit end-of-stream for the consumer.
        });

        let mut yielded: Vec<String> = Vec::new();
        loop {
            let step = match rx.recv().await {
                Some(token) => adapter.on_event(StreamEvent::Delivered { token }),
                None => adapter.on_event(StreamEvent::ProducerClosed),
            };
            match step {
                PullStep::Yield { item: Ok(t) } => yielded.push(t),
                PullStep::Yield { item: Err(e) } => panic!("unexpected error item {:?}", e),
                PullStep::Finished { phase } => {
                    assert_eq!(phase, JobPhase::Completed);
                    break;
                }
                PullStep::ReleaseChannel => panic!("no consumer disconnect happened"),
            }
        }
        assert_eq!(yielded, vec!["a".to_string(), "b".to_string(), "c".to_string()]);
    });
}

#[test]
fn producer_observes_consumer_drop_and_stops() {
    // The consumer goes away after the first of three items: releasing the
    // channel makes the producer see closure promptly and send no more.
    let runtime =
        tokio::runtime::Builder::new_current_thread().enable_time().build().unwrap();
    runtime.block_on(async {
        let (tx, mut rx) = tokio::sync::mpsc::channel::<String>(1);
        let mut adapter = dispatch_result(SubmitOutcome::Accepted).unwrap();

        tx.send("first".to_string()).await.unwrap();
        let token = rx.recv().await.unwrap();
        expect_token(adapter.on_event(StreamEvent::Delivered { token }), "first");

        // The outward consumer disconnects; the adapter says to release the
        // channel, which is what lets the producer observe closure.
        match adapter.on_event(StreamEvent::ConsumerDisconnected) {
            PullStep::ReleaseChannel => drop(rx),
            other => panic!("expected the channel released, got {:?}", other),
        }
        assert_eq!(adapter.phase(), JobPhase::Cancelled);

        tx.closed().await;
        assert!(tx.is_closed());
        assert!(tx.send("second".to_string()).await.is_err());
    });
}
