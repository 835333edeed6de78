use cancellation::{CancellationSource, CancellationToken, Poll, SourceIssuer};

const CHILDREN_COUNT: usize = 64;

fn source() -> CancellationSource<()> {
    let mut issuer = SourceIssuer::new();
    CancellationSource::new(&mut issuer)
}

#[test]
fn default_cancellation_token_source_should_be_cancellable() {
    let cts = source();
    assert!(cts.can_be_cancelled());
}

#[test]
fn default_cancellation_token_source_child_token_should_be_cancellable() {
    let cts = source();
    let tok = cts.child_token();
    assert!(!tok.is_cancelled(&cts))
}

#[test]
fn orphaned_cancellation_token_source_should_be_cancellable() {
    let mut cts = source();
    assert!(cts.can_be_cancelled());
    assert!(cts.complete(()));
}

#[test]
fn cancellation_token_source_should_signal_all_child_tokens() {
    let mut cts = source();

    assert!(cts.can_be_cancelled());
    assert!(!cts.is_cancellation_requested());

    let tokens: Vec<CancellationToken> = (0..CHILDREN_COUNT)
        .map(|_| {
            let tok = cts.child_token();
            assert!(tok.can_be_cancelled(&cts));
            assert!(!tok.is_cancelled(&cts));
            tok
        })
        .collect();
    assert!(cts.complete(()));
    tokens.iter().for_each(|tok| {
        assert!(!tok.can_be_cancelled(&cts));
        assert!(tok.is_cancelled(&cts));
    });
}

#[test]
fn cancellation_await_should_work() {
    let mut cts = source();
    let tok = cts.child_token();
    let mut tok_cloned = tok.clone();

    assert!(cts.can_be_cancelled());
    assert!(tok.can_be_cancelled(&cts));

    let mut tok_cancel_fut = tok_cloned.cancellation().into_future();
    assert_eq!(tok_cancel_fut.poll(&cts), Poll::Pending);
    assert!(cts.complete(()));

    assert!(tok.is_cancelled(&cts));
    assert!(!tok.can_be_cancelled(&cts));

    assert_eq!(tok_cancel_fut.poll(&cts), Poll::Ready);
}

#[test]
fn new_source_has_not_requested_cancellation() {
    let mut issuer = SourceIssuer::new();
    let cts: CancellationSource<u32> = CancellationSource::new(&mut issuer);
    assert!(!cts.is_cancellation_requested());
    assert!(cts.can_be_cancelled());
}

#[test]
fn completion_requests_cancellation_for_good() {
    let mut issuer = SourceIssuer::new();
    let mut cts: CancellationSource<u32> = CancellationSource::new(&mut issuer);
    let tok = cts.child_token();
    assert!(cts.complete(5));
    assert!(cts.is_cancellation_requested());
    assert!(!cts.can_be_cancelled());
    assert!(!cts.complete(6));
    assert!(cts.is_cancellation_requested());
    assert!(tok.is_cancelled(&cts));
}

#[test]
fn tokens_taken_after_completion_are_cancelled() {
    let mut cts = source();
    assert!(cts.complete(()));
    let tok = cts.child_token();
    assert!(tok.is_cancelled(&cts));
    assert!(!tok.can_be_cancelled(&cts));
}

#[test]
fn children_of_one_source_are_equal() {
    let cts = source();
    let a = cts.child_token();
    let b = cts.child_token();
    assert!(a == b);
    assert!(a == a.clone());
    assert!(a == CancellationToken::new(0));
}

#[test]
fn children_of_different_sources_differ() {
    let mut issuer = SourceIssuer::new();
    let first: CancellationSource<()> = CancellationSource::new(&mut issuer);
    let second: CancellationSource<()> = CancellationSource::new(&mut issuer);
    assert!(first.child_token() != second.child_token());
    assert!(first.child_token() == CancellationToken::new(0));
    assert!(second.child_token() == CancellationToken::new(1));
    assert!(CancellationToken::new(1) != CancellationToken::new(2));
}

#[test]
fn token_observes_only_its_own_source() {
    let mut issuer = SourceIssuer::new();
    let mut first: CancellationSource<()> = CancellationSource::new(&mut issuer);
    let second: CancellationSource<()> = CancellationSource::new(&mut issuer);
    let tok_first = first.child_token();
    let tok_second = second.child_token();
    assert!(first.complete(()));
    assert!(tok_first.is_cancelled(&first));
    assert!(!tok_second.is_cancelled(&second));
}

#[test]
fn cancellation_future_is_pending_until_requested() {
    let mut issuer = SourceIssuer::new();
    let mut cts: CancellationSource<i64> = CancellationSource::new(&mut issuer);
    let mut tok = cts.child_token();
    let mut fut = tok.cancellation().into_future();
    assert_eq!(fut.poll(&cts), Poll::Pending);
    assert_eq!(fut.poll(&cts), Poll::Pending);
    assert!(cts.complete(-1));
    assert_eq!(fut.poll(&cts), Poll::Ready);
    assert_eq!(fut.poll(&cts), Poll::Ready);
}

#[test]
fn cts_drop_should_signal_cancel_token() {
    let mut cts = source();
    let mut tok = cts.child_token();

    assert!(cts.can_be_cancelled());
    assert!(tok.can_be_cancelled(&cts));
    assert!(!tok.is_cancelled(&cts));

    let mut fut = tok.cancellation().into_future();
    assert_eq!(fut.poll(&cts), Poll::Pending);
    cts.orphan();
    assert!(cts.is_orphaned());
    assert_eq!(fut.poll(&cts), Poll::Ready);
}

#[test]
fn orphan_as_cancelled_is_ready_after_drop() {
    let mut cts = source();
    let mut tok = cts.child_token();
    let mut fut = tok.cancellation().orphan_as_cancelled();
    assert_eq!(fut.poll(&cts), Poll::Pending);
    cts.orphan();
    assert_eq!(fut.poll(&cts), Poll::Ready);
}

#[test]
fn orphan_as_unsignaled_stays_pending_after_drop() {
    let mut cts = source();
    let mut tok = cts.child_token();
    let mut fut = tok.cancellation().orphan_as_unsignaled();
    assert_eq!(fut.poll(&cts), Poll::Pending);
    cts.orphan();
    assert_eq!(fut.poll(&cts), Poll::Pending);
    assert!(!tok.is_cancelled(&cts));
}

#[test]
fn orphan_as_unsignaled_is_ready_after_signal() {
    let mut cts = source();
    let mut tok = cts.child_token();
    let mut fut = tok.cancellation().orphan_as_unsignaled();
    assert!(cts.complete(()));
    cts.orphan();
    assert!(!cts.is_orphaned());
    assert_eq!(fut.poll(&cts), Poll::Ready);
}

#[test]
fn dropped_source_takes_no_output() {
    let mut cts = source();
    cts.orphan();
    assert!(!cts.complete(()));
    assert!(!cts.is_cancellation_requested());
    assert!(cts.can_be_cancelled());
}

#[test]
fn issuer_counts_out_identities() {
    let mut issuer = SourceIssuer::new();
    assert!(issuer.can_issue());
    let a: CancellationSource<()> = CancellationSource::new(&mut issuer);
    let b: CancellationSource<()> = CancellationSource::new(&mut issuer);
    let c: CancellationSource<()> = CancellationSource::new(&mut issuer);
    assert!(a.child_token() != b.child_token());
    assert!(b.child_token() != c.child_token());
    assert!(a.child_token() != c.child_token());
    assert!(c.child_token() == CancellationToken::new(2));
}

#[test]
fn ready_peek_with_output_requests_cancellation() {
    let mut cts: CancellationSource<u8> = {
        let mut issuer = SourceIssuer::new();
        CancellationSource::new(&mut issuer)
    };
    let mut tok = cts.child_token();
    let mut fut = tok.cancellation().orphan_as_unsignaled();
    cts.on_ready_peek(Some(9));
    assert!(cts.is_cancellation_requested());
    assert!(!cts.is_orphaned());
    assert_eq!(fut.poll(&cts), Poll::Ready);
}

#[test]
fn ready_peek_without_output_orphans_the_source() {
    let mut cts: CancellationSource<u8> = {
        let mut issuer = SourceIssuer::new();
        CancellationSource::new(&mut issuer)
    };
    let mut tok = cts.child_token();
    let mut fut = tok.cancellation().into_future();
    cts.on_ready_peek(None);
    assert!(!cts.is_cancellation_requested());
    assert!(cts.is_orphaned());
    assert_eq!(fut.poll(&cts), Poll::Ready);
    assert!(!cts.complete(1));
}
