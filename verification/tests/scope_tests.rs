use portal_core::pool::{acquisition_warning, PoolGateway};
use portal_core::routing::{route_request, HttpMethod, Route};
use portal_core::scope::{RequestScope, ResponseKind, ScopeAction, ScopeEvent, ScopeState};

#[test]
fn happy_path_commits_once_and_releases_once() {
    let mut s = RequestScope::start();
    assert!(matches!(s.step(ScopeEvent::AcquireOk), ScopeAction::ResolveIdentity));
    assert!(matches!(s.step(ScopeEvent::ResolveOk), ScopeAction::OpenTransaction));
    assert!(matches!(s.step(ScopeEvent::OpenOk), ScopeAction::RunExecutor));
    s.note_statement();
    s.note_statement();
    assert!(matches!(
        s.step(ScopeEvent::ExecutorReturned { sole_owner: true }),
        ScopeAction::CommitTransaction
    ));
    let a = s.step(ScopeEvent::CommitOk);
    assert!(matches!(
        a,
        ScopeAction::Finish {
            abort_transaction: false,
            release_connection: true,
            response: Some(ResponseKind::FromExecutor),
        }
    ));
    assert!(matches!(s.state, ScopeState::Done));
    assert_eq!((s.commits, s.aborts, s.releases), (1, 0, 1));
    assert_eq!(s.statements, 2);
}

#[test]
fn commit_failure_discards_response_and_still_releases() {
    let mut s = RequestScope::start();
    s.step(ScopeEvent::AcquireOk);
    s.step(ScopeEvent::ResolveOk);
    s.step(ScopeEvent::OpenOk);
    s.step(ScopeEvent::ExecutorReturned { sole_owner: true });
    let a = s.step(ScopeEvent::CommitFailed);
    assert!(matches!(
        a,
        ScopeAction::Finish {
            abort_transaction: false,
            release_connection: true,
            response: Some(ResponseKind::ServiceUnavailable),
        }
    ));
    assert_eq!((s.commits, s.aborts, s.releases), (1, 0, 1));
}

#[test]
fn pool_failure_terminates_request_before_any_transaction() {
    let mut s = RequestScope::start();
    let a = s.step(ScopeEvent::AcquireFailed);
    assert!(matches!(
        a,
        ScopeAction::Finish {
            abort_transaction: false,
            release_connection: false,
            response: Some(ResponseKind::ServiceUnavailable),
        }
    ));
    assert!(!s.connection_acquired);
    assert!(!s.transaction_opened);
    assert_eq!((s.commits, s.aborts, s.releases), (0, 0, 0));
}

#[test]
fn resolve_failure_is_internal_error_with_release() {
    let mut s = RequestScope::start();
    s.step(ScopeEvent::AcquireOk);
    let a = s.step(ScopeEvent::ResolveFailed);
    assert!(matches!(
        a,
        ScopeAction::Finish {
            abort_transaction: false,
            release_connection: true,
            response: Some(ResponseKind::InternalError),
        }
    ));
    assert!(!s.transaction_opened);
    assert_eq!((s.commits, s.aborts, s.releases), (0, 0, 1));
}

#[test]
fn open_failure_is_internal_error_with_release() {
    let mut s = RequestScope::start();
    s.step(ScopeEvent::AcquireOk);
    s.step(ScopeEvent::ResolveOk);
    let a = s.step(ScopeEvent::OpenFailed);
    assert!(matches!(
        a,
        ScopeAction::Finish { response: Some(ResponseKind::InternalError), .. }
    ));
    assert_eq!((s.commits, s.aborts, s.releases), (0, 0, 1));
}

#[test]
fn cancellation_after_open_aborts_and_releases() {
    let mut s = RequestScope::start();
    s.step(ScopeEvent::AcquireOk);
    s.step(ScopeEvent::ResolveOk);
    s.step(ScopeEvent::OpenOk);
    let a = s.step(ScopeEvent::Cancelled);
    assert!(matches!(
        a,
        ScopeAction::Finish { abort_transaction: true, release_connection: true, response: None }
    ));
    assert!(matches!(s.state, ScopeState::Done));
    assert_eq!((s.commits, s.aborts, s.releases), (0, 1, 1));
}

#[test]
fn retained_transaction_handle_terminates_the_process() {
    let mut s = RequestScope::start();
    s.step(ScopeEvent::AcquireOk);
    s.step(ScopeEvent::ResolveOk);
    s.step(ScopeEvent::OpenOk);
    let a = s.step(ScopeEvent::ExecutorReturned { sole_owner: false });
    assert!(matches!(a, ScopeAction::TerminateProcess));
    assert!(matches!(s.state, ScopeState::Poisoned));
    // nothing was finalized and no release happened: the process dies
    assert_eq!((s.commits, s.aborts, s.releases), (0, 0, 0));
}

#[test]
fn single_connection_pool_makes_the_second_request_wait() {
    // pool size 1, two concurrent requests: the second observes the
    // exhausted pool until the first scope has released.
    let mut pool = PoolGateway::new(1);
    let mut first = RequestScope::start();
    let mut second = RequestScope::start();

    assert!(pool.try_acquire());
    first.step(ScopeEvent::AcquireOk);
    assert_eq!(pool.in_use(), 1);

    // the second request finds no free connection and must suspend
    assert!(!pool.try_acquire());

    // drive the first request to its end; its Finish releases the pool
    first.step(ScopeEvent::ResolveOk);
    first.step(ScopeEvent::OpenOk);
    first.step(ScopeEvent::ExecutorReturned { sole_owner: true });
    let a = first.step(ScopeEvent::CommitOk);
    assert!(matches!(a, ScopeAction::Finish { release_connection: true, .. }));
    pool.release();
    assert_eq!(pool.in_use(), 0);

    // now the second request proceeds
    assert!(pool.try_acquire());
    second.step(ScopeEvent::AcquireOk);
    second.step(ScopeEvent::ResolveOk);
    second.step(ScopeEvent::OpenOk);
    second.step(ScopeEvent::ExecutorReturned { sole_owner: true });
    second.step(ScopeEvent::CommitOk);
    pool.release();

    // the pool recovered fully; each request finalized exactly once
    assert_eq!(pool.available, 1);
    assert_eq!((first.commits + first.aborts, first.releases), (1, 1));
    assert_eq!((second.commits + second.aborts, second.releases), (1, 1));
}

#[test]
fn slow_acquisition_warns_above_threshold_only() {
    assert!(!acquisition_warning(0));
    assert!(!acquisition_warning(5));
    assert!(acquisition_warning(6));
}

#[test]
fn routing_sends_only_post_graphql_to_the_api() {
    assert_eq!(route_request(HttpMethod::Post, b"/graphql"), Route::Api);
    assert_eq!(route_request(HttpMethod::Post, b"/graphql/"), Route::Api);
    assert_eq!(route_request(HttpMethod::Post, b"/other"), Route::MethodNotAllowed);
    assert_eq!(route_request(HttpMethod::Get, b"/graphql"), Route::PageOrAsset);
    assert_eq!(route_request(HttpMethod::Get, b"/~assets/app.js"), Route::PageOrAsset);
    assert_eq!(route_request(HttpMethod::Head, b"/series/42"), Route::PageOrAsset);
    assert_eq!(route_request(HttpMethod::OtherMethod, b"/series/42"), Route::MethodNotAllowed);
}
