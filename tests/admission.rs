use reqwest_native::async_client::{limit_connections, AdmissionOutcome, NativeAsyncClient};
use reqwest_native::errors::ErrorKind;
use std::sync::Arc;
use std::time::{Duration, Instant};
use tokio::sync::{OwnedSemaphorePermit, Semaphore};

async fn wait_for_permit(
    semaphore: Option<Arc<Semaphore>>,
    deadline: Option<Duration>,
) -> (AdmissionOutcome, Option<OwnedSemaphorePermit>) {
    let Some(semaphore) = semaphore else {
        return (AdmissionOutcome::Unlimited, None);
    };
    let acquired = match deadline {
        Some(d) => match tokio::time::timeout(d, semaphore.acquire_owned()).await {
            Ok(a) => a,
            Err(_) => return (AdmissionOutcome::TimedOut, None),
        },
        None => semaphore.acquire_owned().await,
    };
    match acquired {
        Ok(p) => (AdmissionOutcome::Admitted, Some(p)),
        Err(_) => (AdmissionOutcome::SemaphoreClosed, None),
    }
}

fn runtime() -> tokio::runtime::Runtime {
    tokio::runtime::Builder::new_current_thread().enable_time().build().unwrap()
}

#[test]
fn second_request_times_out_on_a_single_connection() {
    let client = NativeAsyncClient::new(
        reqwest::Client::new(),
        Some(1),
        Some(Duration::from_millis(50)),
        None,
    )
    .ok()
    .unwrap();
    let semaphore = client.request_semaphore().clone();
    let deadline = client.connect_timeout();
    runtime().block_on(async move {
        let (first, held) = wait_for_permit(semaphore.clone(), deadline).await;
        assert_eq!(limit_connections(first), Ok(true));
        let started = Instant::now();
        let (second, none) = wait_for_permit(semaphore.clone(), deadline).await;
        let waited = started.elapsed();
        assert!(none.is_none());
        assert_eq!(limit_connections(second), Err(ErrorKind::PoolTimeout));
        assert!(waited >= Duration::from_millis(45));
        assert!(waited < Duration::from_millis(1000));
        assert_eq!(semaphore.as_ref().unwrap().available_permits(), 0);
        drop(held);
        assert_eq!(semaphore.as_ref().unwrap().available_permits(), 1);
    });
}

#[test]
fn cap_of_n_admits_n_then_waits() {
    let client = NativeAsyncClient::new(reqwest::Client::new(), Some(3), Some(Duration::from_millis(20)), None)
        .ok()
        .unwrap();
    let semaphore = client.request_semaphore().clone();
    let deadline = client.connect_timeout();
    runtime().block_on(async move {
        let mut held = Vec::new();
        for _ in 0..3 {
            let (outcome, permit) = wait_for_permit(semaphore.clone(), deadline).await;
            assert_eq!(limit_connections(outcome), Ok(true));
            held.push(permit.unwrap());
        }
        let (outcome, _) = wait_for_permit(semaphore.clone(), deadline).await;
        assert_eq!(limit_connections(outcome), Err(ErrorKind::PoolTimeout));
        held.pop();
        let (outcome, permit) = wait_for_permit(semaphore.clone(), deadline).await;
        assert_eq!(limit_connections(outcome), Ok(true));
        assert!(permit.is_some());
    });
}

#[test]
fn uncapped_client_admits_without_a_permit() {
    let client = NativeAsyncClient::new(reqwest::Client::new(), None, None, None).ok().unwrap();
    let semaphore = client.request_semaphore().clone();
    runtime().block_on(async move {
        let (outcome, permit) = wait_for_permit(semaphore, None).await;
        assert_eq!(limit_connections(outcome), Ok(false));
        assert!(permit.is_none());
    });
}
