use std::sync::{Arc, Mutex};
use std::time::{Duration, Instant};

use overbot::registry::{DashTypeMap, WaitPoll};

const KEY: u64 = 9;

/// Looks at the registry every millisecond until the waiter's decision is
/// final.
async fn wait_for_existence(reg: Arc<Mutex<DashTypeMap>>, timeout: Duration) -> bool {
    let deadline = Instant::now() + timeout;
    loop {
        let time_is_up = Instant::now() >= deadline;
        let poll = reg.lock().unwrap().poll_waiter(KEY, true, time_is_up);
        match poll {
            WaitPoll::Ready(seen) => return seen,
            WaitPoll::Pending => tokio::time::sleep(Duration::from_millis(1)).await,
        }
    }
}

#[test]
fn wait_sees_insert_made_later() {
    let runtime = tokio::runtime::Runtime::new().unwrap();
    let reg = Arc::new(Mutex::new(DashTypeMap::new()));
    let producer = reg.clone();
    let seen = runtime.block_on(async move {
        let inserter = tokio::spawn(async move {
            tokio::time::sleep(Duration::from_millis(10)).await;
            producer.lock().unwrap().insert(KEY, 1).unwrap();
        });
        let seen = wait_for_existence(reg, Duration::from_secs(1)).await;
        inserter.await.unwrap();
        seen
    });
    assert!(seen);
}

#[test]
fn wait_times_out_not_before_deadline() {
    let runtime = tokio::runtime::Runtime::new().unwrap();
    let reg = Arc::new(Mutex::new(DashTypeMap::new()));
    let start = Instant::now();
    let seen = runtime.block_on(wait_for_existence(reg, Duration::from_millis(10)));
    assert!(!seen);
    assert!(start.elapsed() >= Duration::from_millis(10));
}
