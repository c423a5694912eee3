use eule::{RateLimiter, TimeSpan};
use std::sync::{Arc, Mutex};
use std::time::Duration;

#[test]
fn test_rate_limiter_basic() {
    let mut limiter = RateLimiter::new(2, TimeSpan::from_secs(1));
    assert!(limiter.check().is_ok());
    assert!(limiter.check().is_ok());
    assert!(limiter.check().is_err());
}

#[test]
fn test_rate_limiter_recovery() {
    let mut limiter = RateLimiter::new(1, TimeSpan::from_secs(1));
    assert!(limiter.check().is_ok());
    assert!(limiter.check().is_err());
    let rt = tokio::runtime::Runtime::new().unwrap();
    rt.block_on(async { tokio::time::sleep(Duration::from_secs(1)).await });
    assert!(limiter.check().is_ok());
}

#[test]
fn test_rate_limiter_concurrent() {
    let limiter = Arc::new(Mutex::new(RateLimiter::new(100, TimeSpan::from_secs(1))));
    let rt = tokio::runtime::Runtime::new().unwrap();
    let successful = rt.block_on(async {
        let tasks: Vec<_> = (0..200)
            .map(|_| {
                let l = Arc::clone(&limiter);
                tokio::spawn(async move { l.lock().unwrap().check().is_ok() })
            })
            .collect();
        let mut n = 0;
        for t in tasks {
            if t.await.unwrap_or(false) {
                n += 1;
            }
        }
        n
    });
    assert_eq!(successful, 100);
}

#[test]
fn limiter_with_simulated_time() {
    let mut limiter = RateLimiter::new(1, TimeSpan::from_secs(1));
    assert!(limiter.check_after(0).is_ok());
    assert!(limiter.check_after(0).is_err());
    assert!(limiter.check_after(1_000_000_000).is_ok());
}

#[test]
fn limiter_refills_in_proportion_and_caps() {
    let mut limiter = RateLimiter::new(2, TimeSpan::from_secs(1));
    assert!(limiter.check_after(0).is_ok());
    assert!(limiter.check_after(0).is_ok());
    assert!(limiter.check_after(0).is_err());
    // Half a second refills one token.
    assert!(limiter.check_after(500_000_000).is_ok());
    assert!(limiter.check_after(499_999_999).is_err());
    assert!(limiter.check_after(1).is_ok());
    // A long pause refills no more than a full bucket.
    assert!(limiter.check_after(3_600_000_000_000).is_ok());
    assert!(limiter.check_after(0).is_ok());
    assert!(limiter.check_after(0).is_err());
}

#[test]
fn zero_rate_admits_nothing() {
    let mut limiter = RateLimiter::new(0, TimeSpan::from_secs(1));
    assert!(limiter.check_after(10_000_000_000).is_err());
    let mut instant = RateLimiter::new(0, TimeSpan::from_secs(0));
    assert!(instant.check_after(0).is_err());
}
