use hyper_fahrenheit::authority::decimal_text;
use hyper_fahrenheit::{Authority, ConnectError, Connector, FahrenheitExecutor};
use std::sync::atomic::{AtomicUsize, Ordering};
use std::sync::Arc;
use std::task::Poll;

fn authority(host: Option<&str>, port: Option<u16>) -> Authority {
    Authority { host: host.map(|h| h.to_string()), port }
}

#[test]
fn decimal_text_writes_digits_without_leading_zeros() {
    assert_eq!(decimal_text(0), "0");
    assert_eq!(decimal_text(7), "7");
    assert_eq!(decimal_text(80), "80");
    assert_eq!(decimal_text(8080), "8080");
    assert_eq!(decimal_text(10000), "10000");
    assert_eq!(decimal_text(65535), "65535");
}

#[test]
fn explicit_port_is_used_as_given() {
    let a = authority(Some("example.com"), Some(8080));
    assert_eq!(a.address(), Ok("example.com:8080".to_string()));
    assert_eq!(a.effective_port(), 8080);
}

#[test]
fn missing_port_becomes_port_80() {
    let a = authority(Some("example.com"), None);
    assert_eq!(a.address(), Ok("example.com:80".to_string()));
    assert_eq!(a.effective_port(), 80);
}

#[test]
fn explicit_port_80_and_port_0_are_kept() {
    assert_eq!(authority(Some("h"), Some(80)).address(), Ok("h:80".to_string()));
    assert_eq!(authority(Some("h"), Some(0)).address(), Ok("h:0".to_string()));
    assert_eq!(authority(Some("h"), Some(65535)).address(), Ok("h:65535".to_string()));
}

#[test]
fn missing_host_is_an_error_whatever_the_port() {
    assert_eq!(authority(None, None).address(), Err(ConnectError::MissingHost));
    assert_eq!(authority(None, Some(8080)).address(), Err(ConnectError::MissingHost));
}

#[test]
fn local_target_without_port_goes_to_port_80() {
    let c = Connector;
    assert_eq!(c.target_address(&authority(Some("127.0.0.1"), None)), Ok("127.0.0.1:80".to_string()));
}

#[test]
fn local_target_with_port_goes_to_that_port() {
    let c = Connector;
    assert_eq!(
        c.target_address(&authority(Some("127.0.0.1"), Some(4321))),
        Ok("127.0.0.1:4321".to_string())
    );
}

#[test]
fn target_without_host_gives_missing_host() {
    let c = Connector::default();
    assert_eq!(c.target_address(&authority(None, None)), Err(ConnectError::MissingHost));
    assert_eq!(c.target_address(&authority(None, Some(4321))), Err(ConnectError::MissingHost));
}

#[test]
fn connector_is_always_ready() {
    let mut c = Connector;
    for _ in 0..3 {
        assert!(c.poll_ready().is_ok());
    }
}

#[test]
fn every_spawned_future_runs_to_completion() {
    let done = Arc::new(AtomicUsize::new(0));
    let count = done.clone();
    fahrenheit::run(async move {
        let executor = FahrenheitExecutor;
        for i in 0..10usize {
            let count = count.clone();
            executor.execute(async move {
                let mut yielded = false;
                futures_util::future::poll_fn(|cx| {
                    if yielded || i % 2 == 0 {
                        Poll::Ready(())
                    } else {
                        yielded = true;
                        cx.waker().wake_by_ref();
                        Poll::Pending
                    }
                })
                .await;
                count.fetch_add(1, Ordering::SeqCst);
            });
        }
    });
    assert_eq!(done.load(Ordering::SeqCst), 10);
}
