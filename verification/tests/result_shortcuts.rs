use std::sync::Arc;

use airbag::backends::Backend;
use airbag::AirbagResult;
use airbag::Alert;

pub struct CapturingBackend {
    target: Arc<parking_lot::Mutex<Vec<Alert>>>,
}

impl CapturingBackend {
    pub fn new() -> Self {
        CapturingBackend { target: Arc::new(parking_lot::Mutex::new(Vec::new())) }
    }

    pub fn target(&self) -> Arc<parking_lot::Mutex<Vec<Alert>>> {
        self.target.clone()
    }
}

impl Backend for CapturingBackend {
    fn send(&mut self, alert: Alert) -> Result<(), anyhow::Error> {
        self.target.lock().push(alert);
        Ok(())
    }
}

pub struct RefusingBackend {
    attempts: Arc<parking_lot::Mutex<usize>>,
}

impl Backend for RefusingBackend {
    fn send(&mut self, _alert: Alert) -> Result<(), anyhow::Error> {
        *self.attempts.lock() += 1;
        Err(anyhow::Error::msg("the service refuses"))
    }
}

#[test]
fn test_airbag_reports_error_and_returns_result() {
    let backend = CapturingBackend::new();
    let target = backend.target();

    let (guard, worker) = airbag::configure(backend);

    crossbeam::scope(|s| {
        s.spawn(move |_| worker.run());
        let dispatch = guard.dispatch();

        let failing: Result<u32, String> = Err("db unreachable".to_string());
        let back = failing.airbag(Some(&dispatch));
        assert_eq!(back, Err("db unreachable".to_string()));

        let fine: Result<u32, String> = Ok(7);
        let back = fine.airbag(Some(&dispatch));
        assert_eq!(back, Ok(7));

        drop(guard);
    })
    .unwrap();

    let captured = target.lock();
    assert_eq!(captured.len(), 1);
    assert_eq!(captured[0].title(), &Some("\"db unreachable\"".to_string()));
    assert!(captured[0].dedup_key().is_some());
}

#[test]
fn test_airbag_rich_chain_error_uses_message_and_chain() {
    let backend = CapturingBackend::new();
    let target = backend.target();

    let (guard, worker) = airbag::configure(backend);

    crossbeam::scope(|s| {
        s.spawn(move |_| worker.run());
        let dispatch = guard.dispatch();

        let failing: Result<u32, anyhow::Error> = Err(anyhow::Error::msg("top level"));
        let back = failing.airbag(Some(&dispatch));
        assert!(back.is_err());

        drop(guard);
    })
    .unwrap();

    let captured = target.lock();
    assert_eq!(captured.len(), 1);
    assert_eq!(captured[0].title(), &Some("top level".to_string()));
    assert!(captured[0].description().is_some());
}

#[test]
fn test_airbag_if_filters_reports() {
    let backend = CapturingBackend::new();
    let target = backend.target();

    let (guard, worker) = airbag::configure(backend);

    crossbeam::scope(|s| {
        s.spawn(move |_| worker.run());
        let dispatch = guard.dispatch();

        let failing: Result<u32, u32> = Err(4);
        let back = failing.airbag_if(Some(&dispatch), |code| *code > 10);
        assert_eq!(back, Err(4));

        let failing: Result<u32, u32> = Err(40);
        let back = failing.airbag_if(Some(&dispatch), |code| *code > 10);
        assert_eq!(back, Err(40));

        drop(guard);
    })
    .unwrap();

    let captured = target.lock();
    assert_eq!(captured.len(), 1);
    assert_eq!(captured[0].title(), &Some("40".to_string()));
}

#[test]
fn test_airbag_with_dedup_key_uses_factory() {
    let backend = CapturingBackend::new();
    let target = backend.target();

    let (guard, worker) = airbag::configure(backend);

    crossbeam::scope(|s| {
        s.spawn(move |_| worker.run());
        let dispatch = guard.dispatch();

        let failing: Result<u32, String> = Err("x".to_string());
        failing.airbag_drop_with_dedup_key(Some(&dispatch), || "fixed-key".to_string());

        drop(guard);
    })
    .unwrap();

    let captured = target.lock();
    assert_eq!(captured.len(), 1);
    assert_eq!(captured[0].dedup_key(), &Some("fixed-key".to_string()));
}

#[test]
fn test_airbag_without_hub_is_noop() {
    let failing: Result<u32, String> = Err("quiet".to_string());
    let back = failing.airbag(None);
    assert_eq!(back, Err("quiet".to_string()));
}

#[test]
fn test_failed_delivery_does_not_record_dedup_key() {
    let attempts = Arc::new(parking_lot::Mutex::new(0usize));
    let backend = RefusingBackend { attempts: attempts.clone() };
    let (guard, worker) = airbag::configure(backend);

    crossbeam::scope(|s| {
        s.spawn(move |_| worker.run());
        guard
            .trigger(Alert::builder().dedup_key("k").build())
            .wait_processed();
        guard
            .trigger(Alert::builder().dedup_key("k").build())
            .wait_processed();
        drop(guard);
    })
    .unwrap();

    assert_eq!(*attempts.lock(), 2);
}
