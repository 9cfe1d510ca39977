use std::sync::Arc;
use std::time::Duration;

use airbag::backends::Backend;
use airbag::Alert;
use airbag::Hub;

pub struct CountingBackend {
    target: Arc<parking_lot::Mutex<Vec<Alert>>>,
}

impl CountingBackend {
    pub fn new() -> Self {
        CountingBackend { target: Arc::new(parking_lot::Mutex::new(Vec::new())) }
    }

    pub fn target(&self) -> Arc<parking_lot::Mutex<Vec<Alert>>> {
        self.target.clone()
    }
}

impl Backend for CountingBackend {
    fn send(&mut self, alert: Alert) -> Result<(), anyhow::Error> {
        self.target.lock().push(alert);
        Ok(())
    }
}

fn sleep_millis(millis: u64) {
    let lock = parking_lot::Mutex::new(());
    let condvar = parking_lot::Condvar::new();
    let mut guard = lock.lock();
    let _ = condvar.wait_for(&mut guard, Duration::from_millis(millis));
}

#[test]
fn test_trigger_reaches_backend() {
    let backend = CountingBackend::new();
    let target = backend.target();

    let (guard, worker) = airbag::configure(backend);

    crossbeam::scope(|s| {
        s.spawn(move |_| worker.run());
        guard
            .trigger(Alert::builder().title("hello").build())
            .wait_processed();
        {
            let captured = target.lock();
            assert_eq!(captured.len(), 1);
            assert_eq!(captured[0].title(), &Some("hello".into()));
        }
        drop(guard);
    })
    .unwrap();
}

#[test]
fn test_no_dedup_key_both_delivered() {
    let backend = CountingBackend::new();
    let target = backend.target();

    let (guard, worker) = airbag::configure(backend);

    crossbeam::scope(|s| {
        s.spawn(move |_| worker.run());
        guard.trigger(Alert::builder().title("first").build()).wait_processed();
        guard.trigger(Alert::builder().title("second").build()).wait_processed();
        drop(guard);
    })
    .unwrap();

    assert_eq!(target.lock().len(), 2);
}

#[test]
fn test_same_dedup_key_second_suppressed() {
    let backend = CountingBackend::new();
    let target = backend.target();

    let (guard, worker) = airbag::configure(backend);

    crossbeam::scope(|s| {
        s.spawn(move |_| worker.run());
        guard
            .trigger(Alert::builder().title("first").dedup_key("k").build())
            .wait_processed();
        guard
            .trigger(Alert::builder().title("second").dedup_key("k").build())
            .wait_processed();
        drop(guard);
    })
    .unwrap();

    let captured = target.lock();
    assert_eq!(captured.len(), 1);
    assert_eq!(captured[0].title(), &Some("first".into()));
}

#[test]
fn test_same_dedup_key_after_window_both_delivered() {
    let backend = CountingBackend::new();
    let target = backend.target();

    let (guard, worker) = airbag::configure(backend);

    crossbeam::scope(|s| {
        s.spawn(move |_| worker.run());
        guard
            .trigger(Alert::builder().title("first").dedup_key("k").build())
            .wait_processed();
        sleep_millis(5200);
        guard
            .trigger(Alert::builder().title("second").dedup_key("k").build())
            .wait_processed();
        drop(guard);
    })
    .unwrap();

    assert_eq!(target.lock().len(), 2);
}

#[test]
fn test_different_dedup_keys_both_delivered() {
    let backend = CountingBackend::new();
    let target = backend.target();

    let (guard, worker) = airbag::configure(backend);

    crossbeam::scope(|s| {
        s.spawn(move |_| worker.run());
        guard
            .trigger(Alert::builder().dedup_key("k1").build())
            .wait_processed();
        guard
            .trigger(Alert::builder().dedup_key("k2").build())
            .wait_processed();
        drop(guard);
    })
    .unwrap();

    assert_eq!(target.lock().len(), 2);
}

#[test]
fn test_guard_drop_flushes_pending_alerts() {
    let backend = CountingBackend::new();
    let target = backend.target();

    let (guard, worker) = airbag::configure(backend);

    crossbeam::scope(|s| {
        s.spawn(move |_| worker.run());
        let total: usize = 50;
        let mut i: usize = 0;
        while i < total {
            guard.trigger(Alert::builder().title(&format!("alert {}", i)).build());
            i += 1;
        }
        drop(guard);
        assert_eq!(target.lock().len(), total);
    })
    .unwrap();
}

#[test]
fn test_dedup_window_explicit_times() {
    let mut window = airbag::dedup::DedupWindow::new();
    let key = "k".to_string();
    assert!(window.should_send(Some(&key), 1000));
    window.record(&key, 1000);
    assert!(!window.should_send(Some(&key), 2000));
    assert!(!window.should_send(Some(&key), 6000));
    assert!(window.should_send(Some(&key), 6001));
    assert!(window.should_send(None, 2000));
    assert!(window.should_send(Some(&"other".to_string()), 2000));
}

#[test]
fn test_unconfigured_trigger_is_signaled_noop() {
    let receipt = airbag::hub::trigger(None, Alert::builder().title("nobody listens").build());
    receipt.wait_processed();
}

#[test]
fn test_receipt_waits_any_number_of_times() {
    let backend = CountingBackend::new();

    let (guard, worker) = airbag::configure(backend);

    crossbeam::scope(|s| {
        s.spawn(move |_| worker.run());
        let receipt = guard.trigger(Alert::builder().title("hello").build());
        let again = receipt.clone();
        receipt.wait_processed();
        receipt.wait_processed();
        again.wait_processed();
        drop(guard);
    })
    .unwrap();
}

#[test]
fn test_thread_scoped_hub_shadows_global() {
    let global_backend = CountingBackend::new();
    let global_target = global_backend.target();
    let scoped_backend = CountingBackend::new();
    let scoped_target = scoped_backend.target();

    let (global_guard, global_worker) = airbag::configure(global_backend);
    let (scoped_guard, scoped_worker) = airbag::configure(scoped_backend);

    let mut global_hub = Hub::new();
    assert!(global_hub.install(global_guard.dispatch()));
    let mut scoped_hub = Hub::new();
    assert!(scoped_hub.install(scoped_guard.dispatch()));

    crossbeam::scope(|s| {
        s.spawn(move |_| global_worker.run());
        s.spawn(move |_| scoped_worker.run());

        let resolved = airbag::resolve_dispatch(Some(&scoped_hub), Some(&global_hub));
        airbag::hub::trigger(resolved, Alert::builder().title("scoped").build())
            .wait_processed();

        let resolved = airbag::resolve_dispatch(None, Some(&global_hub));
        airbag::hub::trigger(resolved, Alert::builder().title("global").build())
            .wait_processed();

        drop(global_guard);
        drop(scoped_guard);
    })
    .unwrap();

    let scoped_captured = scoped_target.lock();
    assert_eq!(scoped_captured.len(), 1);
    assert_eq!(scoped_captured[0].title(), &Some("scoped".into()));
    let global_captured = global_target.lock();
    assert_eq!(global_captured.len(), 1);
    assert_eq!(global_captured[0].title(), &Some("global".into()));
}

#[test]
fn test_hub_double_install_fails() {
    let first = CountingBackend::new();
    let second = CountingBackend::new();

    let (first_guard, first_worker) = airbag::configure(first);
    let (second_guard, second_worker) = airbag::configure(second);

    let mut hub = Hub::new();
    assert!(hub.install(first_guard.dispatch()));
    assert!(!hub.install(second_guard.dispatch()));

    crossbeam::scope(|s| {
        s.spawn(move |_| first_worker.run());
        s.spawn(move |_| second_worker.run());
        drop(first_guard);
        drop(second_guard);
    })
    .unwrap();
}

#[test]
fn test_alert_carries_its_stamped_id() {
    let backend = CountingBackend::new();
    let target = backend.target();

    let (guard, worker) = airbag::configure(backend);

    crossbeam::scope(|s| {
        s.spawn(move |_| worker.run());
        guard.trigger(Alert::builder().id(7).build()).wait_processed();
        guard.trigger(Alert::builder().id(8).build()).wait_processed();
        drop(guard);
    })
    .unwrap();

    let captured = target.lock();
    assert_eq!(captured.len(), 2);
    assert_eq!(captured[0].id(), 7);
    assert_eq!(captured[1].id(), 8);
}
