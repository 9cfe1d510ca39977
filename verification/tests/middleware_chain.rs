use std::sync::Arc;

use airbag::backends::Backend;
use airbag::json::JsonValue;
use airbag::middleware::DedupKeyPrefix;
use airbag::middleware::TitlePrefix;
use airbag::Alert;

pub struct TestBackend {
    target: Arc<parking_lot::Mutex<Vec<Alert>>>,
}

impl TestBackend {
    pub fn new() -> Self {
        TestBackend { target: Arc::new(parking_lot::Mutex::new(Vec::new())) }
    }

    pub fn target(&self) -> Arc<parking_lot::Mutex<Vec<Alert>>> {
        self.target.clone()
    }
}

impl Backend for TestBackend {
    fn send(&mut self, alert: Alert) -> Result<(), anyhow::Error> {
        self.target.lock().push(alert);
        Ok(())
    }
}

#[test]
fn test_middleware_title_prefix() {
    let backend = TestBackend::new();
    let target = backend.target();

    let (guard, worker) = airbag::configure(backend);
    let guard = guard.with_middleware(TitlePrefix::new("some_prefix:"));

    crossbeam::scope(|s| {
        s.spawn(move |_| worker.run());
        guard
            .trigger(Alert::builder().title("hello").build())
            .wait_processed();
        drop(guard);
    })
    .unwrap();

    let alert = target.lock().pop().unwrap();
    assert_eq!(alert.title(), &Some("some_prefix:hello".into()));
}

#[test]
fn test_middleware_dedup_prefix() {
    let backend = TestBackend::new();
    let target = backend.target();

    let (guard, worker) = airbag::configure(backend);
    let guard = guard.with_middleware(DedupKeyPrefix::new("some_prefix:"));

    crossbeam::scope(|s| {
        s.spawn(move |_| worker.run());
        guard
            .trigger(Alert::builder().title("hello").dedup_key("dedup_key").build())
            .wait_processed();
        drop(guard);
    })
    .unwrap();

    let alert = target.lock().pop().unwrap();
    assert_eq!(alert.title(), &Some("hello".into()));
    assert_eq!(alert.dedup_key(), &Some("some_prefix:dedup_key".into()));
}

#[test]
fn test_middleware_map() {
    let backend = TestBackend::new();
    let target = backend.target();

    let (guard, worker) = airbag::configure(backend);
    let guard = guard.map(|alert| alert.with_field("x", JsonValue::Str("y".to_string())));

    crossbeam::scope(|s| {
        s.spawn(move |_| worker.run());
        Alert::builder()
            .title("hello")
            .trigger(Some(&guard.dispatch()))
            .wait_processed();
        drop(guard);
    })
    .unwrap();

    let alert = target.lock().pop().expect("No alert");

    assert_eq!(
        alert.get_field("x").expect("No field x").as_str(),
        Some("y")
    );
}

#[test]
fn test_middleware_registration_order() {
    let backend = TestBackend::new();
    let target = backend.target();

    let (guard, worker) = airbag::configure(backend);
    let guard = guard
        .with_middleware(TitlePrefix::new("a"))
        .with_middleware(TitlePrefix::new("b"));

    crossbeam::scope(|s| {
        s.spawn(move |_| worker.run());
        guard
            .trigger(Alert::builder().title("hello").build())
            .wait_processed();
        drop(guard);
    })
    .unwrap();

    let alert = target.lock().pop().unwrap();
    assert_eq!(alert.title(), &Some("bahello".into()));
}

#[test]
fn test_middleware_absent_title_prefixed_as_empty() {
    let backend = TestBackend::new();
    let target = backend.target();

    let (guard, worker) = airbag::configure(backend);
    let guard = guard.with_middleware(TitlePrefix::new("pre:"));

    crossbeam::scope(|s| {
        s.spawn(move |_| worker.run());
        guard.trigger(Alert::builder().build()).wait_processed();
        drop(guard);
    })
    .unwrap();

    let alert = target.lock().pop().unwrap();
    assert_eq!(alert.title(), &Some("pre:".into()));
}

#[test]
fn test_middleware_dedup_prefix_leaves_absent_key() {
    let backend = TestBackend::new();
    let target = backend.target();

    let (guard, worker) = airbag::configure(backend);
    let guard = guard.with_middleware(DedupKeyPrefix::new("p:"));

    crossbeam::scope(|s| {
        s.spawn(move |_| worker.run());
        guard
            .trigger(Alert::builder().title("hello").build())
            .wait_processed();
        drop(guard);
    })
    .unwrap();

    let alert = target.lock().pop().unwrap();
    assert_eq!(alert.dedup_key(), &None);
}
