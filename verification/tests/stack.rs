use std::rc::Rc;
use std::time::Duration;
use tower_request::concurrency::Concurrency;
use tower_request::config::TowerRequestConfig;
use tower_request::layer::TowerRequestLayer;
use tower_request::retries::{RetryAction, RetryLogic};
use tower_request::settings::TowerRequestSettings;

#[derive(Clone, Debug, PartialEq)]
struct Logic(u32);

impl RetryLogic for Logic {
    type Error = ();
    type Response = ();

    fn is_retriable_error(&self, _: &()) -> bool {
        true
    }

    fn should_retry_response(&self, _: &()) -> RetryAction {
        RetryAction::Successful
    }
}

fn settings() -> TowerRequestSettings {
    TowerRequestConfig::new(Concurrency::Fixed(4))
        .timeout_secs(5)
        .rate_limit_duration_secs(6)
        .rate_limit_num(7)
        .retry_attempts(8)
        .retry_max_duration_secs(9)
        .retry_initial_backoff_secs(2)
        .unwrap_with(&TowerRequestConfig::default())
}

#[test]
fn a_layer_stacks_the_middleware() {
    let layer: TowerRequestLayer<Logic, ()> = TowerRequestLayer::new(settings(), Logic(1));
    let svc = layer.clone().layer("service");
    assert_eq!(svc.num, 7);
    assert_eq!(svc.per, Duration::from_secs(6));
    assert_eq!(svc.inner.concurrency, Some(4));
    assert_eq!(svc.inner.settings, settings().adaptive_concurrency);
    assert_eq!(svc.inner.logic, Logic(1));
    let retried = svc.inner.inner;
    assert_eq!(retried.policy.remaining_attempts, 8);
    assert_eq!(retried.policy.current_duration, Duration::from_secs(2));
    assert_eq!(retried.policy.max_duration, Duration::from_secs(9));
    assert_eq!(retried.policy.logic, Logic(1));
    assert_eq!(retried.inner.timeout, Duration::from_secs(5));
    assert_eq!(retried.inner.inner, "service");
}

#[test]
fn layers_of_the_tower_hold_what_the_stack_describes() {
    let layer: TowerRequestLayer<Logic, ()> = TowerRequestLayer::new(settings(), Logic(1));
    let svc = layer.layer(());
    assert_eq!(
        format!("{:?}", svc.rate_limit_layer()),
        "RateLimitLayer { rate: Rate { num: 7, per: 6s } }"
    );
    assert_eq!(
        format!("{:?}", svc.inner.inner.inner.timeout_layer()),
        "TimeoutLayer { timeout: 5s }"
    );
}

#[test]
fn sinks_keep_the_batch_and_its_timeout() {
    let timeout = Duration::from_secs(10);
    let sink = settings().batch_sink(Logic(1), "service", vec![1, 2], timeout);
    assert_eq!(sink.batch, vec![1, 2]);
    assert_eq!(sink.timeout, timeout);
    assert_eq!(sink.service.num, 7);
    assert_eq!(sink.service.inner.concurrency, Some(4));
    assert_eq!(sink.service.inner.inner.policy.remaining_attempts, 8);
    assert_eq!(sink.service.inner.inner.inner.inner, "service");

    let sink =
        settings().partition_sink::<_, _, _, String>(Logic(2), "other", vec![3], timeout);
    assert_eq!(sink.batch, vec![3]);
    assert_eq!(sink.timeout, timeout);
    assert_eq!(sink.service.per, Duration::from_secs(6));
    assert_eq!(sink.service.inner.logic, Logic(2));
    assert_eq!(sink.service.inner.inner.policy.logic, Logic(2));
    assert_eq!(sink.service.inner.inner.inner.timeout, Duration::from_secs(5));
    assert_eq!(sink.service.inner.inner.inner.inner, "other");
}

#[test]
fn requests_are_distributed_over_the_services_in_order() {
    let open = Rc::new(());
    let services = vec![
        ("http://a".to_string(), 10),
        ("http://b".to_string(), 20),
        ("http://c".to_string(), 30),
    ];
    let distributed = settings().distributed_service(
        Logic(1),
        services,
        3_600u64,
        "health",
        Rc::clone(&open),
    );
    assert_eq!(
        format!("{:?}", distributed.rate_limit_layer()),
        "RateLimitLayer { rate: Rate { num: 7, per: 6s } }"
    );
    assert_eq!(distributed.inner.policy.remaining_attempts, 8);
    assert_eq!(distributed.inner.policy.logic, Logic(1));
    assert_eq!(distributed.inner.inner.bound, 600);
    let services = distributed.inner.inner.inner.services;
    assert_eq!(services.len(), 3);
    for (place, (key, service)) in services.iter().enumerate() {
        assert_eq!(*key, place);
        assert_eq!(service.concurrency, Some(4));
        assert_eq!(service.logic, Logic(1));
        assert_eq!(service.inner.config, 3_600);
        assert_eq!(service.inner.logic, "health");
        assert!(Rc::ptr_eq(&service.inner.open, &open));
        assert_eq!(service.inner.inner.timeout, Duration::from_secs(5));
    }
    assert_eq!(services[0].1.inner.endpoint, "http://a");
    assert_eq!(services[1].1.inner.endpoint, "http://b");
    assert_eq!(services[2].1.inner.inner.inner, 30);
}

#[test]
fn requests_are_distributed_over_no_services() {
    let services: Vec<(String, ())> = Vec::new();
    let distributed = settings().distributed_service(Logic(1), services, (), (), ());
    assert_eq!(distributed.inner.inner.bound, 0);
    assert!(distributed.inner.inner.inner.services.is_empty());
}
