use hamilton::ioc::{IocContainer, IocContainerError};
use std::sync::Arc;

struct A;

struct B(u32);

#[test]
fn simple_ioc() {
    let mut container = IocContainer::new();
    container.register(A);
    let a = container.service::<A>();
    assert!(a.is_ok());
}

#[test]
fn simple_ioc_with_arc() {
    let mut container = IocContainer::new();
    let a_arc = Arc::new(A);
    container.register_arc(a_arc);
    let a = container.service::<A>();
    assert!(a.is_ok());
}

#[test]
fn fail_on_unregistered_type() {
    let container = IocContainer::new();
    let not_a = container.service::<A>();
    assert!(not_a.is_err())
}

#[test]
fn unregistered_type_is_not_available() {
    let mut container = IocContainer::new();
    container.register(A);
    assert_eq!(container.service::<B>().err(), Some(IocContainerError::ServiceNotAvailable));
}

#[test]
fn arc_wrapped_type_is_a_different_service() {
    let mut container = IocContainer::new();
    container.register_arc(Arc::new(A));
    assert!(container.service::<A>().is_ok());
    assert!(container.service::<Arc<A>>().is_err());
}

#[test]
fn registering_again_replaces_the_service() {
    let mut container = IocContainer::new();
    container.register(B(1));
    container.register(B(7));
    let b = container.service::<B>().unwrap();
    assert_eq!(b.0, 7);
}

#[test]
fn shared_service_is_the_same_allocation() {
    let mut container = IocContainer::new();
    let b = Arc::new(B(3));
    container.register_arc(Arc::clone(&b));
    let got = container.service::<B>().unwrap();
    assert!(Arc::ptr_eq(&b, &got));
}

#[test]
fn delete_removes_only_that_type() {
    let mut container = IocContainer::new();
    container.register(A);
    container.register(B(2));
    container.delete::<A>();
    assert_eq!(container.service::<A>().err(), Some(IocContainerError::ServiceNotAvailable));
    assert_eq!(container.service::<B>().unwrap().0, 2);
}
