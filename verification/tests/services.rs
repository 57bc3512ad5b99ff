use axum_debug::{check_service, debug_service};

#[derive(Clone, Debug, PartialEq)]
struct Echo {
    greeting: String,
    calls: u32,
}

#[test]
fn checked_service_is_left_alone() {
    let service = Echo { greeting: "hello".to_string(), calls: 3 };
    check_service(&service);
    assert_eq!(service, Echo { greeting: "hello".to_string(), calls: 3 });
}

#[test]
fn debugged_service_comes_back_unchanged() {
    let service = Echo { greeting: "hello".to_string(), calls: 3 };
    let returned = debug_service(service.clone());
    assert_eq!(returned, service);
}

#[test]
fn debugged_service_can_be_used_in_place() {
    let calls = debug_service(Echo { greeting: String::new(), calls: 41 }).calls + 1;
    assert_eq!(calls, 42);
    assert_eq!(debug_service(7u8), 7);
    assert_eq!(debug_service("route"), "route");
}
