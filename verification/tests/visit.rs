use visit_echo::reply::STATUS_OK;
use visit_echo::visit::{decimal, greeting, hello, visit_reply, AppState, VISIT_DELAY_SECS};

#[test]
fn decimal_of_single_digits() {
    assert_eq!(decimal(0), "0");
    assert_eq!(decimal(7), "7");
    assert_eq!(decimal(9), "9");
}

#[test]
fn decimal_of_longer_numbers() {
    assert_eq!(decimal(10), "10");
    assert_eq!(decimal(42), "42");
    assert_eq!(decimal(100), "100");
    assert_eq!(decimal(1234567890), "1234567890");
    assert_eq!(decimal(9007), "9007");
}

#[test]
fn decimal_of_the_largest_count() {
    assert_eq!(decimal(usize::MAX), format!("{}", usize::MAX));
}

#[test]
fn greeting_names_the_service_and_the_count() {
    assert_eq!(
        greeting("Sanndy App", 1),
        "Hello, this is Sanndy App and it has been visited 1 times!"
    );
    assert_eq!(
        greeting("Sanndy App", 120),
        "Hello, this is Sanndy App and it has been visited 120 times!"
    );
}

#[test]
fn greeting_keeps_any_name_as_it_is() {
    assert_eq!(greeting("", 0), "Hello, this is  and it has been visited 0 times!");
    assert_eq!(
        greeting("Gr\u{fc}\u{df}e {}", 3),
        "Hello, this is Gr\u{fc}\u{df}e {} and it has been visited 3 times!"
    );
}

#[test]
fn visit_reply_is_a_plain_success() {
    let reply = visit_reply("demo", 12);
    assert_eq!(reply.status, STATUS_OK);
    assert_eq!(reply.status, 200);
    assert_eq!(reply.content_type, None);
    assert_eq!(reply.body, "Hello, this is demo and it has been visited 12 times!");
    assert!(reply.is_success());
}

#[test]
fn app_state_keeps_its_name() {
    let state = AppState::new(String::from("Sanndy App"));
    assert_eq!(state.app_name(), "Sanndy App");
    assert_eq!(state.counter().current(), 0);
}

#[test]
fn hello_counts_before_it_answers() {
    let state = AppState::new(String::from("Sanndy App"));
    let first = hello(&state);
    assert_eq!(first.number, 1);
    assert_eq!(state.counter().current(), 1);
    assert_eq!(first.delay_secs, 5);
    assert_eq!(first.delay_secs, VISIT_DELAY_SECS);
    assert_eq!(first.reply.status, 200);
    assert_eq!(
        first.reply.body,
        "Hello, this is Sanndy App and it has been visited 1 times!"
    );
}

#[test]
fn hello_reports_a_new_number_on_every_visit() {
    let state = AppState::new(String::from("Sanndy App"));
    let mut numbers = Vec::new();
    for _ in 0..12 {
        let visit = hello(&state);
        assert_eq!(
            visit.reply.body,
            format!("Hello, this is Sanndy App and it has been visited {} times!", visit.number)
        );
        numbers.push(visit.number);
    }
    let expected: Vec<usize> = (1..=12).collect();
    assert_eq!(numbers, expected);
    assert_eq!(state.counter().current(), 12);
}
