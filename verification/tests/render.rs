use client_registry::client::{Client, ClientForm};
use client_registry::error::RegistryError;
use client_registry::render::{append_entry, greeting, summary};
use client_registry::reply::{failure, handle_form, list_clients, Reply, Status};
use client_registry::text::{append_integer, append_natural, decimal};

fn client(id: i64, name: &str) -> Client {
    Client::new(id, name.to_string())
}

#[test]
fn decimal_of_small_numbers() {
    assert_eq!(decimal(0), "0");
    assert_eq!(decimal(7), "7");
    assert_eq!(decimal(9), "9");
    assert_eq!(decimal(10), "10");
    assert_eq!(decimal(42), "42");
    assert_eq!(decimal(1234567890), "1234567890");
}

#[test]
fn decimal_of_negative_numbers() {
    assert_eq!(decimal(-1), "-1");
    assert_eq!(decimal(-10), "-10");
    assert_eq!(decimal(-305), "-305");
}

#[test]
fn decimal_of_the_extremes() {
    assert_eq!(decimal(i64::MAX), "9223372036854775807");
    assert_eq!(decimal(i64::MIN), "-9223372036854775808");
}

#[test]
fn decimal_agrees_with_the_standard_formatting() {
    let mut n: i64 = 1;
    for _ in 0..18 {
        assert_eq!(decimal(n), n.to_string());
        assert_eq!(decimal(-n), (-n).to_string());
        assert_eq!(decimal(n - 1), (n - 1).to_string());
        n *= 10;
    }
}

#[test]
fn append_natural_keeps_what_was_there() {
    let mut out = String::from("id ");
    append_natural(&mut out, 0);
    assert_eq!(out, "id 0");
    append_natural(&mut out, u64::MAX);
    assert_eq!(out, "id 018446744073709551615");
}

#[test]
fn append_integer_keeps_what_was_there() {
    let mut out = String::from("x=");
    append_integer(&mut out, -45);
    assert_eq!(out, "x=-45");
    append_integer(&mut out, 6);
    assert_eq!(out, "x=-456");
}

#[test]
fn greeting_thanks_by_name() {
    assert_eq!(greeting("Alice"), "Thanks, Alice");
    assert_eq!(greeting(""), "Thanks, ");
    assert_eq!(greeting("Zoë O'Neil"), "Thanks, Zoë O'Neil");
}

#[test]
fn entry_is_id_name_and_separators() {
    let mut out = String::new();
    append_entry(&mut out, &client(12, "Carol"));
    assert_eq!(out, "12. Carol; ");
    append_entry(&mut out, &client(13, "Dan"));
    assert_eq!(out, "12. Carol; 13. Dan; ");
}

#[test]
fn summary_of_no_clients_is_the_heading() {
    assert_eq!(summary(&Vec::new()), "Clients are: ");
}

#[test]
fn summary_lists_clients_in_the_order_given() {
    let clients = vec![client(1, "Alice"), client(2, "Bob")];
    assert_eq!(summary(&clients), "Clients are: 1. Alice; 2. Bob; ");
    let gaps = vec![client(3, "x"), client(10, "y; z"), client(400, "")];
    assert_eq!(summary(&gaps), "Clients are: 3. x; 10. y; z; 400. ; ");
}

#[test]
fn summary_grows_by_one_entry_per_client() {
    let mut clients = vec![client(1, "Alice")];
    let before = summary(&clients);
    clients.push(client(2, "Bob"));
    assert_eq!(summary(&clients), format!("{}2. Bob; ", before));
}

#[test]
fn registration_is_answered_with_thanks() {
    let form = ClientForm { name: "Alice".to_string() };
    let reply = handle_form(&form, Ok(()));
    assert_eq!(reply, Reply { status: Status::Success, message: "Thanks, Alice".to_string() });
    assert_eq!(reply.status.code(), 200);
}

#[test]
fn failed_registration_is_answered_with_the_error() {
    let form = ClientForm { name: "Alice".to_string() };
    let reply = handle_form(&form, Err(RegistryError::Pool));
    assert_eq!(reply.status.code(), 500);
    assert_eq!(reply.message, "Couldn't acquire connection from the pool");
    let reply = handle_form(&form, Err(RegistryError::Query));
    assert_eq!(reply.status, Status::Failure);
    assert_eq!(reply.message, "Couldn't execute sql query!");
}

#[test]
fn listing_is_answered_with_the_summary() {
    let reply = list_clients(Ok(vec![client(1, "Alice"), client(2, "Bob")]));
    assert_eq!(reply, Reply { status: Status::Success, message: "Clients are: 1. Alice; 2. Bob; ".to_string() });
}

#[test]
fn failed_listing_is_answered_with_the_error() {
    let reply = list_clients(Err(RegistryError::Query));
    assert_eq!(reply, Reply { status: Status::Failure, message: "Couldn't execute sql query!".to_string() });
    let reply = list_clients(Err(RegistryError::Pool));
    assert_eq!(reply.status.code(), 500);
    assert_eq!(reply.message, "Couldn't acquire connection from the pool");
}

#[test]
fn a_failed_request_does_not_affect_the_next() {
    let form = ClientForm { name: "Alice".to_string() };
    let failed = handle_form(&form, Err(RegistryError::Query));
    assert_eq!(failed.status.code(), 500);
    let next = list_clients(Ok(vec![client(1, "Bob")]));
    assert_eq!(next.status.code(), 200);
    assert_eq!(next.message, "Clients are: 1. Bob; ");
    let again = handle_form(&form, Ok(()));
    assert_eq!(again.status.code(), 200);
    assert_eq!(again.message, "Thanks, Alice");
}

#[test]
fn failure_carries_the_message_of_each_error() {
    assert_eq!(failure(RegistryError::Config).message, "DATABASE_URL is not set or is malformed");
    assert_eq!(failure(RegistryError::Connect).message, "Couldn't create sqlite pool!");
    assert_eq!(failure(RegistryError::Pool).message, "Couldn't acquire connection from the pool");
    assert_eq!(failure(RegistryError::Query).message, "Couldn't execute sql query!");
    assert_eq!(failure(RegistryError::Query).status, Status::Failure);
    assert_eq!(failure(RegistryError::Query).status.code(), 500);
}

#[test]
fn messages_and_classes_of_errors() {
    assert_eq!(RegistryError::Config.message(), "DATABASE_URL is not set or is malformed");
    assert_eq!(RegistryError::Connect.message(), "Couldn't create sqlite pool!");
    assert_eq!(RegistryError::Pool.message(), "Couldn't acquire connection from the pool");
    assert_eq!(RegistryError::Query.message(), "Couldn't execute sql query!");
    assert!(RegistryError::Config.is_fatal());
    assert!(RegistryError::Connect.is_fatal());
    assert!(!RegistryError::Pool.is_fatal());
    assert!(!RegistryError::Query.is_fatal());
}

#[test]
fn status_codes() {
    assert_eq!(Status::Success.code(), 200);
    assert_eq!(Status::Failure.code(), 500);
}
