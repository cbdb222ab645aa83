use communityvi::commandline::{BaseCommand, Commandline};
use communityvi::http_test::{basic_auth_value, bearer_auth_value, check_request_host, Error, Host, InternalError};
use communityvi::infallible_stream::InfallibleStream;
use communityvi::room::Room;

#[test]
fn should_stop_streaming_when_an_error_occurs() {
    let items: Vec<Result<i32, &str>> = vec![Ok(1), Ok(2), Err("error")];
    let mut infallible = InfallibleStream::from(items.into_iter());

    let first = InfallibleStream::<()>::next_item(infallible.stream.next());
    assert_eq!(Some(1), first);
    let second = InfallibleStream::<()>::next_item(infallible.stream.next());
    assert_eq!(Some(2), second);
    let end = InfallibleStream::<()>::next_item(infallible.stream.next());
    assert_eq!(None, end);
}

#[test]
fn hosts_are_only_hosts() {
    let host = Host::try_from("localhost").expect("localhost is a host");
    assert_eq!("localhost", host.as_str());
    assert_eq!("localhost", String::from(host.clone()));
    assert_eq!(host, Host::try_from("localhost".to_string()).unwrap());
    assert_eq!(host, Host::try_from(b"localhost".as_slice()).unwrap());
    assert_eq!(
        Err(Error(InternalError::InvalidHost(
            "localhost:8080 is more than just a host.".to_string()
        ))),
        Host::try_from("localhost:8080")
    );
    assert!(matches!(
        Host::try_from(""),
        Err(Error(InternalError::InvalidHost(_)))
    ));
    assert!(matches!(
        Host::try_from([0xffu8, 0xfe].as_slice()),
        Err(Error(InternalError::InvalidHost(_)))
    ));
}

#[test]
fn should_connect_when_requesting_correct_bound_host() {
    let bound = Some(Host::try_from("localhost").unwrap());
    assert_eq!(Ok(()), check_request_host(&bound, Some("localhost")));
    assert_eq!(Ok(()), check_request_host(&None, None));
}

#[test]
fn should_fail_to_connect_when_requesting_other_host_than_bound() {
    let bound = Some(Host::try_from("localhost").unwrap());
    let error = check_request_host(&bound, Some("example.com")).expect_err("Connected to another host");
    assert_eq!(
        "Connection error: No server available for the host 'example.com', server was bound to 'localhost'",
        error.to_display_string()
    );
}

#[test]
fn should_fail_to_connect_when_requesting_no_host_when_one_is_bound() {
    let bound = Some(Host::try_from("localhost").unwrap());
    let error = check_request_host(&bound, None).expect_err("Connected without host");
    assert_eq!(
        Error(InternalError::Connection(
            "Request is missing a host. Server was bound to 'localhost'".to_string()
        )),
        error
    );
}

#[test]
fn authorization_header_values() {
    assert_eq!("Basic QWxhZGRpbjpvcGVuIHNlc2FtZQ", basic_auth_value(b"Aladdin", b"open sesame"));
    assert_eq!("Basic Og", basic_auth_value(b"", b""));
    assert_eq!("Bearer token123", bearer_auth_value("token123"));
}

#[test]
fn internal_errors_are_shown() {
    assert_eq!("Invalid host: x", InternalError::InvalidHost("x".to_string()).to_display_string());
    assert_eq!(
        "Failed to read response content: eof",
        Error::from(InternalError::ResponseContent("eof".to_string())).to_display_string()
    );
}

#[test]
fn commandline_runs_the_server_by_default() {
    let commandline = Commandline {
        configuration_file_path: "configuration.toml".to_string(),
        command: None,
    };
    assert_eq!(BaseCommand::Run, commandline.base_command());
    let commandline = Commandline {
        configuration_file_path: "configuration.toml".to_string(),
        command: Some(BaseCommand::Configuration),
    };
    assert_eq!(BaseCommand::Configuration, commandline.base_command());
    assert_eq!(BaseCommand::Run, BaseCommand::default());
}

#[test]
fn rooms_hand_out_unique_client_ids_and_sequence_numbers() {
    let mut room: Room<&str> = Room::new();
    assert_eq!(0, room.add_client("first"));
    assert_eq!(1, room.add_client("second"));
    assert!(room.remove_client(0));
    assert!(!room.remove_client(0));
    assert_eq!(2, room.add_client("third"));
    let ids: Vec<usize> = room.clients().iter().map(|client| client.id()).collect();
    assert_eq!(vec![1, 2], ids);
    assert_eq!("third", *room.clients()[1].sender());
    assert_eq!(0, room.number_message("a").number);
    assert_eq!(1, room.number_message("b").number);
    room.set_offset(1337);
    assert_eq!(1337, room.offset());
}

#[test]
fn removing_a_client_keeps_the_others_with_their_senders() {
    let mut room = Room::new();
    let alice = room.add_client("alice");
    let bob = room.add_client("bob");
    let carol = room.add_client("carol");
    assert!(room.remove_client(bob));
    assert!(!room.remove_client(bob));
    let clients: Vec<(usize, &str)> = room.clients().iter().map(|client| (client.id(), *client.sender())).collect();
    assert_eq!(vec![(alice, "alice"), (carol, "carol")], clients);
    assert!(!room.is_full(3));
    assert!(room.is_full(2));
    assert!(room.has_free_client_id());
}
