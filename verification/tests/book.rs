use std::sync::Arc;
use word_of_wisdom_pow::book::{BookError, BookService};
use word_of_wisdom_pow::client::{build_solution_message, interpret_payload, solve, ClientError};
use word_of_wisdom_pow::codec::encode_solution;
use word_of_wisdom_pow::pow::{check_solution, PowProvider};
use word_of_wisdom_pow::server::Server;
use word_of_wisdom_pow::store::BookStore;

#[test]
fn full_handshake_hands_out_the_quote() {
    let difficulty = 1;
    let store = BookStore::new(vec!["Test quote".to_string()]);
    let pow_provider = PowProvider::new(difficulty);
    let service = BookService::new(store, pow_provider);

    // Server side: issue the 9-byte challenge message.
    let challenge_message = service.pow.generate_challenge().unwrap();
    let issued_seed = challenge_message[..8].to_vec();

    // Client side: solve it and answer with the 16-byte solution message.
    let nonce = solve(&challenge_message).unwrap();
    let solution_message = build_solution_message(nonce, &challenge_message);

    // Server side: verify and hand out the quote.
    assert!(service.process_response(&solution_message, &issued_seed).is_ok());
    let quote = service.pick_quote().unwrap();
    assert_eq!(quote, "Test quote");
}

#[test]
fn short_message_is_rejected_and_client_sees_empty_payload() {
    let store = BookStore::new(vec!["Test quote".to_string()]);
    let service = BookService::new(store, PowProvider::new(1));
    let issued_seed = vec![0, 0, 0, 0, 100, 111, 90, 117];

    // Fewer than 16 bytes arrived before the peer closed.
    let r = service.process_response(&[0; 7], &issued_seed);
    assert!(matches!(r, Err(BookError::InvalidClientMessageError)));

    // The server wrote nothing, so the client reads an empty payload and
    // reports a rejection rather than an empty success.
    let outcome = interpret_payload(String::new());
    assert!(matches!(outcome, Err(ClientError::WrongSolution)));
}

#[test]
fn solution_bound_to_other_seed_is_rejected() {
    let seed_a = vec![0, 0, 0, 0, 100, 111, 90, 117];
    let seed_b = vec![0, 0, 0, 0, 100, 111, 90, 118];
    let nonce = 145161;
    // The nonce answers seed A on its own.
    assert!(check_solution(nonce, &seed_a, 2).is_ok());

    // Submitted with seed B attached, against issued seed A: rejected.
    let store = BookStore::new(vec!["Test quote".to_string()]);
    let service = BookService::new(store, PowProvider::new(2));
    let message = encode_solution(nonce, &seed_b);
    let r = service.process_response(&message, &seed_a);
    assert!(matches!(r, Err(BookError::InvalidClientMessageError)));
}

#[test]
fn wrong_nonce_is_a_solution_check_failure() {
    let issued_seed = vec![0, 0, 0, 0, 100, 111, 90, 117];
    let store = BookStore::new(vec!["Test quote".to_string()]);
    let service = BookService::new(store, PowProvider::new(2));
    let message = encode_solution(0, &issued_seed);
    let r = service.process_response(&message, &issued_seed);
    assert!(matches!(r, Err(BookError::SolutionCheckError(_))));
}

#[test]
fn empty_store_is_a_distinct_failure() {
    let service = BookService::new(BookStore::new(vec![]), PowProvider::new(1));
    let r = service.pick_quote();
    assert!(matches!(r, Err(BookError::NoQuotesAvailable)));
}

#[test]
fn server_keeps_its_configuration() {
    let service = Arc::new(BookService::new(
        BookStore::new(vec!["Test quote".to_string()]),
        PowProvider::new(2),
    ));
    let server = Server::new("127.0.0.1:8001".to_string(), service);
    assert_eq!(server.address, "127.0.0.1:8001");
    assert_eq!(server.book_service.pow.difficulty, 2);
}
