use pigeo::client::client::{receive_result, register_result, send_result};
use pigeo::comunication::message_type::Answer;
use pigeo::server::invalid_request_error::InvalidRequestError;

#[test]
fn each_refusal_has_its_answer() {
    assert_eq!(InvalidRequestError::BadUsername.into_answer(), Answer::BadName);
    assert_eq!(InvalidRequestError::BadPassword.into_answer(), Answer::BadPwd);
    assert_eq!(InvalidRequestError::BadSender.into_answer(), Answer::BadSender);
    assert_eq!(InvalidRequestError::BadReceiver.into_answer(), Answer::BadReceiver);
    assert_eq!(InvalidRequestError::DatabaseError.into_answer(), Answer::ServerError);
}

const ALL: [InvalidRequestError; 5] = [
    InvalidRequestError::BadUsername,
    InvalidRequestError::BadPassword,
    InvalidRequestError::BadSender,
    InvalidRequestError::BadReceiver,
    InvalidRequestError::DatabaseError,
];

#[test]
fn refusals_are_never_success_and_all_differ() {
    for (i, a) in ALL.iter().enumerate() {
        let answer = a.into_answer();
        assert!(!matches!(answer, Answer::Success | Answer::Messages(_)));
        for (j, b) in ALL.iter().enumerate() {
            assert_eq!(i == j, answer == b.into_answer());
        }
    }
}

#[test]
fn client_reads_every_refusal_as_failure() {
    for e in ALL.iter() {
        assert!(register_result(Some(e.into_answer())).is_err());
        assert!(send_result(Some(e.into_answer())).is_err());
        assert!(receive_result(Some(e.into_answer())).is_err());
    }
}
