use pigeo::client::client::{receive_result, register_result, send_result};
use pigeo::comunication::message_type::{Answer, Request};
use pigeo::server::invalid_request_error::InvalidRequestError;
use pigeo::server::server::{Handler, Query, Reply, Step};

fn s(x: &str) -> String {
    x.to_string()
}

/// Runs the exchange for `request`, feeding `replies` in order; returns the
/// queries asked and the answer (None when the replies ran out).
fn run(request: Request, replies: Vec<Reply>) -> (Vec<Query>, Option<Answer>) {
    let mut queries = Vec::new();
    let mut step = Handler::examine_request(request);
    let mut replies = replies.into_iter();
    loop {
        match step {
            Step::Respond(answer) => return (queries, Some(answer)),
            Step::Ask(handler, query) => {
                queries.push(query);
                match replies.next() {
                    None => return (queries, None),
                    Some(reply) => {
                        assert!(handler.accepts_reply(&reply));
                        step = handler.resume(reply);
                    }
                }
            }
        }
    }
}

fn register() -> Request {
    Request::Register { username: s("pippo"), password: s("baudo"), public_key: s("KEY") }
}

fn send() -> Request {
    Request::Send { username: s("pippo"), password: s("baudo"), message: s("hello"), receiver: s("mike") }
}

fn receive() -> Request {
    Request::Receive { username: s("mike"), password: s("pw"), sender: s("pippo") }
}

#[test]
fn every_request_starts_with_a_name_check() {
    assert_eq!(
        Handler::examine_request(register()),
        Step::Ask(
            Handler::RegisterCheckName { username: s("pippo"), password: s("baudo"), public_key: s("KEY") },
            Query::IsNamePresent { username: s("pippo") }
        )
    );
    assert_eq!(
        Handler::handle_send(s("pippo"), s("baudo"), s("mike"), s("hello")),
        Handler::examine_request(send())
    );
    assert_eq!(
        Handler::handle_receive(s("mike"), s("pw"), s("pippo")),
        Handler::examine_request(receive())
    );
    assert_eq!(
        Handler::handle_register(s("pippo"), s("baudo"), s("KEY")),
        Handler::examine_request(register())
    );
}

#[test]
fn register_free_name_stores_user() {
    let (q, a) = run(register(), vec![Reply::Flag(Ok(false)), Reply::Stored(Ok(()))]);
    assert_eq!(
        q,
        vec![
            Query::IsNamePresent { username: s("pippo") },
            Query::SaveUser { username: s("pippo"), password: s("baudo"), pubkey: s("KEY") },
        ]
    );
    assert_eq!(a, Some(Answer::Success));
}

#[test]
fn register_taken_name_is_refused_and_not_stored() {
    let (q, a) = run(register(), vec![Reply::Flag(Ok(true)), Reply::Stored(Ok(()))]);
    assert_eq!(q, vec![Query::IsNamePresent { username: s("pippo") }]);
    assert_eq!(a, Some(Answer::BadName));
}

#[test]
fn register_database_failures() {
    let (q, a) = run(register(), vec![Reply::Flag(Err(InvalidRequestError::DatabaseError))]);
    assert_eq!(q.len(), 1);
    assert_eq!(a, Some(Answer::ServerError));
    let (q, a) = run(register(), vec![Reply::Flag(Ok(false)), Reply::Stored(Err(InvalidRequestError::DatabaseError))]);
    assert_eq!(q.len(), 2);
    assert_eq!(a, Some(Answer::ServerError));
}

#[test]
fn send_known_user_stores_message() {
    let (q, a) = run(send(), vec![Reply::Flag(Ok(true)), Reply::Flag(Ok(true)), Reply::Stored(Ok(()))]);
    assert_eq!(
        q,
        vec![
            Query::IsNamePresent { username: s("pippo") },
            Query::ValidateCredentials { username: s("pippo"), password: s("baudo") },
            Query::SaveMessage { message: s("hello"), sender: s("pippo"), receiver: s("mike") },
        ]
    );
    assert_eq!(a, Some(Answer::Success));
}

#[test]
fn send_refusals() {
    // unknown name is refused before the password, even when the password fails too
    let (q, a) = run(send(), vec![Reply::Flag(Ok(false)), Reply::Flag(Ok(false))]);
    assert_eq!(q.len(), 2);
    assert_eq!(a, Some(Answer::BadName));
    let (_, a) = run(send(), vec![Reply::Flag(Ok(false)), Reply::Flag(Ok(true))]);
    assert_eq!(a, Some(Answer::BadName));
    let (q, a) = run(send(), vec![Reply::Flag(Ok(true)), Reply::Flag(Ok(false))]);
    assert_eq!(q.len(), 2);
    assert_eq!(a, Some(Answer::BadPwd));
    let (_, a) = run(send(), vec![Reply::Flag(Ok(true)), Reply::Flag(Err(InvalidRequestError::BadPassword))]);
    assert_eq!(a, Some(Answer::BadPwd));
    let (_, a) = run(send(), vec![Reply::Flag(Ok(true)), Reply::Flag(Ok(true)), Reply::Stored(Err(InvalidRequestError::BadReceiver))]);
    assert_eq!(a, Some(Answer::BadReceiver));
}

#[test]
fn receive_fetches_messages_addressed_to_user() {
    let fetched = vec![s("one"), s("two")];
    let (q, a) = run(receive(), vec![Reply::Flag(Ok(true)), Reply::Flag(Ok(true)), Reply::Fetched(Ok(fetched.clone()))]);
    assert_eq!(q[2], Query::GetMessages { sender: s("pippo"), receiver: s("mike") });
    assert_eq!(a, Some(Answer::Messages(fetched)));
}

#[test]
fn receive_refusals() {
    let (_, a) = run(receive(), vec![Reply::Flag(Ok(false)), Reply::Flag(Ok(true))]);
    assert_eq!(a, Some(Answer::BadName));
    let (_, a) = run(receive(), vec![Reply::Flag(Ok(true)), Reply::Flag(Ok(false))]);
    assert_eq!(a, Some(Answer::BadPwd));
    let (q, a) = run(receive(), vec![Reply::Flag(Err(InvalidRequestError::BadUsername))]);
    assert_eq!(q.len(), 1);
    assert_eq!(a, Some(Answer::BadName));
    let (_, a) = run(receive(), vec![Reply::Flag(Ok(true)), Reply::Flag(Ok(true)), Reply::Fetched(Err(InvalidRequestError::DatabaseError))]);
    assert_eq!(a, Some(Answer::ServerError));
}

#[test]
fn exchanges_are_short() {
    let cases = vec![
        (register(), vec![Reply::Flag(Ok(false)), Reply::Stored(Ok(())), Reply::Stored(Ok(()))], 2),
        (send(), vec![Reply::Flag(Ok(true)), Reply::Flag(Ok(true)), Reply::Stored(Ok(())), Reply::Stored(Ok(()))], 3),
        (receive(), vec![Reply::Flag(Ok(true)), Reply::Flag(Ok(true)), Reply::Fetched(Ok(vec![])), Reply::Stored(Ok(()))], 3),
    ];
    for (request, replies, asked) in cases {
        let (q, a) = run(request, replies);
        assert_eq!(q.len(), asked);
        assert!(a.is_some());
    }
}

#[test]
fn handler_accepts_only_awaited_kind() {
    let h = Handler::RegisterSave;
    assert!(h.accepts_reply(&Reply::Stored(Ok(()))));
    assert!(!h.accepts_reply(&Reply::Flag(Ok(true))));
    assert!(!h.accepts_reply(&Reply::Fetched(Ok(vec![]))));
    let h = Handler::ReceiveFetch;
    assert!(h.accepts_reply(&Reply::Fetched(Ok(vec![]))));
    assert!(!h.accepts_reply(&Reply::Stored(Ok(()))));
    let h = Handler::SendCheckCredentials { name_valid: true, username: s("a"), message: s("m"), receiver: s("b") };
    assert!(h.accepts_reply(&Reply::Flag(Err(InvalidRequestError::DatabaseError))));
    assert!(!h.accepts_reply(&Reply::Stored(Ok(()))));
}

#[test]
fn end_to_end_client_reading() {
    let (_, a) = run(register(), vec![Reply::Flag(Ok(false)), Reply::Stored(Ok(()))]);
    assert_eq!(register_result(a), Ok(()));
    let (_, a) = run(register(), vec![Reply::Flag(Ok(false))]);
    assert!(register_result(a).is_err());
    let (_, a) = run(send(), vec![Reply::Flag(Ok(true)), Reply::Flag(Ok(true)), Reply::Stored(Ok(()))]);
    assert_eq!(send_result(a), Ok(()));
    let (_, a) = run(receive(), vec![Reply::Flag(Ok(true)), Reply::Flag(Ok(true)), Reply::Fetched(Ok(vec![s("x")]))]);
    assert_eq!(receive_result(a), Ok(vec![s("x")]));
}
