//! What holds of whole exchanges: a request answered by the server after the
//! database has replied to each query, and that answer read by the client.

use crate::client::client::{
    receive_outcome, registration_outcome, send_outcome, ReceiveError, RegistrationError, SendError,
};
use crate::comunication::message_type::{Answer, Request};
use crate::server::invalid_request_error::{refusal_answer, InvalidRequestError};
use crate::server::server::{next, start, Handler, Query, Reply, Step};
use vstd::prelude::*;

verus! {

/// The queries asked, in order, and the answer given, when `step` is carried on
/// with the database's `replies`, one per query. The exchange stops unanswered
/// when the replies run out or one is not of the kind its query awaits.
pub open spec fn play(step: Step, replies: Seq<Reply>) -> (Seq<Query>, Option<Answer>)
    decreases replies.len(),
{
    match step {
        Step::Respond(answer) => (Seq::empty(), Some(answer)),
        Step::Ask(handler, query) => if replies.len() == 0 || !handler.accepts(replies[0]) {
            (seq![query], None)
        } else {
            let rest = play(next(handler, replies[0]), replies.drop_first());
            (seq![query] + rest.0, rest.1)
        },
    }
}

/// The whole exchange that answers `request`, given the database's `replies`.
pub open spec fn exchange(request: Request, replies: Seq<Reply>) -> (Seq<Query>, Option<Answer>) {
    play(start(request), replies)
}

/// The failure that `reply` reports, if any.
pub open spec fn failure(reply: Reply) -> Option<InvalidRequestError> {
    match reply {
        Reply::Flag(Err(e)) => Some(e),
        Reply::Stored(Err(e)) => Some(e),
        Reply::Fetched(Err(e)) => Some(e),
        _ => None,
    }
}

/// A step whose handler waits for exactly the kind of reply its query gets.
pub open spec fn coherent(step: Step) -> bool {
    match step {
        Step::Ask(handler, query) => forall|r: Reply| #[trigger] handler.accepts(r) == query.answered_by(r),
        Step::Respond(_) => true,
    }
}

proof fn lemma_start_coherent(request: Request)
    ensures
        coherent(start(request)),
{
}

proof fn lemma_next_coherent(step: Step, reply: Reply)
    requires
        step is Ask,
        step->Ask_0.accepts(reply),
    ensures
        coherent(next(step->Ask_0, reply)),
{
}

proof fn lemma_play_answers(step: Step, replies: Seq<Reply>)
    requires
        coherent(step),
        play(step, replies).0.len() <= replies.len(),
        forall|i: int|
            0 <= i < play(step, replies).0.len() ==> (#[trigger] play(step, replies).0[i]).answered_by(
                replies[i],
            ),
    ensures
        play(step, replies).1 is Some,
    decreases replies.len(),
{
    if let Step::Ask(handler, query) = step {
        let ex = play(step, replies);
        assert(ex.0[0] == query);
        assert(query.answered_by(replies[0]));
        assert(handler.accepts(replies[0]));
        let after = next(handler, replies[0]);
        let rest = replies.drop_first();
        lemma_next_coherent(step, replies[0]);
        assert(ex.0 == seq![query] + play(after, rest).0);
        assert forall|j: int| 0 <= j < play(after, rest).0.len() implies (#[trigger] play(
            after,
            rest,
        ).0[j]).answered_by(rest[j]) by {
            assert(ex.0[j + 1] == play(after, rest).0[j]);
            assert(ex.0[j + 1].answered_by(replies[j + 1]));
            assert(rest[j] == replies[j + 1]);
        }
        lemma_play_answers(after, rest);
    }
}

proof fn lemma_later_replies(replies: Seq<Reply>)
    ensures
        replies.len() >= 2 ==> replies.drop_first()[0] == replies[1],
        replies.len() >= 3 ==> replies.drop_first().drop_first()[0] == replies[2],
        replies.len() >= 1 ==> replies.drop_first().len() == replies.len() - 1,
        replies.len() >= 2 ==> replies.drop_first().drop_first().len() == replies.len() - 2,
{
}

proof fn lemma_exchange_len(request: Request, replies: Seq<Reply>)
    ensures
        exchange(request, replies).0.len() <= 3,
{
    reveal_with_fuel(play, 4);
    lemma_later_replies(replies);
}

/// Every request is settled with at most three database queries: given a reply of
/// the right kind to each query it asks, it ends with an answer.
pub proof fn law_exchange_is_short(request: Request, replies: Seq<Reply>)
    ensures
        exchange(request, replies).0.len() <= 3,
        exchange(request, replies).0.len() <= replies.len() && (forall|i: int|
            0 <= i < exchange(request, replies).0.len() ==> (#[trigger] exchange(
                request,
                replies,
            ).0[i]).answered_by(replies[i])) ==> exchange(request, replies).1 is Some,
{
    lemma_exchange_len(request, replies);
    lemma_start_coherent(request);
    if exchange(request, replies).0.len() <= replies.len() && (forall|i: int|
        0 <= i < exchange(request, replies).0.len() ==> (#[trigger] exchange(
            request,
            replies,
        ).0[i]).answered_by(replies[i])) {
        lemma_play_answers(start(request), replies);
    }
}

/// Registration: the name is checked first; a new user is stored, with exactly the
/// details given, only when the name is free; a taken name is refused with
/// `BadName` and nothing is stored; and the registration succeeds, for the server
/// and for the client reading its answer, exactly when the name was free and the
/// user was stored.
pub proof fn law_register(username: String, password: String, public_key: String, replies: Seq<Reply>)
    ensures
        ({
            let ex = exchange(Request::Register { username, password, public_key }, replies);
            let stored = replies.len() >= 2 && replies[0] == Reply::Flag(Ok(false)) && replies[1]
                == Reply::Stored(Ok(()));
            &&& ex.0[0] == Query::IsNamePresent { username }
            &&& (ex.1 == Some(Answer::Success)) == stored
            &&& (registration_outcome(ex.1) == Ok::<(), RegistrationError>(())) == stored
            &&& replies.len() >= 1 && replies[0] == Reply::Flag(Ok(true)) ==> ex == (
                seq![Query::IsNamePresent { username }],
                Some(Answer::BadName),
            )
            &&& forall|i: int|
                0 <= i < ex.0.len() && (#[trigger] ex.0[i]) is SaveUser ==> i == 1 && replies[0]
                    == Reply::Flag(Ok(false)) && ex.0[i] == Query::SaveUser {
                    username,
                    password,
                    pubkey: public_key,
                }
        }),
{
    reveal_with_fuel(play, 2);
    let ex = exchange(Request::Register { username, password, public_key }, replies);
    let h0 = Handler::RegisterCheckName { username, password, public_key };
    let q0 = Query::IsNamePresent { username };
    if replies.len() >= 1 && h0.accepts(replies[0]) {
        let rest = replies.drop_first();
        let s1 = next(h0, replies[0]);
        assert(ex == (seq![q0] + play(s1, rest).0, play(s1, rest).1));
        match replies[0] {
            Reply::Flag(Ok(taken)) => {
                if !taken {
                    let h1 = Handler::RegisterSave;
                    let q1 = Query::SaveUser { username, password, pubkey: public_key };
                    assert(s1 == Step::Ask(h1, q1));
                    if rest.len() >= 1 && h1.accepts(rest[0]) {
                        assert(rest[0] == replies[1]);
                        let s2 = next(h1, rest[0]);
                        assert(play(s1, rest) == (seq![q1] + play(s2, rest.drop_first()).0, play(
                            s2,
                            rest.drop_first(),
                        ).1));
                        assert(play(s2, rest.drop_first()).0.len() == 0);
                        assert(ex.0 =~= seq![q0, q1]);
                        match rest[0] {
                            Reply::Stored(Ok(u)) => {
                                assert(u == ());
                                assert(rest[0] == Reply::Stored(Ok(())));
                                assert(replies[1] == Reply::Stored(Ok(())));
                            },
                            Reply::Stored(Err(e)) => {
                                assert(s2 == Step::Respond(refusal_answer(e)));
                                assert(ex.1 != Some(Answer::Success));
                            },
                            _ => {},
                        }
                    } else {
                        assert(ex.0 =~= seq![q0, q1]);
                    }
                }
            },
            _ => {},
        }
    }
}

/// Sending: the sender's name is checked, then the password, and an unknown name
/// is refused with `BadName` before a wrong password is refused with `BadPwd`; a
/// message is stored only for a known sender whose password checked, and then
/// exactly as given, from that sender to the named receiver; and the send succeeds,
/// for the server and for the client, exactly when both checks passed and the
/// message was stored.
pub proof fn law_send(
    username: String,
    password: String,
    message: String,
    receiver: String,
    replies: Seq<Reply>,
)
    ensures
        ({
            let ex = exchange(Request::Send { username, password, message, receiver }, replies);
            let checked = replies.len() >= 2 && replies[0] == Reply::Flag(Ok(true)) && replies[1]
                == Reply::Flag(Ok(true));
            let stored = checked && replies.len() >= 3 && replies[2] == Reply::Stored(Ok(()));
            &&& ex.0[0] == Query::IsNamePresent { username }
            &&& (ex.1 == Some(Answer::Success)) == stored
            &&& (send_outcome(ex.1) == Ok::<(), SendError>(())) == stored
            &&& replies.len() >= 2 && replies[0] == Reply::Flag(Ok(false)) && replies[1] is Flag
                && failure(replies[1]) is None ==> ex.1 == Some(Answer::BadName)
            &&& replies.len() >= 2 && replies[0] == Reply::Flag(Ok(true)) && replies[1]
                == Reply::Flag(Ok(false)) ==> ex.1 == Some(Answer::BadPwd)
            &&& forall|i: int|
                0 <= i < ex.0.len() && (#[trigger] ex.0[i]) is SaveMessage ==> i == 2 && checked
                    && ex.0[i] == Query::SaveMessage { message, sender: username, receiver }
        }),
{
    let ex = exchange(Request::Send { username, password, message, receiver }, replies);
    let stored = replies.len() >= 3 && replies[0] == Reply::Flag(Ok(true)) && replies[1] == Reply::Flag(
        Ok(true),
    ) && replies[2] == Reply::Stored(Ok(()));
    reveal_with_fuel(play, 4);
    lemma_later_replies(replies);
    if replies.len() >= 1 {
        match replies[0] {
            Reply::Flag(Ok(b0)) => {
                if replies.len() >= 2 {
                    match replies[1] {
                        Reply::Flag(Ok(b1)) => {
                            if replies.len() >= 3 {
                                match replies[2] {
                                    Reply::Stored(Ok(u)) => {
                                        assert(u == ());
                                        assert(replies[2] == Reply::Stored(Ok(())));
                                    },
                                    Reply::Fetched(Ok(_)) => {},
                                    _ => {},
                                }
                            }
                        },
                        Reply::Stored(Ok(_)) => {},
                        _ => {},
                    }
                }
            },
            _ => {},
        }
    }
    assert((send_outcome(ex.1) == Ok::<(), SendError>(())) == stored);
    assert(ex.1 == Some(Answer::Success) ==> send_outcome(ex.1) == Ok::<(), SendError>(()));
}

/// Receiving: the user's name is checked, then the password, with the same
/// refusals as for sending; the only messages fetched are those that the named
/// sender sent to this user, and only once both checks passed; and the user gets
/// messages, from the server and as the client's result, exactly when both checks
/// passed, and then exactly the messages fetched.
pub proof fn law_receive(username: String, password: String, sender: String, replies: Seq<Reply>)
    ensures
        ({
            let ex = exchange(Request::Receive { username, password, sender }, replies);
            let checked = replies.len() >= 2 && replies[0] == Reply::Flag(Ok(true)) && replies[1]
                == Reply::Flag(Ok(true));
            &&& ex.0[0] == Query::IsNamePresent { username }
            &&& forall|messages: Vec<String>|
                (ex.1 == Some(Answer::Messages(messages))) == (checked && replies.len() >= 3
                    && replies[2] == Reply::Fetched(Ok(messages)))
            &&& forall|messages: Vec<String>|
                (receive_outcome(ex.1) == Ok::<Vec<String>, ReceiveError>(messages)) == (checked
                    && replies.len() >= 3 && replies[2] == Reply::Fetched(Ok(messages)))
            &&& replies.len() >= 2 && replies[0] == Reply::Flag(Ok(false)) && replies[1] is Flag
                && failure(replies[1]) is None ==> ex.1 == Some(Answer::BadName)
            &&& replies.len() >= 2 && replies[0] == Reply::Flag(Ok(true)) && replies[1]
                == Reply::Flag(Ok(false)) ==> ex.1 == Some(Answer::BadPwd)
            &&& forall|i: int|
                0 <= i < ex.0.len() && (#[trigger] ex.0[i]) is GetMessages ==> i == 2 && checked
                    && ex.0[i] == Query::GetMessages { sender, receiver: username }
        }),
{
    reveal_with_fuel(play, 4);
    lemma_later_replies(replies);
    if replies.len() >= 1 {
        match replies[0] {
            Reply::Flag(Ok(b0)) => {
                if replies.len() >= 2 {
                    match replies[1] {
                        Reply::Flag(Ok(b1)) => {
                            if replies.len() >= 3 {
                                match replies[2] {
                                    Reply::Stored(Ok(_)) => {},
                                    Reply::Fetched(Ok(_)) => {},
                                    _ => {},
                                }
                            }
                        },
                        Reply::Stored(Ok(_)) => {},
                        _ => {},
                    }
                }
            },
            _ => {},
        }
    }
}

/// A query that fails ends the exchange at once, and the request is answered with
/// the refusal that reports the failure.
pub proof fn law_failed_query_is_refused(request: Request, replies: Seq<Reply>, i: int)
    requires
        0 <= i < exchange(request, replies).0.len(),
        i < replies.len(),
        exchange(request, replies).0[i].answered_by(replies[i]),
        failure(replies[i]) is Some,
    ensures
        exchange(request, replies).0.len() == i + 1,
        exchange(request, replies).1 == Some(refusal_answer(failure(replies[i]).unwrap())),
{
    reveal_with_fuel(play, 4);
    lemma_later_replies(replies);
}

/// A refusal is never a success, and different reasons give different answers.
pub proof fn law_refusals(e1: InvalidRequestError, e2: InvalidRequestError)
    ensures
        !refusal_answer(e1).is_success(),
        refusal_answer(e1) == refusal_answer(e2) ==> e1 == e2,
{
}

/// Whatever the reason the server gives for a refusal, the client reports the
/// request as failed, whichever request it made.
pub proof fn law_client_sees_refusal_as_failure(e: InvalidRequestError)
    ensures
        registration_outcome(Some(refusal_answer(e))) is Err,
        send_outcome(Some(refusal_answer(e))) is Err,
        receive_outcome(Some(refusal_answer(e))) is Err,
{
}

/// A registration of a free name asks, as its second and last query, to store
/// exactly the user it names, with the password and public key it gave; and a
/// registration that succeeds has asked exactly the name check and that store.
pub proof fn law_register_stores_the_named_user(
    username: String,
    password: String,
    public_key: String,
    replies: Seq<Reply>,
)
    ensures
        ({
            let ex = exchange(Request::Register { username, password, public_key }, replies);
            let asked = seq![
                Query::IsNamePresent { username },
                Query::SaveUser { username, password, pubkey: public_key },
            ];
            &&& replies.len() >= 1 && replies[0] == Reply::Flag(Ok(false)) ==> ex.0 == asked
            &&& ex.1 == Some(Answer::Success) ==> ex.0 == asked
        }),
{
    law_register(username, password, public_key, replies);
    reveal_with_fuel(play, 4);
    lemma_later_replies(replies);
    let ex = exchange(Request::Register { username, password, public_key }, replies);
    let asked = seq![
        Query::IsNamePresent { username },
        Query::SaveUser { username, password, pubkey: public_key },
    ];
    if replies.len() >= 1 && replies[0] == Reply::Flag(Ok(false)) {
        assert(ex.0 =~= asked);
    }
}

/// Sending checks the sender's own account: once the name check has an answer,
/// the second query is the password check of exactly the requesting user with
/// exactly the password the request carried. A send that succeeds has asked the
/// name check, that password check, and the store of the message as given, from
/// the requesting user to the receiver.
pub proof fn law_send_checks_the_sender(
    username: String,
    password: String,
    message: String,
    receiver: String,
    replies: Seq<Reply>,
)
    ensures
        ({
            let ex = exchange(Request::Send { username, password, message, receiver }, replies);
            &&& replies.len() >= 1 && replies[0] is Flag && failure(replies[0]) is None ==> ex.0.len()
                >= 2 && ex.0[1] == Query::ValidateCredentials { username, password }
            &&& ex.1 == Some(Answer::Success) ==> ex.0 == seq![
                Query::IsNamePresent { username },
                Query::ValidateCredentials { username, password },
                Query::SaveMessage { message, sender: username, receiver },
            ]
        }),
{
    law_send(username, password, message, receiver, replies);
    reveal_with_fuel(play, 4);
    lemma_later_replies(replies);
    let ex = exchange(Request::Send { username, password, message, receiver }, replies);
    if ex.1 == Some(Answer::Success) {
        assert(ex.0 =~= seq![
            Query::IsNamePresent { username },
            Query::ValidateCredentials { username, password },
            Query::SaveMessage { message, sender: username, receiver },
        ]);
    }
}

/// Receiving checks the requesting user's own account: once the name check has an
/// answer, the second query is the password check of exactly the requesting user
/// with exactly the password the request carried. A fetch that gives messages has
/// asked the name check, that password check, and the messages that the named
/// sender sent to the requesting user.
pub proof fn law_receive_checks_the_user(
    username: String,
    password: String,
    sender: String,
    replies: Seq<Reply>,
)
    ensures
        ({
            let ex = exchange(Request::Receive { username, password, sender }, replies);
            &&& replies.len() >= 1 && replies[0] is Flag && failure(replies[0]) is None ==> ex.0.len()
                >= 2 && ex.0[1] == Query::ValidateCredentials { username, password }
            &&& ex.1 matches Some(Answer::Messages(_)) ==> ex.0 == seq![
                Query::IsNamePresent { username },
                Query::ValidateCredentials { username, password },
                Query::GetMessages { sender, receiver: username },
            ]
        }),
{
    law_receive(username, password, sender, replies);
    reveal_with_fuel(play, 4);
    lemma_later_replies(replies);
    let ex = exchange(Request::Receive { username, password, sender }, replies);
    if let Some(Answer::Messages(ms)) = ex.1 {
        assert(ex.1 == Some(Answer::Messages(ms)));
        assert(ex.0 =~= seq![
            Query::IsNamePresent { username },
            Query::ValidateCredentials { username, password },
            Query::GetMessages { sender, receiver: username },
        ]);
    }
}

/// Each reason for a refusal is answered with the answer named after it, and a
/// database failure with `ServerError`.
pub proof fn law_refusal_answers(e: InvalidRequestError)
    ensures
        e == InvalidRequestError::BadUsername ==> refusal_answer(e) == Answer::BadName,
        e == InvalidRequestError::BadPassword ==> refusal_answer(e) == Answer::BadPwd,
        e == InvalidRequestError::BadSender ==> refusal_answer(e) == Answer::BadSender,
        e == InvalidRequestError::BadReceiver ==> refusal_answer(e) == Answer::BadReceiver,
        e == InvalidRequestError::DatabaseError ==> refusal_answer(e) == Answer::ServerError,
{
}

/// What the client reports when no answer could be exchanged (`Unknown`), and when
/// the server answers that its database failed (`ServerError`), whichever request
/// it made.
pub proof fn law_client_reports_failures()
    ensures
        registration_outcome(None) == Err::<(), RegistrationError>(RegistrationError::Unknown),
        send_outcome(None) == Err::<(), SendError>(SendError::Unknown),
        receive_outcome(None) == Err::<Vec<String>, ReceiveError>(ReceiveError::Unknown),
        registration_outcome(Some(Answer::ServerError)) == Err::<(), RegistrationError>(
            RegistrationError::ServerError,
        ),
        send_outcome(Some(Answer::ServerError)) == Err::<(), SendError>(SendError::ServerError),
        receive_outcome(Some(Answer::ServerError)) == Err::<Vec<String>, ReceiveError>(
            ReceiveError::ServerError,
        ),
{
}

/// End to end: a registration of a taken name is reported by the client as a bad
/// username; a send or a fetch by an unknown user, or with a wrong password, is
/// reported as a bad username; and a failed database query is reported as a
/// server error, whichever request it was.
pub proof fn law_client_reports_refusals(request: Request, replies: Seq<Reply>)
    ensures
        ({
            let ex = exchange(request, replies);
            let unknown_or_wrong = replies.len() >= 2 && replies[0] is Flag && failure(replies[0])
                is None && replies[1] is Flag && failure(replies[1]) is None && replies[0]
                != replies[1] || replies.len() >= 2 && replies[0] == Reply::Flag(Ok(false))
                && replies[1] == Reply::Flag(Ok(false));
            &&& request is Register && replies.len() >= 1 && replies[0] == Reply::Flag(Ok(true))
                ==> registration_outcome(ex.1) == Err::<(), RegistrationError>(
                RegistrationError::BadUsername,
            )
            &&& request is Send && unknown_or_wrong ==> send_outcome(ex.1) == Err::<(), SendError>(
                SendError::BadUsername,
            )
            &&& request is Receive && unknown_or_wrong ==> receive_outcome(ex.1) == Err::<
                Vec<String>,
                ReceiveError,
            >(ReceiveError::BadUsername)
            &&& forall|i: int|
                0 <= i < ex.0.len() && i < replies.len() && (#[trigger] ex.0[i]).answered_by(replies[i])
                    && failure(replies[i]) == Some(InvalidRequestError::DatabaseError) ==> {
                    &&& (request is Register ==> registration_outcome(ex.1) == Err::<
                        (),
                        RegistrationError,
                    >(RegistrationError::ServerError))
                    &&& (request is Send ==> send_outcome(ex.1) == Err::<(), SendError>(
                        SendError::ServerError,
                    ))
                    &&& (request is Receive ==> receive_outcome(ex.1) == Err::<
                        Vec<String>,
                        ReceiveError,
                    >(ReceiveError::ServerError))
                }
        }),
{
    let ex = exchange(request, replies);
    match request {
        Request::Register { username, password, public_key } => {
            law_register(username, password, public_key, replies);
        },
        Request::Send { username, password, message, receiver } => {
            law_send(username, password, message, receiver, replies);
            reveal_with_fuel(play, 4);
            lemma_later_replies(replies);
        },
        Request::Receive { username, password, sender } => {
            law_receive(username, password, sender, replies);
            reveal_with_fuel(play, 4);
            lemma_later_replies(replies);
        },
    }
    assert forall|i: int|
        0 <= i < ex.0.len() && i < replies.len() && (#[trigger] ex.0[i]).answered_by(replies[i])
            && failure(replies[i]) == Some(InvalidRequestError::DatabaseError) implies ex.1 == Some(
        Answer::ServerError,
    ) by {
        law_failed_query_is_refused(request, replies, i);
    }
}

} // verus!
