//! The query layer: the address of each query, and what becomes of the reply.
//!
//! One query is one HTTP GET. A query is taken on step by step: its first
//! step names the address to send the GET to, and the caller comes back with
//! what the GET gave, as a [`Reply`]; the second step says whether that is an
//! envelope or a failure, and of which kind.

use crate::model::{
    APIResponse, ContestData, Envelope, RatingData, SubmissionData, UserData,
};
use crate::text::{decimal, decimal_string};
use vstd::prelude::*;
use vstd::string::StringExecFns;

verus! {

/// The status word of an envelope that reports success.
pub open spec fn ok_status() -> Seq<char> {
    "OK"@
}

/// The reason given where an envelope reports success and holds no records.
pub open spec fn missing_result() -> Seq<char> {
    "the envelope holds no result"@
}

/// The address of a user's rating history.
pub open spec fn rating_history_address(handle: Seq<char>) -> Seq<char> {
    "https://codeforces.com/api/user.rating?handle="@ + handle
}

/// The address of a user's profile.
pub open spec fn user_info_address(handle: Seq<char>) -> Seq<char> {
    "https://codeforces.com/api/user.info?handles="@ + handle + "&checkHistoricHandles=false"@
}

/// The address of a user's ten most recent submissions.
pub open spec fn submission_history_address(handle: Seq<char>) -> Seq<char> {
    "https://codeforces.com/api/user.status?handle="@ + handle + "&from=1&count=10"@
}

/// The address of the list of contests, without those of the gym.
pub open spec fn contests_address() -> Seq<char> {
    "https://codeforces.com/api/contest.list?gym=false"@
}

/// The body of an answer that was read as JSON of the envelope's shape.
#[derive(Debug, Clone, PartialEq, Eq)]
pub struct Answer<T> {
    pub status: String,
    /// The server's comment, which it sends with a failure.
    pub comment: Option<String>,
    /// The records, absent where the body held none.
    pub result: Option<Vec<T>>,
}

/// What one GET came back with.
#[derive(Debug, Clone, PartialEq, Eq)]
pub enum Reply<T> {
    /// No answer came: the connection failed or timed out. Holds the reason.
    Unreachable(String),
    /// An answer came with this HTTP status code, whose body is not JSON of
    /// the envelope's shape. Holds the decoder's reason.
    Malformed(u16, String),
    /// An answer came with this HTTP status code and this body.
    Parsed(u16, Answer<T>),
}

/// Why a query gave no envelope.
#[derive(Debug, Clone, PartialEq, Eq)]
pub enum FetchError {
    /// No answer came.
    Transport(String),
    /// The server answered with an HTTP status outside 200 to 299, and with a
    /// body that reports no failure of its own.
    HttpStatus(u16),
    /// The body could not be read as an envelope.
    Decode(String),
    /// The envelope itself reports a failure, with the server's comment where
    /// it sent one.
    Api(Option<String>),
}

/// Where a query stands: what its caller is to do next, or what it gave.
#[derive(Debug, PartialEq, Eq)]
pub enum Step<T> {
    /// Send one GET to this address, and come back with the reply.
    Send(String),
    /// The query is over, with this envelope or this failure.
    Done(Result<APIResponse<T>, FetchError>),
}

/// An answer in contracts.
pub struct AnswerView<R> {
    pub status: Seq<char>,
    pub comment: Option<Seq<char>>,
    pub result: Option<Seq<R>>,
}

/// A reply in contracts.
pub enum ReplyView<R> {
    Unreachable(Seq<char>),
    Malformed(int, Seq<char>),
    Parsed(int, AnswerView<R>),
}

/// A step in contracts.
pub enum StepView<R> {
    Send(Seq<char>),
    Done(Result<Envelope<R>, Failure>),
}

/// A failure in contracts.
pub enum Failure {
    Transport(Seq<char>),
    HttpStatus(int),
    Decode(Seq<char>),
    Api(Option<Seq<char>>),
}

/// The text of an optional string.
pub open spec fn text_of(text: Option<String>) -> Option<Seq<char>> {
    match text {
        Some(text) => Some(text@),
        None => None,
    }
}

impl<T: View> View for Answer<T> {
    type V = AnswerView<T::V>;

    open spec fn view(&self) -> AnswerView<T::V> {
        AnswerView {
            status: self.status@,
            comment: text_of(self.comment),
            result: match self.result {
                Some(records) => Some(records@.map_values(|record: T| record@)),
                None => None,
            },
        }
    }
}

impl<T: View> View for Reply<T> {
    type V = ReplyView<T::V>;

    open spec fn view(&self) -> ReplyView<T::V> {
        match *self {
            Reply::Unreachable(reason) => ReplyView::Unreachable(reason@),
            Reply::Malformed(code, reason) => ReplyView::Malformed(code as int, reason@),
            Reply::Parsed(code, answer) => ReplyView::Parsed(code as int, answer@),
        }
    }
}

impl View for FetchError {
    type V = Failure;

    open spec fn view(&self) -> Failure {
        match *self {
            FetchError::Transport(reason) => Failure::Transport(reason@),
            FetchError::HttpStatus(code) => Failure::HttpStatus(code as int),
            FetchError::Decode(reason) => Failure::Decode(reason@),
            FetchError::Api(comment) => Failure::Api(text_of(comment)),
        }
    }
}

impl<T: View> View for Step<T> {
    type V = StepView<T::V>;

    open spec fn view(&self) -> StepView<T::V> {
        match *self {
            Step::Send(address) => StepView::Send(address@),
            Step::Done(outcome) => StepView::Done(fetched(outcome)),
        }
    }
}

/// The view of a reply that may not have come yet.
pub open spec fn reply_of<T: View>(reply: Option<Reply<T>>) -> Option<ReplyView<T::V>> {
    match reply {
        Some(reply) => Some(reply@),
        None => None,
    }
}

/// Whether an HTTP status code reports success.
pub open spec fn is_success(code: int) -> bool {
    200 <= code <= 299
}

/// What a reply amounts to.
///
/// No answer is a transport failure. A body that could not be read is a decode
/// failure with the decoder's reason, whatever the status code. A body that
/// was read and whose status word is not `OK` is a failure that the API
/// reports, with its comment. Then a status code outside 200 to 299 is an
/// HTTP failure, and an envelope without records a decode failure. Anything
/// else is the envelope, its records in the order of the body.
pub open spec fn settle<R>(reply: ReplyView<R>) -> Result<Envelope<R>, Failure> {
    match reply {
        ReplyView::Unreachable(reason) => Err(Failure::Transport(reason)),
        ReplyView::Malformed(_, reason) => Err(Failure::Decode(reason)),
        ReplyView::Parsed(code, answer) => if answer.status != ok_status() {
            Err(Failure::Api(answer.comment))
        } else if !is_success(code) {
            Err(Failure::HttpStatus(code))
        } else {
            match answer.result {
                None => Err(Failure::Decode(missing_result())),
                Some(records) => Ok(Envelope { status: answer.status, result: records }),
            }
        },
    }
}

/// The view of what a query gave.
pub open spec fn fetched<T: View>(outcome: Result<APIResponse<T>, FetchError>) -> Result<
    Envelope<T::V>,
    Failure,
> {
    match outcome {
        Ok(envelope) => Ok(envelope@),
        Err(error) => Err(error@),
    }
}

/// The step of a query to `address`: before the reply, to send the one GET to
/// that address; with the reply, to end with what the reply amounts to. No
/// reply makes a query send again.
pub open spec fn step_of<R>(address: Seq<char>, reply: Option<ReplyView<R>>) -> StepView<R> {
    match reply {
        None => StepView::Send(address),
        Some(reply) => StepView::Done(settle(reply)),
    }
}

/// The message of a failure, as it is shown in place of a table.
pub open spec fn failure_message(failure: Failure) -> Seq<char> {
    match failure {
        Failure::Transport(reason) => "transport failure: "@ + reason,
        Failure::HttpStatus(code) => "HTTP status "@ + decimal(code),
        Failure::Decode(reason) => "malformed response: "@ + reason,
        Failure::Api(Some(comment)) => "API failure: "@ + comment,
        Failure::Api(None) => "API failure"@,
    }
}

impl FetchError {
    /// The message of this failure.
    pub fn message(&self) -> (out: String)
        ensures
            out@ == failure_message(self@),
    {
        match self {
            FetchError::Transport(reason) => {
                String::from_str("transport failure: ").concat(reason.as_str())
            },
            FetchError::HttpStatus(code) => {
                let digits = decimal_string(*code as i32);
                String::from_str("HTTP status ").concat(digits.as_str())
            },
            FetchError::Decode(reason) => {
                String::from_str("malformed response: ").concat(reason.as_str())
            },
            FetchError::Api(Some(comment)) => {
                String::from_str("API failure: ").concat(comment.as_str())
            },
            FetchError::Api(None) => String::from_str("API failure"),
        }
    }
}

/// The address to ask for the rating history of `handle`. The handle goes
/// into the address as it is.
pub fn rating_history_url(handle: &str) -> (url: String)
    ensures
        url@ == rating_history_address(handle@),
{
    String::from_str("https://codeforces.com/api/user.rating?handle=").concat(handle)
}

/// The address to ask for the profile of `handle`. The handle goes into the
/// address as it is.
pub fn user_info_url(handle: &str) -> (url: String)
    ensures
        url@ == user_info_address(handle@),
{
    String::from_str("https://codeforces.com/api/user.info?handles=").concat(handle).concat(
        "&checkHistoricHandles=false",
    )
}

/// The address to ask for the ten most recent submissions of `handle`. The
/// handle goes into the address as it is.
pub fn submission_history_url(handle: &str) -> (url: String)
    ensures
        url@ == submission_history_address(handle@),
{
    String::from_str("https://codeforces.com/api/user.status?handle=").concat(handle).concat(
        "&from=1&count=10",
    )
}

/// The address to ask for the list of contests.
pub fn contests_url() -> (url: String)
    ensures
        url@ == contests_address(),
{
    String::from_str("https://codeforces.com/api/contest.list?gym=false")
}

/// Settles one exchange: the envelope that the reply holds, or the failure
/// that it amounts to.
pub fn make_request<T: View>(reply: Reply<T>) -> (out: Result<APIResponse<T>, FetchError>)
    ensures
        fetched(out) == settle(reply@),
{
    match reply {
        Reply::Unreachable(reason) => Err(FetchError::Transport(reason)),
        Reply::Malformed(_, reason) => Err(FetchError::Decode(reason)),
        Reply::Parsed(code, answer) => {
            let Answer { status, comment, result } = answer;
            if status != String::from_str("OK") {
                Err(FetchError::Api(comment))
            } else if code < 200 || code > 299 {
                Err(FetchError::HttpStatus(code))
            } else {
                match result {
                    None => Err(FetchError::Decode(String::from_str("the envelope holds no result"))),
                    Some(records) => Ok(APIResponse { status, result: records }),
                }
            }
        },
    }
}

/// Takes the query for the ten most recent submissions of `handle` one step
/// on. Without a reply the step is to send the GET to the address of that
/// query; with the reply the query is over, and gives the envelope or the
/// failure that the reply amounts to.
pub fn get_submission_history(handle: &str, reply: Option<Reply<SubmissionData>>) -> (step: Step<
    SubmissionData,
>)
    ensures
        step@ == step_of(submission_history_address(handle@), reply_of(reply)),
{
    match reply {
        None => Step::Send(submission_history_url(handle)),
        Some(reply) => Step::Done(make_request(reply)),
    }
}

/// Takes the query for the rating history of `handle` one step on. Without a
/// reply the step is to send the GET to the address of that query; with the
/// reply the query is over, and gives the envelope or the failure that the
/// reply amounts to.
pub fn get_rating_history(handle: &str, reply: Option<Reply<RatingData>>) -> (step: Step<
    RatingData,
>)
    ensures
        step@ == step_of(rating_history_address(handle@), reply_of(reply)),
{
    match reply {
        None => Step::Send(rating_history_url(handle)),
        Some(reply) => Step::Done(make_request(reply)),
    }
}

/// Takes the query for the profile of `handle` one step on. Without a reply
/// the step is to send the GET to the address of that query; with the reply
/// the query is over, and gives the envelope or the failure that the reply
/// amounts to.
pub fn get_user_info(handle: &str, reply: Option<Reply<UserData>>) -> (step: Step<UserData>)
    ensures
        step@ == step_of(user_info_address(handle@), reply_of(reply)),
{
    match reply {
        None => Step::Send(user_info_url(handle)),
        Some(reply) => Step::Done(make_request(reply)),
    }
}

/// Takes the query for the list of contests one step on. Without a reply the
/// step is to send the GET to the address of that query; with the reply the
/// query is over, and gives the envelope or the failure that the reply
/// amounts to.
pub fn get_contests(reply: Option<Reply<ContestData>>) -> (step: Step<ContestData>)
    ensures
        step@ == step_of(contests_address(), reply_of(reply)),
{
    match reply {
        None => Step::Send(contests_url()),
        Some(reply) => Step::Done(make_request(reply)),
    }
}

/// An envelope comes of a reply exactly where a body was read, its status
/// word is `OK`, the HTTP status reports success and the body holds records;
/// the envelope then holds those records in their order.
pub proof fn lemma_envelope_exactly_when<R>(reply: ReplyView<R>)
    ensures
        settle(reply) is Ok <==> (reply matches ReplyView::Parsed(code, answer) && answer.status
            == ok_status() && is_success(code) && answer.result is Some),
        settle(reply) matches Ok(envelope) ==> (reply matches ReplyView::Parsed(_, answer)
            && answer.result == Some(envelope.result) && envelope.status == ok_status()),
{
}

/// A body that could not be read is a decode failure with the decoder's
/// reason, whatever the status code. Under a status code outside 200 to 299
/// no reply gives an envelope, and a body that was read under such a code
/// with the status word `OK` is an HTTP failure with that code.
pub proof fn lemma_unreadable_or_refused_is_failure<R>(reply: ReplyView<R>)
    ensures
        reply matches ReplyView::Malformed(_, reason) ==> settle(reply) == Err::<Envelope<R>, _>(
            Failure::Decode(reason),
        ),
        reply matches ReplyView::Parsed(code, answer) ==> (!is_success(code) ==> settle(reply)
            is Err),
        reply matches ReplyView::Parsed(code, answer) ==> (!is_success(code) && answer.status
            == ok_status() ==> settle(reply) == Err::<Envelope<R>, _>(Failure::HttpStatus(code))),
{
}

/// A query makes one round trip: it asks for the GET to its address while no
/// reply has come, and whatever the reply is, the query is then over and asks
/// for no other.
pub proof fn lemma_one_round_trip<R>(address: Seq<char>, reply: ReplyView<R>)
    ensures
        step_of::<R>(address, None) == StepView::<R>::Send(address),
        step_of(address, Some(reply)) == StepView::Done(settle(reply)),
        !(step_of(address, Some(reply)) is Send),
{
}

} // verus!
