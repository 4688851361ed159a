//! What a run shows: the table of the envelope, or the message of the failure.

use crate::model::{
    APIResponse, Contest, ContestData, Envelope, Profile, RatingChange, RatingData, Submission,
    SubmissionData, UserData,
};
use crate::printers::{
    contest_table, print_contests, print_rating_history, print_submission_history,
    print_user_info, rating_table, submission_table, user_table,
};
use crate::query::{failure_message, fetched, settle, Failure, FetchError, ReplyView};
use vstd::prelude::*;

verus! {

/// What is shown for the outcome of the rating query.
pub open spec fn rating_report(outcome: Result<Envelope<RatingChange>, Failure>) -> Seq<char> {
    match outcome {
        Ok(envelope) => rating_table(envelope),
        Err(failure) => failure_message(failure),
    }
}

/// What is shown for the outcome of the profile query.
pub open spec fn user_report(outcome: Result<Envelope<Profile>, Failure>) -> Seq<char> {
    match outcome {
        Ok(envelope) => user_table(envelope),
        Err(failure) => failure_message(failure),
    }
}

/// What is shown for the outcome of the submission query.
pub open spec fn submission_report(outcome: Result<Envelope<Submission>, Failure>) -> Seq<char> {
    match outcome {
        Ok(envelope) => submission_table(envelope),
        Err(failure) => failure_message(failure),
    }
}

/// What is shown for the outcome of the contest query.
pub open spec fn contest_report(outcome: Result<Envelope<Contest>, Failure>) -> Seq<char> {
    match outcome {
        Ok(envelope) => contest_table(envelope),
        Err(failure) => failure_message(failure),
    }
}

/// The text to show for the outcome of the rating query: the whole table of
/// the envelope, or the message of the failure and nothing of a table.
pub fn report_rating_history(outcome: Result<APIResponse<RatingData>, FetchError>) -> (out: String)
    ensures
        out@ == rating_report(fetched(outcome)),
{
    match outcome {
        Ok(envelope) => print_rating_history(envelope),
        Err(error) => error.message(),
    }
}

/// The text to show for the outcome of the profile query: the whole table of
/// the envelope, or the message of the failure and nothing of a table.
pub fn report_user_info(outcome: Result<APIResponse<UserData>, FetchError>) -> (out: String)
    ensures
        out@ == user_report(fetched(outcome)),
{
    match outcome {
        Ok(envelope) => print_user_info(envelope),
        Err(error) => error.message(),
    }
}

/// The text to show for the outcome of the submission query: the whole table
/// of the envelope, or the message of the failure and nothing of a table.
pub fn report_submission_history(outcome: Result<APIResponse<SubmissionData>, FetchError>) -> (out:
    String)
    ensures
        out@ == submission_report(fetched(outcome)),
{
    match outcome {
        Ok(envelope) => print_submission_history(envelope),
        Err(error) => error.message(),
    }
}

/// The text to show for the outcome of the contest query: the whole table of
/// the envelope, or the message of the failure and nothing of a table.
pub fn report_contests(outcome: Result<APIResponse<ContestData>, FetchError>) -> (out: String)
    ensures
        out@ == contest_report(fetched(outcome)),
{
    match outcome {
        Ok(envelope) => print_contests(envelope),
        Err(error) => error.message(),
    }
}

/// A body that could not be read is a decode failure with the decoder's
/// reason, whatever the status code, and no table is drawn for it: what is
/// shown is the failure's message.
pub proof fn lemma_malformed_body_shows_no_table(code: int, reason: Seq<char>)
    ensures
        settle(ReplyView::<RatingChange>::Malformed(code, reason)) == Err::<
            Envelope<RatingChange>,
            _,
        >(Failure::Decode(reason)),
        settle(ReplyView::<Profile>::Malformed(code, reason)) == Err::<Envelope<Profile>, _>(
            Failure::Decode(reason),
        ),
        settle(ReplyView::<Submission>::Malformed(code, reason)) == Err::<Envelope<Submission>, _>(
            Failure::Decode(reason),
        ),
        settle(ReplyView::<Contest>::Malformed(code, reason)) == Err::<Envelope<Contest>, _>(
            Failure::Decode(reason),
        ),
        rating_report(settle(ReplyView::Malformed(code, reason))) == failure_message(
            Failure::Decode(reason),
        ),
        user_report(settle(ReplyView::Malformed(code, reason))) == failure_message(
            Failure::Decode(reason),
        ),
        submission_report(settle(ReplyView::Malformed(code, reason))) == failure_message(
            Failure::Decode(reason),
        ),
        contest_report(settle(ReplyView::Malformed(code, reason))) == failure_message(
            Failure::Decode(reason),
        ),
{
}

/// No failure shows a table: where a query gave no envelope, what is shown is
/// the message of the failure, in each of the four modes.
pub proof fn lemma_failure_shows_its_message(failure: Failure)
    ensures
        rating_report(Err(failure)) == failure_message(failure),
        user_report(Err(failure)) == failure_message(failure),
        submission_report(Err(failure)) == failure_message(failure),
        contest_report(Err(failure)) == failure_message(failure),
{
}

} // verus!
