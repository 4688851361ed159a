//! The records that the API returns, and what each of them is in contracts.

use vstd::prelude::*;

verus! {

/// The envelope around every answer of the API: a status word and the
/// records, in the order in which the server sent them.
#[derive(Debug, Clone, PartialEq, Eq)]
pub struct APIResponse<T> {
    pub status: String,
    pub result: Vec<T>,
}

/// One contest of the contest list.
#[derive(Debug, Clone, PartialEq, Eq)]
pub struct ContestData {
    pub id: i32,
    pub name: String,
    pub phase: String,
    /// Start of the contest, in seconds since the Unix epoch, UTC.
    pub start_time_seconds: i32,
}

/// The effect of one contest on a user's rating.
#[derive(Debug, Clone, PartialEq, Eq)]
pub struct RatingData {
    pub contest_id: i32,
    pub contest_name: String,
    pub rank: i32,
    pub handle: String,
    pub old_rating: i32,
    pub new_rating: i32,
}

/// The profile summary of one user.
#[derive(Debug, Clone, PartialEq, Eq)]
pub struct UserData {
    /// The rank title, such as "expert".
    pub rank: String,
    pub handle: String,
    pub max_rating: i32,
    pub rating: i32,
}

/// One submitted solution.
#[derive(Debug, Clone, PartialEq, Eq)]
pub struct SubmissionData {
    pub contest_id: i32,
    /// Time of the submission, in seconds since the Unix epoch, UTC.
    pub creation_time_seconds: i32,
    pub problem: Problem,
    pub verdict: String,
    pub programming_language: String,
}

/// The problem that a submission answers.
#[derive(Debug, Clone, PartialEq, Eq)]
pub struct Problem {
    pub name: String,
    /// The label of the problem within its contest, such as "A" or "B2".
    pub index: String,
    /// The difficulty, absent while the platform has assigned none.
    pub rating: Option<i32>,
}

/// An envelope in contracts: the status word and the sequence of records.
pub struct Envelope<R> {
    pub status: Seq<char>,
    pub result: Seq<R>,
}

/// A contest in contracts.
pub struct Contest {
    pub id: int,
    pub name: Seq<char>,
    pub phase: Seq<char>,
    pub start_time_seconds: int,
}

/// A rating change in contracts.
pub struct RatingChange {
    pub contest_id: int,
    pub contest_name: Seq<char>,
    pub rank: int,
    pub handle: Seq<char>,
    pub old_rating: int,
    pub new_rating: int,
}

/// A user profile in contracts.
pub struct Profile {
    pub rank: Seq<char>,
    pub handle: Seq<char>,
    pub max_rating: int,
    pub rating: int,
}

/// A problem reference in contracts.
pub struct ProblemRef {
    pub name: Seq<char>,
    pub index: Seq<char>,
    pub rating: Option<int>,
}

/// A submission in contracts.
pub struct Submission {
    pub contest_id: int,
    pub creation_time_seconds: int,
    pub problem: ProblemRef,
    pub verdict: Seq<char>,
    pub programming_language: Seq<char>,
}

impl<T: View> View for APIResponse<T> {
    type V = Envelope<T::V>;

    open spec fn view(&self) -> Envelope<T::V> {
        Envelope { status: self.status@, result: self.result@.map_values(|record: T| record@) }
    }
}

impl View for ContestData {
    type V = Contest;

    open spec fn view(&self) -> Contest {
        Contest {
            id: self.id as int,
            name: self.name@,
            phase: self.phase@,
            start_time_seconds: self.start_time_seconds as int,
        }
    }
}

impl View for RatingData {
    type V = RatingChange;

    open spec fn view(&self) -> RatingChange {
        RatingChange {
            contest_id: self.contest_id as int,
            contest_name: self.contest_name@,
            rank: self.rank as int,
            handle: self.handle@,
            old_rating: self.old_rating as int,
            new_rating: self.new_rating as int,
        }
    }
}

impl View for UserData {
    type V = Profile;

    open spec fn view(&self) -> Profile {
        Profile {
            rank: self.rank@,
            handle: self.handle@,
            max_rating: self.max_rating as int,
            rating: self.rating as int,
        }
    }
}

impl View for Problem {
    type V = ProblemRef;

    open spec fn view(&self) -> ProblemRef {
        ProblemRef {
            name: self.name@,
            index: self.index@,
            rating: match self.rating {
                Some(rating) => Some(rating as int),
                None => None,
            },
        }
    }
}

impl View for SubmissionData {
    type V = Submission;

    open spec fn view(&self) -> Submission {
        Submission {
            contest_id: self.contest_id as int,
            creation_time_seconds: self.creation_time_seconds as int,
            problem: self.problem@,
            verdict: self.verdict@,
            programming_language: self.programming_language@,
        }
    }
}

} // verus!
