//! The four tables: their columns, the cells of each row, and their drawing.

use crate::clock::{local_stamp, local_time};
use crate::model::{
    APIResponse, Contest, ContestData, Envelope, ProblemRef, Problem, Profile, RatingChange,
    RatingData, Submission, SubmissionData, UserData,
};
use crate::table::{add_row, draw, new_table, set_header, table_header, table_rows, table_text};
use crate::text::{decimal, decimal_string};
use vstd::prelude::*;
use vstd::string::StringExecFns;

verus! {

/// The most contests that the contest table shows.
pub const CONTEST_LIMIT: usize = 15;

/// The columns of the rating table.
pub open spec fn rating_columns() -> Seq<Seq<char>> {
    seq!["Contest ID"@, "Title"@, "Rank"@, "Old Rating"@, "New Rating"@]
}

/// The columns of the profile table.
pub open spec fn user_columns() -> Seq<Seq<char>> {
    seq!["Handle"@, "Rank"@, "Rating"@, "Max Rating"@]
}

/// The columns of the contest table.
pub open spec fn contest_columns() -> Seq<Seq<char>> {
    seq!["Contest ID"@, "Title"@, "Start Time"@]
}

/// The columns of the submission table.
pub open spec fn submission_columns() -> Seq<Seq<char>> {
    seq!["Contest ID"@, "Difficulty"@, "Problem Name"@, "Verdict"@, "Language"@, "Time"@]
}

/// The difficulty label of a problem: its index, then its rating in round
/// brackets, or a colon and `(NA)` where it has no rating.
pub open spec fn difficulty_label(problem: ProblemRef) -> Seq<char> {
    match problem.rating {
        Some(rating) => problem.index + " ("@ + decimal(rating) + ")"@,
        None => problem.index + ": (NA)"@,
    }
}

/// The cells of one row of the rating table.
pub open spec fn rating_cells(entry: RatingChange) -> Seq<Seq<char>> {
    seq![
        decimal(entry.contest_id),
        entry.contest_name,
        decimal(entry.rank),
        decimal(entry.old_rating),
        decimal(entry.new_rating),
    ]
}

/// The cells of one row of the profile table.
pub open spec fn user_cells(user: Profile) -> Seq<Seq<char>> {
    seq![user.handle, user.rank, decimal(user.rating), decimal(user.max_rating)]
}

/// The cells of one row of the contest table.
pub open spec fn contest_cells(contest: Contest) -> Seq<Seq<char>> {
    seq![decimal(contest.id), contest.name, local_stamp(contest.start_time_seconds)]
}

/// The cells of one row of the submission table.
pub open spec fn submission_cells(submission: Submission) -> Seq<Seq<char>> {
    seq![
        decimal(submission.contest_id),
        difficulty_label(submission.problem),
        submission.problem.name,
        submission.verdict,
        submission.programming_language,
        local_stamp(submission.creation_time_seconds),
    ]
}

/// The rows of the rating table: one for each record, in the records' order.
pub open spec fn rating_body(records: Seq<RatingChange>) -> Seq<Seq<Seq<char>>> {
    records.map_values(|entry: RatingChange| rating_cells(entry))
}

/// The rows of the profile table: one for each record, in the records' order.
pub open spec fn user_body(records: Seq<Profile>) -> Seq<Seq<Seq<char>>> {
    records.map_values(|user: Profile| user_cells(user))
}

/// How many contests the contest table shows of `count`: all of them, up to
/// the limit.
pub open spec fn shown_contests(count: nat) -> nat {
    if count < CONTEST_LIMIT as nat {
        count
    } else {
        CONTEST_LIMIT as nat
    }
}

/// The rows of the contest table: one for each of the first records, as many
/// as are shown, in the records' order.
pub open spec fn contest_body(records: Seq<Contest>) -> Seq<Seq<Seq<char>>> {
    records.take(shown_contests(records.len()) as int).map_values(
        |contest: Contest| contest_cells(contest),
    )
}

/// The rows of the submission table: one for each record, in the records'
/// order.
pub open spec fn submission_body(records: Seq<Submission>) -> Seq<Seq<Seq<char>>> {
    records.map_values(|submission: Submission| submission_cells(submission))
}

/// The drawn rating table of an envelope.
pub open spec fn rating_table(envelope: Envelope<RatingChange>) -> Seq<char> {
    table_text(Some(rating_columns()), rating_body(envelope.result))
}

/// The drawn profile table of an envelope.
pub open spec fn user_table(envelope: Envelope<Profile>) -> Seq<char> {
    table_text(Some(user_columns()), user_body(envelope.result))
}

/// The drawn contest table of an envelope.
pub open spec fn contest_table(envelope: Envelope<Contest>) -> Seq<char> {
    table_text(Some(contest_columns()), contest_body(envelope.result))
}

/// The drawn submission table of an envelope: an empty line, then the table.
pub open spec fn submission_table(envelope: Envelope<Submission>) -> Seq<char> {
    "\n"@ + table_text(Some(submission_columns()), submission_body(envelope.result))
}

/// The header of the rating table.
pub fn rating_header() -> (header: Vec<String>)
    ensures
        header.deep_view() == rating_columns(),
{
    let mut header: Vec<String> = Vec::new();
    header.push(String::from_str("Contest ID"));
    header.push(String::from_str("Title"));
    header.push(String::from_str("Rank"));
    header.push(String::from_str("Old Rating"));
    header.push(String::from_str("New Rating"));
    assert(header.deep_view() =~= rating_columns());
    header
}

/// The header of the profile table.
pub fn user_header() -> (header: Vec<String>)
    ensures
        header.deep_view() == user_columns(),
{
    let mut header: Vec<String> = Vec::new();
    header.push(String::from_str("Handle"));
    header.push(String::from_str("Rank"));
    header.push(String::from_str("Rating"));
    header.push(String::from_str("Max Rating"));
    assert(header.deep_view() =~= user_columns());
    header
}

/// The header of the contest table.
pub fn contest_header() -> (header: Vec<String>)
    ensures
        header.deep_view() == contest_columns(),
{
    let mut header: Vec<String> = Vec::new();
    header.push(String::from_str("Contest ID"));
    header.push(String::from_str("Title"));
    header.push(String::from_str("Start Time"));
    assert(header.deep_view() =~= contest_columns());
    header
}

/// The header of the submission table.
pub fn submission_header() -> (header: Vec<String>)
    ensures
        header.deep_view() == submission_columns(),
{
    let mut header: Vec<String> = Vec::new();
    header.push(String::from_str("Contest ID"));
    header.push(String::from_str("Difficulty"));
    header.push(String::from_str("Problem Name"));
    header.push(String::from_str("Verdict"));
    header.push(String::from_str("Language"));
    header.push(String::from_str("Time"));
    assert(header.deep_view() =~= submission_columns());
    header
}

/// The difficulty column of a submission.
pub fn difficulty(problem: &Problem) -> (label: String)
    ensures
        label@ == difficulty_label(problem@),
{
    let mut label = problem.index.clone();
    match problem.rating {
        Some(rating) => {
            let digits = decimal_string(rating);
            label.append(" (");
            label.append(digits.as_str());
            label.append(")");
        },
        None => {
            label.append(": (NA)");
        },
    }
    label
}

/// A record that a table shows in one row.
pub trait Tabular: View + Sized {
    /// The cells of the row that shows a record, in the order of the columns.
    spec fn cells(record: Self::V) -> Seq<Seq<char>>;

    /// The row that shows this record.
    fn row(&self) -> (row: Vec<String>)
        ensures
            row.deep_view() == Self::cells(self@),
    ;
}

impl Tabular for RatingData {
    open spec fn cells(record: RatingChange) -> Seq<Seq<char>> {
        rating_cells(record)
    }

    fn row(&self) -> (row: Vec<String>) {
        let mut row: Vec<String> = Vec::new();
        row.push(decimal_string(self.contest_id));
        row.push(self.contest_name.clone());
        row.push(decimal_string(self.rank));
        row.push(decimal_string(self.old_rating));
        row.push(decimal_string(self.new_rating));
        assert(row.deep_view() =~= rating_cells(self@));
        row
    }
}

impl Tabular for UserData {
    open spec fn cells(record: Profile) -> Seq<Seq<char>> {
        user_cells(record)
    }

    fn row(&self) -> (row: Vec<String>) {
        let mut row: Vec<String> = Vec::new();
        row.push(self.handle.clone());
        row.push(self.rank.clone());
        row.push(decimal_string(self.rating));
        row.push(decimal_string(self.max_rating));
        assert(row.deep_view() =~= user_cells(self@));
        row
    }
}

impl Tabular for ContestData {
    open spec fn cells(record: Contest) -> Seq<Seq<char>> {
        contest_cells(record)
    }

    fn row(&self) -> (row: Vec<String>) {
        let mut row: Vec<String> = Vec::new();
        row.push(decimal_string(self.id));
        row.push(self.name.clone());
        row.push(local_time(self.start_time_seconds));
        assert(row.deep_view() =~= contest_cells(self@));
        row
    }
}

impl Tabular for SubmissionData {
    open spec fn cells(record: Submission) -> Seq<Seq<char>> {
        submission_cells(record)
    }

    fn row(&self) -> (row: Vec<String>) {
        let mut row: Vec<String> = Vec::new();
        row.push(decimal_string(self.contest_id));
        row.push(difficulty(&self.problem));
        row.push(self.problem.name.clone());
        row.push(self.verdict.clone());
        row.push(self.programming_language.clone());
        row.push(local_time(self.creation_time_seconds));
        assert(row.deep_view() =~= submission_cells(self@));
        row
    }
}

/// The rows of a list of records: the row of each, in the records' order.
pub open spec fn rows_of<T: Tabular>(records: Seq<T>) -> Seq<Seq<Seq<char>>> {
    Seq::new(records.len(), |i: int| T::cells(records[i]@))
}

/// Draws the table of `header` over `records`: the header, and under it the
/// row of each record, in the records' order.
pub fn draw_table<T: Tabular>(header: Vec<String>, records: &Vec<T>) -> (out: String)
    ensures
        out@ == table_text(Some(header.deep_view()), rows_of(records@)),
{
    let mut table = new_table();
    let ghost columns = header.deep_view();
    let ghost body = rows_of(records@);
    set_header(&mut table, header);
    let mut i: usize = 0;
    while i < records.len()
        invariant
            i <= records.len(),
            body == rows_of(records@),
            table_header(table) == Some(columns),
            table_rows(table) == body.take(i as int),
        decreases records.len() - i,
    {
        let row = records[i].row();
        add_row(&mut table, row);
        assert(body.take(i + 1) =~= body.take(i as int).push(body[i as int]));
        i += 1;
    }
    assert(body.take(i as int) =~= body);
    draw(&table)
}

/// Draws the submission table: an empty line, the header, and one row for
/// each submission of the envelope, in the envelope's order.
pub fn print_submission_history(response: APIResponse<SubmissionData>) -> (out: String)
    ensures
        out@ == submission_table(response@),
{
    let drawn = draw_table(submission_header(), &response.result);
    assert(rows_of(response.result@) =~= submission_body(response@.result));
    String::from_str("\n").concat(drawn.as_str())
}

/// Draws the rating table: the header, and one row for each rating change of
/// the envelope, in the envelope's order.
pub fn print_rating_history(response: APIResponse<RatingData>) -> (out: String)
    ensures
        out@ == rating_table(response@),
{
    assert(rows_of(response.result@) =~= rating_body(response@.result));
    draw_table(rating_header(), &response.result)
}

/// Draws the profile table: the header, and one row for each user of the
/// envelope, in the envelope's order.
pub fn print_user_info(response: APIResponse<UserData>) -> (out: String)
    ensures
        out@ == user_table(response@),
{
    assert(rows_of(response.result@) =~= user_body(response@.result));
    draw_table(user_header(), &response.result)
}

/// Draws the contest table: the header, and one row for each of the first
/// contests of the envelope, up to the limit, in the envelope's order. An
/// envelope with fewer contests than the limit gives a row for each.
pub fn print_contests(response: APIResponse<ContestData>) -> (out: String)
    ensures
        out@ == contest_table(response@),
{
    let ghost envelope = response@;
    let mut shown = response.result;
    shown.truncate(CONTEST_LIMIT);
    assert(rows_of(shown@) =~= contest_body(envelope.result));
    draw_table(contest_header(), &shown)
}

/// The rating table has exactly one row for each record, in the records'
/// order, and each row has a cell for each column, in the columns' order.
pub proof fn lemma_rating_rows_follow_records(records: Seq<RatingChange>)
    ensures
        rating_body(records).len() == records.len(),
        forall|i: int|
            0 <= i < records.len() ==> #[trigger] rating_body(records)[i] == rating_cells(
                records[i],
            ),
        forall|i: int|
            0 <= i < records.len() ==> (#[trigger] rating_body(records)[i]).len()
                == rating_columns().len(),
{
}

/// The profile table has exactly one row for each record, in the records'
/// order, and each row has a cell for each column, in the columns' order.
pub proof fn lemma_user_rows_follow_records(records: Seq<Profile>)
    ensures
        user_body(records).len() == records.len(),
        forall|i: int|
            0 <= i < records.len() ==> #[trigger] user_body(records)[i] == user_cells(records[i]),
        forall|i: int|
            0 <= i < records.len() ==> (#[trigger] user_body(records)[i]).len()
                == user_columns().len(),
{
}

/// The submission table has exactly one row for each record, in the records'
/// order, and each row has a cell for each column, in the columns' order.
pub proof fn lemma_submission_rows_follow_records(records: Seq<Submission>)
    ensures
        submission_body(records).len() == records.len(),
        forall|i: int|
            0 <= i < records.len() ==> #[trigger] submission_body(records)[i]
                == submission_cells(records[i]),
        forall|i: int|
            0 <= i < records.len() ==> (#[trigger] submission_body(records)[i]).len()
                == submission_columns().len(),
{
}

/// The contest table has a row for each of the first records and for no
/// other: as many rows as there are records, and never more than the limit.
/// No record behind the last row is read. Each row has a cell for each
/// column, in the columns' order.
pub proof fn lemma_contest_rows_are_clamped(records: Seq<Contest>)
    ensures
        contest_body(records).len() == shown_contests(records.len()),
        contest_body(records).len() <= records.len(),
        contest_body(records).len() <= CONTEST_LIMIT,
        records.len() <= CONTEST_LIMIT ==> contest_body(records).len() == records.len(),
        forall|i: int|
            0 <= i < contest_body(records).len() ==> #[trigger] contest_body(records)[i]
                == contest_cells(records[i]),
        forall|i: int|
            0 <= i < contest_body(records).len() ==> (#[trigger] contest_body(records)[i]).len()
                == contest_columns().len(),
{
}

/// The contest table depends on the shown records alone: two lists that agree
/// on their first records, as many as are shown, give the same rows.
pub proof fn lemma_contest_rows_ignore_the_rest(first: Seq<Contest>, second: Seq<Contest>)
    requires
        shown_contests(first.len()) == shown_contests(second.len()),
        forall|i: int| 0 <= i < shown_contests(first.len()) ==> first[i] == second[i],
    ensures
        contest_body(first) == contest_body(second),
{
    assert(contest_body(first) =~= contest_body(second));
}

/// An envelope without records is no error: each table is then the drawing of
/// its header with no row under it.
pub proof fn lemma_no_records_header_only(
    ratings: Envelope<RatingChange>,
    users: Envelope<Profile>,
    submissions: Envelope<Submission>,
    contests: Envelope<Contest>,
)
    requires
        ratings.result.len() == 0,
        users.result.len() == 0,
        submissions.result.len() == 0,
        contests.result.len() == 0,
    ensures
        rating_table(ratings) == table_text(Some(rating_columns()), Seq::empty()),
        user_table(users) == table_text(Some(user_columns()), Seq::empty()),
        submission_table(submissions) == "\n"@ + table_text(
            Some(submission_columns()),
            Seq::empty(),
        ),
        contest_table(contests) == table_text(Some(contest_columns()), Seq::empty()),
{
    assert(rating_body(ratings.result) =~= Seq::empty());
    assert(user_body(users.result) =~= Seq::empty());
    assert(submission_body(submissions.result) =~= Seq::empty());
    assert(contest_body(contests.result) =~= Seq::empty());
}

/// Drawing is repeatable: envelopes with the same contents give the same
/// text, character for character, in each of the four tables.
pub proof fn lemma_same_records_same_text(
    ratings: (APIResponse<RatingData>, APIResponse<RatingData>),
    users: (APIResponse<UserData>, APIResponse<UserData>),
    submissions: (APIResponse<SubmissionData>, APIResponse<SubmissionData>),
    contests: (APIResponse<ContestData>, APIResponse<ContestData>),
)
    ensures
        ratings.0@ == ratings.1@ ==> rating_table(ratings.0@) == rating_table(ratings.1@),
        users.0@ == users.1@ ==> user_table(users.0@) == user_table(users.1@),
        submissions.0@ == submissions.1@ ==> submission_table(submissions.0@) == submission_table(
            submissions.1@,
        ),
        contests.0@ == contests.1@ ==> contest_table(contests.0@) == contest_table(contests.1@),
{
}

} // verus!
