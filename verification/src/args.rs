//! The command line's options, and the one query that they select.

use vstd::prelude::*;

verus! {

/// The options of the command line, as parsed. A well-formed command line
/// gives exactly one of the four modes `rating`, `info`, `contests` and
/// `submissions`.
#[derive(Debug, Clone, PartialEq, Eq)]
pub struct Args {
    /// Show the rating history of this handle.
    pub rating: Option<String>,
    /// Show the profile of this handle.
    pub info: Option<String>,
    /// Show the list of contests.
    pub contests: bool,
    /// Show the most recent submissions of this handle.
    pub submissions: Option<String>,
    /// Accepted and not used by any mode.
    pub problem: Option<String>,
}

/// One query to the API.
#[derive(Debug, Clone, PartialEq, Eq)]
pub enum Query {
    Rating(String),
    Info(String),
    Submissions(String),
    Contests,
}

/// A query in contracts.
pub enum QueryView {
    Rating(Seq<char>),
    Info(Seq<char>),
    Submissions(Seq<char>),
    Contests,
}

impl View for Query {
    type V = QueryView;

    open spec fn view(&self) -> QueryView {
        match *self {
            Query::Rating(handle) => QueryView::Rating(handle@),
            Query::Info(handle) => QueryView::Info(handle@),
            Query::Submissions(handle) => QueryView::Submissions(handle@),
            Query::Contests => QueryView::Contests,
        }
    }
}

/// The view of an optional query.
pub open spec fn query_of(query: Option<Query>) -> Option<QueryView> {
    match query {
        Some(query) => Some(query@),
        None => None,
    }
}

impl Args {
    /// How many of the four modes these options give.
    pub open spec fn modes_given(&self) -> int {
        (if self.rating is Some {
            1int
        } else {
            0int
        }) + (if self.info is Some {
            1int
        } else {
            0int
        }) + (if self.submissions is Some {
            1int
        } else {
            0int
        }) + (if self.contests {
            1int
        } else {
            0int
        })
    }

    /// The query that these options select: the first mode given, looking at
    /// `rating`, `info`, `submissions` and `contests` in this order, and none
    /// where no mode is given. `problem` has no part in it.
    pub open spec fn selected(&self) -> Option<QueryView> {
        if let Some(handle) = self.rating {
            Some(QueryView::Rating(handle@))
        } else if let Some(handle) = self.info {
            Some(QueryView::Info(handle@))
        } else if let Some(handle) = self.submissions {
            Some(QueryView::Submissions(handle@))
        } else if self.contests {
            Some(QueryView::Contests)
        } else {
            None
        }
    }

    /// Selects the query of these options.
    pub fn query(&self) -> (out: Option<Query>)
        ensures
            query_of(out) == self.selected(),
    {
        if let Some(handle) = &self.rating {
            Some(Query::Rating(handle.clone()))
        } else if let Some(handle) = &self.info {
            Some(Query::Info(handle.clone()))
        } else if let Some(handle) = &self.submissions {
            Some(Query::Submissions(handle.clone()))
        } else if self.contests {
            Some(Query::Contests)
        } else {
            None
        }
    }
}

/// Options that give exactly one mode select the query of that mode, with the
/// handle that the mode was given.
pub proof fn lemma_one_mode_selects_it(args: Args)
    requires
        args.modes_given() == 1,
    ensures
        args.rating matches Some(handle) ==> args.selected() == Some(
            QueryView::Rating(handle@),
        ),
        args.info matches Some(handle) ==> args.selected() == Some(QueryView::Info(handle@)),
        args.submissions matches Some(handle) ==> args.selected() == Some(
            QueryView::Submissions(handle@),
        ),
        args.contests ==> args.selected() == Some(QueryView::Contests),
{
}

/// Options select no query exactly where they give no mode.
pub proof fn lemma_no_mode_no_query(args: Args)
    ensures
        args.selected() is None <==> args.modes_given() == 0,
{
}

/// The `problem` option changes nothing: options that agree on the four modes
/// select the same query.
pub proof fn lemma_problem_is_unused(a: Args, b: Args)
    requires
        text_eq(a.rating, b.rating),
        text_eq(a.info, b.info),
        text_eq(a.submissions, b.submissions),
        a.contests == b.contests,
    ensures
        a.selected() == b.selected(),
{
}

/// Whether two optional strings hold the same text, or both none.
pub open spec fn text_eq(a: Option<String>, b: Option<String>) -> bool {
    match (a, b) {
        (Some(a), Some(b)) => a@ == b@,
        (None, None) => true,
        _ => false,
    }
}

} // verus!
