//! Request building, reply handling and table rendering for a small client of
//! the Codeforces public API.
//!
//! The crate performs no input or output of its own. A caller asks it for the
//! address of a query, performs the one HTTP GET, hands back what the exchange
//! produced, and prints the text that the crate returns.

pub mod args;
pub mod clock;
pub mod model;
pub mod printers;
pub mod query;
pub mod report;
pub mod table;
pub mod text;

pub use args::{Args, Query};
pub use model::{APIResponse, ContestData, Problem, RatingData, SubmissionData, UserData};
pub use printers::print_submission_history;
pub use query::{
    get_contests, get_rating_history, get_submission_history, get_user_info, make_request, Answer,
    FetchError, Reply, Step,
};
