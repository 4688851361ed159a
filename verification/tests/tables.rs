use cfetch::printers::{
    contest_header, draw_table, print_contests, print_rating_history, print_user_info,
    rating_header, submission_header, user_header, Tabular, CONTEST_LIMIT,
};
use cfetch::report::{
    report_contests, report_rating_history, report_submission_history, report_user_info,
};
use cfetch::{
    make_request, print_submission_history, APIResponse, Answer, ContestData, FetchError, Problem,
    RatingData, Reply, SubmissionData, UserData,
};
use comfy_table::Table;

fn envelope<T>(records: Vec<T>) -> APIResponse<T> {
    APIResponse { status: "OK".to_string(), result: records }
}

fn ok_reply<T>(records: Vec<T>) -> Reply<T> {
    Reply::Parsed(200, Answer { status: "OK".to_string(), comment: None, result: Some(records) })
}

fn malformed<T>(code: u16, reason: &str) -> Reply<T> {
    Reply::Malformed(code, reason.to_string())
}

fn rating(contest_id: i32, name: &str, rank: i32, old: i32, new: i32) -> RatingData {
    RatingData {
        contest_id,
        contest_name: name.to_string(),
        rank,
        handle: "alice".to_string(),
        old_rating: old,
        new_rating: new,
    }
}

fn user(handle: &str, rank: &str, rating: i32, max_rating: i32) -> UserData {
    UserData { rank: rank.to_string(), handle: handle.to_string(), max_rating, rating }
}

fn contest(id: i32, name: &str, start: i32) -> ContestData {
    ContestData {
        id,
        name: name.to_string(),
        phase: "BEFORE".to_string(),
        start_time_seconds: start,
    }
}

fn contests(count: i32) -> Vec<ContestData> {
    (0..count).map(|i| contest(2000 + i, &format!("Round {}", i), 60 * i)).collect()
}

fn submission(contest_id: i32, index: &str, rating: Option<i32>, verdict: &str) -> SubmissionData {
    SubmissionData {
        contest_id,
        creation_time_seconds: 0,
        problem: Problem { name: "Watermelon".to_string(), index: index.to_string(), rating },
        verdict: verdict.to_string(),
        programming_language: "Rust 2021".to_string(),
    }
}

fn drawn(header: Vec<&str>, rows: Vec<Vec<&str>>) -> String {
    let mut table = Table::new();
    table.set_header(header);
    for row in rows {
        table.add_row(row);
    }
    table.to_string()
}

/// The lines of a drawn table that hold cells: the header and the data rows.
fn cell_lines(text: &str) -> Vec<&str> {
    text.lines().filter(|line| line.starts_with("| ")).collect()
}

#[test]
fn headers_name_the_columns_in_order() {
    assert_eq!(rating_header(), vec!["Contest ID", "Title", "Rank", "Old Rating", "New Rating"]);
    assert_eq!(user_header(), vec!["Handle", "Rank", "Rating", "Max Rating"]);
    assert_eq!(contest_header(), vec!["Contest ID", "Title", "Start Time"]);
    assert_eq!(
        submission_header(),
        vec!["Contest ID", "Difficulty", "Problem Name", "Verdict", "Language", "Time"]
    );
}

#[test]
fn rating_row_holds_the_five_cells() {
    assert_eq!(
        rating(1999, "Codeforces Round 1", 321, 1432, 1500).row(),
        vec!["1999", "Codeforces Round 1", "321", "1432", "1500"]
    );
}

#[test]
fn rating_row_with_negative_numbers() {
    assert_eq!(rating(-1, "", 0, -5, -17).row(), vec!["-1", "", "0", "-5", "-17"]);
}

#[test]
fn user_row_holds_the_four_cells() {
    assert_eq!(
        user("alice", "expert", 1650, 1700).row(),
        vec!["alice", "expert", "1650", "1700"]
    );
}

#[test]
fn contest_row_holds_the_three_cells() {
    assert_eq!(
        contest(2001, "Educational Round", 0).row(),
        vec!["2001", "Educational Round", "01-01-1970 05:30"]
    );
    assert_eq!(
        contest(2002, "Div. 2", 1_700_000_000).row(),
        vec!["2002", "Div. 2", "15-11-2023 03:43"]
    );
}

#[test]
fn submission_row_holds_the_six_cells() {
    assert_eq!(
        submission(4, "B", Some(1500), "OK").row(),
        vec!["4", "B (1500)", "Watermelon", "OK", "Rust 2021", "01-01-1970 05:30"]
    );
    assert_eq!(
        submission(4, "C", None, "WRONG_ANSWER").row(),
        vec!["4", "C: (NA)", "Watermelon", "WRONG_ANSWER", "Rust 2021", "01-01-1970 05:30"]
    );
}

#[test]
fn rating_table_is_drawn_exactly() {
    let text = print_rating_history(envelope(vec![
        rating(1, "Round", 5, 1400, 1500),
        rating(22, "Beta", 17, 1500, 1490),
    ]));
    let expected = "\
+------------+-------+------+------------+------------+
| Contest ID | Title | Rank | Old Rating | New Rating |
+=====================================================+
| 1          | Round | 5    | 1400       | 1500       |
|------------+-------+------+------------+------------|
| 22         | Beta  | 17   | 1500       | 1490       |
+------------+-------+------+------------+------------+";
    assert_eq!(text, expected);
}

#[test]
fn rating_table_has_one_row_for_each_record() {
    let records: Vec<RatingData> =
        (0..7).map(|i| rating(i, &format!("Round {}", i), i + 1, 1500 + i, 1501 + i)).collect();
    let text = print_rating_history(envelope(records.clone()));
    let lines = cell_lines(&text);
    assert_eq!(lines.len(), 1 + records.len());
    for (i, record) in records.iter().enumerate() {
        assert!(lines[1 + i].contains(&format!(" Round {} ", i)));
        assert!(lines[1 + i].contains(&format!(" {} ", record.new_rating)));
    }
    let rows: Vec<Vec<String>> = records.iter().map(|record| record.row()).collect();
    let mut table = Table::new();
    table.set_header(rating_header());
    for row in rows {
        table.add_row(row);
    }
    assert_eq!(text, table.to_string());
}

#[test]
fn user_table_is_drawn_as_comfy_table_draws_it() {
    let text = print_user_info(envelope(vec![user("alice", "expert", 1650, 1700)]));
    assert_eq!(
        text,
        drawn(
            vec!["Handle", "Rank", "Rating", "Max Rating"],
            vec![vec!["alice", "expert", "1650", "1700"]]
        )
    );
    assert_eq!(cell_lines(&text).len(), 2);
}

#[test]
fn submission_table_starts_with_an_empty_line() {
    let text = print_submission_history(envelope(vec![
        submission(4, "B", Some(1500), "OK"),
        submission(4, "C", None, "WRONG_ANSWER"),
    ]));
    let table = drawn(
        vec!["Contest ID", "Difficulty", "Problem Name", "Verdict", "Language", "Time"],
        vec![
            vec!["4", "B (1500)", "Watermelon", "OK", "Rust 2021", "01-01-1970 05:30"],
            vec!["4", "C: (NA)", "Watermelon", "WRONG_ANSWER", "Rust 2021", "01-01-1970 05:30"],
        ],
    );
    assert_eq!(text, format!("\n{}", table));
    assert_eq!(cell_lines(&text).len(), 3);
}

#[test]
fn contest_table_is_drawn_as_comfy_table_draws_it() {
    let text = print_contests(envelope(vec![
        contest(2001, "Educational Round", 0),
        contest(2002, "Div. 2", 1_700_000_000),
    ]));
    assert_eq!(
        text,
        drawn(
            vec!["Contest ID", "Title", "Start Time"],
            vec![
                vec!["2001", "Educational Round", "01-01-1970 05:30"],
                vec!["2002", "Div. 2", "15-11-2023 03:43"],
            ]
        )
    );
}

#[test]
fn empty_result_draws_the_header_alone() {
    let rating_text = print_rating_history(envelope(Vec::new()));
    assert_eq!(
        rating_text,
        drawn(vec!["Contest ID", "Title", "Rank", "Old Rating", "New Rating"], Vec::new())
    );
    assert_eq!(cell_lines(&rating_text).len(), 1);
    let user_text = print_user_info(envelope(Vec::new()));
    assert_eq!(user_text, drawn(vec!["Handle", "Rank", "Rating", "Max Rating"], Vec::new()));
    assert_eq!(cell_lines(&user_text).len(), 1);
    let submission_text = print_submission_history(envelope(Vec::new()));
    assert_eq!(cell_lines(&submission_text).len(), 1);
    assert!(submission_text.starts_with("\n+"));
    let contest_text = print_contests(envelope(Vec::new()));
    assert_eq!(cell_lines(&contest_text).len(), 1);
}

#[test]
fn empty_rating_table_is_drawn_exactly() {
    let expected = "\
+------------+-------+------+------------+------------+
| Contest ID | Title | Rank | Old Rating | New Rating |
+=====================================================+
+------------+-------+------+------------+------------+";
    let text = print_rating_history(envelope(Vec::new()));
    assert_eq!(cell_lines(&text).len(), 1);
    assert_eq!(text.lines().next(), expected.lines().next());
    assert_eq!(text.lines().nth(1), expected.lines().nth(1));
}

#[test]
fn three_contests_give_three_rows() {
    let text = print_contests(envelope(contests(3)));
    let lines = cell_lines(&text);
    assert_eq!(lines.len(), 1 + 3);
    assert!(lines[1].contains(" Round 0 "));
    assert!(lines[2].contains(" Round 1 "));
    assert!(lines[3].contains(" Round 2 "));
}

#[test]
fn contests_are_cut_at_the_limit() {
    assert_eq!(CONTEST_LIMIT, 15);
    for count in [14, 15, 16, 40] {
        let text = print_contests(envelope(contests(count)));
        let lines = cell_lines(&text);
        let shown = if count < 15 { count as usize } else { 15 };
        assert_eq!(lines.len(), 1 + shown);
        assert!(lines[shown].contains(&format!(" Round {} ", shown - 1)));
        assert!(!text.contains(&format!(" Round {} ", shown)));
    }
}

#[test]
fn contests_behind_the_limit_change_nothing() {
    let mut long = contests(15);
    let short = print_contests(envelope(long.clone()));
    long.push(contest(1, "Late", 7));
    long.push(contest(2, "Later", 8));
    assert_eq!(print_contests(envelope(long)), short);
}

#[test]
fn drawing_twice_gives_the_same_text() {
    let ratings = envelope(vec![rating(1, "Round", 5, 1400, 1500)]);
    assert_eq!(print_rating_history(ratings.clone()), print_rating_history(ratings));
    let users = envelope(vec![user("alice", "expert", 1650, 1700)]);
    assert_eq!(print_user_info(users.clone()), print_user_info(users));
    let list = envelope(contests(20));
    assert_eq!(print_contests(list.clone()), print_contests(list));
    let submissions = envelope(vec![submission(4, "B", Some(1500), "OK")]);
    assert_eq!(
        print_submission_history(submissions.clone()),
        print_submission_history(submissions)
    );
}

#[test]
fn cell_with_a_line_break_stays_one_row() {
    let text = print_user_info(envelope(vec![user("a\nb", "expert", 1, 2)]));
    assert_eq!(
        text,
        drawn(vec!["Handle", "Rank", "Rating", "Max Rating"], vec![vec!["a\nb", "expert", "1", "2"]])
    );
}

#[test]
fn draw_table_draws_the_rows_of_the_records_given() {
    let records = vec![user("alice", "expert", 1650, 1700), user("bob", "pupil", 1250, 1300)];
    assert_eq!(
        draw_table(user_header(), &records),
        drawn(
            vec!["Handle", "Rank", "Rating", "Max Rating"],
            vec![
                vec!["alice", "expert", "1650", "1700"],
                vec!["bob", "pupil", "1250", "1300"],
            ]
        )
    );
    assert_eq!(draw_table(user_header(), &records), print_user_info(envelope(records)));
}

#[test]
fn report_of_an_envelope_is_its_table() {
    let records = vec![rating(1, "Round", 5, 1400, 1500)];
    assert_eq!(
        report_rating_history(make_request(ok_reply(records.clone()))),
        print_rating_history(envelope(records))
    );
    let users = vec![user("alice", "expert", 1650, 1700)];
    assert_eq!(
        report_user_info(make_request(ok_reply(users.clone()))),
        print_user_info(envelope(users))
    );
    let list = contests(4);
    assert_eq!(
        report_contests(make_request(ok_reply(list.clone()))),
        print_contests(envelope(list))
    );
    let submissions = vec![submission(4, "B", Some(1500), "OK")];
    assert_eq!(
        report_submission_history(Ok(envelope(submissions.clone()))),
        print_submission_history(envelope(submissions))
    );
}

#[test]
fn report_of_a_malformed_body_is_the_message_and_no_table() {
    for code in [200u16, 404, 500] {
        let text =
            report_rating_history(make_request(malformed(code, "expected `,` at column 7")));
        assert_eq!(text, "malformed response: expected `,` at column 7");
        assert!(!text.contains("Contest ID"));
        let text = report_user_info(make_request(malformed(code, "eof")));
        assert_eq!(text, "malformed response: eof");
        let text = report_submission_history(make_request(malformed(code, "eof")));
        assert_eq!(text, "malformed response: eof");
        let text = report_contests(make_request(malformed(code, "eof")));
        assert_eq!(text, "malformed response: eof");
    }
}

#[test]
fn report_of_other_failures_is_their_message() {
    assert_eq!(
        report_contests(make_request(Reply::Unreachable("dns error".to_string()))),
        "transport failure: dns error"
    );
    let answer: Answer<UserData> = Answer {
        status: "FAILED".to_string(),
        comment: Some("handles: User with handle nobody not found".to_string()),
        result: None,
    };
    assert_eq!(
        report_user_info(make_request(Reply::Parsed(400, answer))),
        "API failure: handles: User with handle nobody not found"
    );
    let answer: Answer<SubmissionData> =
        Answer { status: "OK".to_string(), comment: None, result: Some(Vec::new()) };
    assert_eq!(
        report_submission_history(make_request(Reply::Parsed(502, answer))),
        "HTTP status 502"
    );
    assert_eq!(report_rating_history(Err(FetchError::Api(None))), "API failure");
}
