use scoreboard::error::Error;
use scoreboard::model::{Person, Task};
use scoreboard::report::{person_lines, person_pieces, table_lines, table_pieces};

fn task(name: &str, score: u32, max_score: u32) -> Task {
    Task { title: String::from("title"), name: String::from(name), score, max_score }
}

fn alice() -> Person {
    Person {
        username: String::from("alice"),
        tasks: vec![task("Task A", 10, 10), task("Task B", 0, 5)],
    }
}

#[test]
fn table_for_one_user() {
    let people = vec![alice()];
    let lines = match table_lines(&people) {
        Ok(lines) => lines,
        Err(_) => panic!("one user is always aligned"),
    };
    assert_eq!(lines.len(), 6);
    assert_eq!(lines[0], "                 |           alice |");
    assert_eq!(lines[1], "-----------------|-----------------|");
    assert_eq!(lines[2], "           Total |           10/15 |");
    assert_eq!(lines[3], "-----------------|-----------------|");
    assert_eq!(lines[4], "          Task A |           10/10 |");
    assert_eq!(lines[5], "          Task B |             0/5 |");
}

#[test]
fn table_for_two_users() {
    let people = vec![
        Person { username: String::from("alice"), tasks: vec![task("T", 10, 10)] },
        Person { username: String::from("bob"), tasks: vec![task("T", 3, 5)] },
    ];
    let lines = match table_lines(&people) {
        Ok(lines) => lines,
        Err(_) => panic!("equal task counts are aligned"),
    };
    assert_eq!(lines.len(), 5);
    assert_eq!(lines[0], "                 |           alice |             bob |");
    assert_eq!(lines[1], "-----------------|-----------------|-----------------|");
    assert_eq!(lines[2], "           Total |           10/10 |             3/5 |");
    assert_eq!(lines[3], "-----------------|-----------------|-----------------|");
    assert_eq!(lines[4], "               T |           10/10 |             3/5 |");
}

#[test]
fn table_trims_a_long_username() {
    let people = vec![Person {
        username: String::from("0123456789abcdefg"),
        tasks: vec![task("T", 0, 0)],
    }];
    let lines = table_lines(&people).unwrap_or_else(|_| panic!("aligned"));
    assert_eq!(lines[0], "                 | 0123456789ab... |");
}

#[test]
fn table_without_tasks_has_only_the_fixed_rows() {
    let people = vec![Person { username: String::from("alice"), tasks: vec![] }];
    let lines = table_lines(&people).unwrap_or_else(|_| panic!("aligned"));
    assert_eq!(lines.len(), 4);
    assert_eq!(lines[2], "           Total |             0/0 |");
}

#[test]
fn mismatched_task_counts_are_an_error() {
    let people = vec![
        alice(),
        Person { username: String::from("bob"), tasks: vec![task("T", 3, 5)] },
    ];
    assert!(matches!(table_lines(&people), Err(Error::TaskMismatch)));
    assert!(matches!(table_pieces(&people), Err(Error::TaskMismatch)));
    assert_eq!(
        Error::TaskMismatch.message(),
        "Users do not share the same task list!"
    );
}

#[test]
fn listing_for_one_user() {
    let lines = person_lines(&alice());
    assert_eq!(lines.len(), 3);
    assert_eq!(lines[0], "alice: 10/15");
    assert_eq!(lines[1], "      Task A: 10/10");
    assert_eq!(lines[2], "      Task B: 0/5");
}

#[test]
fn listing_pieces_colour_each_pair() {
    let pieces = person_pieces(&alice());
    assert_eq!(pieces.len(), 3);
    assert_eq!(pieces[0].len(), 2);
    assert_eq!(pieces[0][0], "alice: ");
    // "10/15" is partial, "10/10" a success, "0/5" a failure
    assert!(pieces[0][1] == "10/15" || pieces[0][1] == "\u{1b}[33m10/15\u{1b}[0m");
    assert_eq!(pieces[1][0], "      Task A: ");
    assert!(pieces[1][1] == "10/10" || pieces[1][1] == "\u{1b}[32m10/10\u{1b}[0m");
    assert_eq!(pieces[2][0], "      Task B: ");
    assert!(pieces[2][1] == "0/5" || pieces[2][1] == "\u{1b}[31m0/5\u{1b}[0m");
}

#[test]
fn table_pieces_lay_out_like_the_table() {
    let people = vec![alice()];
    let rows = match table_pieces(&people) {
        Ok(rows) => rows,
        Err(_) => panic!("one user is always aligned"),
    };
    assert_eq!(rows.len(), 6);
    for row in &rows {
        assert_eq!(row.len(), 2);
    }
    assert_eq!(rows[0][0], "                 |");
    assert_eq!(rows[0][1], "           alice |");
    assert_eq!(rows[1][0], "-----------------|");
    assert_eq!(rows[1][1], "-----------------|");
    assert_eq!(rows[2][0], "           Total |");
    assert!(
        rows[2][1] == "           10/15 |"
            || rows[2][1] == "           \u{1b}[33m10/15\u{1b}[0m |"
    );
    assert_eq!(rows[4][0], "          Task A |");
    assert!(
        rows[4][1] == "           10/10 |"
            || rows[4][1] == "           \u{1b}[32m10/10\u{1b}[0m |"
    );
    assert_eq!(rows[5][0], "          Task B |");
    assert!(
        rows[5][1] == "             0/5 |"
            || rows[5][1] == "             \u{1b}[31m0/5\u{1b}[0m |"
    );
}
