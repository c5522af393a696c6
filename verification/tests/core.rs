use scoreboard::color::{classify, score_str, ScoreColor};
use scoreboard::error::Error;
use scoreboard::fetch::{check_usage, person_from_tasks, scores_url};
use scoreboard::model::{Person, Task};
use scoreboard::text::{dec_string, score_pair, trim_id};

fn task(name: &str, score: u32, max_score: u32) -> Task {
    Task { title: String::from("title"), name: String::from(name), score, max_score }
}

#[test]
fn trim_short_unchanged() {
    assert_eq!(trim_id("alice"), "alice");
}

#[test]
fn trim_exact_width_unchanged() {
    assert_eq!(trim_id("abcdefghijklmno"), "abcdefghijklmno");
}

#[test]
fn trim_long_truncated() {
    assert_eq!(trim_id("abcdefghijklmnop"), "abcdefghijkl...");
    assert_eq!(trim_id("abcdefghijklmnop").len(), 15);
    assert_eq!(trim_id("a-rather-long-username"), "a-rather-lon...");
}

#[test]
fn classify_zero_of_positive_is_failure() {
    assert_eq!(classify(0, 5), ScoreColor::Failure);
}

#[test]
fn classify_full_score_is_success() {
    assert_eq!(classify(5, 5), ScoreColor::Success);
}

#[test]
fn classify_zero_of_zero_is_success() {
    assert_eq!(classify(0, 0), ScoreColor::Success);
}

#[test]
fn classify_strictly_between_is_partial() {
    assert_eq!(classify(3, 5), ScoreColor::Partial);
}

#[test]
fn classify_above_maximum_is_partial() {
    assert_eq!(classify(7, 5), ScoreColor::Partial);
}

#[test]
fn decimal_rendering() {
    assert_eq!(dec_string(0), "0");
    assert_eq!(dec_string(7), "7");
    assert_eq!(dec_string(10), "10");
    assert_eq!(dec_string(105), "105");
    assert_eq!(dec_string(u64::MAX), "18446744073709551615");
}

#[test]
fn pair_rendering() {
    assert_eq!(score_pair(10, 15), "10/15");
    assert_eq!(score_pair(0, 0), "0/0");
}

#[test]
fn score_str_is_pair_plain_or_coloured() {
    let failure = score_str(0, 5);
    assert!(failure == "0/5" || failure == "\u{1b}[31m0/5\u{1b}[0m");
    let success = score_str(10, 10);
    assert!(success == "10/10" || success == "\u{1b}[32m10/10\u{1b}[0m");
    let partial = score_str(10, 15);
    assert!(partial == "10/15" || partial == "\u{1b}[33m10/15\u{1b}[0m");
}

#[test]
fn colour_override_controls_painting() {
    colored::control::set_override(true);
    assert_eq!(score_str(0, 5), "\u{1b}[31m0/5\u{1b}[0m");
    assert_eq!(score_str(10, 10), "\u{1b}[32m10/10\u{1b}[0m");
    assert_eq!(score_str(10, 15), "\u{1b}[33m10/15\u{1b}[0m");
    colored::control::set_override(false);
    assert_eq!(score_str(0, 5), "0/5");
    colored::control::unset_override();
}

#[test]
fn totals_sum_in_input_order() {
    let p = Person {
        username: String::from("alice"),
        tasks: vec![task("Task A", 10, 10), task("Task B", 0, 5)],
    };
    assert_eq!(p.totals(), (10, 15));
}

#[test]
fn totals_of_no_tasks_are_zero() {
    let p = Person { username: String::from("alice"), tasks: vec![] };
    assert_eq!(p.totals(), (0, 0));
}

#[test]
fn empty_answer_means_user_not_found() {
    let r = person_from_tasks("ghost", vec![]);
    match r {
        Err(e) => {
            assert!(matches!(e, Error::NotFound(_)));
            assert_eq!(e.message(), "User 'ghost' does not exist!");
        },
        Ok(_) => panic!("an empty task list must not produce a person"),
    }
}

#[test]
fn nonempty_answer_builds_the_person() {
    let r = person_from_tasks("alice", vec![task("Task A", 10, 10)]);
    match r {
        Ok(p) => {
            assert_eq!(p.username, "alice");
            assert_eq!(p.tasks.len(), 1);
            assert_eq!(p.tasks[0].name, "Task A");
        },
        Err(_) => panic!("a nonempty task list must produce a person"),
    }
}

#[test]
fn no_usernames_is_a_usage_error() {
    assert!(matches!(check_usage(0), Err(Error::Usage)));
    assert_eq!(Error::Usage.message(), "No arguments given!");
}

#[test]
fn some_usernames_pass_the_usage_check() {
    assert!(matches!(check_usage(1), Ok(())));
    assert!(matches!(check_usage(3), Ok(())));
}

#[test]
fn url_interpolates_the_username() {
    assert_eq!(scores_url("alice"), "https://territoriali.olinfo.it/api/user/alice/scores");
}
