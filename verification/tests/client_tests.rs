use qa_rs::client::{
    account_config, account_name, answer_content, check_status, endpoint_default, endpoint_prompt,
    parse_answer_id, parse_question_id, parse_question_input, prompt_answer, prompt_endpoint,
    request_method, request_path, returned_api_key, App, ClientConfig, ClientError, Command,
    HttpMethod, StatusVerdict,
};
use qa_rs::display::{
    account_created_lines, answer_created_message, answer_deleted_message, api_key_changed_lines,
    empty_list_message, list_footer, question_created_message, question_deleted_message,
    question_header, question_list_lines, question_page_lines, solved_message, starred_message,
    summary_line, unstarred_message, Answer, ListKind, Question, QuestionSummary,
    QuestionWithAnswers,
};
use qa_rs::time_ago::{elapsed_seconds, format_time_ago, time_ago_at, time_ago_label};

fn config(key: Option<&str>) -> ClientConfig {
    ClientConfig {
        endpoint: "http://localhost:7879".to_string(),
        api_key: key.map(String::from),
        username: Some("bob".to_string()),
    }
}

#[test]
fn app_load_passes_config_or_error() {
    let app = App::load(Ok(config(Some("k")))).unwrap();
    assert_eq!(app.config, config(Some("k")));
    let err = App::load(Err(ClientError::ConfigNotFound("/home/x/.config/qa/config.yml".to_string())));
    assert_eq!(
        err.unwrap_err().message(),
        "Config not found at /home/x/.config/qa/config.yml. Run `qa create-account` first."
    );
}

#[test]
fn app_api_key_required() {
    let app = App { config: config(Some("secret")) };
    assert_eq!(app.api_key(), Ok("secret"));
    let app = App { config: config(None) };
    assert_eq!(app.api_key(), Err(ClientError::NoApiKey));
    assert_eq!(
        ClientError::NoApiKey.message(),
        "No API key found. Run `qa create-account` first."
    );
}

#[test]
fn app_url_joins_endpoint_and_path() {
    let app = App { config: config(None) };
    assert_eq!(app.url("/questions/3"), "http://localhost:7879/questions/3");
}

#[test]
fn endpoint_prompting() {
    assert_eq!(endpoint_default(None), "http://localhost:7879");
    assert_eq!(endpoint_default(Some("http://qa.example")), "http://qa.example");
    assert_eq!(endpoint_prompt("http://a"), "Server endpoint [http://a]: ");
    assert_eq!(prompt_answer("  http://b \n"), "http://b");
    assert_eq!(prompt_endpoint("http://a", ""), "http://a");
    assert_eq!(prompt_endpoint("http://a", "http://b"), "http://b");
}

#[test]
fn request_paths_and_methods() {
    let cases: Vec<(Command, HttpMethod, &str)> = vec![
        (Command::CreateAccount, HttpMethod::Post, "/register"),
        (Command::ChangeApiKey, HttpMethod::Post, "/change-api-key"),
        (Command::Ask, HttpMethod::Post, "/questions"),
        (Command::Unsolved { page: 1, limit: 50 }, HttpMethod::Get, "/questions/unsolved?page=1&limit=50"),
        (Command::Starred { page: 0, limit: 20 }, HttpMethod::Get, "/questions/starred?page=0&limit=20"),
        (Command::Get { id: 12 }, HttpMethod::Get, "/questions/12"),
        (Command::Answer { id: 12 }, HttpMethod::Post, "/questions/12/answers"),
        (Command::Solve { id: 12, unsolved: false }, HttpMethod::Post, "/questions/12/solved?unsolved=false"),
        (Command::Solve { id: 12, unsolved: true }, HttpMethod::Post, "/questions/12/solved?unsolved=true"),
        (Command::Star { id: 12 }, HttpMethod::Post, "/questions/12/star"),
        (Command::Unstar { id: 12 }, HttpMethod::Delete, "/questions/12/star"),
        (Command::RmQuestion { id: 12 }, HttpMethod::Delete, "/questions/12"),
        (Command::RmAnswer { question_id: 12, answer_id: 5 }, HttpMethod::Delete, "/questions/12/answers/5"),
    ];
    for (cmd, method, path) in cases {
        assert_eq!(request_method(&cmd), method);
        assert_eq!(request_path(&cmd), path);
    }
}

#[test]
fn status_verdicts() {
    assert_eq!(check_status(&Command::Ask, 201), StatusVerdict::Proceed);
    assert_eq!(check_status(&Command::Ask, 500), StatusVerdict::ServerError);
    assert_eq!(
        check_status(&Command::Get { id: 7 }, 404),
        StatusVerdict::Fail(ClientError::QuestionNotFound(7))
    );
    assert_eq!(check_status(&Command::Get { id: 7 }, 401), StatusVerdict::ServerError);
    assert_eq!(
        check_status(&Command::Solve { id: 7, unsolved: false }, 403),
        StatusVerdict::Fail(ClientError::NotAsker)
    );
    assert_eq!(check_status(&Command::Solve { id: 7, unsolved: false }, 204), StatusVerdict::Proceed);
    assert_eq!(
        check_status(&Command::RmQuestion { id: 7 }, 403),
        StatusVerdict::Fail(ClientError::NotOwnQuestion)
    );
    assert_eq!(
        check_status(&Command::RmQuestion { id: 7 }, 404),
        StatusVerdict::Fail(ClientError::QuestionNotFound(7))
    );
    assert_eq!(
        check_status(&Command::RmAnswer { question_id: 7, answer_id: 2 }, 404),
        StatusVerdict::Fail(ClientError::AnswerNotFound { question_id: 7, answer_id: 2 })
    );
    assert_eq!(
        check_status(&Command::RmAnswer { question_id: 7, answer_id: 2 }, 403),
        StatusVerdict::Fail(ClientError::NotOwnAnswer)
    );
    assert_eq!(check_status(&Command::Star { id: 1 }, 404), StatusVerdict::ServerError);
    assert_eq!(check_status(&Command::Star { id: 1 }, 299), StatusVerdict::Proceed);
    assert_eq!(check_status(&Command::Star { id: 1 }, 300), StatusVerdict::ServerError);
}

#[test]
fn error_messages() {
    assert_eq!(ClientError::ServerError("boom".to_string()).message(), "Server error: boom");
    assert_eq!(ClientError::QuestionNotFound(3).message(), "Question #3 not found");
    assert_eq!(
        ClientError::AnswerNotFound { question_id: 12, answer_id: 5 }.message(),
        "Answer #5 not found for question #12"
    );
    assert_eq!(
        ClientError::NotAsker.message(),
        "Only the person who asked the question can mark it as solved/unsolved"
    );
    assert_eq!(ClientError::NotOwnQuestion.message(), "You can only delete your own questions");
    assert_eq!(ClientError::NotOwnAnswer.message(), "You can only delete your own answers");
    assert_eq!(ClientError::MissingApiKeyHeader.message(), "Server did not return x-api-key header");
    assert_eq!(
        ClientError::NoQuestionInput.message(),
        "No input provided. Expected title on first line, then content."
    );
    assert_eq!(ClientError::EmptyAnswer.message(), "Answer content cannot be empty");
    assert_eq!(ClientError::BadQuestionId.message(), "Failed to parse question ID");
    assert_eq!(ClientError::BadAnswerId.message(), "Failed to parse answer ID");
}

#[test]
fn question_input_is_split() {
    let (t, c) = parse_question_input("  How do I sort?  \nI have a list.\nThanks\n").unwrap();
    assert_eq!(t, "How do I sort?");
    assert_eq!(c, "I have a list.\nThanks");
    let (t, c) = parse_question_input("Only a title").unwrap();
    assert_eq!(t, "Only a title");
    assert_eq!(c, "");
    assert_eq!(parse_question_input(""), Err(ClientError::NoQuestionInput));
    assert_eq!(parse_question_input("   \nbody"), Err(ClientError::NoQuestionInput));
}

#[test]
fn answer_text_is_trimmed() {
    assert_eq!(answer_content("  use sort()\n"), Ok("use sort()".to_string()));
    assert_eq!(answer_content(" \n\t"), Err(ClientError::EmptyAnswer));
}

#[test]
fn created_ids_are_parsed() {
    assert_eq!(parse_question_id("42"), Ok(42));
    assert_eq!(parse_question_id("oops"), Err(ClientError::BadQuestionId));
    assert_eq!(parse_answer_id("7"), Ok(7));
    assert_eq!(parse_answer_id("7 "), Err(ClientError::BadAnswerId));
}

#[test]
fn account_creation_helpers() {
    assert_eq!(returned_api_key(Some("k".to_string())), Ok("k".to_string()));
    assert_eq!(returned_api_key(None), Err(ClientError::MissingApiKeyHeader));
    assert_eq!(account_name(Some("server".to_string()), "typed".to_string()), "server");
    assert_eq!(account_name(None, "typed".to_string()), "typed");
    let c = account_config("http://e".to_string(), "bob".to_string(), "k".to_string());
    assert_eq!(c.endpoint, "http://e");
    assert_eq!(c.api_key.as_deref(), Some("k"));
    assert_eq!(c.username.as_deref(), Some("bob"));
    let c = config(Some("old")).with_api_key("new".to_string());
    assert_eq!(c.api_key.as_deref(), Some("new"));
    assert_eq!(c.username.as_deref(), Some("bob"));
    assert_eq!(c.current_api_key(), Ok("new"));
}

#[test]
fn time_ago_labels() {
    assert_eq!(time_ago_label(-5), "just now");
    assert_eq!(time_ago_label(59), "just now");
    assert_eq!(time_ago_label(60), "1m ago");
    assert_eq!(time_ago_label(3599), "59m ago");
    assert_eq!(time_ago_label(3600), "1h ago");
    assert_eq!(time_ago_label(86399), "23h ago");
    assert_eq!(time_ago_label(86400), "1d ago");
    assert_eq!(time_ago_label(6 * 86400), "6d ago");
    assert_eq!(time_ago_label(7 * 86400), "1w ago");
    assert_eq!(time_ago_label(29 * 86400), "4w ago");
    assert_eq!(time_ago_label(30 * 86400), "1mo ago");
    assert_eq!(time_ago_label(364 * 86400), "12mo ago");
    assert_eq!(time_ago_label(365 * 86400), "1y ago");
    assert_eq!(time_ago_label(800 * 86400), "2y ago");
}

#[test]
fn time_ago_of_timestamps() {
    assert_eq!(format_time_ago("not a date"), "unknown");
    assert_eq!(format_time_ago(""), "unknown");
    let old = format_time_ago("2000-01-01T00:00:00Z");
    assert!(old.ends_with("y ago"), "{}", old);
    let soon = format_time_ago("2999-01-01T00:00:00+02:00");
    assert_eq!(soon, "just now");
}

fn summary(stars: i64) -> QuestionSummary {
    QuestionSummary {
        id: 4,
        title: "Sorting".to_string(),
        author: "ann".to_string(),
        created_at: "garbage".to_string(),
        stars,
        views: 10,
    }
}

#[test]
fn list_lines() {
    assert_eq!(summary_line(&summary(0), "2h ago"), "[question: 4] Sorting at 2h ago by ann [views:10]");
    assert_eq!(
        summary_line(&summary(3), "2h ago"),
        "[question: 4] Sorting at 2h ago by ann [views:10, stars:3]"
    );
    let lines = question_list_lines(&vec![summary(0), summary(2)]);
    assert_eq!(
        lines,
        vec![
            "[question: 4] Sorting at unknown by ann [views:10]".to_string(),
            "[question: 4] Sorting at unknown by ann [views:10, stars:2]".to_string(),
        ]
    );
}

fn question(solved: bool) -> Question {
    Question {
        id: 9,
        user_id: 1,
        author: "ann".to_string(),
        title: "Why?".to_string(),
        content: "Because.".to_string(),
        created_at: "bad".to_string(),
        solved,
        solved_at: None,
        starred: false,
        views: 3,
        stars: 1,
    }
}

#[test]
fn question_page() {
    assert_eq!(
        question_header(&question(true), "1d ago"),
        "[SOLVED] [question: 9] Why? at 1d ago by ann [views:3, stars:1]"
    );
    let qa = QuestionWithAnswers {
        question: question(false),
        answers: vec![Answer {
            id: 2,
            question_id: 9,
            user_id: 5,
            author: "cy".to_string(),
            content: "Yes.".to_string(),
            created_at: "bad".to_string(),
        }],
    };
    let lines = question_page_lines(&qa);
    assert_eq!(
        lines,
        vec![
            "[OPEN] [question: 9] Why? at unknown by ann [views:3, stars:1]".to_string(),
            "\nBecause.".to_string(),
            "\n--- 1 Answers ---\n".to_string(),
            "[answer: 2] at unknown by cy".to_string(),
            "Yes.".to_string(),
            "--------".to_string(),
        ]
    );
}

#[test]
fn confirmations() {
    assert_eq!(
        account_created_lines("bob", "/h/.config/qa/config.yml", "KEY"),
        vec![
            "\u{2713} Account created: bob".to_string(),
            "\u{2713} API key saved to /h/.config/qa/config.yml".to_string(),
            "  API Key: KEY".to_string(),
        ]
    );
    assert_eq!(
        api_key_changed_lines("NEW"),
        vec!["\u{2713} API key changed successfully".to_string(), "  New API Key: NEW".to_string()]
    );
    assert_eq!(question_created_message(42), "\u{2713} Question created: #42");
    assert_eq!(answer_created_message(5, 12), "\u{2713} Answer created: #5 for question #12");
    assert_eq!(solved_message(12, false), "\u{2713} Question #12 marked as solved");
    assert_eq!(solved_message(12, true), "\u{2713} Question #12 marked as unsolved");
    assert_eq!(starred_message(12), "\u{2713} Starred question #12");
    assert_eq!(unstarred_message(12), "\u{2713} Unstarred question #12");
    assert_eq!(question_deleted_message(12), "\u{2713} Deleted question #12 with all its answers");
    assert_eq!(answer_deleted_message(12, 5), "\u{2713} Deleted answer #5 from question #12");
}

#[test]
fn list_messages() {
    assert_eq!(empty_list_message(&ListKind::Unsolved), "No unsolved questions.");
    assert_eq!(empty_list_message(&ListKind::Starred), "No starred questions.");
    assert_eq!(
        list_footer(&ListKind::Unsolved, 0),
        vec![
            "  => show: `qa get <id>` | answer: `echo \"your answer\" | qa answer <id>`".to_string(),
            "  => next page: `qa unsolved --page 1`".to_string(),
        ]
    );
    assert_eq!(list_footer(&ListKind::Starred, 4)[1], "  => next page: `qa starred --page 5`");
}

#[test]
fn no_saved_endpoint_and_empty_answer_gives_default_server() {
    let default = endpoint_default(None);
    assert_eq!(prompt_endpoint(&default, &prompt_answer("\n")), "http://localhost:7879");
}

#[test]
fn elapsed_seconds_round_toward_zero() {
    assert_eq!(elapsed_seconds((100, 0), (40, 0)), 60);
    assert_eq!(elapsed_seconds((100, 500_000_000), (40, 600_000_000)), 59);
    assert_eq!(elapsed_seconds((40, 0), (100, 0)), -60);
    assert_eq!(elapsed_seconds((40, 600_000_000), (100, 500_000_000)), -59);
    assert_eq!(elapsed_seconds((5, 0), (-5, 0)), 10);
}

#[test]
fn time_ago_at_fixed_clock() {
    // 2024-01-01T00:00:00Z is 1704067200 seconds after 1970.
    let t = 1_704_067_200u64;
    assert_eq!(time_ago_at("2024-01-01T00:00:00Z", Some((t + 3600, 0))), "1h ago");
    assert_eq!(time_ago_at("2024-01-01T01:00:00+01:00", Some((t + 59, 999_999_999))), "just now");
    assert_eq!(time_ago_at("2024-01-01T00:00:00Z", Some((t + 400 * 86400, 0))), "1y ago");
    assert_eq!(time_ago_at("2024-01-01T00:00:00.5Z", Some((t + 60, 0))), "just now");
    assert_eq!(time_ago_at("2024-01-01T00:00:00Z", None), "unknown");
    assert_eq!(time_ago_at("yesterday", Some((t, 0))), "unknown");
}

#[test]
fn leap_second_counts_as_chrono_does() {
    // 2024-01-01T12:00:59Z is 1704110459 seconds after 1970.
    let leap = "2024-01-01T12:00:60Z";
    assert_eq!(time_ago_at(leap, Some((1_704_110_519, 500_000_000))), "1m ago");
    assert_eq!(elapsed_seconds((1_704_110_519, 500_000_000), (1_704_110_459, 1_000_000_000)), 60);
}

#[test]
fn elapsed_seconds_agrees_with_chrono() {
    let dates = [
        "2024-01-01T12:00:60Z",
        "2024-01-01T12:00:60.25+02:00",
        "2023-06-30T23:59:60.999Z",
        "1969-12-31T23:59:59.5Z",
        "2024-03-10T08:15:00.125-05:00",
    ];
    let nows: [(u64, u32); 5] = [
        (1_704_110_519, 500_000_000),
        (1_704_110_459, 0),
        (1_704_067_200, 999_999_999),
        (0, 0),
        (1_800_000_000, 123),
    ];
    for d in dates {
        let then = chrono::DateTime::parse_from_rfc3339(d).unwrap();
        let instant = (then.timestamp(), then.timestamp_subsec_nanos());
        for n in nows {
            let now = chrono::DateTime::from_timestamp(n.0 as i64, n.1).unwrap();
            let expected = now.signed_duration_since(then).num_seconds() as i128;
            assert_eq!(elapsed_seconds(n, instant), expected, "{} at {:?}", d, n);
        }
    }
}

#[test]
fn short_texts_are_unknown() {
    assert_eq!(format_time_ago("not a date"), "unknown");
    assert_eq!(time_ago_at("2024-01-01", Some((0, 0))), "unknown");
}
