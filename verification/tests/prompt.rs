use wingb::error::OrbiterError;
use wingb::orbiter::DatabaseOrbiter;
use wingb::binding::{substitute_text, PlaceholderBinding};
use wingb::completion::last_assistant_response;
use wingb::lines::split_lines;
use wingb::prompt::{read_markdown_prompt, ChatMessage, Role};
use wingb::text::{chars_of, push_range, string_of, tail_is};

fn lines(text: &str) -> Vec<String> {
    text.split('\n').map(|l| l.to_string()).collect()
}

fn message(role: Role, content: &str) -> ChatMessage {
    ChatMessage { role, content: content.to_string() }
}

#[test]
fn compile_replaces_both_markers() {
    let template = lines(
        "# system\nYou write SQL.\nContext: {{table_context}}\n# user\nRequest: {{user_request}}",
    );
    let bindings = vec![
        PlaceholderBinding::new("{{user_request}}", "list customers"),
        PlaceholderBinding::new("{{table_context}}", "table X has columns a,b"),
    ];
    let messages = read_markdown_prompt(&template, &bindings).unwrap();
    assert_eq!(
        messages,
        vec![
            message(Role::System, "You write SQL.\nContext: table X has columns a,b\n"),
            message(Role::User, "Request: list customers\n"),
        ]
    );
    for m in &messages {
        assert!(!m.content.contains("{{user_request}}"));
        assert!(!m.content.contains("{{table_context}}"));
        assert!(!m.content.contains("{{"));
    }
}

#[test]
fn compile_is_deterministic() {
    let template = lines("# system\nA {{x}} B\n# assistant\nok\n# user\n{{y}}{{x}}");
    let bindings = vec![PlaceholderBinding::new("{{x}}", "1")];
    let first = read_markdown_prompt(&template, &bindings).unwrap();
    let second = read_markdown_prompt(&template, &bindings).unwrap();
    assert_eq!(first, second);
    assert_eq!(
        first,
        vec![
            message(Role::System, "A 1 B\n"),
            message(Role::Assistant, "ok\n"),
            message(Role::User, "{{y}}1\n"),
        ]
    );
}

#[test]
fn header_opens_message_with_empty_content() {
    let template = lines("# user\n# assistant");
    let messages = read_markdown_prompt(&template, &Vec::new()).unwrap();
    assert_eq!(messages, vec![message(Role::User, ""), message(Role::Assistant, "")]);
}

#[test]
fn empty_template_is_malformed() {
    let none: Vec<String> = Vec::new();
    assert_eq!(read_markdown_prompt(&none, &Vec::new()), Err(OrbiterError::MalformedTemplate));
}

#[test]
fn line_before_first_header_is_malformed() {
    let template = lines("hello\n# user\nhi");
    assert_eq!(read_markdown_prompt(&template, &Vec::new()), Err(OrbiterError::MalformedTemplate));
}

#[test]
fn unknown_role_is_malformed() {
    let template = lines("# system\nhi\n# narrator\nonce");
    assert_eq!(read_markdown_prompt(&template, &Vec::new()), Err(OrbiterError::MalformedTemplate));
    let upper = lines("# System");
    assert_eq!(read_markdown_prompt(&upper, &Vec::new()), Err(OrbiterError::MalformedTemplate));
    let bare = lines("# ");
    assert_eq!(read_markdown_prompt(&bare, &Vec::new()), Err(OrbiterError::MalformedTemplate));
}

#[test]
fn hash_without_space_is_content() {
    let template = lines("# user\n#hashtag\n## sub");
    let messages = read_markdown_prompt(&template, &Vec::new()).unwrap();
    assert_eq!(messages, vec![message(Role::User, "#hashtag\n## sub\n")]);
}

#[test]
fn marker_without_occurrence_is_no_error() {
    let bindings = vec![PlaceholderBinding::new("{{absent}}", "never")];
    assert_eq!(substitute_text("nothing to see", &bindings), "nothing to see");
}

#[test]
fn value_is_not_substituted_again() {
    let bindings = vec![
        PlaceholderBinding::new("{{a}}", "{{b}}"),
        PlaceholderBinding::new("{{b}}", "deep"),
    ];
    assert_eq!(substitute_text("{{a}} and {{b}}", &bindings), "{{b}} and deep");
    let reversed = vec![
        PlaceholderBinding::new("{{b}}", "{{a}}"),
        PlaceholderBinding::new("{{a}}", "deep"),
    ];
    assert_eq!(substitute_text("{{a}} and {{b}}", &reversed), "deep and {{a}}");
}

#[test]
fn earlier_binding_wins_at_one_position() {
    let bindings = vec![
        PlaceholderBinding::new("ab", "1"),
        PlaceholderBinding::new("abc", "2"),
    ];
    assert_eq!(substitute_text("abcabc", &bindings), "1c1c");
    let other = vec![
        PlaceholderBinding::new("abc", "2"),
        PlaceholderBinding::new("ab", "1"),
    ];
    assert_eq!(substitute_text("abcab", &other), "21");
}

#[test]
fn empty_marker_never_applies() {
    let bindings = vec![PlaceholderBinding::new("", "x")];
    assert_eq!(substitute_text("abc", &bindings), "abc");
    assert_eq!(substitute_text("", &bindings), "");
}

#[test]
fn substitution_handles_repeats_and_unicode() {
    let bindings = vec![PlaceholderBinding::new("é", "e"), PlaceholderBinding::new("{{n}}", "ñandú")];
    assert_eq!(substitute_text("café {{n}} é{{n}}", &bindings), "cafe ñandú eñandú");
    assert_eq!(substitute_text("{{n}", &bindings), "{{n}");
}

#[test]
fn binding_keeps_marker_and_value() {
    let binding = PlaceholderBinding::new("{{m}}", "value");
    assert_eq!(binding.marker(), "{{m}}");
    assert_eq!(binding.value(), "value");
}

#[test]
fn split_lines_cuts_at_line_feeds() {
    assert_eq!(split_lines(""), Vec::<String>::new());
    assert_eq!(split_lines("a"), vec!["a"]);
    assert_eq!(split_lines("a\n"), vec!["a"]);
    assert_eq!(split_lines("a\nb"), vec!["a", "b"]);
    assert_eq!(split_lines("\n"), vec![""]);
    assert_eq!(split_lines("a\n\nb\n"), vec!["a", "", "b"]);
}

#[test]
fn split_lines_drops_carriage_return_before_line_feed() {
    assert_eq!(split_lines("a\r\nb\r\n"), vec!["a", "b"]);
    assert_eq!(split_lines("a\rb\r"), vec!["a\rb\r"]);
    assert_eq!(split_lines("\r\n"), vec![""]);
    assert_eq!(split_lines("x\r\r\ny"), vec!["x\r", "y"]);
}

#[test]
fn split_lines_agrees_with_std() {
    for text in ["", "one", "one\ntwo\n", "a\r\nb", "\n\n", "tail\r", "é\nü\r\n"] {
        let expected: Vec<String> = text.lines().map(|l| l.to_string()).collect();
        assert_eq!(split_lines(text), expected);
    }
}

#[test]
fn last_assistant_response_takes_the_last_one() {
    let completion = vec![
        message(Role::System, "s"),
        message(Role::Assistant, "SELECT 1"),
        message(Role::User, "again"),
        message(Role::Assistant, "SELECT 2"),
        message(Role::User, "thanks"),
    ];
    assert_eq!(last_assistant_response(&completion), Ok("SELECT 2".to_string()));
}

#[test]
fn completion_without_assistant_is_upstream_error() {
    let completion = vec![message(Role::System, "s"), message(Role::User, "u")];
    let expected =
        Err(OrbiterError::UpstreamError("the completion holds no message of the assistant".to_string()));
    assert_eq!(last_assistant_response(&completion), expected);
    assert_eq!(last_assistant_response(&Vec::new()), expected);
    assert_eq!(DatabaseOrbiter::generated_sql(Ok(completion)), expected);
}

#[test]
fn failed_model_call_keeps_the_backend_words() {
    assert_eq!(
        DatabaseOrbiter::generated_sql(Err("503 service unavailable".to_string())),
        Err(OrbiterError::UpstreamError("503 service unavailable".to_string()))
    );
}

#[test]
fn generated_sql_is_the_assistant_text() {
    let completion = vec![message(Role::User, "u"), message(Role::Assistant, "SELECT * FROM t")];
    assert_eq!(DatabaseOrbiter::generated_sql(Ok(completion)), Ok("SELECT * FROM t".to_string()));
}

#[test]
fn orbiter_compiles_request_and_context() {
    let orbiter = DatabaseOrbiter::new(
        "# system\r\nTables: {{table_context}}\r\n# user\r\n{{user_request}}\r\n".to_string(),
        "table X has columns a,b".to_string(),
    );
    let messages = orbiter.compile_prompt("list customers").unwrap();
    assert_eq!(
        messages,
        vec![
            message(Role::System, "Tables: table X has columns a,b\n"),
            message(Role::User, "list customers\n"),
        ]
    );
}

#[test]
fn orbiter_does_not_expand_markers_inside_the_request() {
    let orbiter = DatabaseOrbiter::new("# user\n{{user_request}}".to_string(), "ctx".to_string());
    let messages = orbiter.compile_prompt("show {{table_context}}").unwrap();
    assert_eq!(messages, vec![message(Role::User, "show {{table_context}}\n")]);
}

#[test]
fn orbiter_reports_malformed_template() {
    let orbiter = DatabaseOrbiter::new("no header here".to_string(), "ctx".to_string());
    assert_eq!(orbiter.compile_prompt("x"), Err(OrbiterError::MalformedTemplate));
    let empty = DatabaseOrbiter::new(String::new(), "ctx".to_string());
    assert_eq!(empty.compile_prompt("x"), Err(OrbiterError::MalformedTemplate));
}

#[test]
fn chars_and_strings_convert_both_ways() {
    assert_eq!(chars_of("aé😀"), vec!['a', 'é', '😀']);
    assert_eq!(chars_of(""), Vec::<char>::new());
    assert_eq!(string_of(&vec!['x', 'ü', 'z']), "xüz");
    assert_eq!(string_of(&Vec::new()), "");
}

#[test]
fn push_range_appends_the_slice() {
    let mut target = "ab".to_string();
    push_range(&mut target, &vec!['0', '1', '2', '3'], 1, 3);
    assert_eq!(target, "ab12");
    push_range(&mut target, &vec!['0', '1'], 2, 2);
    assert_eq!(target, "ab12");
}

#[test]
fn tail_is_compares_the_rest() {
    let text = vec!['#', ' ', 'u', 's', 'e', 'r'];
    assert!(tail_is(&text, 2, "user"));
    assert!(!tail_is(&text, 2, "use"));
    assert!(!tail_is(&text, 2, "users"));
    assert!(!tail_is(&text, 2, "usex"));
    assert!(tail_is(&text, 6, ""));
    assert!(tail_is(&text, 0, "# user"));
}
