//! Tests for the shared text helpers.

use kwaak::chat_message::ChatMessage;
use kwaak::chat_message::ChatRole;
use kwaak::config::AgentEditMode;
use kwaak::config::CommandConfiguration;
use kwaak::config::Config;
use kwaak::config::GitConfiguration;
use kwaak::config::SupportedAgentConfigurations;
use kwaak::config::SupportedToolExecutors;
use kwaak::executor::CommandError;
use kwaak::executor::CommandOutput;
use kwaak::indexing::normalize_table_name;
use kwaak::text;
use kwaak::util::accept_non_zero_exit;
use kwaak::util::is_git_branch_change;
use kwaak::util::strip_markdown_tags;

#[test]
fn test_strip_markdown_tags() {
    // Case: String with surrounding ```markdown tags
    let input = "```markdown\nThis is a test.\n```";
    let expected = "This is a test.";
    assert_eq!(strip_markdown_tags(input), expected);

    // Case: String without surrounding ```markdown tags
    let input = "This is a test.";
    let expected = "This is a test.";
    assert_eq!(strip_markdown_tags(input), expected);

    // Case: Empty string
    let input = "";
    let expected = "";
    assert_eq!(strip_markdown_tags(input), expected);

    // Case: String with only opening ```markdown tag
    let input = "```markdown\nThis is a test.";
    let expected = "```markdown\nThis is a test.";
    assert_eq!(strip_markdown_tags(input), expected);

    // Case: String with only closing ``` tag
    let input = "This is a test.\n```";
    let expected = "This is a test.\n```";
    assert_eq!(strip_markdown_tags(input), expected);

    // Case: Raw string
    let input = r"```markdown
        This is a test.
        ```";
    let expected = "This is a test.";
    assert_eq!(strip_markdown_tags(input), expected);
}

#[test]
fn test_is_git_branch_change() {
    assert!(is_git_branch_change("git checkout main"));
    assert!(is_git_branch_change("git switch feature-branch"));
    assert!(!is_git_branch_change("git commit -m 'initial commit'"));
    assert!(!is_git_branch_change("git push origin main"));
    assert!(!is_git_branch_change("checkout main"));
    assert!(!is_git_branch_change("switch feature-branch"));
}

#[test]
fn accept_non_zero_exit_keeps_output() {
    let out = accept_non_zero_exit(Ok(CommandOutput {
        output: "fine".to_string(),
    }))
    .unwrap();
    assert_eq!(out.output, "fine");

    let out = accept_non_zero_exit(Err(CommandError::NonZeroExit(CommandOutput {
        output: "exit 1".to_string(),
    })))
    .unwrap();
    assert_eq!(out.output, "exit 1");

    let err = accept_non_zero_exit(Err(CommandError::Failed("gone".to_string())));
    assert!(matches!(err, Err(CommandError::Failed(m)) if m == "gone"));
}

#[test]
fn normalize_table_name_replaces_dashes() {
    assert_eq!(normalize_table_name("my-project"), "my_project");
    assert_eq!(normalize_table_name("plain"), "plain");
    assert_eq!(normalize_table_name("a-b-c"), "a_b_c");
}

#[test]
fn split_and_join_round_trip() {
    let parts = text::split_char("a,b,,c", ',');
    assert_eq!(parts, vec!["a", "b", "", "c"]);
    let joined = text::join(&parts, ",");
    assert_eq!(joined, "a,b,,c");

    let lines = text::split_lines("one\r\ntwo\nthree\n");
    assert_eq!(lines, vec!["one", "two", "three"]);

    let tokens = text::split_whitespace("  one   two\tthree ");
    assert_eq!(tokens, vec!["one", "two", "three"]);
}

#[test]
fn parse_usize_accepts_digits_only() {
    assert_eq!(text::parse_usize("0"), Some(0));
    assert_eq!(text::parse_usize("637"), Some(637));
    assert_eq!(text::parse_usize(""), None);
    assert_eq!(text::parse_usize("12a"), None);
    assert_eq!(text::parse_usize("-3"), None);
    assert_eq!(
        text::parse_usize("99999999999999999999999999999999999999"),
        None
    );
}

#[test]
fn usize_to_string_renders_decimal() {
    assert_eq!(text::usize_to_string(0), "0");
    assert_eq!(text::usize_to_string(7), "7");
    assert_eq!(text::usize_to_string(6370), "6370");
}

#[test]
fn trim_and_find() {
    assert_eq!(text::trim("  hello \t"), "hello");
    assert_eq!(text::trim("\r\n"), "");
    assert_eq!(text::find_sub("abcabc", "bc"), Some(1));
    assert_eq!(text::find_sub("abc", "zz"), None);
    assert_eq!(text::rfind_sub("abcabc", "bc"), Some(4));
    assert!(text::contains_sub("hello world", "lo wo"));
    assert!(!text::contains_sub("hello", "world"));
}

#[test]
fn chat_role_names() {
    assert_eq!(ChatRole::default(), ChatRole::System);
    assert_eq!(ChatRole::User.name(), "User");
    assert_eq!(ChatRole::Tool.name(), "Tool");
}

#[test]
fn chat_messages_carry_their_parts() {
    let msg = ChatMessage::new_user("hello");
    assert_eq!(*msg.role(), ChatRole::User);
    assert_eq!(msg.content(), "hello");
    assert_eq!(msg.stream_id(), None);

    let msg = ChatMessage::new_assistant("draft")
        .with_content("final text")
        .with_streaming_id(9);
    assert_eq!(*msg.role(), ChatRole::Assistant);
    assert_eq!(msg.content(), "final text");
    assert_eq!(msg.stream_id(), Some(9));

    let msg = ChatMessage::new_system("note").with_role(ChatRole::Command);
    assert_eq!(*msg.role(), ChatRole::Command);
}

fn sample_config() -> Config {
    Config {
        project_name: "kwaak".to_string(),
        tool_executor: SupportedToolExecutors::Local,
        git: GitConfiguration {
            clone_repository_on_start: false,
            agent_user_name: "kwaak".to_string(),
            agent_user_email: "kwaak@bosun.ai".to_string(),
            main_branch: "main".to_string(),
            auto_commit_disabled: false,
            auto_push_remote: false,
        },
        agent: SupportedAgentConfigurations::Coding,
        agent_edit_mode: AgentEditMode::Patch,
        commands: CommandConfiguration::default(),
        disabled_tools: Vec::new(),
        github_token: None,
        tavily_api_key: None,
    }
}

#[test]
fn config_render_lists_every_field() {
    let rendered = sample_config().render();
    let expected = "project_name = \"kwaak\"\ntool_executor = \"local\"\nagent = \"coding\"\nagent_edit_mode = \"patch\"\ndisabled_tools = []\ngithub_configured = false\nweb_search_configured = false\n\n[git]\nclone_repository_on_start = false\nagent_user_name = \"kwaak\"\nagent_user_email = \"kwaak@bosun.ai\"\nmain_branch = \"main\"\nauto_commit_disabled = false\nauto_push_remote = false\n\n[commands]\ntest = \"cargo test --no-fail-fast --color=never\"\ncoverage = \"cargo tarpaulin --skip-clean\"\nlint_and_fix = \"cargo clippy --fix --allow-dirty --allow-staged && cargo fmt\"";
    assert_eq!(rendered, expected);

    let mut config = sample_config();
    config.disabled_tools = vec!["git".to_string(), "diff".to_string()];
    config.github_token = Some("token".to_string());
    let rendered = config.render();
    assert!(rendered.contains("disabled_tools = [\"git\", \"diff\"]"));
    assert!(rendered.contains("github_configured = true"));
    assert!(!rendered.contains("token\n"), "the credential itself is never printed");
}

#[test]
fn command_configuration_default_commands() {
    let c = CommandConfiguration::default();
    assert_eq!(c.test, "cargo test --no-fail-fast --color=never");
    assert_eq!(c.coverage, "cargo tarpaulin --skip-clean");
    assert_eq!(
        c.lint_and_fix.as_deref(),
        Some("cargo clippy --fix --allow-dirty --allow-staged && cargo fmt")
    );
}
