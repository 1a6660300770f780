//! Tests for user input command parsing and the command-event builder.

use kwaak::commands::command::Command;
use kwaak::commands::command::CommandEvent;
use kwaak::frontend::ui_event::UIEvent;
use kwaak::frontend::ui_input_command::DiffVariant;
use kwaak::frontend::ui_input_command::ParseCommandError;
use kwaak::frontend::ui_input_command::UserInputCommand;

#[test]
fn test_parse_from_input() {
    let test_cases = vec![
        ("/quit", UserInputCommand::Quit),
        ("/show_config", UserInputCommand::ShowConfig),
        ("/index_repository", UserInputCommand::IndexRepository),
        ("/next_chat", UserInputCommand::NextChat),
        ("/new_chat", UserInputCommand::NewChat),
        ("/delete_chat", UserInputCommand::DeleteChat),
        ("/copy", UserInputCommand::Copy), // New test case for Copy command
    ];

    for (input, expected_command) in test_cases {
        let parsed_command = UserInputCommand::parse_from_input(input).unwrap();
        assert_eq!(parsed_command, expected_command);
    }
}

#[test]
fn test_parse_diff_input() {
    let test_cases = vec![
        ("/diff", UserInputCommand::Diff(DiffVariant::Show)),
        ("/diff show", UserInputCommand::Diff(DiffVariant::Show)),
        ("/diff pull", UserInputCommand::Diff(DiffVariant::Pull)),
    ];

    for (input, expected_command) in test_cases {
        let parsed_command = UserInputCommand::parse_from_input(input).unwrap();
        assert_eq!(
            parsed_command, expected_command,
            "expected: {expected_command:?} for: {input:?}",
        );
    }
}

#[test]
fn test_parse_github_issue_input() {
    let test_cases = vec![
        ("/gh_issue 123", UserInputCommand::GithubIssue(123)),
        ("/gh_issue 456", UserInputCommand::GithubIssue(456)),
    ];

    for (input, expected_command) in test_cases {
        let parsed_command = UserInputCommand::parse_from_input(input).unwrap();
        assert_eq!(
            parsed_command, expected_command,
            "expected: {expected_command:?} for: {input:?}",
        );
    }
}

#[test]
fn parse_errors_name_what_is_wrong() {
    assert_eq!(
        UserInputCommand::parse_from_input("/no_such_command"),
        Err(ParseCommandError::UnknownCommand)
    );
    assert_eq!(
        UserInputCommand::parse_from_input("/diff sideways"),
        Err(ParseCommandError::UnknownDiffVariant)
    );
    assert_eq!(
        UserInputCommand::parse_from_input("/gh_issue"),
        Err(ParseCommandError::IssueNumberRequired)
    );
    assert_eq!(
        UserInputCommand::parse_from_input("/gh_issue twelve"),
        Err(ParseCommandError::InvalidIssueNumber)
    );
}

#[test]
fn input_commands_map_to_commands_and_events() {
    assert!(matches!(
        UserInputCommand::ShowConfig.to_command(),
        Some(Command::ShowConfig)
    ));
    assert!(matches!(
        UserInputCommand::Retry.to_command(),
        Some(Command::RetryChat)
    ));
    assert!(UserInputCommand::NewChat.to_command().is_none());

    assert_eq!(UserInputCommand::NextChat.to_ui_event(), Some(UIEvent::NextChat));
    assert_eq!(
        UserInputCommand::Diff(DiffVariant::Pull).to_ui_event(),
        Some(UIEvent::DiffPull)
    );
    assert_eq!(UserInputCommand::Retry.to_ui_event(), None);
}

#[test]
fn test_command_event_builder() {
    let uuid = uuid::Uuid::new_v4().as_u128();

    let mut builder = CommandEvent::builder();
    builder.command(Command::Quit);
    builder.uuid(uuid);
    let event = builder.build().unwrap();

    assert!(event.command().is_quit());
    assert_eq!(event.uuid(), uuid);
    assert_eq!(event.responder().sent.len(), 0);
}

#[test]
fn test_with_uuid() {
    let uuid = uuid::Uuid::new_v4().as_u128();
    let new_uuid = uuid::Uuid::new_v4().as_u128();

    let mut builder = CommandEvent::builder();
    builder.command(Command::ShowConfig);
    builder.uuid(uuid);
    let mut event = builder.build().unwrap();
    event.with_uuid(new_uuid);

    assert_eq!(event.uuid(), new_uuid);
}

#[test]
fn event_builder_needs_command_and_uuid() {
    let builder = CommandEvent::builder();
    assert!(builder.build().is_err());
}
