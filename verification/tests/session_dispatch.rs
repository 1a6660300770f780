//! Tests for the session registry and the command dispatcher: find-or-start,
//! stop and cancellation, retry, and the drain on quit.

use kwaak::agent::git_agent_environment::GitAgentEnvironment;
use kwaak::agent::running_agent::AgentOp;
use kwaak::agent::session::SessionPrereqs;
use kwaak::agent::session::TurnOutcome;
use kwaak::agent::session::TurnResult;
use kwaak::agent::session::available_builtin_tools;
use kwaak::agent::session::delegate_tool_names;
use kwaak::commands::command::Command;
use kwaak::commands::command::CommandEvent;
use kwaak::commands::handler::CommandHandler;
use kwaak::commands::handler::EventScript;
use kwaak::commands::responder::Response;
use kwaak::config::AgentEditMode;
use kwaak::config::CommandConfiguration;
use kwaak::config::Config;
use kwaak::config::GitConfiguration;
use kwaak::config::SupportedAgentConfigurations;
use kwaak::config::SupportedToolExecutors;
use kwaak::evaluations::logging_responder::LoggingResponder;
use kwaak::executor::CommandError;
use kwaak::executor::CommandOutput;
use kwaak::executor::ScriptedExecutor;
use kwaak::indexing::DuckdbIndex;
use kwaak::repository::Repository;

fn local_config() -> Config {
    Config {
        project_name: "kwaak".to_string(),
        tool_executor: SupportedToolExecutors::Local,
        git: GitConfiguration {
            clone_repository_on_start: false,
            agent_user_name: "kwaak".to_string(),
            agent_user_email: "kwaak@bosun.ai".to_string(),
            main_branch: "main".to_string(),
            auto_commit_disabled: false,
            auto_push_remote: false,
        },
        agent: SupportedAgentConfigurations::Coding,
        agent_edit_mode: AgentEditMode::Patch,
        commands: CommandConfiguration::default(),
        disabled_tools: Vec::new(),
        github_token: None,
        tavily_api_key: None,
    }
}

fn ok(output: &str) -> Result<CommandOutput, CommandError> {
    Ok(CommandOutput {
        output: output.to_string(),
    })
}

fn local_prereqs() -> SessionPrereqs {
    SessionPrereqs {
        chat_title: Ok("```markdown\nFix the bug\n```".to_string()),
        executor_start: Ok(ScriptedExecutor::new(vec![ok("main\n"), ok("abc123\n")])),
        branch_proposal: Ok("fix bug".to_string()),
        initial_context: Ok("Additional information".to_string()),
        github: None,
        agent_build: Ok(()),
    }
}

fn script(turn: TurnOutcome) -> EventScript {
    EventScript {
        prereqs: local_prereqs(),
        turn,
        index_result: Ok(()),
        redrive: Ok(()),
        feedback: Ok(()),
        elapsed_seconds: 0,
    }
}

fn chat_event(uuid: u128, message: &str) -> CommandEvent {
    let mut builder = CommandEvent::builder();
    builder.command(Command::Chat {
        message: message.to_string(),
    });
    builder.uuid(uuid);
    builder.repository(Repository::from_config(local_config()));
    builder.build().unwrap()
}

fn bare_event(uuid: u128, command: Command) -> CommandEvent {
    let mut builder = CommandEvent::builder();
    builder.command(command);
    builder.uuid(uuid);
    builder.build().unwrap()
}

fn completed_count(sent: &[Response]) -> usize {
    sent.iter()
        .filter(|r| matches!(r, Response::Completed))
        .count()
}

fn system_messages<'a>(sent: &'a [Response]) -> Vec<&'a str> {
    sent.iter()
        .filter_map(|r| match r {
            Response::BackendMessage(m) => Some(m.as_str()),
            _ => None,
        })
        .collect()
}

#[test]
fn chat_starts_a_session_and_queries_once() {
    let mut handler = CommandHandler::from_index(DuckdbIndex::default());
    let uuid: u128 = 7;

    let events = vec![chat_event(uuid, "fix bug"), bare_event(1, Command::Quit)];
    let scripts = vec![
        script(TurnOutcome::Finished(Ok(()))),
        script(TurnOutcome::Finished(Ok(()))),
    ];

    let (events_out, processed) = handler.run(events, scripts);
    assert_eq!(processed, 1);

    // the registry now holds the session for the uuid
    assert!(handler.find_agent_by_uuid(uuid).is_some());
    assert_eq!(handler.agent_sessions.len(), 1);
    let session = &handler.agent_sessions[0];
    assert_eq!(session.session.session_id, uuid);

    // the workspace snapshot was frozen from the executor's answers
    assert_eq!(session.agent_environment.branch_name, "main");
    assert_eq!(session.agent_environment.start_ref, "abc123");
    assert!(!session.agent_environment.remote_enabled);

    // the agent received the query exactly once
    assert_eq!(session.active_agent.ops.len(), 1);
    assert!(matches!(&session.active_agent.ops[0], AgentOp::Query(q) if q == "fix bug"));

    // the responder saw activity, the renames, and exactly one Completed
    let sent = &events_out[0].responder.sent;
    assert!(sent
        .iter()
        .any(|r| matches!(r, Response::Activity(_))));
    assert!(sent
        .iter()
        .any(|r| matches!(r, Response::RenameChat(n) if n == "Fix the bug")));
    assert!(sent
        .iter()
        .any(|r| matches!(r, Response::RenameBranch(b) if b == "main")));
    assert_eq!(completed_count(sent), 1);
    assert!(matches!(sent.last().unwrap(), Response::Completed));
    assert!(matches!(
        &sent[sent.len() - 2],
        Response::BackendMessage(m) if m == "Command chat successful in 0 seconds"
    ));

    // the quit event is untouched
    assert!(events_out[1].responder.sent.is_empty());
}

#[test]
fn all_chats_get_a_terminal_completed_before_quit_returns() {
    let mut handler = CommandHandler::from_index(DuckdbIndex::default());

    let events = vec![
        chat_event(1, "first"),
        chat_event(2, "second"),
        chat_event(3, "third"),
        bare_event(9, Command::Quit),
        chat_event(4, "after quit"),
    ];
    let scripts = vec![
        script(TurnOutcome::Finished(Ok(()))),
        script(TurnOutcome::Finished(Err("model unavailable".to_string()))),
        script(TurnOutcome::CancelledFirst),
        script(TurnOutcome::Finished(Ok(()))),
        script(TurnOutcome::Finished(Ok(()))),
    ];

    let (events_out, processed) = handler.run(events, scripts);
    assert_eq!(processed, 3);

    for event in events_out.iter().take(3) {
        let sent = &event.responder.sent;
        assert_eq!(completed_count(sent), 1, "each handled chat completes once");
        assert!(
            matches!(sent.last().unwrap(), Response::Completed),
            "the Completed is the terminal signal"
        );
    }
    // the failing chat reports its failure just before the Completed
    let failing = &events_out[1].responder.sent;
    assert!(matches!(
        &failing[failing.len() - 2],
        Response::BackendMessage(m)
            if m.starts_with("Failed to handle command: ") && m.contains("model unavailable")
    ));

    // nothing after the quit was processed
    assert!(events_out[3].responder.sent.is_empty());
    assert!(events_out[4].responder.sent.is_empty());
    assert!(handler.find_agent_by_uuid(4).is_none());
}

#[test]
fn find_or_start_returns_the_same_session() {
    let mut handler = CommandHandler::from_index(DuckdbIndex::default());
    let uuid: u128 = 42;

    let events = vec![chat_event(uuid, "first turn"), chat_event(uuid, "second turn")];
    let scripts = vec![
        script(TurnOutcome::Finished(Ok(()))),
        script(TurnOutcome::Finished(Ok(()))),
    ];
    let (_events_out, processed) = handler.run(events, scripts);
    assert_eq!(processed, 2);

    // one session, not two: the second chat found the first session, and
    // the conversation lives on in the same agent
    assert_eq!(handler.agent_sessions.len(), 1);
    let ops = &handler.agent_sessions[0].active_agent.ops;
    assert_eq!(ops.len(), 2);
    assert!(matches!(&ops[0], AgentOp::Query(q) if q == "first turn"));
    assert!(matches!(&ops[1], AgentOp::Query(q) if q == "second turn"));
    assert_eq!(
        handler.agent_sessions[0].session.initial_query, "first turn",
        "the session keeps the query it was created for"
    );
}

#[test]
fn stop_cancels_and_restart_clears() {
    let mut handler = CommandHandler::from_index(DuckdbIndex::default());
    let uuid: u128 = 5;

    let events = vec![chat_event(uuid, "start")];
    let scripts = vec![script(TurnOutcome::Finished(Ok(())))];
    handler.run(events, scripts);
    assert!(!handler.agent_sessions[0].cancel_token.is_cancelled());

    // stop: the token reports cancelled and the agent was told to stop
    let mut stop = bare_event(uuid, Command::StopAgent);
    let r = handler.handle_command_event(&mut stop, script(TurnOutcome::Finished(Ok(()))));
    assert!(r.is_ok());
    assert!(handler.agent_sessions[0].cancel_token.is_cancelled());
    assert!(handler.agent_sessions[0].active_agent.stopped);
    assert!(system_messages(&stop.responder.sent).contains(&"Agent stopped"));

    // a second stop is a no-op with its own message
    let ops_before = handler.agent_sessions[0].active_agent.ops.len();
    let mut stop_again = bare_event(uuid, Command::StopAgent);
    handler
        .handle_command_event(&mut stop_again, script(TurnOutcome::Finished(Ok(()))))
        .unwrap();
    assert_eq!(handler.agent_sessions[0].active_agent.ops.len(), ops_before);
    assert!(system_messages(&stop_again.responder.sent).contains(&"Agent already stopped"));

    // a new chat for the same uuid clears the token back to not-cancelled
    let mut chat = chat_event(uuid, "again");
    handler
        .handle_command_event(&mut chat, script(TurnOutcome::Finished(Ok(()))))
        .unwrap();
    assert!(!handler.agent_sessions[0].cancel_token.is_cancelled());
}

#[test]
fn stopped_chat_resolves_via_cancellation() {
    let mut handler = CommandHandler::from_index(DuckdbIndex::default());
    let uuid: u128 = 6;

    let events = vec![chat_event(uuid, "start")];
    let scripts = vec![script(TurnOutcome::Finished(Ok(())))];
    handler.run(events, scripts);

    // the agent is stopped while a chat would be awaiting its reply
    let mut stop = bare_event(uuid, Command::StopAgent);
    handler
        .handle_command_event(&mut stop, script(TurnOutcome::Finished(Ok(()))))
        .unwrap();
    let stop_messages = system_messages(&stop.responder.sent);
    assert_eq!(
        stop_messages.iter().filter(|m| **m == "Agent stopped").count(),
        1,
        "exactly one stopped message"
    );

    // the in-flight turn resolves through the cancellation branch: the
    // reply never reaches the agent
    let ops_before = handler.agent_sessions[0].active_agent.ops.len();
    let session = &mut handler.agent_sessions[0];
    let outcome = session.query_agent("pending turn", &TurnOutcome::Finished(Ok(())));
    assert!(matches!(outcome, TurnResult::Cancelled));
    assert_eq!(session.active_agent.ops.len(), ops_before);
}

#[test]
fn retry_resets_a_cancelled_token_before_resuming() {
    let mut handler = CommandHandler::from_index(DuckdbIndex::default());
    let uuid: u128 = 8;

    let events = vec![chat_event(uuid, "start")];
    let scripts = vec![script(TurnOutcome::Finished(Ok(())))];
    handler.run(events, scripts);

    // cancel via stop, then retry: the token is reset before the run
    let mut stop = bare_event(uuid, Command::StopAgent);
    handler
        .handle_command_event(&mut stop, script(TurnOutcome::Finished(Ok(()))))
        .unwrap();
    assert!(handler.agent_sessions[0].cancel_token.is_cancelled());

    let mut retry = bare_event(uuid, Command::RetryChat);
    handler
        .handle_command_event(&mut retry, script(TurnOutcome::Finished(Ok(()))))
        .unwrap();
    assert!(!handler.agent_sessions[0].cancel_token.is_cancelled());
    assert!(matches!(
        handler.agent_sessions[0].active_agent.ops.last().unwrap(),
        AgentOp::Run
    ));

    // on a session that is not cancelled the retry leaves the token alone
    let mut retry_again = bare_event(uuid, Command::RetryChat);
    handler
        .handle_command_event(&mut retry_again, script(TurnOutcome::Finished(Ok(()))))
        .unwrap();
    assert!(!handler.agent_sessions[0].cancel_token.is_cancelled());
}

#[test]
fn tool_feedback_resumes_the_turn() {
    let mut handler = CommandHandler::from_index(DuckdbIndex::default());
    let uuid: u128 = 17;

    let events = vec![chat_event(uuid, "start")];
    let scripts = vec![script(TurnOutcome::Finished(Ok(())))];
    handler.run(events, scripts);

    let mut feedback = bare_event(
        uuid,
        Command::ToolFeedback {
            tool_call: "shell_command".to_string(),
            feedback: "approved".to_string(),
        },
    );
    handler
        .handle_command_event(&mut feedback, script(TurnOutcome::Finished(Ok(()))))
        .unwrap();
    assert!(matches!(
        handler.agent_sessions[0].active_agent.ops.last().unwrap(),
        AgentOp::Run
    ));
    assert!(!handler.agent_sessions[0].cancel_token.is_cancelled());
}

#[test]
fn chat_without_repository_fails_without_a_session() {
    let mut handler = CommandHandler::from_index(DuckdbIndex::default());
    let mut event = bare_event(11, Command::Chat {
        message: "hello".to_string(),
    });
    let r = handler.handle_command_event(&mut event, script(TurnOutcome::Finished(Ok(()))));
    assert!(r.is_err());
    assert_eq!(handler.agent_sessions.len(), 0);
}

#[test]
fn commands_without_a_session_answer_with_a_message() {
    let mut handler = CommandHandler::from_index(DuckdbIndex::default());
    let mut event = bare_event(12, Command::Diff);
    let r = handler.handle_command_event(&mut event, script(TurnOutcome::Finished(Ok(()))));
    assert!(r.is_ok());
    assert!(system_messages(&event.responder.sent)
        .contains(&"No agent found (yet), is it starting up?"));
}

#[test]
fn show_config_prints_the_configuration() {
    let mut handler = CommandHandler::from_index(DuckdbIndex::default());
    let mut builder = CommandEvent::builder();
    builder.command(Command::ShowConfig);
    builder.uuid(13);
    builder.repository(Repository::from_config(local_config()));
    let mut event = builder.build().unwrap();

    handler
        .handle_command_event(&mut event, script(TurnOutcome::Finished(Ok(()))))
        .unwrap();
    let messages = system_messages(&event.responder.sent);
    assert!(messages[0].contains("project_name = \"kwaak\""));
    assert!(messages[1].contains("Command show_config successful"));
}

#[test]
fn builtin_tools_follow_the_configuration() {
    let mut config = local_config();
    config.disabled_tools = vec!["git".to_string()];
    let repository = Repository::from_config(config);
    let env = GitAgentEnvironment {
        branch_name: "main".to_string(),
        start_ref: "abc".to_string(),
        remote_enabled: false,
    };

    let tools = available_builtin_tools(&repository, Some(&env));
    assert_eq!(
        tools,
        vec![
            "write_file",
            "search_file",
            "shell_command",
            "search_code",
            "fetch_url",
            "explain_code",
            "read_file_with_line_numbers",
            "patch_file",
            "run_tests",
            "run_coverage",
            "reset_file",
        ]
    );

    let delegate = delegate_tool_names(&tools);
    assert_eq!(
        delegate,
        vec![
            "search_file",
            "search_code",
            "fetch_url",
            "explain_code",
            "read_file_with_line_numbers",
            "patch_file",
            "run_tests",
            "run_coverage",
            "reset_file",
            "delegate_coding_agent",
        ]
    );
}

#[test]
fn failed_creation_registers_no_session() {
    let mut handler = CommandHandler::from_index(DuckdbIndex::default());
    let mut failing = script(TurnOutcome::Finished(Ok(())));
    failing.prereqs.executor_start = Err("container did not start".to_string());

    let mut event = chat_event(21, "hello");
    let r = handler.handle_command_event(&mut event, failing);
    assert!(r.is_err());
    assert!(handler.agent_sessions.is_empty(), "no partial session is registered");

    // workspace setup failure is just as fatal to the one invocation
    let mut bad_setup = script(TurnOutcome::Finished(Ok(())));
    bad_setup.prereqs.executor_start = Ok(ScriptedExecutor::new(vec![Err(
        CommandError::Failed("git missing".to_string()),
    )]));
    let mut event = chat_event(21, "hello");
    let r = handler.handle_command_event(&mut event, bad_setup);
    assert!(r.is_err());
    assert!(handler.agent_sessions.is_empty());
}

#[test]
fn failures_are_reported_before_the_completed() {
    let mut handler = CommandHandler::from_index(DuckdbIndex::default());
    // ShowConfig without a repository fails; the run loop reports the
    // failure and then closes the stream with the terminal Completed
    let events = vec![bare_event(31, Command::ShowConfig)];
    let scripts = vec![script(TurnOutcome::Finished(Ok(())))];
    let (events_out, processed) = handler.run(events, scripts);
    assert_eq!(processed, 1);
    let sent = &events_out[0].responder.sent;
    assert!(matches!(sent.last().unwrap(), Response::Completed));
    // the failure report names the offending command
    assert!(matches!(
        &sent[sent.len() - 2],
        Response::BackendMessage(m)
            if m == "Failed to handle command: `show_config` expects a repository"
    ));
}

#[test]
fn the_closing_note_carries_the_measured_duration() {
    let mut handler = CommandHandler::from_index(DuckdbIndex::default());
    let mut timed = script(TurnOutcome::Finished(Ok(())));
    timed.elapsed_seconds = 3;
    let mut event = chat_event(23, "hello");
    handler.handle_command_event(&mut event, timed).unwrap();
    assert!(matches!(
        event.responder.sent.last().unwrap(),
        Response::BackendMessage(m) if m == "Command chat successful in 3 seconds"
    ));
}

#[test]
fn logging_responder_collects_tagged_lines() {
    let mut responder = LoggingResponder::new();
    responder.update("starting");
    responder.system_message("done");
    assert_eq!(
        responder.get_log(),
        "DEBUG: State update: starting\nDEBUG: System message: done"
    );
}
