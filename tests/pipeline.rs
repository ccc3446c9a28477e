use luai_agent::{
    bearer_credential, chat_exchange, endpoint_url, first_choice_script, instruction_from_response,
    jitter_candidates, next_sleep_seconds, to_decimal, AttemptError, ChatRole, FetchError,
    PollDecision, RetryController, Scheduler, COMPLETION_MODEL, INSTRUCTION_ROUTE, MAX_ATTEMPTS,
    NOT_FOUND, REPLY_ROUTE, SYSTEM_PROMPT,
};

const FATAL_EMPTY_CHOICE: &str = "Fatal error generating Lua: no script text in the completion";

fn run_to_end(max_attempts: u32, outcomes: Vec<Result<String, AttemptError>>) -> (RetryController, u32) {
    let mut controller = RetryController::new(max_attempts);
    let mut made: u32 = 0;
    for outcome in outcomes {
        if controller.pending_attempt().is_none() {
            break;
        }
        made += 1;
        controller.record(outcome);
    }
    (controller, made)
}

#[test]
fn list_processes_reports_first_attempt() {
    let mut scheduler = Scheduler::new();
    let instruction = String::from("List running processes");
    assert_eq!(scheduler.on_instruction(&instruction), PollDecision::Process);

    let exchange = chat_exchange(&instruction);
    assert_eq!(exchange[1].content, "List running processes");

    let script = String::from("local result = \"PID 1 init\"\nreturn result");
    let extracted = first_choice_script(&vec![Some(script.clone())]).unwrap();
    assert_eq!(extracted, script);

    let mut controller = RetryController::new(MAX_ATTEMPTS);
    assert_eq!(controller.pending_attempt(), Some(1));
    controller.record(Ok(String::from("PID 1 init")));
    assert_eq!(controller.pending_attempt(), None);
    let payload = controller.report().unwrap();
    assert_eq!(payload.message, "PID 1 init");
    assert_eq!(payload.attempts, "1");
}

#[test]
fn empty_choice_three_times_is_fatal() {
    let mut controller = RetryController::new(3);
    for expected in 1..=3u32 {
        assert_eq!(controller.pending_attempt(), Some(expected));
        let outcome = first_choice_script(&vec![Some(String::new())]);
        assert!(matches!(outcome, Err(AttemptError::MalformedResponse)));
        controller.record(outcome);
    }
    assert_eq!(controller.pending_attempt(), None);
    let payload = controller.report().unwrap();
    assert_eq!(payload.message, FATAL_EMPTY_CHOICE);
    assert_eq!(payload.attempts, "3");
}

#[test]
fn not_found_poll_is_skipped() {
    let instruction = instruction_from_response(NOT_FOUND, None).unwrap();
    assert_eq!(instruction, "");
    let mut scheduler = Scheduler::new();
    assert_eq!(scheduler.on_instruction(&instruction), PollDecision::Skip);
}

#[test]
fn not_found_ignores_any_body() {
    let instruction = instruction_from_response(404, Some(String::from("ignored"))).unwrap();
    assert_eq!(instruction, "");
}

#[test]
fn found_poll_yields_message() {
    let instruction = instruction_from_response(200, Some(String::from("Read the clock"))).unwrap();
    assert_eq!(instruction, "Read the clock");
}

#[test]
fn found_poll_without_message_is_error() {
    assert_eq!(instruction_from_response(200, None), Err(FetchError::MalformedBody));
    assert_eq!(instruction_from_response(500, None), Err(FetchError::MalformedBody));
}

#[test]
fn empty_instructions_never_processed() {
    let mut scheduler = Scheduler::new();
    for _ in 0..5 {
        assert_eq!(scheduler.on_instruction(&String::new()), PollDecision::Skip);
    }
    assert_eq!(scheduler.on_instruction(&String::from("x")), PollDecision::Process);
    assert_eq!(scheduler.on_instruction(&String::new()), PollDecision::Skip);
}

#[test]
fn repeated_instruction_processed_once() {
    let mut scheduler = Scheduler::new();
    let instruction = String::from("Count files");
    assert_eq!(scheduler.on_instruction(&instruction), PollDecision::Process);
    for _ in 0..10 {
        assert_eq!(scheduler.on_instruction(&instruction), PollDecision::Skip);
    }
}

#[test]
fn new_instruction_after_repeat_is_processed() {
    let mut scheduler = Scheduler::new();
    assert_eq!(scheduler.on_instruction(&String::from("a")), PollDecision::Process);
    assert_eq!(scheduler.on_instruction(&String::from("a")), PollDecision::Skip);
    assert_eq!(scheduler.on_instruction(&String::from("b")), PollDecision::Process);
    assert_eq!(scheduler.on_instruction(&String::from("a")), PollDecision::Process);
}

#[test]
fn success_after_failures_counts_attempts() {
    let outcomes = vec![
        Err(AttemptError::Execution(String::from("attempt to call a nil value"))),
        Err(AttemptError::MalformedResponse),
        Ok(String::from("done")),
    ];
    let (controller, made) = run_to_end(4, outcomes);
    assert_eq!(made, 3);
    let payload = controller.report().unwrap();
    assert_eq!(payload.message, "done");
    assert_eq!(payload.attempts, "3");
}

#[test]
fn each_failure_makes_one_more_attempt_due() {
    let mut controller = RetryController::new(4);
    for n in 1..=3u32 {
        assert_eq!(controller.pending_attempt(), Some(n));
        assert!(controller.report().is_none());
        controller.record(Err(AttemptError::Api(String::from("rate limited"))));
    }
    assert_eq!(controller.pending_attempt(), Some(4));
}

#[test]
fn success_on_last_allowed_attempt() {
    let outcomes = vec![
        Err(AttemptError::MalformedResponse),
        Err(AttemptError::MalformedResponse),
        Err(AttemptError::MalformedResponse),
        Ok(String::from("late")),
    ];
    let (controller, made) = run_to_end(4, outcomes);
    assert_eq!(made, 4);
    let payload = controller.report().unwrap();
    assert_eq!(payload.message, "late");
    assert_eq!(payload.attempts, "4");
}

#[test]
fn ceiling_failures_end_with_last_error() {
    let outcomes = vec![
        Err(AttemptError::MalformedResponse),
        Err(AttemptError::Api(String::from("bad key"))),
        Err(AttemptError::Network(String::from("timed out"))),
        Err(AttemptError::Execution(String::from("syntax error near 'end'"))),
        Ok(String::from("never reached")),
    ];
    let (controller, made) = run_to_end(MAX_ATTEMPTS, outcomes);
    assert_eq!(made, 4);
    let payload = controller.report().unwrap();
    assert_eq!(payload.message, "Fatal error generating Lua: script error: syntax error near 'end'");
    assert_eq!(payload.attempts, "4");
}

#[test]
fn terminal_state_ignores_later_outcomes() {
    let mut controller = RetryController::new(2);
    controller.record(Ok(String::from("first")));
    controller.record(Ok(String::from("second")));
    controller.record(Err(AttemptError::MalformedResponse));
    let payload = controller.report().unwrap();
    assert_eq!(payload.message, "first");
    assert_eq!(payload.attempts, "1");
}

#[test]
fn single_attempt_ceiling() {
    let mut controller = RetryController::new(1);
    controller.record(Err(AttemptError::Network(String::from("refused"))));
    let payload = controller.report().unwrap();
    assert_eq!(payload.message, "Fatal error generating Lua: network error: refused");
    assert_eq!(payload.attempts, "1");
}

#[test]
fn error_descriptions() {
    assert_eq!(AttemptError::Network(String::from("n")).describe(), "network error: n");
    assert_eq!(AttemptError::Api(String::from("a")).describe(), "API error: a");
    assert_eq!(AttemptError::MalformedResponse.describe(), "no script text in the completion");
    assert_eq!(AttemptError::Execution(String::from("e")).describe(), "script error: e");
}

#[test]
fn successful_empty_string_result_is_kept() {
    let mut controller = RetryController::new(3);
    controller.record(Ok(String::new()));
    let payload = controller.report().unwrap();
    assert_eq!(payload.message, "");
    assert_eq!(payload.attempts, "1");
}

#[test]
fn exchange_has_system_then_user() {
    let exchange = chat_exchange("Show disk usage");
    assert_eq!(exchange.len(), 2);
    assert_eq!(exchange[0].role, ChatRole::System);
    assert_eq!(exchange[0].content, SYSTEM_PROMPT);
    assert!(exchange[0].content.contains("return result"));
    assert_eq!(exchange[1].role, ChatRole::User);
    assert_eq!(exchange[1].content, "Show disk usage");
    assert_eq!(COMPLETION_MODEL, "o1");
}

#[test]
fn first_choice_taken_verbatim() {
    let choices = vec![Some(String::from("  return 'a'  ")), Some(String::from("return 'b'"))];
    assert_eq!(first_choice_script(&choices).unwrap(), "  return 'a'  ");
}

#[test]
fn no_usable_first_choice_is_malformed() {
    assert!(matches!(first_choice_script(&vec![]), Err(AttemptError::MalformedResponse)));
    assert!(matches!(first_choice_script(&vec![None]), Err(AttemptError::MalformedResponse)));
    assert!(matches!(
        first_choice_script(&vec![None, Some(String::from("return 'x'"))]),
        Err(AttemptError::MalformedResponse)
    ));
    assert!(matches!(
        first_choice_script(&vec![Some(String::new())]),
        Err(AttemptError::MalformedResponse)
    ));
}

#[test]
fn decimal_forms() {
    assert_eq!(to_decimal(0), "0");
    assert_eq!(to_decimal(7), "7");
    assert_eq!(to_decimal(10), "10");
    assert_eq!(to_decimal(1203), "1203");
    assert_eq!(to_decimal(u32::MAX), "4294967295");
}

#[test]
fn controller_urls() {
    assert_eq!(endpoint_url("http://host:8000", INSTRUCTION_ROUTE), "http://host:8000/get_message");
    assert_eq!(endpoint_url("http://host:8000", REPLY_ROUTE), "http://host:8000/reply");
}

#[test]
fn bearer_header_value() {
    assert_eq!(bearer_credential("SECRET-REDACTED"), "Bearer SECRET-REDACTED");
    assert_eq!(bearer_credential(""), "Bearer ");
}

#[test]
fn jitter_comes_from_candidates() {
    assert_eq!(jitter_candidates(), vec![1, 3, 5, 2, 9, 4, 8]);
    for _ in 0..50 {
        let seconds = next_sleep_seconds();
        assert!([1, 3, 5, 2, 9, 4, 8].contains(&seconds));
    }
}
