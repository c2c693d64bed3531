use auto_gippity::ai_functions::aifunc_architect::{
    print_project_scope, print_site_urls, Capability,
};
use auto_gippity::apis::call_request::{
    authorization, first_choice, TransportError, AUTHORIZATION_HEADER, CHAT_COMPLETIONS_URL,
    CHAT_MODEL, CREDENTIAL_VARIABLE,
};
use auto_gippity::helpers::command_line::PrintCommand;
use auto_gippity::helpers::general::{
    ai_task_request, ai_task_request_decoded, extend_ai_function, string_list_from, DecodeError,
    TaskOutcome,
};
use auto_gippity::models::agents::agent_traits::RunError;
use auto_gippity::models::general::llm::Message;

fn convert_user_input_to_goal() -> Capability {
    Capability {
        name: "convert_user_input_to_goal",
        instruction: "pub fn convert_user_input_to_goal(_user_request: &str) {\n    /// Input: Takes in a user request\n    /// Function: Converts user request into a short summarized goal\n    /// Output: Prints goal. All outputs start with \"build a website that ...\"\n    println!(OUTPUT)\n}",
    }
}

fn failure(detail: &str) -> TransportError {
    TransportError {
        detail: detail.to_string(),
    }
}

#[test]
fn tests_extending_ai_function() {
    let extended_msg: Message =
        extend_ai_function(&convert_user_input_to_goal(), "dummy variable");
    assert_eq!(extended_msg.role, "system".to_string());
}

#[test]
fn tests_proc_macro() {
    let some_function_for_ai_llm = Capability {
        name: "some_function_for_ai_llm",
        instruction: "fn some_function_for_ai_llm(_whatever_parm: &str) {\n    /// This is a an awesome fuciton\n    /// We shall give it to an AI to guess and output\n    /// In a structured manner\n    println!(\"{}\", OUTPUT);\n}",
    };
    let x: Message = extend_ai_function(&some_function_for_ai_llm, "some_input");
    assert!(x.content.contains(some_function_for_ai_llm.instruction));
    assert!(x.content.contains("some_input"));
}

#[test]
fn tests_ai_task_request() {
    let ai_func_param: String =
        "Build me a webserver for making stock price api requests.".to_string();

    let request = ai_task_request(
        ai_func_param,
        "Managing Agent",
        "Defining user requirements",
        &convert_user_input_to_goal(),
    );
    let reply = "build a website that serves stock prices over an api".to_string();
    let res: String = match request.settle(Ok(reply)) {
        TaskOutcome::Reply(text) => text,
        other => panic!("no reply: {:?}", other),
    };

    assert!(res.len() > 20);
}

#[test]
fn extended_prompt_is_exact() {
    let capability = Capability {
        name: "f",
        instruction: "fn f() {}",
    };
    let message = extend_ai_function(&capability, "the input");
    assert_eq!(message.role, "system");
    assert_eq!(
        message.content,
        "FUNCTION: fn f() {}\n  INSTRUCTION: You are a function printer. You ONLY print the results of functions.\n  Nothing else. No commentary. Here is the input to the function: the input.\n  Print out what the function will return."
    );
    let copy = message.duplicate();
    assert_eq!(copy.role, message.role);
    assert_eq!(copy.content, message.content);
}

#[test]
fn extended_prompt_of_empty_input() {
    let capability = Capability {
        name: "",
        instruction: "",
    };
    let message = extend_ai_function(&capability, "");
    assert_eq!(
        message.content,
        "FUNCTION: \n  INSTRUCTION: You are a function printer. You ONLY print the results of functions.\n  Nothing else. No commentary. Here is the input to the function: .\n  Print out what the function will return."
    );
}

#[test]
fn system_message_has_the_system_role() {
    let message = Message::system("hello".to_string());
    assert_eq!(message.role, "system");
    assert_eq!(message.content, "hello");
}

#[test]
fn capabilities_name_themselves() {
    let scope = print_project_scope();
    assert_eq!(scope.name, "print_project_scope");
    assert!(scope.instruction.contains("\"is_crud_required\": bool"));
    assert!(scope.instruction.contains("\"is_user_login_and_logout\": bool"));
    assert!(scope.instruction.contains("\"is_external_urls_required\": bool"));
    assert!(scope.instruction.contains("At least one of the bool results must be true"));
    let urls = print_site_urls();
    assert_eq!(urls.name, "print_site_urls");
    assert!(urls.instruction.contains("[\"url1\", \"url2\", \"url3\", ...]"));
    assert!(urls.instruction.contains("do not require any API Keys"));
}

#[test]
fn task_request_is_prepared_with_notice_and_message() {
    let capability = print_project_scope();
    let request = ai_task_request(
        "I need a simple TODO app".to_string(),
        "Solutions Architect",
        capability.name,
        &capability,
    );
    assert_eq!(request.notice.command, PrintCommand::AICall);
    assert_eq!(request.notice.position, "Solutions Architect");
    assert_eq!(request.notice.statement, "print_project_scope");
    assert!(!request.retried);
    let expected = extend_ai_function(&capability, "I need a simple TODO app");
    assert_eq!(request.message.role, expected.role);
    assert_eq!(request.message.content, expected.content);
    let conversation = request.conversation();
    assert_eq!(conversation.len(), 1);
    assert_eq!(conversation[0].role, "system");
    assert_eq!(conversation[0].content, expected.content);
}

#[test]
fn one_failure_then_success_is_a_reply() {
    let request = ai_task_request(
        "context".to_string(),
        "Agent",
        "operation",
        &convert_user_input_to_goal(),
    );
    let sent = request.message.content.clone();
    let mut calls = 1;
    let again = match request.settle(Err(failure("connection reset"))) {
        TaskOutcome::Retry(again) => again,
        other => panic!("no retry: {:?}", other),
    };
    assert!(again.retried);
    assert_eq!(again.message.content, sent);
    assert_eq!(again.message.role, "system");
    calls += 1;
    match again.settle(Ok("the goal".to_string())) {
        TaskOutcome::Reply(text) => assert_eq!(text, "the goal"),
        other => panic!("no reply: {:?}", other),
    }
    assert_eq!(calls, 2);
}

#[test]
fn two_failures_are_fatal() {
    let request = ai_task_request(
        "context".to_string(),
        "Agent",
        "operation",
        &convert_user_input_to_goal(),
    );
    let mut calls = 1;
    let again = match request.settle(Err(failure("first"))) {
        TaskOutcome::Retry(again) => again,
        other => panic!("no retry: {:?}", other),
    };
    calls += 1;
    match again.settle(Err(failure("second"))) {
        TaskOutcome::Fatal(error) => assert_eq!(error, failure("second")),
        other => panic!("not fatal: {:?}", other),
    }
    assert_eq!(calls, 2);
}

#[test]
fn first_success_needs_no_retry() {
    let request = ai_task_request(
        "context".to_string(),
        "Agent",
        "operation",
        &convert_user_input_to_goal(),
    );
    match request.settle(Ok(String::new())) {
        TaskOutcome::Reply(text) => assert_eq!(text, ""),
        other => panic!("no reply: {:?}", other),
    }
}

#[test]
fn url_list_is_decoded() {
    assert_eq!(
        ai_task_request_decoded(
            "[\"https://api.binance.com/api/v3/exchangeInfo\", \"https://api.kraken.com/0/public/Time\"]"
        ),
        Ok(vec![
            "https://api.binance.com/api/v3/exchangeInfo".to_string(),
            "https://api.kraken.com/0/public/Time".to_string()
        ])
    );
    assert_eq!(ai_task_request_decoded("[]"), Ok(vec![]));
    assert_eq!(
        ai_task_request_decoded(" [ \"a\\nb\" ] "),
        Ok(vec!["a\nb".to_string()])
    );
}

#[test]
fn other_shapes_are_decode_errors() {
    assert_eq!(ai_task_request_decoded("not json"), Err(DecodeError::Malformed));
    assert_eq!(ai_task_request_decoded(""), Err(DecodeError::Malformed));
    assert_eq!(ai_task_request_decoded("[1, 2]"), Err(DecodeError::Malformed));
    assert_eq!(ai_task_request_decoded("{\"urls\": []}"), Err(DecodeError::Malformed));
    assert_eq!(ai_task_request_decoded("[\"a\"] and more"), Err(DecodeError::Malformed));
    assert_eq!(ai_task_request_decoded("\"a\""), Err(DecodeError::Malformed));
}

#[test]
fn parser_results_are_mapped() {
    let parsed = serde_json::from_str::<Vec<String>>("[\"x\"]");
    assert_eq!(string_list_from(parsed), Ok(vec!["x".to_string()]));
    let parsed = serde_json::from_str::<Vec<String>>("[");
    assert_eq!(string_list_from(parsed), Err(DecodeError::Malformed));
}

#[test]
fn authorization_is_bearer_of_the_key() {
    assert_eq!(authorization(Some("abc123")), Ok("Bearer abc123".to_string()));
    assert_eq!(authorization(Some("")), Ok("Bearer ".to_string()));
    assert_eq!(authorization(None), Err(RunError::Configuration));
}

#[test]
fn first_choice_is_taken_verbatim() {
    assert_eq!(
        first_choice(vec!["  one \n".to_string(), "two".to_string()]),
        Ok("  one \n".to_string())
    );
    assert_eq!(first_choice(vec![String::new()]), Ok(String::new()));
    assert_eq!(
        first_choice(vec![]),
        Err(TransportError {
            detail: "the response holds no choice".to_string()
        })
    );
}

#[test]
fn gateway_constants() {
    assert_eq!(CHAT_COMPLETIONS_URL, "https://api.openai.com/v1/chat/completions");
    assert_eq!(CHAT_MODEL, "gpt-3.5-turbo");
    assert_eq!(CREDENTIAL_VARIABLE, "OPENAI_API_KEY");
    assert_eq!(AUTHORIZATION_HEADER, "authorization");
}
