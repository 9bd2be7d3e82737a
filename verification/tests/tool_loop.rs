use choir::ai_functions::website_to_md::ScrapeFailure;
use choir::ai_functions::{get_all_functions, AIFunctionParameter, FunctionRegistry, ToolError, ToolErrorKind};
use choir::modules::openai::{
    parameter_schema, parse_arguments, tool_outcome, ChatMessage, Choice, OpenAIService,
    ProviderReply, ToolCall, ToolDefinition, ToolOutcome, ToolStep, DEFAULT_MAX_ROUNDS,
};
use choir::modules::tool_loop::{LoopAction, LoopPhase, ToolLoop};
use serde_json::Value;

fn json(text: &str) -> Value {
    serde_json::from_str(text).unwrap()
}

fn call(id: &str, name: &str, arguments: &str) -> ToolCall {
    ToolCall { id: id.to_string(), name: name.to_string(), arguments: arguments.to_string() }
}

fn asks_for(content: Option<&str>, calls: Vec<ToolCall>) -> Result<ProviderReply, String> {
    Ok(ProviderReply {
        choices: vec![Choice { content: content.map(|c| c.to_string()), tool_calls: Some(calls) }],
    })
}

fn says(content: Option<&str>) -> Result<ProviderReply, String> {
    Ok(ProviderReply {
        choices: vec![Choice { content: content.map(|c| c.to_string()), tool_calls: None }],
    })
}

fn ask(model: &str) -> LoopAction {
    LoopAction::AskProvider { model: model.to_string() }
}

fn finish(outcome: Result<&str, &str>) -> LoopAction {
    LoopAction::Finish { outcome: outcome.map(|t| t.to_string()).map_err(|e| e.to_string()) }
}

#[test]
fn a_conversation_opens_with_instruction_and_prompt() {
    let service = OpenAIService::new();
    let conversation = service.process_openai_interactive("What's the weather in Paris?");
    assert_eq!(DEFAULT_MAX_ROUNDS, 15);
    assert_eq!(conversation.phase(), LoopPhase::AwaitingProvider);
    assert_eq!(conversation.rounds(), 0);
    assert_eq!(
        conversation.transcript(),
        &vec![
            ChatMessage::System {
                content:
                    "\n            Cut, to the point, and concise. Do not repeat yourself.\n        "
                        .to_string(),
            },
            ChatMessage::User { content: "What's the weather in Paris?".to_string() },
        ]
    );
    assert_eq!(conversation.next_action(), ask("gpt-4o"));
}

#[test]
fn one_tool_call_then_an_answer_takes_two_round_trips() {
    let service = OpenAIService::new();
    let mut conversation = service.process_openai_interactive("Weather in Paris?");
    let requested = call("call_1", "get_weather", "{\"location\":\"Paris\"}");
    let mut round_trips = 0;
    let mut tool_runs = 0;
    let answer = loop {
        match conversation.next_action() {
            LoopAction::AskProvider { model } => {
                round_trips += 1;
                let reply = if round_trips == 1 {
                    assert_eq!(model, "gpt-4o");
                    asks_for(None, vec![requested.clone()])
                } else {
                    assert_eq!(model, "gpt-4.1");
                    says(Some("It is 69 degrees in Paris."))
                };
                conversation = conversation.on_reply(reply);
            }
            LoopAction::RunTool { call } => {
                tool_runs += 1;
                assert_eq!(call, requested);
                let outcome = match service.run_tool(&call) {
                    ToolStep::Done(outcome) => outcome,
                    ToolStep::Scrape { url } => panic!("unexpected fetch of {}", url),
                };
                conversation = conversation.on_tool_result(outcome);
            }
            LoopAction::Finish { outcome } => break outcome,
        }
    };
    assert_eq!(answer, Ok("It is 69 degrees in Paris.".to_string()));
    assert_eq!(round_trips, 2);
    assert_eq!(tool_runs, 1);
    assert_eq!(conversation.rounds(), 2);
    assert_eq!(conversation.phase(), LoopPhase::Done);

    let transcript = conversation.transcript();
    assert_eq!(transcript.len(), 4);
    assert!(matches!(transcript[0], ChatMessage::System { .. }));
    assert_eq!(transcript[1], ChatMessage::User { content: "Weather in Paris?".to_string() });
    let tool_call_messages: Vec<&ChatMessage> = transcript
        .iter()
        .filter(|m| matches!(m, ChatMessage::Assistant { tool_calls: Some(_), .. }))
        .collect();
    assert_eq!(
        tool_call_messages,
        vec![&ChatMessage::Assistant { content: None, tool_calls: Some(vec![requested.clone()]) }]
    );
    let results: Vec<&ChatMessage> =
        transcript.iter().filter(|m| matches!(m, ChatMessage::Tool { .. })).collect();
    assert_eq!(results.len(), 1);
    match results[0] {
        ChatMessage::Tool { content, tool_call_id } => {
            assert_eq!(tool_call_id, "call_1");
            let report = json(content);
            assert_eq!(report["location"], Value::String("Paris".to_string()));
            assert_eq!(report["units"], Value::String("celsius".to_string()));
            assert_eq!(
                report["weather_data"],
                Value::String("Its currently 69dg celsius. in Paris".to_string())
            );
        }
        other => panic!("unexpected message {:?}", other),
    }
    assert_eq!(transcript[2], *tool_call_messages[0]);
    assert_eq!(transcript[3], *results[0]);
}

#[test]
fn every_requested_call_gets_its_result_in_order() {
    let conversation = ToolLoop::start("go", 4);
    let calls = vec![call("a", "get_weather", "{}"), call("b", "nope", ""), call("c", "x", "{}")];
    let conversation = conversation.on_reply(asks_for(Some("thinking"), calls.clone()));
    assert_eq!(conversation.phase(), LoopPhase::ExecutingTools);
    assert_eq!(conversation.next_action(), LoopAction::RunTool { call: calls[0].clone() });
    let conversation = conversation.on_tool_result(ToolOutcome::Message("one".to_string()));
    assert_eq!(conversation.next_action(), LoopAction::RunTool { call: calls[1].clone() });
    let conversation = conversation.on_tool_result(ToolOutcome::Message("two".to_string()));
    assert_eq!(conversation.phase(), LoopPhase::ExecutingTools);
    let conversation = conversation.on_tool_result(ToolOutcome::Message("three".to_string()));
    assert_eq!(conversation.phase(), LoopPhase::AwaitingProvider);
    assert_eq!(conversation.next_action(), ask("gpt-4.1"));
    assert_eq!(conversation.transcript()[1], ChatMessage::User { content: "go".to_string() });
    assert_eq!(
        conversation.transcript()[2..].to_vec(),
        vec![
            ChatMessage::Assistant {
                content: Some("thinking".to_string()),
                tool_calls: Some(calls),
            },
            ChatMessage::Tool { content: "one".to_string(), tool_call_id: "a".to_string() },
            ChatMessage::Tool { content: "two".to_string(), tool_call_id: "b".to_string() },
            ChatMessage::Tool { content: "three".to_string(), tool_call_id: "c".to_string() },
        ]
    );
}

#[test]
fn a_reply_without_text_gives_the_fallback() {
    let done = ToolLoop::start("go", 4).on_reply(says(None));
    assert_eq!(done.next_action(), finish(Ok("LLM failed to respond.")));
    let done = ToolLoop::start("go", 4).on_reply(Ok(ProviderReply { choices: Vec::new() }));
    assert_eq!(done.next_action(), finish(Ok("LLM failed to respond.")));
    assert_eq!(done.rounds(), 1);
    let done = ToolLoop::start("go", 4).on_reply(says(Some("")));
    assert_eq!(done.next_action(), finish(Ok("")));
}

#[test]
fn an_empty_list_of_calls_asks_for_no_tool() {
    let done = ToolLoop::start("go", 4).on_reply(asks_for(Some("final"), Vec::new()));
    assert_eq!(done.phase(), LoopPhase::Done);
    assert_eq!(done.next_action(), finish(Ok("final")));
    assert_eq!(done.transcript().len(), 2);
}

#[test]
fn only_the_first_choice_counts() {
    let reply = Ok(ProviderReply {
        choices: vec![
            Choice { content: Some("first".to_string()), tool_calls: None },
            Choice {
                content: Some("second".to_string()),
                tool_calls: Some(vec![call("a", "get_weather", "{}")]),
            },
        ],
    });
    let done = ToolLoop::start("go", 4).on_reply(reply);
    assert_eq!(done.next_action(), finish(Ok("first")));
}

#[test]
fn a_provider_failure_ends_the_conversation() {
    let failed = ToolLoop::start("go", 4).on_reply(Err("provider unreachable".to_string()));
    assert_eq!(failed.phase(), LoopPhase::Done);
    assert_eq!(failed.next_action(), finish(Err("provider unreachable")));
    assert_eq!(failed.rounds(), 1);
}

#[test]
fn a_result_that_cannot_be_written_ends_the_conversation() {
    let conversation =
        ToolLoop::start("go", 4).on_reply(asks_for(None, vec![call("a", "get_weather", "{}")]));
    let failed = conversation.on_tool_result(ToolOutcome::Abort("key must be a string".to_string()));
    assert_eq!(failed.next_action(), finish(Err("key must be a string")));
    assert_eq!(failed.transcript().len(), 3);
}

#[test]
fn the_limit_of_rounds_ends_the_conversation_with_what_there_is() {
    let greedy = |text: Option<&str>| asks_for(text, vec![call("a", "get_weather", "{}")]);
    let mut conversation = ToolLoop::start("go", 3);
    let mut round_trips = 0;
    let outcome = loop {
        match conversation.next_action() {
            LoopAction::AskProvider { .. } => {
                round_trips += 1;
                conversation = conversation.on_reply(greedy(Some("partial")));
            }
            LoopAction::RunTool { .. } => {
                conversation = conversation.on_tool_result(ToolOutcome::Message("r".to_string()));
            }
            LoopAction::Finish { outcome } => break outcome,
        }
        assert!(round_trips <= 3);
    };
    assert_eq!(round_trips, 3);
    assert_eq!(conversation.rounds(), 3);
    assert_eq!(outcome, Ok("partial".to_string()));
    assert_eq!(conversation.transcript().len(), 2 + 2 * 2);

    let capped = ToolLoop::start("go", 1).on_reply(greedy(None));
    assert_eq!(capped.next_action(), finish(Ok("LLM failed to respond.")));
    let capped = ToolLoop::start("go", 0).on_reply(greedy(Some("only")));
    assert_eq!(capped.next_action(), finish(Ok("only")));
    assert_eq!(capped.rounds(), 1);
}

#[test]
fn events_out_of_turn_change_nothing() {
    let fresh = ToolLoop::start("go", 4);
    let same = fresh.on_tool_result(ToolOutcome::Message("stray".to_string()));
    assert_eq!(same.phase(), LoopPhase::AwaitingProvider);
    assert_eq!(same.transcript().len(), 2);
    assert_eq!(same.rounds(), 0);

    let running = same.on_reply(asks_for(None, vec![call("a", "get_weather", "{}")]));
    let still = running.on_reply(says(Some("too early")));
    assert_eq!(still.phase(), LoopPhase::ExecutingTools);
    assert_eq!(still.rounds(), 1);
    assert_eq!(still.transcript().len(), 3);

    let done = ToolLoop::start("go", 4).on_reply(says(Some("end")));
    let after = done.on_reply(says(Some("again")));
    let after = after.on_tool_result(ToolOutcome::Message("late".to_string()));
    assert_eq!(after.next_action(), finish(Ok("end")));
    assert_eq!(after.rounds(), 1);
    assert_eq!(after.transcript().len(), 2);
}

#[test]
fn an_unknown_tool_is_reported_to_the_conversation() {
    let service = OpenAIService::new();
    let requested = call("c9", "teleport", "{\"to\":\"Mars\"}");
    let first = service.run_tool(&requested);
    let second = service.run_tool(&requested);
    assert_eq!(
        first,
        ToolStep::Done(ToolOutcome::Message("Function 'teleport' not found".to_string()))
    );
    assert_eq!(first, second);
}

#[test]
fn a_tool_failure_is_reported_behind_error() {
    let service = OpenAIService::new();
    assert_eq!(
        service.run_tool(&call("c1", "get_weather", "{}")),
        ToolStep::Done(ToolOutcome::Message("Error: missing field `location`".to_string()))
    );
    assert_eq!(
        service.run_tool(&call("c1", "get_weather", "not json")),
        ToolStep::Done(ToolOutcome::Message("Error: missing field `location`".to_string()))
    );
    assert_eq!(
        service.run_tool(&call("c1", "get_weather", "[\"Paris\"]")),
        ToolStep::Done(ToolOutcome::Message("Error: missing field `location`".to_string()))
    );
    assert_eq!(
        service.run_tool(&call("c1", "website_to_md", "{\"url\":4}")),
        ToolStep::Done(ToolOutcome::Message(
            "Error: invalid type for field `url`: expected a string".to_string()
        ))
    );
    assert_eq!(
        tool_outcome(Err(ToolError::new(ToolErrorKind::Failed, "Failed to scrape URL: 404"))),
        ToolOutcome::Message("Error: Failed to scrape URL: 404".to_string())
    );
}

#[test]
fn a_fetch_is_handed_out_and_completed() {
    let service = OpenAIService::new();
    let step = service.run_tool(&call("c1", "website_to_md", "{\"url\":\"https://example.com\"}"));
    assert_eq!(step, ToolStep::Scrape { url: "https://example.com".to_string() });
    assert_eq!(
        OpenAIService::finish_scrape(
            "https://example.com".to_string(),
            Ok(Some("# Example \"quoted\"".to_string()))
        ),
        ToolOutcome::Message(
            "{\"markdown\":\"# Example \\\"quoted\\\"\",\"title\":null,\"url\":\"https://example.com\"}"
                .to_string()
        )
    );
    assert_eq!(
        OpenAIService::finish_scrape(
            "https://example.com".to_string(),
            Err(ScrapeFailure::Scrape("timeout".to_string()))
        ),
        ToolOutcome::Message("Error: Failed to scrape URL: timeout".to_string())
    );
}

#[test]
fn a_result_is_written_as_compact_json() {
    assert_eq!(
        tool_outcome(Ok(json("{ \"b\" : [1, 2.5, true, null], \"a\" : { \"x\" : \"y\" } }"))),
        ToolOutcome::Message("{\"a\":{\"x\":\"y\"},\"b\":[1,2.5,true,null]}".to_string())
    );
    assert_eq!(tool_outcome(Ok(json("\"text\""))), ToolOutcome::Message("\"text\"".to_string()));
}

#[test]
fn arguments_that_spell_no_object_count_as_none() {
    assert_eq!(parse_arguments("{\"a\":1}"), json("{\"a\":1}"));
    assert_eq!(parse_arguments(" { \"a\" : { \"b\" : [] } } "), json("{\"a\":{\"b\":[]}}"));
    for text in ["", "not json", "[1,2]", "\"text\"", "3", "null", "{\"a\":}", "{} trailing"] {
        assert_eq!(parse_arguments(text), json("{}"), "{:?}", text);
    }
}

#[test]
fn the_parameter_schema_lists_properties_and_required() {
    let parameters = vec![
        ("location".to_string(), AIFunctionParameter::new("string", "Where", true)),
        ("units".to_string(), AIFunctionParameter::new("string", "Which", false)),
        ("days".to_string(), AIFunctionParameter::new("integer", "How long", true)),
    ];
    assert_eq!(
        parameter_schema(&parameters),
        json(
            "{\"type\":\"object\",\
              \"properties\":{\
                \"location\":{\"type\":\"string\",\"description\":\"Where\"},\
                \"units\":{\"type\":\"string\",\"description\":\"Which\"},\
                \"days\":{\"type\":\"integer\",\"description\":\"How long\"}},\
              \"required\":[\"location\",\"days\"]}"
        )
    );
    assert_eq!(
        parameter_schema(&Vec::new()),
        json("{\"type\":\"object\",\"properties\":{},\"required\":[]}")
    );
}

#[test]
fn a_parameter_given_again_takes_the_place_of_the_earlier_one() {
    let parameters = vec![
        ("a".to_string(), AIFunctionParameter::new("string", "first", true)),
        ("b".to_string(), AIFunctionParameter::new("string", "other", true)),
        ("a".to_string(), AIFunctionParameter::new("integer", "second", false)),
    ];
    assert_eq!(
        parameter_schema(&parameters),
        json(
            "{\"type\":\"object\",\
              \"properties\":{\
                \"a\":{\"type\":\"integer\",\"description\":\"second\"},\
                \"b\":{\"type\":\"string\",\"description\":\"other\"}},\
              \"required\":[\"b\"]}"
        )
    );
    let parameters = vec![
        ("a".to_string(), AIFunctionParameter::new("string", "first", true)),
        ("a".to_string(), AIFunctionParameter::new("string", "second", true)),
    ];
    assert_eq!(
        parameter_schema(&parameters),
        json(
            "{\"type\":\"object\",\
              \"properties\":{\"a\":{\"type\":\"string\",\"description\":\"second\"}},\
              \"required\":[\"a\"]}"
        )
    );
}

#[test]
fn the_tools_are_advertised_with_their_schemas() {
    let tools = OpenAIService::new().get_function_tools();
    assert_eq!(
        tools,
        vec![
            ToolDefinition {
                name: "get_weather".to_string(),
                description: "Get current weather information for a specified location"
                    .to_string(),
                parameters: json(
                    "{\"type\":\"object\",\
                      \"properties\":{\
                        \"location\":{\"type\":\"string\",\
                          \"description\":\"The location to get weather for (city, state/country)\"},\
                        \"units\":{\"type\":\"string\",\
                          \"description\":\"Temperature units: celsius, fahrenheit, kelvin\"}},\
                      \"required\":[\"location\"]}"
                ),
            },
            ToolDefinition {
                name: "website_to_md".to_string(),
                description: "Convert a website to markdown format using Firecrawl".to_string(),
                parameters: json(
                    "{\"type\":\"object\",\
                      \"properties\":{\
                        \"url\":{\"type\":\"string\",\
                          \"description\":\"The URL of the website to convert to markdown\"}},\
                      \"required\":[\"url\"]}"
                ),
            },
        ]
    );
    let none = OpenAIService { functions: FunctionRegistry::new(Vec::new()) };
    assert!(none.get_function_tools().is_empty());
    let twice = OpenAIService {
        functions: FunctionRegistry::new(vec![get_all_functions()[1], get_all_functions()[1]]),
    };
    assert_eq!(twice.get_function_tools().len(), 1);
    let one = OpenAIService { functions: FunctionRegistry::new(get_all_functions()[1..].to_vec()) };
    assert_eq!(one.get_function_tools().len(), 1);
    assert_eq!(one.get_function_tools()[0].name, "website_to_md");
}

#[test]
fn a_completion_is_the_text_of_the_first_choice() {
    assert_eq!(
        OpenAIService::get_completion_response(says(Some("hello"))),
        Ok("hello".to_string())
    );
    assert_eq!(OpenAIService::get_completion_response(says(None)), Ok(String::new()));
    assert_eq!(
        OpenAIService::get_completion_response(Ok(ProviderReply { choices: Vec::new() })),
        Ok(String::new())
    );
    assert_eq!(
        OpenAIService::get_completion_response(Err("rate limited".to_string())),
        Err("rate limited".to_string())
    );
    let two = Ok(ProviderReply {
        choices: vec![
            Choice { content: Some("a".to_string()), tool_calls: None },
            Choice { content: Some("b".to_string()), tool_calls: None },
        ],
    });
    assert_eq!(OpenAIService::get_completion_response(two), Ok("a".to_string()));
}

#[test]
fn a_completion_request_names_its_schema_root() {
    let messages = vec![ChatMessage::system("s"), ChatMessage::user("u")];
    let plain = OpenAIService::completion_request("gpt-4o", messages.clone(), None);
    assert_eq!(plain.model, "gpt-4o");
    assert_eq!(plain.messages, messages);
    assert_eq!(plain.response_format, None);
    let shaped =
        OpenAIService::completion_request("m", messages, Some(json("{\"type\":\"string\"}")));
    let format = shaped.response_format.unwrap();
    assert_eq!(format.name, "root");
    assert_eq!(format.schema, json("{\"type\":\"string\"}"));
}
