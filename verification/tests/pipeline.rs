use choir::ai_functions::website_to_md::ScrapeFailure;
use choir::ai_functions::{get_all_functions, FunctionRegistry};
use choir::modules::choir::{
    agent_instruction, agent_requests, append_content, assessment_request, collect_agents,
    find_urls, planning_request, synthesis_request, ChoirAction, ChoirEvent, ChoirRun,
    ChoirService, ChoirStage, AGENT_COUNT, CHORUS_INSTRUCTION, PLAN_FALLBACK,
    SUMMARY_INSTRUCTION, TASK_MASTER_INSTRUCTION,
};
use choir::modules::openai::{ChatMessage, CompletionRequest, ResponseFormat};
use choir::routes::choir::choir_reply;
use choir::types::tchoir::{ChoirAgentResponse, ChoirRequest, AGENT_FAILURE};
use serde_json::Value;

fn json(text: &str) -> Value {
    serde_json::from_str(text).unwrap()
}

fn agent_schema() -> Value {
    json("{\"title\":\"ChoirAgentResponse\",\"type\":\"object\"}")
}

fn service() -> ChoirService {
    ChoirService::new(agent_schema())
}

fn request(query: &str) -> ChoirRequest {
    ChoirRequest { query: query.to_string(), json_schema: None }
}

fn answer(n: usize) -> ChoirAgentResponse {
    ChoirAgentResponse {
        detailed_response: format!("detail {}", n),
        short_overview: format!("short {}", n),
        thoughts: format!("thoughts {}", n),
    }
}

fn output(n: usize) -> String {
    format!(
        "{{\"detailed_response\":\"detail {}\",\"short_overview\":\"short {}\",\"thoughts\":\"thoughts {}\"}}",
        n, n, n
    )
}

fn system_and_user(request: &CompletionRequest) -> (String, String) {
    assert_eq!(request.model, "gpt-4o");
    assert_eq!(request.messages.len(), 2);
    match (&request.messages[0], &request.messages[1]) {
        (ChatMessage::System { content: s }, ChatMessage::User { content: u }) => {
            (s.clone(), u.clone())
        }
        other => panic!("unexpected messages {:?}", other),
    }
}

fn completed(text: &str) -> ChoirEvent {
    ChoirEvent::Completed { reply: Ok(text.to_string()) }
}

fn failed(why: &str) -> ChoirEvent {
    ChoirEvent::Completed { reply: Err(why.to_string()) }
}

#[test]
fn the_failed_agent_has_the_placeholder_in_every_field() {
    let empty = ChoirAgentResponse::empty();
    assert_eq!(AGENT_FAILURE, "Agent failed while generating. Discount them from processing.");
    assert_eq!(empty.detailed_response, AGENT_FAILURE);
    assert_eq!(empty.short_overview, AGENT_FAILURE);
    assert_eq!(empty.thoughts, AGENT_FAILURE);
    assert_eq!(empty, ChoirAgentResponse::empty());
}

#[test]
fn an_answer_is_read_from_an_object_of_three_strings() {
    assert_eq!(ChoirAgentResponse::decode(&output(3)), Some(answer(3)));
    assert_eq!(
        ChoirAgentResponse::decode(
            "  {\"thoughts\":\"t\",\"extra\":[1],\"short_overview\":\"s\",\"detailed_response\":\"d\"} "
        ),
        Some(ChoirAgentResponse {
            detailed_response: "d".to_string(),
            short_overview: "s".to_string(),
            thoughts: "t".to_string(),
        })
    );
    assert_eq!(ChoirAgentResponse::from_json(&json(&output(1))), Some(answer(1)));
}

#[test]
fn an_output_of_another_shape_is_no_answer() {
    for text in [
        "",
        "not json",
        "{}",
        "{\"detailed_response\":\"d\",\"short_overview\":\"s\"}",
        "{\"detailed_response\":\"d\",\"short_overview\":\"s\",\"thoughts\":null}",
        "{\"detailed_response\":1,\"short_overview\":\"s\",\"thoughts\":\"t\"}",
        "[\"d\",\"s\",\"t\"]",
        "\"d\"",
        "{\"detailed_response\":\"d\",\"short_overview\":\"s\",\"thoughts\":\"t\"",
    ] {
        assert_eq!(ChoirAgentResponse::decode(text), None, "{:?}", text);
    }
}

#[test]
fn the_fan_in_keeps_five_answers_in_role_order() {
    let all: Vec<Result<String, String>> = (1..=5).map(|n| Ok(output(n))).collect();
    assert_eq!(collect_agents(&all), (1..=5).map(answer).collect::<Vec<_>>());

    let mut one_failed = all.clone();
    one_failed[2] = Err("timeout".to_string());
    assert_eq!(
        collect_agents(&one_failed),
        vec![answer(1), answer(2), ChoirAgentResponse::empty(), answer(4), answer(5)]
    );

    let mut one_garbled = all.clone();
    one_garbled[0] = Ok("I am sorry, but".to_string());
    assert_eq!(
        collect_agents(&one_garbled),
        vec![ChoirAgentResponse::empty(), answer(2), answer(3), answer(4), answer(5)]
    );

    let none: Vec<Result<String, String>> = (1..=5).map(|n| Err(format!("e{}", n))).collect();
    assert_eq!(collect_agents(&none), vec![ChoirAgentResponse::empty(); 5]);
}

#[test]
fn the_fan_in_fills_missing_slots_and_passes_over_extra_ones() {
    assert_eq!(AGENT_COUNT, 5);
    assert_eq!(collect_agents(&Vec::new()), vec![ChoirAgentResponse::empty(); 5]);
    let two: Vec<Result<String, String>> = vec![Ok(output(1)), Ok(output(2))];
    assert_eq!(
        collect_agents(&two),
        vec![
            answer(1),
            answer(2),
            ChoirAgentResponse::empty(),
            ChoirAgentResponse::empty(),
            ChoirAgentResponse::empty()
        ]
    );
    let seven: Vec<Result<String, String>> = (1..=7).map(|n| Ok(output(n))).collect();
    assert_eq!(collect_agents(&seven), (1..=5).map(answer).collect::<Vec<_>>());
}

#[test]
fn urls_are_found_in_the_order_of_the_query() {
    assert_eq!(
        find_urls("compare https://a.example/x?y=1 with http://b.example, please"),
        vec!["https://a.example/x?y=1".to_string(), "http://b.example,".to_string()]
    );
    assert_eq!(
        find_urls("one\thttps://a.example\nhttps://b.example/path two"),
        vec!["https://a.example".to_string(), "https://b.example/path".to_string()]
    );
    assert!(find_urls("What's the weather in Paris?").is_empty());
    assert!(find_urls("ftp://a.example https:// http://").is_empty());
    assert!(find_urls("").is_empty());
}

#[test]
fn fetched_content_is_appended_in_a_block() {
    assert_eq!(
        append_content("read https://a.example".to_string(), "https://a.example", "# A"),
        "read https://a.example\n\n--- Content from https://a.example ---\n# A"
    );
    assert_eq!(append_content(String::new(), "", ""), "\n\n--- Content from  ---\n");
}

#[test]
fn the_task_master_gets_the_enriched_query() {
    let (system, user) = system_and_user(&planning_request("the query"));
    assert_eq!(system, TASK_MASTER_INSTRUCTION);
    assert!(system.contains("You are the task master coordinating 5 expert agents."));
    assert!(system.contains("5. Comprehensive synthesis approach"));
    assert_eq!(user, "the query");
    assert_eq!(planning_request("q").response_format, None);
}

#[test]
fn each_agent_gets_its_own_instruction_and_the_plan() {
    let schema = agent_schema();
    let requests = agent_requests("the plan", &schema);
    assert_eq!(requests.len(), 5);
    let names = [
        "You are Agent 1: Direct Analysis Expert. Focus on the first assigned approach.",
        "You are Agent 2: Critical Evaluator. Focus on the second assigned approach.",
        "You are Agent 3: Context Specialist. Focus on the third assigned approach.",
        "You are Agent 4: Creative Interpreter. Focus on the fourth assigned approach.",
        "You are Agent 5: Synthesis Expert. Focus on the fifth assigned approach.",
    ];
    for (role, request) in requests.iter().enumerate() {
        let (system, user) = system_and_user(request);
        assert!(system.starts_with(names[role]), "{}", system);
        assert_eq!(system, agent_instruction(role));
        assert!(system.contains("- \"detailed_response\":"));
        assert_eq!(user, "the plan");
        assert_eq!(
            request.response_format,
            Some(ResponseFormat { name: "root".to_string(), schema: schema.clone() })
        );
    }
    assert!(agent_instruction(4).ends_with("Integrate different viewpoints and provide comprehensive analysis."));
}

#[test]
fn the_chorus_reads_the_detailed_answers_by_role() {
    let agents: Vec<ChoirAgentResponse> = (1..=5).map(answer).collect();
    let asked = assessment_request(&agents, Some(json("{\"type\":\"object\"}")));
    let (system, user) = system_and_user(&asked);
    assert_eq!(system, CHORUS_INSTRUCTION);
    assert!(system.contains("You are chorus."));
    assert_eq!(
        user,
        "Agent 1: detail 1\nAgent 2: detail 2\nAgent 3: detail 3\nAgent 4: detail 4\nAgent 5: detail 5"
    );
    assert_eq!(
        asked.response_format,
        Some(ResponseFormat { name: "root".to_string(), schema: json("{\"type\":\"object\"}") })
    );
    assert_eq!(assessment_request(&agents, None).response_format, None);
}

#[test]
fn the_final_call_reads_query_assessment_and_answers() {
    let agents = vec![
        ChoirAgentResponse {
            detailed_response: "says \"hi\"".to_string(),
            short_overview: "s".to_string(),
            thoughts: "t".to_string(),
        },
        answer(2),
    ];
    let asked = synthesis_request("the query", "the assessment", &agents);
    let (system, user) = system_and_user(&asked);
    assert_eq!(system, SUMMARY_INSTRUCTION);
    assert!(system.contains("You are the final summary agent."));
    assert_eq!(
        user,
        "User's original query: the query\n\nExpert analysis: the assessment\n\n\
         Detailed agent responses: [\n    \"says \\\"hi\\\"\",\n    \"detail 2\",\n]"
    );
    assert_eq!(asked.response_format, None);
    let (_, none) = system_and_user(&synthesis_request("q", "a", &Vec::new()));
    assert_eq!(none, "User's original query: q\n\nExpert analysis: a\n\nDetailed agent responses: []");
}

#[test]
fn a_query_without_urls_goes_straight_to_planning() {
    let run = service().run_choir(request("What's the weather in Paris?"));
    assert_eq!(run.stage(), ChoirStage::Planning);
    assert_eq!(run.enriched(), "What's the weather in Paris?");
    assert_eq!(
        run.next_action(),
        ChoirAction::Complete { request: planning_request("What's the weather in Paris?") }
    );
}

#[test]
fn enrichment_survives_a_failed_fetch() {
    let query = "sum up https://good.example/a and https://bad.example/b";
    let run = service().run_choir(request(query));
    assert_eq!(run.stage(), ChoirStage::Enriching);
    assert_eq!(run.next_action(), ChoirAction::Scrape { url: "https://good.example/a".to_string() });
    let run = run.advance(ChoirEvent::Scraped { scraped: Ok(Some("# Good page".to_string())) });
    assert_eq!(run.stage(), ChoirStage::Enriching);
    assert_eq!(run.next_action(), ChoirAction::Scrape { url: "https://bad.example/b".to_string() });
    let run = run.advance(ChoirEvent::Scraped {
        scraped: Err(ScrapeFailure::Scrape("503".to_string())),
    });

    let expected = format!("{}\n\n--- Content from https://good.example/a ---\n# Good page", query);
    assert_eq!(run.enriched(), expected);
    assert_eq!(run.enriched().matches("--- Content from ").count(), 1);
    assert_eq!(run.failed_urls(), &vec!["https://bad.example/b".to_string()]);
    assert_eq!(run.stage(), ChoirStage::Planning);
    assert_eq!(run.next_action(), ChoirAction::Complete { request: planning_request(&expected) });
}

#[test]
fn enrichment_appends_the_pages_in_order() {
    let run = service().run_with_urls(
        request("q"),
        vec!["http://one".to_string(), "http://two".to_string(), "http://three".to_string()],
    );
    let run = run.advance(ChoirEvent::Scraped {
        scraped: Err(ScrapeFailure::Client("no key".to_string())),
    });
    let run = run.advance(ChoirEvent::Scraped { scraped: Ok(None) });
    assert_eq!(run.stage(), ChoirStage::Enriching);
    let run = run.advance(ChoirEvent::Scraped { scraped: Ok(Some("3".to_string())) });
    assert_eq!(run.stage(), ChoirStage::Planning);
    assert_eq!(
        run.enriched(),
        "q\n\n--- Content from http://two ---\nNo content found\n\n--- Content from http://three ---\n3"
    );
    assert_eq!(run.failed_urls(), &vec!["http://one".to_string()]);
}

#[test]
fn without_a_fetch_tool_nothing_is_fetched() {
    let bare = ChoirService {
        ai_functions: FunctionRegistry::new(get_all_functions()[..1].to_vec()),
        agent_schema: agent_schema(),
    };
    assert!(!bare.can_fetch());
    assert!(service().can_fetch());
    let run = bare.run_choir(request("see https://a.example"));
    assert_eq!(run.stage(), ChoirStage::Planning);
    assert_eq!(run.enriched(), "see https://a.example");
    assert!(run.failed_urls().is_empty());
}

#[test]
fn a_failed_plan_is_replaced_by_the_fallback() {
    let run = service().run_choir(request("q")).advance(failed("provider down"));
    assert_eq!(run.stage(), ChoirStage::Dispatching);
    assert_eq!(
        run.next_action(),
        ChoirAction::CompleteAll { requests: agent_requests(PLAN_FALLBACK, &agent_schema()) }
    );
    assert!(!PLAN_FALLBACK.is_empty());
}

#[test]
fn a_failed_assessment_ends_the_run() {
    let run = service()
        .run_choir(request("q"))
        .advance(completed("plan"))
        .advance(ChoirEvent::AllCompleted { replies: Vec::new() })
        .advance(failed("assessment failed"));
    assert_eq!(run.stage(), ChoirStage::Finished);
    assert_eq!(
        run.next_action(),
        ChoirAction::Finish { outcome: Err("assessment failed".to_string()) }
    );
    assert_eq!(choir_reply(&Err("assessment failed".to_string())).status, 500);
}

#[test]
fn a_failed_final_call_ends_the_run() {
    let run = service()
        .run_choir(request("q"))
        .advance(completed("plan"))
        .advance(ChoirEvent::AllCompleted { replies: Vec::new() })
        .advance(completed("assessment"))
        .advance(failed("synthesis failed"));
    assert_eq!(
        run.next_action(),
        ChoirAction::Finish { outcome: Err("synthesis failed".to_string()) }
    );
}

#[test]
fn run_events_out_of_turn_change_nothing() {
    let run = service().run_choir(request("see http://a"));
    let run = run.advance(completed("stray"));
    let run = run.advance(ChoirEvent::AllCompleted { replies: Vec::new() });
    assert_eq!(run.stage(), ChoirStage::Enriching);
    assert_eq!(run.enriched(), "see http://a");
    let run = run.advance(ChoirEvent::Scraped { scraped: Ok(Some("A".to_string())) });
    let run = run.advance(ChoirEvent::Scraped { scraped: Ok(Some("again".to_string())) });
    assert_eq!(run.stage(), ChoirStage::Planning);
    assert_eq!(run.enriched(), "see http://a\n\n--- Content from http://a ---\nA");
    let run = run.advance(ChoirEvent::AllCompleted { replies: Vec::new() });
    assert_eq!(run.stage(), ChoirStage::Planning);
    let run = run.advance(completed("plan")).advance(completed("not the agents"));
    assert_eq!(run.stage(), ChoirStage::Dispatching);
    assert!(run.agents().is_empty());
}

#[test]
fn a_whole_run_answers_the_question() {
    let service = service();
    let asked = ChoirRequest {
        query: "What's the weather in Paris?".to_string(),
        json_schema: Some(json("{\"type\":\"string\"}")),
    };
    let mut run: ChoirRun = service.run_choir(asked);
    let mut stages = vec![run.stage()];
    let mut provider_calls = 0;
    let outcome = loop {
        let event = match run.next_action() {
            ChoirAction::Scrape { url } => panic!("unexpected fetch of {}", url),
            ChoirAction::Complete { request } => {
                provider_calls += 1;
                let (system, user) = system_and_user(&request);
                match run.stage() {
                    ChoirStage::Planning => {
                        assert_eq!(system, TASK_MASTER_INSTRUCTION);
                        assert_eq!(user, "What's the weather in Paris?");
                        completed("1. a 2. b 3. c 4. d 5. e")
                    }
                    ChoirStage::Assessing => {
                        assert_eq!(system, CHORUS_INSTRUCTION);
                        assert!(user.starts_with("Agent 1: detail 1\nAgent 2: detail 2"));
                        assert_eq!(request.response_format.unwrap().schema, json("{\"type\":\"string\"}"));
                        completed("the assessment")
                    }
                    ChoirStage::Synthesizing => {
                        assert_eq!(system, SUMMARY_INSTRUCTION);
                        assert!(user.starts_with(
                            "User's original query: What's the weather in Paris?\n\nExpert analysis: the assessment\n\n"
                        ));
                        assert!(user.contains("\"detail 5\""));
                        completed("<final text>")
                    }
                    other => panic!("unexpected question in stage {:?}", other),
                }
            }
            ChoirAction::CompleteAll { requests } => {
                assert_eq!(requests.len(), 5);
                provider_calls += requests.len();
                for r in requests.iter() {
                    assert_eq!(system_and_user(r).1, "1. a 2. b 3. c 4. d 5. e");
                }
                ChoirEvent::AllCompleted { replies: (1..=5).map(|n| Ok(output(n))).collect() }
            }
            ChoirAction::Finish { outcome } => break outcome,
        };
        run = run.advance(event);
        stages.push(run.stage());
    };
    assert_eq!(
        stages,
        vec![
            ChoirStage::Planning,
            ChoirStage::Dispatching,
            ChoirStage::Assessing,
            ChoirStage::Synthesizing,
            ChoirStage::Finished
        ]
    );
    assert_eq!(provider_calls, 8);
    assert_eq!(run.agents(), &(1..=5).map(answer).collect::<Vec<_>>());
    assert_eq!(outcome, Ok("<final text>".to_string()));
    let reply = choir_reply(&outcome);
    assert_eq!(reply.status, 200);
    assert!(reply.body.success);
    assert_eq!(reply.body.data, Some("<final text>".to_string()));
    assert_eq!(reply.body.error, None);
}
