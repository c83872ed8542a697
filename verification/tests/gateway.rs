use chat_gateway::bridge::{generate_url, generation, OLLAMA_API_BASE};
use chat_gateway::bridge::{BridgeError, GenerateRequest, ProviderReply};
use chat_gateway::gateway::{chat, ApiError, ChatRequest, ChatResponse};
use chat_gateway::gateway::{FAILURE_STATUS, SERVER_PORT};

fn request(model: &str, prompt: &str) -> ChatRequest {
    ChatRequest { model: model.to_string(), prompt: prompt.to_string() }
}

fn body(text: &str) -> ProviderReply {
    ProviderReply::Body(text.to_string())
}

#[test]
fn the_constants_are_those_of_the_local_setup() {
    assert_eq!(OLLAMA_API_BASE, "http://localhost:11434/api");
    assert_eq!(SERVER_PORT, 8080);
    assert_eq!(FAILURE_STATUS, 500);
}

#[test]
fn the_generation_endpoint_is_under_the_api_base() {
    assert_eq!(generate_url(), "http://localhost:11434/api/generate");
}

#[test]
fn the_generate_request_takes_model_and_prompt_and_asks_for_one_piece() {
    let sent = GenerateRequest::from(request("llama3", "hello"));
    assert_eq!(
        sent,
        GenerateRequest { model: "llama3".to_string(), prompt: "hello".to_string(), stream: false }
    );
}

#[test]
fn empty_model_and_prompt_are_passed_on() {
    let sent = GenerateRequest::from(request("", ""));
    assert_eq!(sent, GenerateRequest { model: String::new(), prompt: String::new(), stream: false });
}

#[test]
fn round_trip_of_hello() {
    let sent = GenerateRequest::from(request("llama3", "hello"));
    assert_eq!(sent.model, "llama3");
    assert_eq!(sent.prompt, "hello");
    assert!(!sent.stream);
    let reply = body("{\"response\":\"Hi \",\"done\":false}\n{\"response\":\"there!\",\"done\":true}");
    assert_eq!(chat(reply), Ok(ChatResponse { response: "Hi there!".to_string() }));
}

#[test]
fn a_body_without_fragments_is_answered_with_the_empty_text() {
    assert_eq!(chat(body("")), Ok(ChatResponse { response: String::new() }));
    assert_eq!(chat(body("<html>oops</html>\n")), Ok(ChatResponse { response: String::new() }));
}

#[test]
fn an_unreachable_provider_is_told_with_the_advice_to_start_it() {
    let reply = ProviderReply::Unreachable("connection refused".to_string());
    let error = chat(reply).unwrap_err();
    assert_eq!(
        error,
        ApiError {
            message: "Failed to connect to Ollama: connection refused. Make sure Ollama is running with 'ollama serve'"
                .to_string()
        }
    );
    assert!(error.message.contains("Failed to connect"));
    assert!(error.message.contains("ollama serve"));
    assert_eq!(error.status_code(), 500);
}

#[test]
fn an_unreadable_reply_is_told() {
    let reply = ProviderReply::Unreadable("unexpected end of stream".to_string());
    let error = chat(reply).unwrap_err();
    assert_eq!(error.message, "Failed to get response text: unexpected end of stream");
    assert_eq!(error.status_code(), 500);
}

#[test]
fn every_failure_has_the_same_status() {
    let first = chat(ProviderReply::Unreachable(String::new())).unwrap_err();
    let second = chat(ProviderReply::Unreadable(String::new())).unwrap_err();
    assert_eq!(first.status_code(), second.status_code());
    assert_eq!(first.status_code(), FAILURE_STATUS);
}

#[test]
fn the_same_reply_is_answered_alike_twice() {
    let text = "{\"response\":\"Hi \",\"done\":false}\n{\"response\":\"there!\",\"done\":true}";
    assert_eq!(chat(body(text)), chat(body(text)));
    let failed = ProviderReply::Unreachable("refused".to_string());
    assert_eq!(chat(failed.clone()), chat(failed));
}

#[test]
fn generation_gives_the_answer_of_a_body() {
    assert_eq!(generation(body("{\"response\":\" x \",\"done\":true}")), Ok("x".to_string()));
    assert_eq!(generation(body("")), Ok(String::new()));
}

#[test]
fn generation_gives_the_reason_of_a_failure() {
    assert_eq!(
        generation(ProviderReply::Unreachable("refused".to_string())),
        Err(BridgeError::ProviderUnreachable("refused".to_string()))
    );
    assert_eq!(
        generation(ProviderReply::Unreadable("cut".to_string())),
        Err(BridgeError::ResponseUnreadable("cut".to_string()))
    );
}

#[test]
fn messages_name_the_cause() {
    assert_eq!(
        BridgeError::ProviderUnreachable("dns error".to_string()).message(),
        "Failed to connect to Ollama: dns error. Make sure Ollama is running with 'ollama serve'"
    );
    assert_eq!(
        BridgeError::ResponseUnreadable("timed out".to_string()).message(),
        "Failed to get response text: timed out"
    );
    assert_eq!(
        BridgeError::ResponseUnreadable(String::new()).message(),
        "Failed to get response text: "
    );
}
