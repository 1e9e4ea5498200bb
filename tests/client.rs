use ym::client::{extract_answer, interpret_response, GPTClient};
use ym::errors::GPTError;
use ym::models::{AccessData, Alternative, ApiResponse, Message, ResultField, URL_API};

fn client() -> GPTClient {
    GPTClient::new().set_auth("cat".to_string(), "key".to_string())
}

fn reply(texts: &[&str]) -> ApiResponse {
    ApiResponse {
        result: ResultField {
            alternatives: texts
                .iter()
                .map(|t| Alternative { message: Message { text: t.to_string() } })
                .collect(),
        },
    }
}

#[test]
fn chat_roles_alternate_by_position() {
    let history = vec!["a".to_string(), "b".to_string(), "c".to_string()];
    let req = client().build_chat_request(&history);
    let roles: Vec<&str> = req.messages.iter().map(|m| m.role.as_str()).collect();
    assert_eq!(roles, vec!["assistant", "user", "assistant"]);
    let texts: Vec<&str> = req.messages.iter().map(|m| m.text.as_str()).collect();
    assert_eq!(texts, vec!["a", "b", "c"]);
}

#[test]
fn empty_history_gives_empty_request() {
    let req = client().build_chat_request(&[]);
    assert!(req.messages.is_empty());
    assert!(!req.completion_options.stream);
}

#[test]
fn ask_request_is_one_user_message() {
    let req = client().build_ask_request("Привет");
    assert_eq!(req.messages.len(), 1);
    assert_eq!(req.messages[0].role, "user");
    assert_eq!(req.messages[0].text, "Привет");
    assert_eq!(req.completion_options.temperature, 700);
    assert_eq!(req.completion_options.max_tokens, 2000);
}

#[test]
fn model_uri_and_header() {
    let c = client().with_model("yandexgpt-pro");
    assert_eq!(c.model_uri(), "gpt://cat/yandexgpt-pro");
    assert_eq!(c.auth_header(), "Api-Key key");
    assert_eq!(c.api_url(), URL_API);
    let c = c.with_new_url("http://localhost/".to_string());
    assert_eq!(c.api_url(), "http://localhost/");
}

#[test]
fn options_are_checked_when_set() {
    let c = client().with_temperature(250).unwrap();
    assert_eq!(c.options().temperature, 250);
    let c = c.with_max_tokens(10).unwrap();
    assert_eq!(c.build_ask_request("x").completion_options.max_tokens, 10);
    assert!(matches!(client().with_temperature(1001), Err(GPTError::ConfigError { .. })));
    assert!(client().with_temperature(1000).is_ok());
    assert!(matches!(client().with_max_tokens(0), Err(GPTError::ConfigError { .. })));
    assert!(matches!(client().with_max_tokens(-5), Err(GPTError::ConfigError { .. })));
}

#[test]
fn blank_credentials_refuse_before_sending() {
    let c = GPTClient::new().set_auth("  ".to_string(), "key".to_string());
    assert!(matches!(c.prepare_ask("x"), Err(GPTError::InvalidCredential)));
    assert!(matches!(c.prepare_chat(&["x".to_string()]), Err(GPTError::InvalidCredential)));
    assert!(client().prepare_ask("x").is_ok());
    let c = GPTClient::new().with_new_auth(AccessData::new("c".to_string(), "k".to_string()));
    assert!(c.prepare_chat(&[]).is_ok());
}

#[test]
fn status_401_is_invalid_credential_whatever_the_body() {
    let r = interpret_response(401, "anything".to_string(), Ok(reply(&["x"])));
    assert!(matches!(r, Err(GPTError::InvalidCredential)));
    let r = interpret_response(401, String::new(), Err("bad".to_string()));
    assert!(matches!(r, Err(GPTError::InvalidCredential)));
}

#[test]
fn success_without_alternatives_is_empty_response() {
    let r = interpret_response(200, "{}".to_string(), Ok(reply(&[])));
    assert!(matches!(r, Err(GPTError::EmptyResponse)));
    assert!(matches!(extract_answer(reply(&[])), Err(GPTError::EmptyResponse)));
}

#[test]
fn status_500_is_api_error_with_body() {
    let r = interpret_response(500, "oops".to_string(), Err("not json".to_string()));
    match r {
        Err(GPTError::APIError { code, description }) => {
            assert_eq!(code, 500);
            assert_eq!(description, "oops");
        }
        _ => panic!("expected an API error"),
    }
}

#[test]
fn success_takes_first_alternative() {
    let r = interpret_response(200, String::new(), Ok(reply(&["first", "second"])));
    assert_eq!(r.unwrap(), "first");
}

#[test]
fn undecodable_success_is_transport_error() {
    let r = interpret_response(200, "<html>".to_string(), Err("expected value".to_string()));
    match r {
        Err(GPTError::Transport { description }) => assert_eq!(description, "expected value"),
        _ => panic!("expected a transport error"),
    }
}
