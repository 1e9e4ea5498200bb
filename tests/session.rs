use ym::client::GPTClient;
use ym::editor::Edit;
use ym::errors::GPTError;
use ym::session::{
    add_system_message, clear_messages, command_for, handle_key_event, receive_answer,
    send_message_to_gpt, Action, App, Command, KeyCode, KeyPress, Phase, Role, GREETING,
};

fn ready_client() -> GPTClient {
    GPTClient::new().set_auth("b1gcatalog".to_string(), "secret-key".to_string())
}

fn key(code: KeyCode) -> KeyPress {
    KeyPress { code, control: false }
}

fn ctrl(code: KeyCode) -> KeyPress {
    KeyPress { code, control: true }
}

fn type_text(app: &mut App, s: &str) {
    for c in s.chars() {
        handle_key_event(app, key(KeyCode::Char(c)));
    }
}

fn texts(app: &App) -> Vec<String> {
    app.messages().iter().map(|t| t.text.clone()).collect()
}

#[test]
fn new_session_holds_greeting() {
    let app = App::new(ready_client());
    assert!(app.is_running());
    assert_eq!(texts(&app), vec![GREETING.to_string()]);
    assert_eq!(app.messages()[0].role, Role::System);
    assert_eq!(app.scroll_offset(), 0);
    assert_eq!(app.phase(), Phase::Idle);
}

#[test]
fn typing_composes() {
    let mut app = App::new(ready_client());
    type_text(&mut app, "hi");
    assert_eq!(app.input().text(), "hi");
    assert_eq!(app.input().cursor(), 2);
    assert_eq!(app.phase(), Phase::Composing);
}

#[test]
fn blank_submit_changes_nothing() {
    let mut app = App::new(ready_client());
    let r = handle_key_event(&mut app, key(KeyCode::Enter));
    assert!(matches!(r, Action::Continue));
    type_text(&mut app, "   ");
    let r = send_message_to_gpt(&mut app);
    assert!(matches!(r, Action::Continue));
    assert_eq!(texts(&app), vec![GREETING.to_string()]);
    assert_eq!(app.scroll_offset(), 0);
    assert_eq!(app.input().text(), "   ");
    assert_eq!(app.phase(), Phase::Composing);
}

#[test]
fn submit_sends_whole_history_as_displayed() {
    let mut app = App::new(ready_client());
    type_text(&mut app, " hello ");
    let r = handle_key_event(&mut app, key(KeyCode::Enter));
    match r {
        Action::Send(req) => {
            assert_eq!(req.messages.len(), 2);
            assert_eq!(req.messages[0].role, "assistant");
            assert_eq!(req.messages[0].text, GREETING);
            assert_eq!(req.messages[1].role, "user");
            assert_eq!(req.messages[1].text, "Вы:  hello ");
            assert_eq!(req.model_uri, "gpt://b1gcatalog/yandexgpt/latest");
        }
        _ => panic!("expected a request"),
    }
    assert_eq!(app.phase(), Phase::Requesting);
    assert_eq!(app.messages()[1].role, Role::User);
    assert_eq!(app.messages()[1].text, " hello ");
}

#[test]
fn keys_are_ignored_while_requesting() {
    let mut app = App::new(ready_client());
    type_text(&mut app, "q");
    handle_key_event(&mut app, key(KeyCode::Enter));
    let r = handle_key_event(&mut app, key(KeyCode::Enter));
    assert!(matches!(r, Action::Continue));
    handle_key_event(&mut app, key(KeyCode::Char('x')));
    assert_eq!(app.input().text(), "q");
    assert_eq!(app.messages().len(), 2);
}

#[test]
fn successful_exchange_adds_answer_and_clears_buffer() {
    let mut app = App::new(ready_client());
    type_text(&mut app, "question");
    handle_key_event(&mut app, key(KeyCode::Enter));
    receive_answer(&mut app, Ok("answer".to_string()));
    assert_eq!(
        texts(&app),
        vec![GREETING.to_string(), "question".to_string(), "answer".to_string()]
    );
    assert_eq!(app.messages()[2].role, Role::Assistant);
    assert_eq!(app.input().text(), "");
    assert_eq!(app.input().cursor(), 0);
    assert_eq!(app.phase(), Phase::Idle);
}

#[test]
fn n_exchanges_grow_history_by_two_each() {
    let mut app = App::new(ready_client());
    for i in 0..5 {
        type_text(&mut app, "m");
        handle_key_event(&mut app, key(KeyCode::Enter));
        receive_answer(&mut app, Ok(format!("a{}", i)));
    }
    assert_eq!(app.messages().len(), 1 + 2 * 5);
}

#[test]
fn failed_exchange_adds_one_error_line() {
    let mut app = App::new(ready_client());
    type_text(&mut app, "hello");
    handle_key_event(&mut app, key(KeyCode::Enter));
    receive_answer(
        &mut app,
        Err(GPTError::Transport { description: "connection refused".to_string() }),
    );
    assert_eq!(app.messages().len(), 3);
    assert_eq!(app.messages()[2].role, Role::Assistant);
    assert_eq!(app.messages()[2].text, "Ошибка ответа модели: connection refused");
    assert_eq!(app.input().text(), "");
    assert_eq!(app.phase(), Phase::Idle);
}

#[test]
fn missing_credentials_end_exchange_at_once() {
    let mut app = App::new(GPTClient::new());
    type_text(&mut app, "hi");
    let r = handle_key_event(&mut app, key(KeyCode::Enter));
    assert!(matches!(r, Action::Continue));
    assert_eq!(
        texts(&app),
        vec![
            GREETING.to_string(),
            "hi".to_string(),
            "Ошибка ответа модели: Данные для авторизации неверные или устарели".to_string()
        ]
    );
    assert_eq!(app.phase(), Phase::Idle);
}

#[test]
fn answer_without_request_changes_nothing() {
    let mut app = App::new(ready_client());
    receive_answer(&mut app, Ok("stray".to_string()));
    assert_eq!(app.messages().len(), 1);
}

#[test]
fn scroll_follows_newest_lines() {
    let mut app = App::new(ready_client());
    for _ in 0..10 {
        type_text(&mut app, "m");
        handle_key_event(&mut app, key(KeyCode::Enter));
        receive_answer(&mut app, Ok("a".to_string()));
    }
    // 21 lines, 20 visible
    assert_eq!(app.scroll_offset(), 1);
    type_text(&mut app, "m");
    handle_key_event(&mut app, key(KeyCode::Enter));
    receive_answer(&mut app, Ok("a".to_string()));
    assert_eq!(app.scroll_offset(), 3);
}

#[test]
fn clear_history_resets_to_greeting() {
    let mut app = App::new(ready_client());
    for _ in 0..12 {
        type_text(&mut app, "m");
        handle_key_event(&mut app, key(KeyCode::Enter));
        receive_answer(&mut app, Ok("a".to_string()));
    }
    assert!(app.scroll_offset() > 0);
    type_text(&mut app, "draft");
    let r = handle_key_event(&mut app, ctrl(KeyCode::Char('r')));
    assert!(matches!(r, Action::Continue));
    assert_eq!(texts(&app), vec![GREETING.to_string()]);
    assert_eq!(app.scroll_offset(), 0);
    assert_eq!(app.input().text(), "draft");
    clear_messages(&mut app);
    assert_eq!(app.messages().len(), 1);
}

#[test]
fn quit_stops_session() {
    let mut app = App::new(ready_client());
    let r = handle_key_event(&mut app, key(KeyCode::Esc));
    assert!(matches!(r, Action::Stop));
    assert!(!app.is_running());
    assert_eq!(app.phase(), Phase::Stopped);
    let mut app = App::new(ready_client());
    let r = handle_key_event(&mut app, ctrl(KeyCode::Char('C')));
    assert!(matches!(r, Action::Stop));
    app.quit();
    assert!(!app.is_running());
}

#[test]
fn control_arrows_move_by_words() {
    let mut app = App::new(ready_client());
    type_text(&mut app, "hello world");
    handle_key_event(&mut app, ctrl(KeyCode::Left));
    assert_eq!(app.input().cursor(), 6);
    handle_key_event(&mut app, key(KeyCode::Home));
    handle_key_event(&mut app, ctrl(KeyCode::Right));
    assert_eq!(app.input().cursor(), 6);
    handle_key_event(&mut app, key(KeyCode::End));
    handle_key_event(&mut app, key(KeyCode::Backspace));
    handle_key_event(&mut app, key(KeyCode::Home));
    handle_key_event(&mut app, key(KeyCode::Delete));
    assert_eq!(app.input().text(), "ello worl");
}

#[test]
fn command_table() {
    assert_eq!(command_for(key(KeyCode::Esc)), Command::Quit);
    assert_eq!(command_for(ctrl(KeyCode::Char('c'))), Command::Quit);
    assert_eq!(command_for(key(KeyCode::Char('c'))), Command::Edit(Edit::Insert('c')));
    assert_eq!(command_for(ctrl(KeyCode::Char('R'))), Command::ClearHistory);
    assert_eq!(command_for(ctrl(KeyCode::Char('x'))), Command::Edit(Edit::Insert('x')));
    assert_eq!(command_for(key(KeyCode::Enter)), Command::Submit);
    assert_eq!(command_for(ctrl(KeyCode::Left)), Command::Edit(Edit::WordLeft));
    assert_eq!(command_for(key(KeyCode::Right)), Command::Edit(Edit::Right));
    assert_eq!(command_for(key(KeyCode::Other)), Command::Ignore);
}

#[test]
fn lines_prefix_user_turns() {
    let mut app = App::new(ready_client());
    type_text(&mut app, "hi");
    handle_key_event(&mut app, key(KeyCode::Enter));
    receive_answer(&mut app, Ok("hello".to_string()));
    add_system_message(&mut app, "note");
    assert_eq!(
        app.lines(),
        vec![
            GREETING.to_string(),
            "Вы: hi".to_string(),
            "hello".to_string(),
            "Система: note".to_string()
        ]
    );
}

#[test]
fn request_carries_prefixed_user_lines() {
    let mut app = App::new(ready_client());
    type_text(&mut app, "first");
    handle_key_event(&mut app, key(KeyCode::Enter));
    receive_answer(&mut app, Ok("reply".to_string()));
    type_text(&mut app, "second");
    match send_message_to_gpt(&mut app) {
        Action::Send(req) => {
            let texts: Vec<&str> = req.messages.iter().map(|m| m.text.as_str()).collect();
            assert_eq!(texts, vec![GREETING, "Вы: first", "reply", "Вы: second"]);
            let roles: Vec<&str> = req.messages.iter().map(|m| m.role.as_str()).collect();
            assert_eq!(roles, vec!["assistant", "user", "assistant", "user"]);
        }
        _ => panic!("expected a request"),
    }
}

#[test]
fn clearing_twice_equals_clearing_once() {
    let mut app = App::new(ready_client());
    type_text(&mut app, "x");
    handle_key_event(&mut app, key(KeyCode::Enter));
    receive_answer(&mut app, Ok("y".to_string()));
    handle_key_event(&mut app, ctrl(KeyCode::Char('r')));
    handle_key_event(&mut app, ctrl(KeyCode::Char('R')));
    assert_eq!(texts(&app), vec![GREETING.to_string()]);
    assert_eq!(app.scroll_offset(), 0);
}
