use rvllm::chat::{
    ChatApp, PaneSide, PaneState, RaceResult, Role, StreamEvent, Winner, SEND_MARK,
};
use rvllm::chat_view::{BubbleSide, Incoming, ModelRow, RaceTimer};
use rvllm::ids::{F32Bits, F64Bits};

fn secs(x: f64) -> F64Bits {
    F64Bits(x.to_bits())
}

fn nothing() -> Incoming {
    Incoming { models: None, events: vec![], disconnected: false }
}

fn events(events: Vec<StreamEvent>) -> Incoming {
    Incoming { models: None, events, disconnected: false }
}

fn token(s: &str) -> StreamEvent {
    StreamEvent::Token(s.to_string())
}

fn done(tokens: u32, t: f64) -> StreamEvent {
    StreamEvent::Done { tokens, elapsed_secs: secs(t) }
}

fn shown(p: &PaneState) -> Vec<(Role, String)> {
    p.messages.iter().map(|m| (m.role, m.content.clone())).collect()
}

#[test]
fn app_starts_idle_and_asks_for_models() {
    let app = ChatApp::new();
    assert_eq!(app.temperature, F32Bits(0.7f32.to_bits()));
    assert_eq!(app.max_tokens, 2048);
    assert_eq!(app.system_prompt, "You are a helpful assistant.");
    assert_eq!((app.left.label.as_str(), app.right.label.as_str()), ("GPU", "TPU"));
    assert_eq!(app.left.endpoint, "http://localhost:8081/v1/chat/completions");
    assert_eq!(app.right.endpoint, "http://localhost:8080/v1/chat/completions");
    assert!(app.left.models_pending && app.right.models_pending);
    assert!(!app.needs_repaint() && !app.can_race());
    assert_eq!(app.timer(50), RaceTimer::Hidden);
}

#[test]
fn sending_trims_and_builds_the_request() {
    let mut app = ChatApp::new();
    app.left.input = "  hi there \n".to_string();
    app.system_prompt = "  be brief ".to_string();
    assert!(app.left.can_send());
    let action = app.send_message_for(PaneSide::Left).unwrap();
    assert_eq!(action.endpoint, "http://localhost:8081/v1/chat/completions");
    assert_eq!(action.request.model, "default");
    assert_eq!((action.request.max_tokens, action.request.stream), (2048, true));
    let sent: Vec<(&str, &str)> = action
        .request
        .messages
        .iter()
        .map(|m| (m.role.as_str(), m.content.as_str()))
        .collect();
    assert_eq!(sent, vec![("system", "be brief"), ("user", "hi there")]);
    assert_eq!(
        shown(&app.left),
        vec![(Role::User, "hi there".to_string()), (Role::Assistant, String::new())]
    );
    assert_eq!(app.left.input, "");
    assert!(app.left.streaming && app.left.scroll_to_bottom);
    assert!(shown(&app.right).is_empty());
    // Not again while the answer streams.
    app.left.input = "more".to_string();
    assert!(!app.left.can_send());
    assert!(app.send_message_for(PaneSide::Left).is_none());
    assert_eq!(app.left.input, "more");
}

#[test]
fn blank_input_is_not_sent() {
    let mut app = ChatApp::new();
    for blank in ["", "   ", "\t\n", "\u{3000}\u{00a0}"] {
        app.right.input = blank.to_string();
        assert!(!app.right.can_send());
        assert!(app.send_message_for(PaneSide::Right).is_none());
        assert!(shown(&app.right).is_empty());
    }
}

#[test]
fn white_space_is_what_the_standard_library_says() {
    let mut app = ChatApp::new();
    for c in ['\u{85}', '\u{1680}', '\u{2009}', '\u{2028}', '\u{205f}', '\u{200b}', '\u{180e}', '\u{1c}'] {
        app.left.input = format!("{c}x{c}");
        app.left.streaming = false;
        app.left.stream_open = false;
        app.left.messages = vec![];
        let _ = app.send_message_for(PaneSide::Left).unwrap();
        assert_eq!(app.left.messages[0].content, format!("{c}x{c}").trim());
    }
}

#[test]
fn conversation_without_system_prompt() {
    let mut app = ChatApp::new();
    app.system_prompt = " ".to_string();
    app.left.input = "a".to_string();
    let _ = app.send_message_for(PaneSide::Left);
    app.begin_frame(events(vec![token("b"), done(1, 0.5)]), nothing(), 1);
    app.left.input = "c".to_string();
    let action = app.send_message_for(PaneSide::Left).unwrap();
    let roles: Vec<&str> = action.request.messages.iter().map(|m| m.role.as_str()).collect();
    assert_eq!(roles, vec!["user", "assistant", "user"]);
    assert_eq!(app.build_api_messages(PaneSide::Right).len(), 0);
}

#[test]
fn tokens_append_to_the_answer() {
    let mut app = ChatApp::new();
    app.left.input = "q".to_string();
    let _ = app.send_message_for(PaneSide::Left);
    let again = app.begin_frame(
        events(vec![token("He"), StreamEvent::TokPerSec(secs(12.5)), token("llo")]),
        nothing(),
        7,
    );
    assert!(again);
    assert_eq!(app.left.messages[1].content, "Hello");
    assert_eq!(app.left.race_token_count, 2);
    assert_eq!(app.left.header_rate(), Some(secs(12.5)));
    let again = app.begin_frame(events(vec![token("!"), done(3, 0.25), token("lost")]), nothing(), 9);
    assert!(!again);
    assert_eq!(app.left.messages[1].content, "Hello!");
    assert!(!app.left.streaming && !app.left.stream_open);
    let stats = app.left.last_stats.unwrap();
    assert_eq!((stats.tokens, stats.elapsed_secs), (3, secs(0.25)));
    assert_eq!(app.left.header_rate(), None);
    assert_eq!(app.left.race_finish_time, Some(9));
}

#[test]
fn errors_fill_an_empty_answer_only() {
    let mut app = ChatApp::new();
    app.left.input = "q".to_string();
    app.right.input = "q".to_string();
    let _ = app.send_message_for(PaneSide::Left);
    let _ = app.send_message_for(PaneSide::Right);
    let err = || StreamEvent::Error("refused".to_string());
    app.begin_frame(events(vec![err()]), events(vec![token("part"), err()]), 3);
    assert_eq!(app.left.messages[1].content, "[Error: refused]");
    assert_eq!(app.right.messages[1].content, "part");
    assert!(!app.left.streaming && !app.right.streaming);
    assert_eq!(app.left.race_elapsed_secs, Some(secs(0.0)));
}

#[test]
fn a_sender_that_is_gone_ends_the_answer() {
    let mut app = ChatApp::new();
    app.left.input = "q".to_string();
    let _ = app.send_message_for(PaneSide::Left);
    let gone = Incoming { models: None, events: vec![token("a")], disconnected: true };
    app.begin_frame(gone, nothing(), 3);
    assert_eq!(app.left.messages[1].content, "a");
    assert!(!app.left.streaming);
    assert_eq!(app.left.race_finish_time, None);
}

#[test]
fn model_lists() {
    let list = |names: &[&str]| Incoming {
        models: Some(names.iter().map(|n| n.to_string()).collect()),
        events: vec![],
        disconnected: false,
    };
    let mut app = ChatApp::new();
    assert_eq!(app.left.model_row(), ModelRow::Refresh);
    app.begin_frame(list(&[]), list(&["x", "y"]), 0);
    assert!(app.left.available_models.is_empty() && app.left.model.is_empty());
    assert!(!app.left.models_pending);
    assert_eq!(app.right.model, "x");
    assert_eq!(app.right.model_row(), ModelRow::Choose);
    // A choice that is still offered stays.
    app.right.model = "y".to_string();
    assert_eq!(app.refresh_models_for(PaneSide::Right), app.right.endpoint);
    app.begin_frame(nothing(), list(&["z", "y"]), 0);
    assert_eq!(app.right.model, "y");
    app.refresh_models_for(PaneSide::Right);
    app.begin_frame(nothing(), list(&["z"]), 0);
    assert_eq!(app.right.model, "z");
    // Nothing was asked for: nothing is read.
    app.begin_frame(nothing(), list(&["w"]), 0);
    assert_eq!(app.right.model, "z");
    app.right.input = "q".to_string();
    assert_eq!(app.send_message_for(PaneSide::Right).unwrap().request.model, "z");
}

#[test]
fn races() {
    let mut app = ChatApp::new();
    app.race_prompt = " go ".to_string();
    assert!(app.can_race());
    let actions = app.start_race(100).unwrap();
    assert_eq!(actions.left.request.messages.last().unwrap().content, "go");
    assert_eq!(actions.right.request.messages.last().unwrap().content, "go");
    assert!(app.race_active && !app.can_race());
    assert!(app.start_race(101).is_none());
    assert_eq!(app.race_start, Some(100));
    assert_eq!(app.timer(130), RaceTimer::Running(30));
    app.begin_frame(events(vec![token("a"), done(1, 1.5)]), nothing(), 140);
    assert!(app.race_active && app.race_left_done && !app.race_right_done);
    app.begin_frame(nothing(), events(vec![done(5, 1.0)]), 150);
    assert!(!app.race_active);
    let result = app.race_result.unwrap();
    assert_eq!(
        result,
        RaceResult {
            left_tokens: 1,
            left_elapsed: secs(1.5),
            right_tokens: 5,
            right_elapsed: secs(1.0),
        }
    );
    assert_eq!(result.winner(), Winner::Right);
    assert_eq!(app.final_ticks(), 50);
    assert_eq!(app.timer(999), RaceTimer::Finished(50));
}

#[test]
fn race_winners() {
    let race = |l: f64, r: f64| {
        RaceResult {
            left_tokens: 1,
            left_elapsed: secs(l),
            right_tokens: 1,
            right_elapsed: secs(r),
        }
        .winner()
    };
    assert_eq!(race(1.0, 2.0), Winner::Left);
    assert_eq!(race(2.0, 1.0), Winner::Right);
    assert_eq!(race(1.0, 1.0), Winner::Tie);
    assert_eq!(race(f64::NAN, 1.0), Winner::Tie);
}

#[test]
fn a_race_prompt_resets_the_pane() {
    let mut app = ChatApp::new();
    app.left.race_token_count = 9;
    app.left.race_finish_time = Some(1);
    app.left.race_elapsed_secs = Some(secs(1.0));
    let action = app.send_race_prompt_to(PaneSide::Left, "go");
    assert_eq!(action.request.messages.len(), 2);
    assert_eq!(app.pane(PaneSide::Left).race_token_count, 0);
    assert_eq!(app.left.race_finish_time, None);
    assert_eq!(app.left.race_elapsed_secs, None);
}

#[test]
fn race_keys_start_one_race() {
    let prompt = |p: &str| {
        let mut app = ChatApp::new();
        app.race_prompt = p.to_string();
        app
    };
    assert!(prompt("go").race_keys(true, true, false, false, 1).is_some());
    assert!(prompt("go").race_keys(false, true, false, false, 1).is_none());
    assert!(prompt("go").race_keys(false, false, true, false, 1).is_some());
    assert!(prompt("go").race_keys(false, false, false, true, 1).is_some());
    assert!(prompt(" ").race_keys(true, true, true, true, 1).is_none());
    let mut app = prompt("go");
    assert!(app.race_keys(true, true, true, true, 1).is_some());
    assert_eq!(shown(&app.left).len(), 2);
    assert!(app.race_keys(true, true, true, true, 2).is_none());
    assert_eq!(app.race_start, Some(1));
}

#[test]
fn marked_inputs_are_sent_after_drawing() {
    let mut app = ChatApp::new();
    app.left.input = " one ".to_string();
    app.right.input = "two".to_string();
    app.left.input_keys(false, true, true, true);
    assert_eq!(app.left.input, " one ");
    app.left.input_keys(false, true, true, false);
    assert_eq!(app.left.input.chars().next(), Some(SEND_MARK));
    let (left, right) = app.end_frame();
    assert_eq!(left.unwrap().request.messages.last().unwrap().content, "one");
    assert!(right.is_none());
    assert_eq!(app.right.input, "two");
    app.right.input_keys(true, false, false, false);
    let (left, right) = app.end_frame();
    assert!(left.is_none());
    assert_eq!(right.unwrap().request.messages.last().unwrap().content, "two");
    assert!(app.send_marked(PaneSide::Left).is_none());
}

#[test]
fn clearing_keeps_the_model_and_the_input() {
    let mut p = PaneState::new("GPU", "http://x");
    p.model = "m".to_string();
    p.input = "i".to_string();
    p.mark_send();
    assert_eq!(p.input, "\u{1}i");
    p.current_tps = Some(secs(1.0));
    p.clear();
    assert!(p.messages.is_empty() && p.current_tps.is_none() && p.last_stats.is_none());
    assert_eq!((p.model.as_str(), p.input.as_str()), ("m", "\u{1}i"));
}

#[test]
fn bubbles() {
    let mut app = ChatApp::new();
    app.left.input = "q".to_string();
    assert_eq!(app.left.send_label(), ">");
    let _ = app.send_message_for(PaneSide::Left);
    assert_eq!(app.left.send_label(), "...");
    let m = &app.left.messages;
    assert_eq!((m[0].label(), m[0].side(), m[0].shown()), ("You", BubbleSide::Right, "q"));
    assert_eq!((m[1].label(), m[1].side(), m[1].shown()), ("AI", BubbleSide::Left, "..."));
}

#[test]
fn system_prompt_folds() {
    let mut app = ChatApp::new();
    assert_eq!(app.system_prompt_arrow(), ">");
    app.toggle_system_prompt();
    assert_eq!(app.system_prompt_arrow(), "v");
    app.toggle_system_prompt();
    assert!(!app.show_system_prompt);
}
