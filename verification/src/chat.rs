//! Two chat panes that talk to two servers, and a race between them.
//!
//! This is the state behind the window. Network and drawing stay outside:
//! sending returns what is to be sent, and polling takes what has come in.

use crate::ids::{F32Bits, F64Bits};
use crate::text::{empty_text, same_text, trimmed};
use vstd::prelude::*;

verus! {

/// Who wrote a message.
#[derive(Copy, Clone, Debug, PartialEq, Eq, Structural)]
pub enum Role {
    User,
    Assistant,
}

impl Role {
    /// The name of the role in a request.
    pub open spec fn name(self) -> Seq<char> {
        match self {
            Role::User => "user"@,
            Role::Assistant => "assistant"@,
        }
    }
}

/// A message as it is shown.
#[derive(Debug)]
pub struct DisplayMessage {
    pub role: Role,
    pub content: String,
}

impl View for DisplayMessage {
    type V = (Role, Seq<char>);

    open spec fn view(&self) -> (Role, Seq<char>) {
        (self.role, self.content@)
    }
}

/// A message as it is sent.
#[derive(Debug)]
pub struct ChatMessage {
    pub role: String,
    pub content: String,
}

impl View for ChatMessage {
    type V = (Seq<char>, Seq<char>);

    open spec fn view(&self) -> (Seq<char>, Seq<char>) {
        (self.role@, self.content@)
    }
}

/// The body of a chat request.
#[derive(Debug)]
pub struct ChatRequest {
    pub model: String,
    pub messages: Vec<ChatMessage>,
    pub temperature: F32Bits,
    pub max_tokens: u32,
    pub stream: bool,
}

/// A request and where it goes.
#[derive(Debug)]
pub struct SendAction {
    pub endpoint: String,
    pub request: ChatRequest,
}

/// The two requests of a race.
#[derive(Debug)]
pub struct RaceActions {
    pub left: SendAction,
    pub right: SendAction,
}

/// The contents of a request and where it goes.
#[verifier::ext_equal]
pub struct SendView {
    pub endpoint: Seq<char>,
    pub model: Seq<char>,
    pub messages: Seq<(Seq<char>, Seq<char>)>,
    pub temperature: F32Bits,
    pub max_tokens: u32,
    pub stream: bool,
}

impl View for SendAction {
    type V = SendView;

    open spec fn view(&self) -> SendView {
        SendView {
            endpoint: self.endpoint@,
            model: self.request.model@,
            messages: self.request.messages@.map_values(|m: ChatMessage| m@),
            temperature: self.request.temperature,
            max_tokens: self.request.max_tokens,
            stream: self.request.stream,
        }
    }
}

/// One event of a streamed answer.
#[derive(Debug)]
pub enum StreamEvent {
    Token(String),
    TokPerSec(F64Bits),
    Done { tokens: u32, elapsed_secs: F64Bits },
    Error(String),
}

/// The contents of an event.
pub enum EventView {
    Token(Seq<char>),
    TokPerSec(F64Bits),
    Done { tokens: u32, elapsed_secs: F64Bits },
    Error(Seq<char>),
}

impl View for StreamEvent {
    type V = EventView;

    open spec fn view(&self) -> EventView {
        match *self {
            StreamEvent::Token(t) => EventView::Token(t@),
            StreamEvent::TokPerSec(r) => EventView::TokPerSec(r),
            StreamEvent::Done { tokens, elapsed_secs } => EventView::Done { tokens, elapsed_secs },
            StreamEvent::Error(e) => EventView::Error(e@),
        }
    }
}

impl EventView {
    /// Whether nothing is read after this event.
    pub open spec fn ends(self) -> bool {
        self is Done || self is Error
    }
}

/// Which pane.
#[derive(Copy, Clone, Debug, PartialEq, Eq, Structural)]
pub enum PaneSide {
    Left,
    Right,
}

/// Token count and duration of an answer.
#[derive(Copy, Clone, Debug, PartialEq, Eq, Structural)]
pub struct AnswerStats {
    pub tokens: u32,
    pub elapsed_secs: F64Bits,
}

/// One pane. Points in time are ticks of a clock that the caller reads.
#[derive(Debug)]
pub struct PaneState {
    pub label: String,
    pub endpoint: String,
    pub model: String,
    pub available_models: Vec<String>,
    pub messages: Vec<DisplayMessage>,
    pub input: String,
    pub streaming: bool,
    pub current_tps: Option<F64Bits>,
    pub last_stats: Option<AnswerStats>,
    /// Whether an answer is being read.
    pub stream_open: bool,
    /// Whether a model list is awaited.
    pub models_pending: bool,
    pub scroll_to_bottom: bool,
    pub race_token_count: u32,
    pub race_finish_time: Option<u64>,
    pub race_elapsed_secs: Option<F64Bits>,
}

/// The contents of a pane.
#[verifier::ext_equal]
pub struct PaneView {
    pub label: Seq<char>,
    pub endpoint: Seq<char>,
    pub model: Seq<char>,
    pub available_models: Seq<Seq<char>>,
    pub messages: Seq<(Role, Seq<char>)>,
    pub input: Seq<char>,
    pub streaming: bool,
    pub current_tps: Option<F64Bits>,
    pub last_stats: Option<AnswerStats>,
    pub stream_open: bool,
    pub models_pending: bool,
    pub scroll_to_bottom: bool,
    pub race_token_count: u32,
    pub race_finish_time: Option<u64>,
    pub race_elapsed_secs: Option<F64Bits>,
}

impl View for PaneState {
    type V = PaneView;

    open spec fn view(&self) -> PaneView {
        PaneView {
            label: self.label@,
            endpoint: self.endpoint@,
            model: self.model@,
            available_models: self.available_models@.map_values(|s: String| s@),
            messages: self.messages@.map_values(|m: DisplayMessage| m@),
            input: self.input@,
            streaming: self.streaming,
            current_tps: self.current_tps,
            last_stats: self.last_stats,
            stream_open: self.stream_open,
            models_pending: self.models_pending,
            scroll_to_bottom: self.scroll_to_bottom,
            race_token_count: self.race_token_count,
            race_finish_time: self.race_finish_time,
            race_elapsed_secs: self.race_elapsed_secs,
        }
    }
}

/// Put before an input to ask for it to be sent.
pub const SEND_MARK: char = '\x01';

impl PaneView {
    /// A pane streams exactly while an answer is being read.
    pub open spec fn wf(self) -> bool {
        self.streaming == self.stream_open
    }

    /// A pane with nothing in it.
    pub open spec fn empty(label: Seq<char>, endpoint: Seq<char>) -> PaneView {
        PaneView {
            label,
            endpoint,
            model: Seq::empty(),
            available_models: Seq::empty(),
            messages: Seq::empty(),
            input: Seq::empty(),
            streaming: false,
            current_tps: None,
            last_stats: None,
            stream_open: false,
            models_pending: false,
            scroll_to_bottom: false,
            race_token_count: 0,
            race_finish_time: None,
            race_elapsed_secs: None,
        }
    }

    /// The model of a request: the chosen one, or `default`.
    pub open spec fn request_model(self) -> Seq<char> {
        if self.model.len() == 0 {
            "default"@
        } else {
            self.model
        }
    }

    /// The pane once a user message was put and its answer is awaited.
    pub open spec fn asking(self, text: Seq<char>) -> PaneView {
        PaneView {
            messages: self.messages.push((Role::User, text)).push(
                (Role::Assistant, Seq::empty()),
            ),
            stream_open: true,
            streaming: true,
            current_tps: None,
            last_stats: None,
            scroll_to_bottom: true,
            ..self
        }
    }

    /// The pane once the answer is over.
    pub open spec fn closed_stream(self) -> PaneView {
        PaneView { streaming: false, stream_open: false, ..self }
    }

    /// The pane once an event of the answer was read.
    pub open spec fn after_event(self, event: EventView, now: u64) -> PaneView {
        match event {
            EventView::Token(t) => PaneView {
                messages: if self.messages.len() > 0 {
                    self.messages.drop_last().push(
                        (self.messages.last().0, self.messages.last().1 + t),
                    )
                } else {
                    self.messages
                },
                race_token_count: (self.race_token_count + 1) as u32,
                scroll_to_bottom: true,
                ..self
            },
            EventView::TokPerSec(rate) => PaneView { current_tps: Some(rate), ..self },
            EventView::Done { tokens, elapsed_secs } => PaneView {
                last_stats: Some(AnswerStats { tokens, elapsed_secs }),
                streaming: false,
                current_tps: None,
                stream_open: false,
                race_token_count: tokens,
                race_finish_time: Some(now),
                race_elapsed_secs: Some(elapsed_secs),
                ..self
            },
            EventView::Error(e) => PaneView {
                messages: if self.messages.len() > 0 && self.messages.last().0 == Role::Assistant
                    && self.messages.last().1.len() == 0 {
                    self.messages.drop_last().push((Role::Assistant, "[Error: "@ + e + "]"@))
                } else {
                    self.messages
                },
                streaming: false,
                current_tps: None,
                stream_open: false,
                race_finish_time: Some(now),
                race_elapsed_secs: Some(F64Bits(0)),
                ..self
            },
        }
    }

    /// The pane once events were read up to the first that ends the answer. A
    /// sender that is gone ends it too.
    pub open spec fn after_events(
        self,
        events: Seq<EventView>,
        disconnected: bool,
        now: u64,
    ) -> PaneView
        decreases events.len(),
    {
        if events.len() == 0 {
            if disconnected {
                self.closed_stream()
            } else {
                self
            }
        } else if events[0].ends() {
            self.after_event(events[0], now)
        } else {
            self.after_event(events[0], now).after_events(events.drop_first(), disconnected, now)
        }
    }

    /// The pane once a model list came in. An empty list is ignored; a choice
    /// that is not in the list gives way to the list's first entry.
    pub open spec fn after_models(self, models: Seq<Seq<char>>) -> PaneView {
        if models.len() == 0 {
            PaneView { models_pending: false, ..self }
        } else {
            PaneView {
                available_models: models,
                model: if self.model.len() == 0 || !models.contains(self.model) {
                    models[0]
                } else {
                    self.model
                },
                models_pending: false,
                ..self
            }
        }
    }

    /// The pane once what came in was read: a model list where one was awaited,
    /// then events where an answer was being read.
    pub open spec fn polled(
        self,
        models: Option<Seq<Seq<char>>>,
        events: Seq<EventView>,
        disconnected: bool,
        now: u64,
    ) -> PaneView {
        let p = if self.models_pending && models is Some {
            self.after_models(models->0)
        } else {
            self
        };
        if p.stream_open {
            p.after_events(events, disconnected, now)
        } else {
            p
        }
    }
}

/// The tokens among the events that are read.
pub open spec fn tokens_read(events: Seq<EventView>) -> nat
    decreases events.len(),
{
    if events.len() == 0 || events[0].ends() {
        0
    } else {
        (if events[0] is Token {
            1nat
        } else {
            0nat
        }) + tokens_read(events.drop_first())
    }
}

/// The messages of a request: the system prompt, where there is one, and the
/// conversation in order.
pub open spec fn api_messages(
    system_prompt: Seq<char>,
    messages: Seq<(Role, Seq<char>)>,
) -> Seq<(Seq<char>, Seq<char>)> {
    let system = trimmed(system_prompt);
    let head = if system.len() > 0 {
        seq![("system"@, system)]
    } else {
        Seq::empty()
    };
    head + messages.map_values(|m: (Role, Seq<char>)| (m.0.name(), m.1))
}

/// The contents of a model list.
pub open spec fn texts(list: Seq<String>) -> Seq<Seq<char>> {
    list.map_values(|s: String| s@)
}

/// The contents of a list of events.
pub open spec fn event_views(list: Seq<StreamEvent>) -> Seq<EventView> {
    list.map_values(|e: StreamEvent| e@)
}

fn contains_text(list: &Vec<String>, text: &str) -> (r: bool)
    ensures
        r == texts(list@).contains(text@),
{
    let mut i: usize = 0;
    while i < list.len()
        invariant
            i <= list@.len(),
            forall|j: int| 0 <= j < i ==> (#[trigger] texts(list@)[j]) != text@,
        decreases list@.len() - i,
    {
        assert(texts(list@)[i as int] == list@[i as int]@);
        if same_text(list[i].as_str(), text) {
            return true;
        }
        i = i + 1;
    }
    false
}

impl PaneState {
    pub fn new(label: &str, endpoint: &str) -> (r: PaneState)
        ensures
            r@ == PaneView::empty(label@, endpoint@),
            r@.wf(),
    {
        let r = PaneState {
            label: label.to_owned(),
            endpoint: endpoint.to_owned(),
            model: empty_text(),
            available_models: Vec::new(),
            messages: Vec::new(),
            input: empty_text(),
            streaming: false,
            current_tps: None,
            last_stats: None,
            stream_open: false,
            models_pending: false,
            scroll_to_bottom: false,
            race_token_count: 0,
            race_finish_time: None,
            race_elapsed_secs: None,
        };
        assert(r@ =~= PaneView::empty(label@, endpoint@));
        r
    }

    /// Whether the input can be sent: there is text, and no answer is awaited.
    pub fn can_send(&self) -> (r: bool)
        ensures
            r == (trimmed(self@.input).len() > 0 && !self@.streaming),
    {
        !self.input.as_str().trim().is_empty() && !self.streaming
    }

    /// Marks the input to be sent, where it can be.
    pub fn mark_send(&mut self)
        ensures
            final(self)@ == if trimmed(old(self)@.input).len() > 0 && !old(self)@.streaming {
                PaneView {
                    input: seq![SEND_MARK] + old(self)@.input,
                    scroll_to_bottom: true,
                    ..old(self)@
                }
            } else {
                old(self)@
            },
    {
        if self.can_send() {
            self.scroll_to_bottom = true;
            proof {
                reveal_strlit("\x01");
                assert("\x01"@ =~= seq![SEND_MARK]);
            }
            self.input = "\x01".to_owned().concat(self.input.as_str());
        }
    }

    /// Forgets the conversation.
    pub fn clear(&mut self)
        ensures
            final(self)@ == (PaneView {
                messages: Seq::empty(),
                last_stats: None,
                current_tps: None,
                ..old(self)@
            }),
    {
        self.messages = Vec::new();
        self.last_stats = None;
        self.current_tps = None;
        assert(self@.messages =~= Seq::<(Role, Seq<char>)>::empty());
    }

    fn push_message(&mut self, role: Role, content: String)
        ensures
            final(self)@ == (PaneView {
                messages: old(self)@.messages.push((role, content@)),
                ..old(self)@
            }),
    {
        let ghost before = self@;
        self.messages.push(DisplayMessage { role, content });
        assert(self@.messages =~= before.messages.push((role, content@)));
    }

    fn take_models(&mut self, models: Vec<String>)
        ensures
            final(self)@ == old(self)@.after_models(texts(models@)),
    {
        if models.len() > 0 {
            let keep = !self.model.as_str().is_empty() && contains_text(
                &models,
                self.model.as_str(),
            );
            if !keep {
                self.model = models[0].clone();
            }
            self.available_models = models;
        }
        self.models_pending = false;
    }

    fn take_event(&mut self, event: &StreamEvent, now: u64)
        requires
            *event is Token ==> old(self)@.race_token_count < u32::MAX,
        ensures
            final(self)@ == old(self)@.after_event(event@, now),
    {
        let ghost before = self@;
        match event {
            StreamEvent::Token(token) => {
                match self.messages.pop() {
                    Some(last) => {
                        let role = last.role;
                        let content = last.content.concat(token.as_str());
                        self.messages.push(DisplayMessage { role, content });
                        assert(self@.messages =~= before.messages.drop_last().push(
                            (before.messages.last().0, before.messages.last().1 + token@),
                        ));
                    },
                    None => {
                        assert(self@.messages =~= before.messages);
                    },
                }
                self.race_token_count = self.race_token_count + 1;
                self.scroll_to_bottom = true;
            },
            StreamEvent::TokPerSec(rate) => {
                self.current_tps = Some(*rate);
            },
            StreamEvent::Done { tokens, elapsed_secs } => {
                self.last_stats = Some(
                    AnswerStats { tokens: *tokens, elapsed_secs: *elapsed_secs },
                );
                self.streaming = false;
                self.current_tps = None;
                self.stream_open = false;
                self.race_token_count = *tokens;
                self.race_finish_time = Some(now);
                self.race_elapsed_secs = Some(*elapsed_secs);
            },
            StreamEvent::Error(e) => {
                let n: usize = self.messages.len();
                if n > 0 {
                    let unanswered = match self.messages[n - 1].role {
                        Role::Assistant => self.messages[n - 1].content.as_str().is_empty(),
                        Role::User => false,
                    };
                    if unanswered {
                        let mut content = "[Error: ".to_owned();
                        content.append(e.as_str());
                        content.append("]");
                        let _ = self.messages.pop();
                        self.messages.push(DisplayMessage { role: Role::Assistant, content });
                        assert(self@.messages =~= before.messages.drop_last().push(
                            (Role::Assistant, "[Error: "@ + e@ + "]"@),
                        ));
                    }
                }
                self.streaming = false;
                self.current_tps = None;
                self.stream_open = false;
                self.race_finish_time = Some(now);
                self.race_elapsed_secs = Some(F64Bits(0));
            },
        }
    }
}

impl PaneState {
    /// Reads what came in for this pane.
    fn poll(
        &mut self,
        models: Option<Vec<String>>,
        events: &Vec<StreamEvent>,
        disconnected: bool,
        now: u64,
    )
        requires
            old(self)@.stream_open ==> old(self)@.race_token_count + tokens_read(
                event_views(events@),
            ) <= u32::MAX,
        ensures
            final(self)@ == old(self)@.polled(
                match models {
                    Some(m) => Some(texts(m@)),
                    None => None,
                },
                event_views(events@),
                disconnected,
                now,
            ),
            old(self)@.wf() ==> final(self)@.wf(),
    {
        if self.models_pending {
            if let Some(list) = models {
                self.take_models(list);
            }
        }
        if !self.stream_open {
            return;
        }
        let ghost views = event_views(events@);
        let ghost start = self@;
        let mut i: usize = 0;
        proof {
            assert(views.skip(0) =~= views);
        }
        while i < events.len()
            invariant_except_break
                self@.stream_open,
                start.after_events(views, disconnected, now) == self@.after_events(
                    views.skip(i as int),
                    disconnected,
                    now,
                ),
                self@.race_token_count + tokens_read(views.skip(i as int)) <= u32::MAX,
            invariant
                i <= events@.len(),
                views == event_views(events@),
                start.wf() ==> self@.wf(),
            ensures
                self@.stream_open ==> i == events@.len(),
                self@.stream_open ==> start.after_events(views, disconnected, now)
                    == self@.after_events(Seq::empty(), disconnected, now),
                !self@.stream_open ==> start.after_events(views, disconnected, now) == self@,
            decreases events@.len() - i,
        {
            proof {
                assert(views.skip(i as int)[0] == events@[i as int]@);
                assert(views.skip(i as int).drop_first() =~= views.skip(i + 1));
            }
            let ends = match &events[i] {
                StreamEvent::Done { .. } | StreamEvent::Error(_) => true,
                _ => false,
            };
            self.take_event(&events[i], now);
            if ends {
                break;
            }
            i = i + 1;
            proof {
                if i == events@.len() {
                    assert(views.skip(i as int) =~= Seq::empty());
                }
            }
        }
        proof {
            assert(views.skip(events@.len() as int) =~= Seq::empty());
        }
        if self.stream_open && disconnected {
            self.streaming = false;
            self.stream_open = false;
        }
    }
}

/// The outcome of a race.
#[derive(Copy, Clone, Debug, PartialEq, Eq, Structural)]
pub struct RaceResult {
    pub left_tokens: u32,
    pub left_elapsed: F64Bits,
    pub right_tokens: u32,
    pub right_elapsed: F64Bits,
}

/// Who won a race.
#[derive(Copy, Clone, Debug, PartialEq, Eq, Structural)]
pub enum Winner {
    Left,
    Right,
    Tie,
}

impl RaceResult {
    /// The pane with the shorter time.
    pub open spec fn first(self) -> Winner {
        if self.left_elapsed.less(self.right_elapsed) {
            Winner::Left
        } else if self.right_elapsed.less(self.left_elapsed) {
            Winner::Right
        } else {
            Winner::Tie
        }
    }

    /// The pane with the shorter time wins.
    pub fn winner(&self) -> (r: Winner)
        ensures
            r == self.first(),
    {
        if self.left_elapsed.less_than(&self.right_elapsed) {
            Winner::Left
        } else if self.right_elapsed.less_than(&self.left_elapsed) {
            Winner::Right
        } else {
            Winner::Tie
        }
    }
}

/// The two panes and what they share.
#[derive(Debug)]
pub struct ChatApp {
    pub temperature: F32Bits,
    pub max_tokens: u32,
    pub system_prompt: String,
    pub show_system_prompt: bool,
    pub race_prompt: String,
    pub race_active: bool,
    pub race_start: Option<u64>,
    pub race_left_done: bool,
    pub race_right_done: bool,
    pub race_result: Option<RaceResult>,
    pub left: PaneState,
    pub right: PaneState,
}

/// The contents of the app.
#[verifier::ext_equal]
pub struct AppView {
    pub temperature: F32Bits,
    pub max_tokens: u32,
    pub system_prompt: Seq<char>,
    pub show_system_prompt: bool,
    pub race_prompt: Seq<char>,
    pub race_active: bool,
    pub race_start: Option<u64>,
    pub race_left_done: bool,
    pub race_right_done: bool,
    pub race_result: Option<RaceResult>,
    pub left: PaneView,
    pub right: PaneView,
}

impl View for ChatApp {
    type V = AppView;

    open spec fn view(&self) -> AppView {
        AppView {
            temperature: self.temperature,
            max_tokens: self.max_tokens,
            system_prompt: self.system_prompt@,
            show_system_prompt: self.show_system_prompt,
            race_prompt: self.race_prompt@,
            race_active: self.race_active,
            race_start: self.race_start,
            race_left_done: self.race_left_done,
            race_right_done: self.race_right_done,
            race_result: self.race_result,
            left: self.left@,
            right: self.right@,
        }
    }
}

/// An elapsed time, or zero where there is none.
pub open spec fn elapsed_or_zero(t: Option<F64Bits>) -> F64Bits {
    match t {
        Some(t) => t,
        None => F64Bits(0),
    }
}

impl AppView {
    /// Both panes are consistent.
    pub open spec fn wf(self) -> bool {
        self.left.wf() && self.right.wf()
    }

    pub open spec fn pane(self, side: PaneSide) -> PaneView {
        match side {
            PaneSide::Left => self.left,
            PaneSide::Right => self.right,
        }
    }

    /// The app with one pane replaced.
    pub open spec fn with_pane(self, side: PaneSide, pane: PaneView) -> AppView {
        match side {
            PaneSide::Left => AppView { left: pane, ..self },
            PaneSide::Right => AppView { right: pane, ..self },
        }
    }

    /// The request that puts `text` to a pane's server.
    pub open spec fn request(self, side: PaneSide, text: Seq<char>) -> SendView {
        let pane = self.pane(side);
        SendView {
            endpoint: pane.endpoint,
            model: pane.request_model(),
            messages: api_messages(self.system_prompt, pane.messages.push((Role::User, text))),
            temperature: self.temperature,
            max_tokens: self.max_tokens,
            stream: true,
        }
    }

    /// Whether a pane's input can be sent: there is text, and no answer is
    /// awaited.
    pub open spec fn can_send(self, side: PaneSide) -> bool {
        trimmed(self.pane(side).input).len() > 0 && !self.pane(side).streaming
    }

    /// The app once a pane's input was sent.
    pub open spec fn sent(self, side: PaneSide) -> AppView {
        let pane = self.pane(side);
        if self.can_send(side) {
            self.with_pane(
                side,
                (PaneView { input: Seq::empty(), ..pane }).asking(trimmed(pane.input)),
            )
        } else {
            self
        }
    }

    /// What sending a pane's input sends.
    pub open spec fn sent_request(self, side: PaneSide) -> Option<SendView> {
        if self.can_send(side) {
            Some(self.request(side, trimmed(self.pane(side).input)))
        } else {
            None
        }
    }

    /// Whether a pane's input carries the mark that asks for it to be sent.
    pub open spec fn is_marked(self, side: PaneSide) -> bool {
        self.pane(side).input.len() > 0 && self.pane(side).input[0] == SEND_MARK
    }

    /// The app with the mark taken off a pane's input.
    pub open spec fn unmarked(self, side: PaneSide) -> AppView {
        self.with_pane(
            side,
            PaneView { input: self.pane(side).input.drop_first(), ..self.pane(side) },
        )
    }

    /// The pane of a race once the prompt was put to it.
    pub open spec fn racing_pane(self, side: PaneSide, prompt: Seq<char>) -> PaneView {
        PaneView {
            race_token_count: 0,
            race_finish_time: None,
            race_elapsed_secs: None,
            ..self.pane(side).asking(prompt)
        }
    }

    /// Whether a race can start: there is a prompt and both panes are idle.
    pub open spec fn can_start_race(self) -> bool {
        trimmed(self.race_prompt).len() > 0 && !self.left.streaming && !self.right.streaming
    }

    /// The app once a race was started.
    pub open spec fn racing(self, now: u64) -> AppView {
        let prompt = trimmed(self.race_prompt);
        AppView {
            race_active: true,
            race_start: Some(now),
            race_left_done: false,
            race_right_done: false,
            race_result: None,
            left: self.racing_pane(PaneSide::Left, prompt),
            right: self.racing_pane(PaneSide::Right, prompt),
            ..self
        }
    }

    /// The app once it was looked at whether a race is over.
    pub open spec fn race_checked(self) -> AppView {
        let left_done = self.race_left_done || !self.left.streaming;
        let right_done = self.race_right_done || !self.right.streaming;
        if !self.race_active {
            self
        } else if left_done && right_done {
            AppView {
                race_left_done: true,
                race_right_done: true,
                race_active: false,
                race_result: Some(
                    RaceResult {
                        left_tokens: self.left.race_token_count,
                        left_elapsed: elapsed_or_zero(self.left.race_elapsed_secs),
                        right_tokens: self.right.race_token_count,
                        right_elapsed: elapsed_or_zero(self.right.race_elapsed_secs),
                    },
                ),
                ..self
            }
        } else {
            AppView { race_left_done: left_done, race_right_done: right_done, ..self }
        }
    }
}

impl ChatApp {
    /// The app at its start: both panes await their model lists.
    pub fn new() -> (r: ChatApp)
        ensures
            r@ == (AppView {
                temperature: F32Bits(0x3f33_3333),
                max_tokens: 2048,
                system_prompt: "You are a helpful assistant."@,
                show_system_prompt: false,
                race_prompt: Seq::empty(),
                race_active: false,
                race_start: None,
                race_left_done: false,
                race_right_done: false,
                race_result: None,
                left: PaneView {
                    models_pending: true,
                    ..PaneView::empty("GPU"@, "http://localhost:8081/v1/chat/completions"@)
                },
                right: PaneView {
                    models_pending: true,
                    ..PaneView::empty("TPU"@, "http://localhost:8080/v1/chat/completions"@)
                },
            }),
            r@.wf(),
    {
        let mut app = ChatApp {
            temperature: F32Bits(0x3f33_3333),
            max_tokens: 2048,
            system_prompt: "You are a helpful assistant.".to_owned(),
            show_system_prompt: false,
            race_prompt: empty_text(),
            race_active: false,
            race_start: None,
            race_left_done: false,
            race_right_done: false,
            race_result: None,
            left: PaneState::new("GPU", "http://localhost:8081/v1/chat/completions"),
            right: PaneState::new("TPU", "http://localhost:8080/v1/chat/completions"),
        };
        let _ = app.refresh_models_for(PaneSide::Left);
        let _ = app.refresh_models_for(PaneSide::Right);
        app
    }

    pub fn pane(&self, side: PaneSide) -> (r: &PaneState)
        ensures
            r@ == self@.pane(side),
            *r == match side {
                PaneSide::Left => self.left,
                PaneSide::Right => self.right,
            },
    {
        match side {
            PaneSide::Left => &self.left,
            PaneSide::Right => &self.right,
        }
    }

    /// Awaits a model list for a pane; returns the endpoint to ask.
    pub fn refresh_models_for(&mut self, side: PaneSide) -> (r: String)
        ensures
            r@ == old(self)@.pane(side).endpoint,
            final(self)@ == old(self)@.with_pane(
                side,
                PaneView { models_pending: true, ..old(self)@.pane(side) },
            ),
    {
        match side {
            PaneSide::Left => {
                self.left.models_pending = true;
                self.left.endpoint.clone()
            },
            PaneSide::Right => {
                self.right.models_pending = true;
                self.right.endpoint.clone()
            },
        }
    }

    /// The messages of a request: the system prompt, where there is one, and
    /// the pane's conversation in order.
    pub fn build_api_messages(&self, side: PaneSide) -> (r: Vec<ChatMessage>)
        ensures
            r@.map_values(|m: ChatMessage| m@) == api_messages(
                self@.system_prompt,
                self@.pane(side).messages,
            ),
    {
        let pane = self.pane(side);
        let mut list: Vec<ChatMessage> = Vec::new();
        let sys = self.system_prompt.as_str().trim();
        if !sys.is_empty() {
            list.push(ChatMessage { role: "system".to_owned(), content: sys.to_owned() });
        }
        let ghost head = list@.map_values(|m: ChatMessage| m@);
        let ghost shown = pane@.messages;
        let mut i: usize = 0;
        while i < pane.messages.len()
            invariant
                i <= pane.messages@.len(),
                shown == pane@.messages,
                list@.map_values(|m: ChatMessage| m@) =~= head + shown.take(i as int).map_values(
                    |m: (Role, Seq<char>)| (m.0.name(), m.1),
                ),
            decreases pane.messages@.len() - i,
        {
            let msg = &pane.messages[i];
            let role = match msg.role {
                Role::User => "user",
                Role::Assistant => "assistant",
            };
            let ghost before = list@.map_values(|m: ChatMessage| m@);
            list.push(ChatMessage { role: role.to_owned(), content: msg.content.clone() });
            proof {
                assert(shown[i as int] == msg@);
                assert(list@.map_values(|m: ChatMessage| m@) =~= before.push(
                    (msg.role.name(), msg.content@),
                ));
                assert(shown.take(i + 1) =~= shown.take(i as int).push(shown[i as int]));
            }
            i = i + 1;
        }
        proof {
            assert(shown.take(i as int) =~= shown);
        }
        list
    }

    fn request_for(&self, side: PaneSide) -> (r: SendAction)
        ensures
            r@ == (SendView {
                endpoint: self@.pane(side).endpoint,
                model: self@.pane(side).request_model(),
                messages: api_messages(self@.system_prompt, self@.pane(side).messages),
                temperature: self@.temperature,
                max_tokens: self@.max_tokens,
                stream: true,
            }),
    {
        let pane = self.pane(side);
        let model = if pane.model.as_str().is_empty() {
            "default".to_owned()
        } else {
            pane.model.clone()
        };
        SendAction {
            endpoint: pane.endpoint.clone(),
            request: ChatRequest {
                model,
                messages: self.build_api_messages(side),
                temperature: self.temperature,
                max_tokens: self.max_tokens,
                stream: true,
            },
        }
    }

    fn put_question(&mut self, side: PaneSide, text: String)
        ensures
            final(self)@ == old(self)@.with_pane(
                side,
                PaneView {
                    messages: old(self)@.pane(side).messages.push((Role::User, text@)),
                    ..old(self)@.pane(side)
                },
            ),
    {
        match side {
            PaneSide::Left => self.left.push_message(Role::User, text),
            PaneSide::Right => self.right.push_message(Role::User, text),
        }
    }

    fn await_answer(&mut self, side: PaneSide)
        ensures
            final(self)@ == old(self)@.with_pane(
                side,
                PaneView {
                    messages: old(self)@.pane(side).messages.push(
                        (Role::Assistant, Seq::empty()),
                    ),
                    stream_open: true,
                    streaming: true,
                    current_tps: None,
                    last_stats: None,
                    scroll_to_bottom: true,
                    ..old(self)@.pane(side)
                },
            ),
    {
        match side {
            PaneSide::Left => {
                self.left.push_message(Role::Assistant, empty_text());
                self.left.stream_open = true;
                self.left.streaming = true;
                self.left.current_tps = None;
                self.left.last_stats = None;
                self.left.scroll_to_bottom = true;
            },
            PaneSide::Right => {
                self.right.push_message(Role::Assistant, empty_text());
                self.right.stream_open = true;
                self.right.streaming = true;
                self.right.current_tps = None;
                self.right.last_stats = None;
                self.right.scroll_to_bottom = true;
            },
        }
    }

    /// Sends a pane's input. Nothing happens without text or while an answer is
    /// awaited.
    pub fn send_message_for(&mut self, side: PaneSide) -> (r: Option<SendAction>)
        requires
            old(self)@.wf(),
        ensures
            final(self)@.wf(),
            final(self)@ == old(self)@.sent(side),
            match old(self)@.sent_request(side) {
                Some(request) => r is Some && r->0@ == request,
                None => r is None,
            },
    {
        let pane = self.pane(side);
        let text = pane.input.as_str().trim().to_owned();
        if text.as_str().is_empty() || pane.streaming {
            return None;
        }
        self.put_question(side, text);
        match side {
            PaneSide::Left => {
                self.left.input = empty_text();
            },
            PaneSide::Right => {
                self.right.input = empty_text();
            },
        }
        let action = self.request_for(side);
        self.await_answer(side);
        Some(action)
    }

    /// Sends a pane's input where it is marked, without the mark.
    pub fn send_marked(&mut self, side: PaneSide) -> (r: Option<SendAction>)
        requires
            old(self)@.wf(),
        ensures
            final(self)@.wf(),
            if old(self)@.is_marked(side) {
                &&& final(self)@ == old(self)@.unmarked(side).sent(side)
                &&& match old(self)@.unmarked(side).sent_request(side) {
                    Some(request) => r is Some && r->0@ == request,
                    None => r is None,
                }
            } else {
                r is None && final(self)@ == old(self)@
            },
    {
        let input = self.pane(side).input.as_str();
        let n: usize = input.unicode_len();
        if n == 0 || input.get_char(0) != SEND_MARK {
            return None;
        }
        let rest = input.substring_char(1, n).to_owned();
        proof {
            assert(rest@ =~= self@.pane(side).input.drop_first());
        }
        match side {
            PaneSide::Left => {
                self.left.input = rest;
            },
            PaneSide::Right => {
                self.right.input = rest;
            },
        }
        self.send_message_for(side)
    }

    /// Puts the prompt of a race to a pane.
    pub fn send_race_prompt_to(&mut self, side: PaneSide, prompt: &str) -> (r: SendAction)
        ensures
            r@ == old(self)@.request(side, prompt@),
            final(self)@ == old(self)@.with_pane(side, old(self)@.racing_pane(side, prompt@)),
    {
        self.put_question(side, prompt.to_owned());
        let action = self.request_for(side);
        self.await_answer(side);
        match side {
            PaneSide::Left => {
                self.left.race_token_count = 0;
                self.left.race_finish_time = None;
                self.left.race_elapsed_secs = None;
            },
            PaneSide::Right => {
                self.right.race_token_count = 0;
                self.right.race_finish_time = None;
                self.right.race_elapsed_secs = None;
            },
        }
        action
    }

    /// Starts a race: the prompt goes to both panes. Nothing happens without a
    /// prompt or while an answer is awaited.
    pub fn start_race(&mut self, now: u64) -> (r: Option<RaceActions>)
        requires
            old(self)@.wf(),
        ensures
            final(self)@.wf(),
            if old(self)@.can_start_race() {
                &&& r is Some
                &&& r->0.left@ == old(self)@.request(PaneSide::Left, trimmed(old(self)@.race_prompt))
                &&& r->0.right@ == old(self)@.request(PaneSide::Right, trimmed(old(self)@.race_prompt))
                &&& final(self)@ == old(self)@.racing(now)
            } else {
                r is None && final(self)@ == old(self)@
            },
    {
        let prompt = self.race_prompt.as_str().trim().to_owned();
        if prompt.as_str().is_empty() || self.left.streaming || self.right.streaming {
            return None;
        }
        self.race_active = true;
        self.race_start = Some(now);
        self.race_left_done = false;
        self.race_right_done = false;
        self.race_result = None;
        let left = self.send_race_prompt_to(PaneSide::Left, prompt.as_str());
        let right = self.send_race_prompt_to(PaneSide::Right, prompt.as_str());
        Some(RaceActions { left, right })
    }

    /// Whether the button that starts a race is enabled.
    pub fn can_race(&self) -> (r: bool)
        ensures
            r == (self@.can_start_race() && !self@.race_active),
    {
        !self.race_prompt.as_str().trim().is_empty() && !self.race_active && !self.left.streaming
            && !self.right.streaming
    }

    /// Reads what came in for a pane: a model list, events of an answer, or that
    /// the sender is gone.
    pub fn poll_pane(
        &mut self,
        side: PaneSide,
        models: Option<Vec<String>>,
        events: &Vec<StreamEvent>,
        disconnected: bool,
        now: u64,
    )
        requires
            old(self)@.wf(),
            old(self)@.pane(side).stream_open ==> old(self)@.pane(side).race_token_count
                + tokens_read(event_views(events@)) <= u32::MAX,
        ensures
            final(self)@.wf(),
            final(self)@ == old(self)@.with_pane(
                side,
                old(self)@.pane(side).polled(
                    match models {
                        Some(m) => Some(texts(m@)),
                        None => None,
                    },
                    event_views(events@),
                    disconnected,
                    now,
                ),
            ),
    {
        match side {
            PaneSide::Left => self.left.poll(models, events, disconnected, now),
            PaneSide::Right => self.right.poll(models, events, disconnected, now),
        }
    }

    /// Ends a race once neither pane streams any more.
    pub fn check_race_completion(&mut self)
        ensures
            final(self)@ == old(self)@.race_checked(),
    {
        if !self.race_active {
            return;
        }
        if !self.race_left_done && !self.left.streaming {
            self.race_left_done = true;
        }
        if !self.race_right_done && !self.right.streaming {
            self.race_right_done = true;
        }
        if self.race_left_done && self.race_right_done {
            self.race_active = false;
            self.race_result = Some(
                RaceResult {
                    left_tokens: self.left.race_token_count,
                    left_elapsed: match self.left.race_elapsed_secs {
                        Some(t) => t,
                        None => F64Bits(0),
                    },
                    right_tokens: self.right.race_token_count,
                    right_elapsed: match self.right.race_elapsed_secs {
                        Some(t) => t,
                        None => F64Bits(0),
                    },
                },
            );
        }
    }

    /// Whether something on screen is changing.
    pub fn needs_repaint(&self) -> (r: bool)
        ensures
            r == (self@.left.streaming || self@.right.streaming || self@.race_active),
    {
        self.left.streaming || self.right.streaming || self.race_active
    }
}

/// A pane stays consistent whatever comes in, and an event that ends the answer
/// leaves it idle.
pub proof fn polling_keeps_panes_consistent(
    pane: PaneView,
    models: Option<Seq<Seq<char>>>,
    events: Seq<EventView>,
    disconnected: bool,
    now: u64,
)
    requires
        pane.wf(),
    ensures
        pane.polled(models, events, disconnected, now).wf(),
        disconnected ==> !pane.polled(models, events, disconnected, now).streaming,
        (exists|i: int| 0 <= i < events.len() && (#[trigger] events[i]).ends())
            ==> !pane.polled(models, events, disconnected, now).streaming,
{
    let p = if pane.models_pending && models is Some {
        pane.after_models(models->0)
    } else {
        pane
    };
    if p.stream_open {
        reading_ends(p, events, disconnected, now);
    }
}

proof fn reading_ends(pane: PaneView, events: Seq<EventView>, disconnected: bool, now: u64)
    requires
        pane.wf(),
    ensures
        pane.after_events(events, disconnected, now).wf(),
        disconnected ==> !pane.after_events(events, disconnected, now).streaming,
        (exists|i: int| 0 <= i < events.len() && (#[trigger] events[i]).ends())
            ==> !pane.after_events(events, disconnected, now).streaming,
    decreases events.len(),
{
    if events.len() > 0 && !events[0].ends() {
        reading_ends(pane.after_event(events[0], now), events.drop_first(), disconnected, now);
        if exists|i: int| 0 <= i < events.len() && (#[trigger] events[i]).ends() {
            let i = choose|i: int| 0 <= i < events.len() && (#[trigger] events[i]).ends();
            assert(events.drop_first()[i - 1] == events[i]);
        }
    }
}

/// The text of a list of tokens, in order.
pub open spec fn joined(tokens: Seq<Seq<char>>) -> Seq<char>
    decreases tokens.len(),
{
    if tokens.len() == 0 {
        Seq::empty()
    } else {
        tokens[0] + joined(tokens.drop_first())
    }
}

/// Streamed tokens are appended to the awaited answer in the order in which they
/// come, each of them counted; the rest of the conversation stays as it is.
pub proof fn tokens_append_in_order(pane: PaneView, tokens: Seq<Seq<char>>, now: u64)
    requires
        pane.messages.len() > 0,
        pane.race_token_count + tokens.len() <= u32::MAX,
    ensures
        ({
            let after = pane.after_events(
                tokens.map_values(|t: Seq<char>| EventView::Token(t)),
                false,
                now,
            );
            &&& after.messages == pane.messages.drop_last().push(
                (pane.messages.last().0, pane.messages.last().1 + joined(tokens)),
            )
            &&& after.race_token_count == pane.race_token_count + tokens.len()
            &&& after.streaming == pane.streaming
        }),
    decreases tokens.len(),
{
    let events = tokens.map_values(|t: Seq<char>| EventView::Token(t));
    if tokens.len() == 0 {
        assert(pane.messages =~= pane.messages.drop_last().push(
            (pane.messages.last().0, pane.messages.last().1 + joined(tokens)),
        ));
    } else {
        let next = pane.after_event(events[0], now);
        assert(events.drop_first() =~= tokens.drop_first().map_values(
            |t: Seq<char>| EventView::Token(t),
        ));
        tokens_append_in_order(next, tokens.drop_first(), now);
        assert(next.messages.drop_last() =~= pane.messages.drop_last());
        assert(next.messages.last().1 + joined(tokens.drop_first())
            =~= pane.messages.last().1 + joined(tokens));
    }
}

/// A race in progress is over at the next look exactly when both panes are done.
pub proof fn race_ends_when_both_are_done(app: AppView)
    requires
        app.race_active,
    ensures
        !app.race_checked().race_active <==> (app.race_left_done || !app.left.streaming) && (
        app.race_right_done || !app.right.streaming),
{
}

/// Marking an input and then sending what is marked sends the input as it was.
pub proof fn marking_changes_nothing_sent(app: AppView, side: PaneSide)
    requires
        app.can_send(side),
    ensures
        ({
            let marked = app.with_pane(
                side,
                PaneView {
                    input: seq![SEND_MARK] + app.pane(side).input,
                    scroll_to_bottom: true,
                    ..app.pane(side)
                },
            );
            &&& marked.is_marked(side)
            &&& marked.unmarked(side).sent(side) == app.sent(side)
            &&& marked.unmarked(side).sent_request(side) == app.sent_request(side)
        }),
{
    let input = app.pane(side).input;
    assert((seq![SEND_MARK] + input).drop_first() =~= input);
}

/// Both panes of a race get the same question, and from a fresh start both
/// answers are awaited.
pub proof fn race_is_fair(app: AppView, now: u64)
    requires
        app.wf(),
        app.can_start_race(),
    ensures
        ({
            let raced = app.racing(now);
            let question = (Role::User, trimmed(app.race_prompt));
            &&& raced.left.messages == app.left.messages.push(question).push(
                (Role::Assistant, Seq::empty()),
            )
            &&& raced.right.messages == app.right.messages.push(question).push(
                (Role::Assistant, Seq::empty()),
            )
            &&& raced.left.streaming && raced.right.streaming && raced.race_active
            &&& raced.left.race_token_count == 0 && raced.right.race_token_count == 0
            &&& raced.race_checked() == raced
        }),
{
}

} // verus!
