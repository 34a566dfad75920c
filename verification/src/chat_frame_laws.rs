//! What the chat's operations do to the window and what they send, said of the
//! values that go in and come out.

use crate::chat::{
    api_messages, event_views, ChatApp, ChatMessage, DisplayMessage, EventView, PaneSide,
    PaneState, PaneView, RaceActions, RaceResult, Role, SendAction, StreamEvent, Winner,
};
use crate::chat_laws::{
    a_failed_answer_keeps_its_text, a_finished_answer_is_shown_whole, a_follow_up_carries_the_answers,
    a_request_ends_in_its_question, as_events, lead, sending_puts_the_question,
    the_conversation_is_sent_as_it_stands, the_result_is_what_the_panes_measured,
    the_shorter_time_wins, tokens_are_read_first,
};
use crate::chat_view::{
    panes_send_independently, BubbleSide, Incoming, ModelRow, RaceTimer,
};
use crate::ids::F64Bits;
use crate::text::trimmed;
use vstd::prelude::*;

verus! {

/// The pane of a side.
pub open spec fn pane_of(app: ChatApp, side: PaneSide) -> PaneState {
    match side {
        PaneSide::Left => app.left,
        PaneSide::Right => app.right,
    }
}

/// The pane of the other side.
pub open spec fn other_pane_of(app: ChatApp, side: PaneSide) -> PaneState {
    match side {
        PaneSide::Left => app.right,
        PaneSide::Right => app.left,
    }
}

/// Whether a list of messages for a server is a conversation: the trimmed system
/// prompt first, where it is not empty, and behind it every message with its
/// content and the name of its writer.
pub open spec fn is_conversation(
    sent: Seq<ChatMessage>,
    system_prompt: Seq<char>,
    shown: Seq<DisplayMessage>,
) -> bool {
    let h = lead(system_prompt);
    &&& sent.len() == h + shown.len()
    &&& h == 1 ==> sent[0].role@ == "system"@ && sent[0].content@ == trimmed(system_prompt)
    &&& forall|i: int|
        0 <= i < shown.len() ==> {
            &&& sent[h + i].content@ == (#[trigger] shown[i]).content@
            &&& sent[h + i].role@ == match shown[i].role {
                Role::User => "user"@,
                Role::Assistant => "assistant"@,
            }
        }
}

/// The messages that are built for a server are the pane's conversation, the
/// assistant's messages among them with their content.
pub proof fn the_conversation_is_built_whole(app: ChatApp, side: PaneSide, sent: Vec<ChatMessage>)
    requires
        call_ensures(ChatApp::build_api_messages, (&app, side), sent),
    ensures
        is_conversation(sent@, app.system_prompt@, pane_of(app, side).messages@),
{
    let shown = pane_of(app, side)@.messages;
    let views = sent@.map_values(|m: ChatMessage| m@);
    let h = lead(app.system_prompt@);
    assert(views == api_messages(app.system_prompt@, shown));
    assert(views.len() == sent@.len());
    assert forall|i: int| 0 <= i < shown.len() implies {
        &&& sent@[h + i].content@ == (#[trigger] pane_of(app, side).messages@[i]).content@
        &&& sent@[h + i].role@ == match pane_of(app, side).messages@[i].role {
            Role::User => "user"@,
            Role::Assistant => "assistant"@,
        }
    } by {
        the_conversation_is_sent_as_it_stands(app.system_prompt@, shown, i);
        assert(views[h + i] == sent@[h + i]@);
        assert(shown[i] == pane_of(app, side).messages@[i]@);
    }
    if h == 1 {
        assert(views[0] == sent@[0]@);
    }
}

/// Sending a pane's input happens exactly where there is text and no answer is
/// awaited. The request goes to the pane's endpoint, for the model that is chosen
/// there, with the app's settings, and its last message is the trimmed input; the
/// messages before it are those that stood in the pane. The input is then empty,
/// the conversation is longer by the question and an empty answer, and nothing
/// else of the app has changed.
pub proof fn sent_inputs_end_the_request(
    app: &mut ChatApp,
    side: PaneSide,
    r: Option<SendAction>,
    i: int,
)
    requires
        call_ensures(ChatApp::send_message_for, (app, side), r),
    ensures
        ({
            let before = pane_of(*old(app), side);
            let after = pane_of(*final(app), side);
            let text = trimmed(before.input@);
            &&& r is Some <==> text.len() > 0 && !before.streaming
            &&& other_pane_of(*final(app), side)@ == other_pane_of(*old(app), side)@
            &&& final(app).system_prompt@ == old(app).system_prompt@
            &&& final(app).temperature == old(app).temperature
            &&& final(app).max_tokens == old(app).max_tokens
            &&& r is None ==> after@ == before@
            &&& r matches Some(action) ==> {
                let sent = action.request.messages@;
                let h = lead(old(app).system_prompt@);
                &&& action.endpoint@ == before.endpoint@
                &&& before.model@.len() > 0 ==> action.request.model@ == before.model@
                &&& before.model@.len() == 0 ==> action.request.model@ == "default"@
                &&& action.request.temperature == old(app).temperature
                &&& action.request.max_tokens == old(app).max_tokens
                &&& action.request.stream
                &&& sent.len() == h + before.messages@.len() + 1
                &&& sent.last().role@ == "user"@
                &&& sent.last().content@ == text
                &&& 0 <= i < before.messages@.len() ==> sent[h + i].content@
                    == before.messages@[i].content@
                &&& after.input@.len() == 0
                &&& after.streaming
                &&& after.messages@.len() == before.messages@.len() + 2
                &&& after.messages@[before.messages@.len() as int].content@ == text
                &&& after.messages@[before.messages@.len() as int].role == Role::User
                &&& after.messages@.last().role == Role::Assistant
                &&& after.messages@.last().content@.len() == 0
                &&& 0 <= i < before.messages@.len() ==> after.messages@[i]@
                    == before.messages@[i]@
            }
        }),
{
    let view = old(app)@;
    let before = pane_of(*old(app), side);
    let after = pane_of(*final(app), side);
    sending_puts_the_question(view, side);
    assert(final(app)@.pane(side) == after@);
    assert(view.pane(side) == before@);
    if r is Some {
        let sent = r->0.request.messages@;
        let views = sent.map_values(|m: ChatMessage| m@);
        let h = lead(view.system_prompt);
        let text = trimmed(before.input@);
        a_request_ends_in_its_question(view, side, text);
        assert(r->0@ == view.request(side, text));
        assert(views == view.request(side, text).messages);
        assert(views.len() == sent.len());
        assert(views.last() == sent.last()@);
        let n = before.messages@.len() as int;
        assert(after@.messages[n] == after.messages@[n]@);
        assert(after@.messages.last() == after.messages@.last()@);
        if 0 <= i < n {
            a_follow_up_carries_the_answers(view, side, i);
            assert(views[h + i] == sent[h + i]@);
            assert(before@.messages[i] == before.messages@[i]@);
            assert(after@.messages.take(n)[i] == after@.messages[i]);
            assert(after@.messages[i] == after.messages@[i]@);
        }
    }
}

/// An answer that comes to its end is shown whole, behind what was there, and its
/// statistics are those that its end carried. The other pane stays as it is.
pub proof fn polled_answers_are_shown_whole(
    app: &mut ChatApp,
    side: PaneSide,
    events: Vec<StreamEvent>,
    tokens: Seq<Seq<char>>,
    count: u32,
    elapsed: F64Bits,
    behind: Seq<EventView>,
    disconnected: bool,
    now: u64,
)
    requires
        call_ensures(
            ChatApp::poll_pane,
            (app, side, None::<Vec<String>>, &events, disconnected, now),
            (),
        ),
        event_views(events@) == as_events(tokens) + (seq![
            EventView::Done { tokens: count, elapsed_secs: elapsed },
        ] + behind),
        pane_of(*old(app), side).stream_open,
        pane_of(*old(app), side).messages@.len() > 0,
        pane_of(*old(app), side).race_token_count + tokens.len() <= u32::MAX,
    ensures
        ({
            let before = pane_of(*old(app), side);
            let after = pane_of(*final(app), side);
            &&& after.messages@.len() == before.messages@.len()
            &&& after.messages@.last().content@ == before.messages@.last().content@
                + tokens.flatten()
            &&& after.messages@.last().role == before.messages@.last().role
            &&& after.last_stats matches Some(s) && s.tokens == count && s.elapsed_secs == elapsed
            &&& !after.streaming
            &&& after.race_token_count == count
            &&& after.race_elapsed_secs == Some(elapsed)
            &&& after.race_finish_time == Some(now)
            &&& other_pane_of(*final(app), side)@ == other_pane_of(*old(app), side)@
        }),
{
    let before = pane_of(*old(app), side);
    let after = pane_of(*final(app), side);
    a_finished_answer_is_shown_whole(before@, tokens, count, elapsed, behind, disconnected, now);
    assert(old(app)@.pane(side) == before@);
    assert(final(app)@.pane(side) == after@);
    assert(after@.messages.last() == after.messages@.last()@);
    assert(before@.messages.last() == before.messages@.last()@);
}

/// An answer that fails leaves the pane idle and keeps the text that has come;
/// where none has, the error is shown.
pub proof fn polled_failures_keep_the_text(
    app: &mut ChatApp,
    side: PaneSide,
    events: Vec<StreamEvent>,
    tokens: Seq<Seq<char>>,
    error: Seq<char>,
    behind: Seq<EventView>,
    disconnected: bool,
    now: u64,
)
    requires
        call_ensures(
            ChatApp::poll_pane,
            (app, side, None::<Vec<String>>, &events, disconnected, now),
            (),
        ),
        event_views(events@) == as_events(tokens) + (seq![EventView::Error(error)] + behind),
        pane_of(*old(app), side).stream_open,
        pane_of(*old(app), side).messages@.len() > 0,
        pane_of(*old(app), side).messages@.last().role == Role::Assistant,
        pane_of(*old(app), side).race_token_count + tokens.len() <= u32::MAX,
    ensures
        ({
            let before = pane_of(*old(app), side);
            let after = pane_of(*final(app), side);
            let text = before.messages@.last().content@ + tokens.flatten();
            &&& after.messages@.len() == before.messages@.len()
            &&& text.len() > 0 ==> after.messages@.last().content@ == text
            &&& text.len() == 0 ==> after.messages@.last().content@ == "[Error: "@ + error + "]"@
            &&& !after.streaming
            &&& after.last_stats == before.last_stats
            &&& after.race_finish_time == Some(now)
        }),
{
    let before = pane_of(*old(app), side);
    let after = pane_of(*final(app), side);
    assert(before@.messages.last() == before.messages@.last()@);
    a_failed_answer_keeps_its_text(before@, tokens, error, behind, disconnected, now);
    assert(old(app)@.pane(side) == before@);
    assert(final(app)@.pane(side) == after@);
    assert(after@.messages.last() == after.messages@.last()@);
}

/// An answer whose end has not come goes on while its sender is there; a sender
/// that is gone ends it, and what has come stays.
pub proof fn answers_end_with_their_sender(
    app: &mut ChatApp,
    side: PaneSide,
    events: Vec<StreamEvent>,
    tokens: Seq<Seq<char>>,
    disconnected: bool,
    now: u64,
)
    requires
        call_ensures(
            ChatApp::poll_pane,
            (app, side, None::<Vec<String>>, &events, disconnected, now),
            (),
        ),
        event_views(events@) == as_events(tokens),
        pane_of(*old(app), side).stream_open,
        pane_of(*old(app), side).streaming,
        pane_of(*old(app), side).messages@.len() > 0,
        pane_of(*old(app), side).race_token_count + tokens.len() <= u32::MAX,
    ensures
        ({
            let before = pane_of(*old(app), side);
            let after = pane_of(*final(app), side);
            &&& after.streaming == !disconnected
            &&& after.stream_open == !disconnected
            &&& after.messages@.len() == before.messages@.len()
            &&& after.messages@.last().content@ == before.messages@.last().content@
                + tokens.flatten()
            &&& after.race_token_count == before.race_token_count + tokens.len()
            &&& after.race_finish_time == before.race_finish_time
        }),
{
    let before = pane_of(*old(app), side);
    let after = pane_of(*final(app), side);
    tokens_are_read_first(before@, tokens, Seq::empty(), disconnected, now);
    assert(as_events(tokens) + Seq::<EventView>::empty() =~= as_events(tokens));
    assert(old(app)@.pane(side) == before@);
    assert(final(app)@.pane(side) == after@);
    assert(after@.messages.last() == after.messages@.last()@);
    assert(before@.messages.last() == before.messages@.last()@);
}

/// A race starts exactly where there is a prompt and both panes are idle. Both
/// panes are then asked the trimmed prompt, each at its own endpoint, and both
/// start from nothing.
pub proof fn races_ask_both_panes(app: &mut ChatApp, now: u64, r: Option<RaceActions>)
    requires
        call_ensures(ChatApp::start_race, (app, now), r),
    ensures
        r is Some <==> trimmed(old(app).race_prompt@).len() > 0 && !old(app).left.streaming
            && !old(app).right.streaming,
        r is None ==> final(app)@ == old(app)@,
        r matches Some(actions) ==> {
            let prompt = trimmed(old(app).race_prompt@);
            &&& actions.left.endpoint@ == old(app).left.endpoint@
            &&& actions.right.endpoint@ == old(app).right.endpoint@
            &&& actions.left.request.messages@.last().content@ == prompt
            &&& actions.right.request.messages@.last().content@ == prompt
            &&& final(app).race_active
            &&& final(app).race_start == Some(now)
            &&& final(app).race_result is None
            &&& final(app).left.streaming && final(app).right.streaming
            &&& final(app).left.race_token_count == 0 && final(app).right.race_token_count == 0
            &&& final(app).left.race_elapsed_secs is None
            &&& final(app).right.race_elapsed_secs is None
            &&& final(app).left.race_finish_time is None
            &&& final(app).right.race_finish_time is None
            &&& !final(app).race_left_done && !final(app).race_right_done
        },
{
    if r is Some {
        let prompt = trimmed(old(app).race_prompt@);
        let view = old(app)@;
        a_request_ends_in_its_question(view, PaneSide::Left, prompt);
        a_request_ends_in_its_question(view, PaneSide::Right, prompt);
        let left = r->0.left.request.messages@;
        let right = r->0.right.request.messages@;
        assert(r->0.left@ == view.request(PaneSide::Left, prompt));
        assert(r->0.right@ == view.request(PaneSide::Right, prompt));
        let left_views = left.map_values(|m: ChatMessage| m@);
        let right_views = right.map_values(|m: ChatMessage| m@);
        assert(left_views == view.request(PaneSide::Left, prompt).messages);
        assert(right_views == view.request(PaneSide::Right, prompt).messages);
        assert(left_views.last() == left.last()@);
        assert(right_views.last() == right.last()@);
    }
}

/// A race is over once both panes have been idle, and its result is what the panes
/// counted and measured, each on its own side. Until then it goes on, and a pane
/// that has been idle stays done.
pub proof fn races_end_with_both_panes(app: &mut ChatApp)
    requires
        call_ensures(ChatApp::check_race_completion, (app,), ()),
    ensures
        ({
            let left_done = old(app).race_left_done || !old(app).left.streaming;
            let right_done = old(app).race_right_done || !old(app).right.streaming;
            &&& !old(app).race_active ==> final(app)@ == old(app)@
            &&& old(app).race_active ==> {
                &&& final(app).race_active == !(left_done && right_done)
                &&& final(app).race_left_done == left_done
                &&& final(app).race_right_done == right_done
                &&& final(app).race_active ==> final(app).race_result == old(app).race_result
                &&& !final(app).race_active ==> (final(app).race_result matches Some(r) && {
                    &&& r.left_tokens == old(app).left.race_token_count
                    &&& r.right_tokens == old(app).right.race_token_count
                    &&& old(app).left.race_elapsed_secs matches Some(t) ==> r.left_elapsed == t
                    &&& old(app).right.race_elapsed_secs matches Some(t) ==> r.right_elapsed == t
                })
            }
            &&& final(app).left@ == old(app).left@
            &&& final(app).right@ == old(app).right@
        }),
{
    let view = old(app)@;
    if view.race_active && !view.race_checked().race_active {
        the_result_is_what_the_panes_measured(view);
    }
}

/// The winner is the pane with the shorter time; equal times are a tie.
pub proof fn winners_took_less_time(result: RaceResult, r: Winner)
    requires
        call_ensures(RaceResult::winner, (&result,), r),
        !result.left_elapsed.is_nan(),
        !result.right_elapsed.is_nan(),
    ensures
        r == Winner::Left <==> result.left_elapsed.rank() < result.right_elapsed.rank(),
        r == Winner::Right <==> result.left_elapsed.rank() > result.right_elapsed.rank(),
{
    the_shorter_time_wins(result);
}

/// During a race the clock shows the time since its start; afterwards it shows
/// the time up to the later finish, and stands still.
pub proof fn clocks_show_the_race(app: ChatApp, now: u64, r: RaceTimer)
    requires
        call_ensures(ChatApp::timer, (&app, now), r),
    ensures
        app.race_start is None ==> r == RaceTimer::Hidden,
        app.race_start matches Some(start) ==> (app.race_active ==> (r matches RaceTimer::Running(
            t,
        ) && (now >= start ==> start + t == now))),
        app.race_start matches Some(start) ==> (!app.race_active ==> !(r is Running)),
        r matches RaceTimer::Finished(t) ==> {
            &&& app.race_start is Some
            &&& app.left.race_finish_time is Some
            &&& app.right.race_finish_time is Some
            &&& app.left.race_finish_time->0 <= app.race_start->0 + t
            &&& app.right.race_finish_time->0 <= app.race_start->0 + t
            &&& app.left.race_finish_time->0 == app.race_start->0 + t
                || app.right.race_finish_time->0 == app.race_start->0 + t
        },
{
}

/// An input is marked by the button, or by enter without shift while the input
/// has the focus, where it can be sent; sending what is marked sends the input as
/// it was before.
pub proof fn marked_inputs_are_sent_as_they_were(
    pane: &mut PaneState,
    clicked: bool,
    focused: bool,
    enter: bool,
    shift: bool,
)
    requires
        call_ensures(PaneState::input_keys, (pane, clicked, focused, enter, shift), ()),
    ensures
        ({
            let pressed = clicked || (focused && enter && !shift);
            let can = trimmed(old(pane).input@).len() > 0 && !old(pane).streaming;
            &&& pressed && can ==> final(pane).input@.len() == old(pane).input@.len() + 1
                && final(pane).input@[0] == '\x01' && final(pane).input@.drop_first()
                == old(pane).input@
            &&& !(pressed && can) ==> final(pane)@ == old(pane)@
            &&& final(pane)@.messages == old(pane)@.messages
        }),
{
    assert(final(pane)@.input == final(pane).input@);
    assert((seq!['\x01'] + old(pane).input@).drop_first() =~= old(pane).input@);
}

/// An input without the mark is not sent; one with it is sent without it, if there
/// is text behind it and no answer is awaited.
pub proof fn only_marked_inputs_are_sent(
    app: &mut ChatApp,
    side: PaneSide,
    r: Option<SendAction>,
)
    requires
        call_ensures(ChatApp::send_marked, (app, side), r),
    ensures
        ({
            let before = pane_of(*old(app), side);
            let marked = before.input@.len() > 0 && before.input@[0] == '\x01';
            let text = trimmed(before.input@.drop_first());
            &&& r is Some <==> marked && text.len() > 0 && !before.streaming
            &&& !marked ==> final(app)@ == old(app)@
            &&& r matches Some(action) ==> action.endpoint@ == before.endpoint@
                && action.request.messages@.last().role@ == "user"@
                && action.request.messages@.last().content@ == text
        }),
{
    let view = old(app)@;
    let before = pane_of(*old(app), side);
    assert(view.pane(side) == before@);
    if view.is_marked(side) {
        let un = view.unmarked(side);
        assert(un.pane(side) == (PaneView { input: before@.input.drop_first(), ..before@ }));
        if r is Some {
            let text = trimmed(before.input@.drop_first());
            a_request_ends_in_its_question(un, side, text);
            let sent = r->0.request.messages@;
            let views = sent.map_values(|m: ChatMessage| m@);
            assert(r->0@ == un.request(side, text));
            assert(views == un.request(side, text).messages);
            assert(views.last() == sent.last()@);
        }
    }
}

/// A message is shown as it is, under its writer's name and on the writer's side;
/// an answer that has not begun is shown as dots.
pub proof fn messages_are_shown_as_they_are(
    m: DisplayMessage,
    label: &'static str,
    side: BubbleSide,
    shown: &str,
)
    requires
        call_ensures(DisplayMessage::label, (&m,), label),
        call_ensures(DisplayMessage::side, (&m,), side),
        call_ensures(DisplayMessage::shown, (&m,), shown),
    ensures
        m.content@.len() > 0 ==> shown@ == m.content@,
        m.content@.len() == 0 && m.role == Role::Assistant ==> shown@ == "..."@,
        m.role == Role::User ==> label@ == "You"@ && side == BubbleSide::Right && shown@
            == m.content@,
        m.role == Role::Assistant ==> label@ == "AI"@ && side == BubbleSide::Left,
{
}

/// Forgetting a conversation leaves no message and keeps what was typed, the
/// endpoint and the model.
pub proof fn cleared_panes_are_empty(pane: &mut PaneState)
    requires
        call_ensures(PaneState::clear, (pane,), ()),
    ensures
        final(pane).messages@.len() == 0,
        final(pane).last_stats is None,
        final(pane).input@ == old(pane).input@,
        final(pane).endpoint@ == old(pane).endpoint@,
        final(pane).model@ == old(pane).model@,
        final(pane).streaming == old(pane).streaming,
{
    assert(final(pane)@.messages.len() == final(pane).messages@.len());
}

/// Refreshing asks the pane's own endpoint, and only that pane then awaits a
/// list.
pub proof fn refreshing_asks_the_panes_endpoint(app: &mut ChatApp, side: PaneSide, r: String)
    requires
        call_ensures(ChatApp::refresh_models_for, (app, side), r),
    ensures
        r@ == pane_of(*old(app), side).endpoint@,
        pane_of(*final(app), side).models_pending,
        pane_of(*final(app), side).messages@.len() == pane_of(*old(app), side).messages@.len(),
        other_pane_of(*final(app), side)@ == other_pane_of(*old(app), side)@,
{
    let before = pane_of(*old(app), side);
    let after = pane_of(*final(app), side);
    assert(old(app)@.pane(side) == before@);
    assert(final(app)@.pane(side) == after@);
    assert(after@.messages.len() == after.messages@.len());
    assert(before@.messages.len() == before.messages@.len());
}

/// Something is changing on screen exactly while a pane streams or a race is on.
pub proof fn frames_follow_while_something_changes(app: ChatApp, r: bool)
    requires
        call_ensures(ChatApp::needs_repaint, (&app,), r),
    ensures
        !r <==> !app.left.streaming && !app.right.streaming && !app.race_active,
{
}

/// In a frame each pane reads what came in for it: its tokens go to the end of its
/// own last message, and another frame follows while answers go on.
pub proof fn frames_read_each_pane(
    app: &mut ChatApp,
    left: Incoming,
    right: Incoming,
    left_tokens: Seq<Seq<char>>,
    right_tokens: Seq<Seq<char>>,
    now: u64,
    r: bool,
)
    requires
        call_ensures(ChatApp::begin_frame, (app, left, right, now), r),
        left.models is None && right.models is None,
        !left.disconnected && !right.disconnected,
        event_views(left.events@) == as_events(left_tokens),
        event_views(right.events@) == as_events(right_tokens),
        old(app).left.stream_open && old(app).left.streaming,
        old(app).right.stream_open && old(app).right.streaming,
        !old(app).race_active,
        old(app).left.messages@.len() > 0,
        old(app).right.messages@.len() > 0,
        old(app).left.race_token_count + left_tokens.len() <= u32::MAX,
        old(app).right.race_token_count + right_tokens.len() <= u32::MAX,
    ensures
        final(app).left.messages@.len() == old(app).left.messages@.len(),
        final(app).left.messages@.last().content@ == old(app).left.messages@.last().content@
            + left_tokens.flatten(),
        final(app).right.messages@.len() == old(app).right.messages@.len(),
        final(app).right.messages@.last().content@ == old(app).right.messages@.last().content@
            + right_tokens.flatten(),
        final(app).left.race_token_count == old(app).left.race_token_count + left_tokens.len(),
        final(app).right.race_token_count == old(app).right.race_token_count + right_tokens.len(),
        r,
{
    let none = Seq::<EventView>::empty();
    tokens_are_read_first(old(app).left@, left_tokens, none, false, now);
    tokens_are_read_first(old(app).right@, right_tokens, none, false, now);
    assert(as_events(left_tokens) + none =~= as_events(left_tokens));
    assert(as_events(right_tokens) + none =~= as_events(right_tokens));
    assert(final(app)@.left.messages.last() == final(app).left.messages@.last()@);
    assert(final(app)@.right.messages.last() == final(app).right.messages@.last()@);
    assert(old(app)@.left.messages.last() == old(app).left.messages@.last()@);
    assert(old(app)@.right.messages.last() == old(app).right.messages@.last()@);
}

/// At the end of a frame each pane whose input is marked, and can be sent, sends
/// it to its own endpoint; the other panes send nothing.
pub proof fn frames_send_what_is_marked(
    app: &mut ChatApp,
    r: (Option<SendAction>, Option<SendAction>),
)
    requires
        call_ensures(ChatApp::end_frame, (app,), r),
    ensures
        ({
            let left = old(app).left;
            let right = old(app).right;
            let left_marked = left.input@.len() > 0 && left.input@[0] == '\x01';
            let right_marked = right.input@.len() > 0 && right.input@[0] == '\x01';
            &&& r.0 is Some <==> left_marked && trimmed(left.input@.drop_first()).len() > 0
                && !left.streaming
            &&& r.1 is Some <==> right_marked && trimmed(right.input@.drop_first()).len() > 0
                && !right.streaming
            &&& r.0 matches Some(a) ==> a.endpoint@ == left.endpoint@
                && a.request.messages@.last().content@ == trimmed(left.input@.drop_first())
            &&& r.1 matches Some(a) ==> a.endpoint@ == right.endpoint@
                && a.request.messages@.last().content@ == trimmed(right.input@.drop_first())
        }),
{
    let view = old(app)@;
    panes_send_independently(view);
    let left = view.unmarked(PaneSide::Left);
    let right = view.unmarked(PaneSide::Right);
    if r.0 is Some {
        let text = trimmed(view.left.input.drop_first());
        a_request_ends_in_its_question(left, PaneSide::Left, text);
        let views = r.0->0.request.messages@.map_values(|m: ChatMessage| m@);
        assert(r.0->0@ == left.request(PaneSide::Left, text));
        assert(views == left.request(PaneSide::Left, text).messages);
        assert(views.last() == r.0->0.request.messages@.last()@);
    }
    if r.1 is Some {
        let text = trimmed(view.right.input.drop_first());
        a_request_ends_in_its_question(right, PaneSide::Right, text);
        let views = r.1->0.request.messages@.map_values(|m: ChatMessage| m@);
        assert(r.1->0@ == right.request(PaneSide::Right, text));
        assert(views == right.request(PaneSide::Right, text).messages);
        assert(views.last() == r.1->0.request.messages@.last()@);
    }
}

/// The keys of the race prompt start a race only where one can start, and none
/// without being pressed; while a race is on the button alone starts another.
pub proof fn race_keys_start_races(
    app: &mut ChatApp,
    focused: bool,
    enter: bool,
    clicked: bool,
    shortcut: bool,
    now: u64,
    r: Option<RaceActions>,
)
    requires
        call_ensures(ChatApp::race_keys, (app, focused, enter, clicked, shortcut, now), r),
    ensures
        ({
            let can = trimmed(old(app).race_prompt@).len() > 0 && !old(app).left.streaming
                && !old(app).right.streaming;
            let pressed = clicked || (!old(app).race_active && ((focused && enter) || shortcut));
            &&& r is Some <==> can && pressed
            &&& r is None ==> final(app)@ == old(app)@
            &&& r is Some ==> final(app).race_active && final(app).race_start == Some(now)
        }),
{
}

/// An input can be sent where there is text and no answer is awaited, and a race
/// can be started where there is a prompt, none is on and both panes are idle.
pub proof fn buttons_are_enabled_where_they_work(
    pane: PaneState,
    app: ChatApp,
    send: bool,
    race: bool,
)
    requires
        call_ensures(PaneState::can_send, (&pane,), send),
        call_ensures(ChatApp::can_race, (&app,), race),
    ensures
        send <==> trimmed(pane.input@).len() > 0 && !pane.streaming,
        race <==> trimmed(app.race_prompt@).len() > 0 && !app.race_active && !app.left.streaming
            && !app.right.streaming,
{
}

/// The header shows the rate of an answer while it streams, a list that has come in
/// can be chosen from, and the button shows dots while an answer is awaited.
pub proof fn panes_show_their_state(
    pane: PaneState,
    rate: Option<F64Bits>,
    row: ModelRow,
    label: &'static str,
)
    requires
        call_ensures(PaneState::header_rate, (&pane,), rate),
        call_ensures(PaneState::model_row, (&pane,), row),
        call_ensures(PaneState::send_label, (&pane,), label),
    ensures
        pane.streaming ==> rate == pane.current_tps && label@ == "..."@,
        !pane.streaming ==> rate is None && label@ == ">"@,
        row == ModelRow::Choose <==> pane.available_models@.len() > 0,
{
    assert(pane@.available_models.len() == pane.available_models@.len());
}

/// The app starts with two empty panes that await their lists, at two endpoints,
/// and no race.
pub proof fn apps_start_empty(app: ChatApp)
    requires
        call_ensures(ChatApp::new, (), app),
    ensures
        app.left.messages@.len() == 0 && app.right.messages@.len() == 0,
        app.left.models_pending && app.right.models_pending,
        !app.left.streaming && !app.right.streaming && !app.race_active,
        app.left.label@ == "GPU"@ && app.right.label@ == "TPU"@,
        app.left.endpoint@ == "http://localhost:8081/v1/chat/completions"@,
        app.right.endpoint@ == "http://localhost:8080/v1/chat/completions"@,
        app.max_tokens == 2048,
        app.temperature.0 == 0x3f33_3333,
{
    assert(app@.left.messages.len() == app.left.messages@.len());
    assert(app@.right.messages.len() == app.right.messages@.len());
}

/// The button of the system prompt folds it out and in again.
pub proof fn the_system_prompt_folds(app: &mut ChatApp)
    requires
        call_ensures(ChatApp::toggle_system_prompt, (app,), ()),
    ensures
        final(app).show_system_prompt == !old(app).show_system_prompt,
        final(app).system_prompt@ == old(app).system_prompt@,
        final(app).left@ == old(app).left@,
        final(app).right@ == old(app).right@,
{
}

} // verus!
