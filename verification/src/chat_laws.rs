//! What holds of every request that the chat sends and of every answer that it
//! reads.

use crate::chat::{
    api_messages, AnswerStats, AppView, EventView, PaneSide, PaneView, RaceResult, Role, Winner,
};
use crate::ids::F64Bits;
use crate::text::trimmed;
use vstd::prelude::*;

verus! {

/// How many messages stand before the conversation: one where the trimmed system
/// prompt is not empty.
pub open spec fn lead(system_prompt: Seq<char>) -> int {
    if trimmed(system_prompt).len() > 0 {
        1
    } else {
        0
    }
}

/// The conversation is sent whole and in order: message `i` has the same content
/// as it was shown with, whoever wrote it, and the name of its writer. Before it
/// stands the trimmed system prompt, where that is not empty.
pub proof fn the_conversation_is_sent_as_it_stands(
    system_prompt: Seq<char>,
    messages: Seq<(Role, Seq<char>)>,
    i: int,
)
    requires
        0 <= i < messages.len(),
    ensures
        ({
            let sent = api_messages(system_prompt, messages);
            let h = lead(system_prompt);
            &&& sent.len() == h + messages.len()
            &&& sent[h + i].1 == messages[i].1
            &&& messages[i].0 == Role::User ==> sent[h + i].0 == "user"@
            &&& messages[i].0 == Role::Assistant ==> sent[h + i].0 == "assistant"@
            &&& h == 1 ==> sent[0] == ("system"@, trimmed(system_prompt))
        }),
{
}

/// A request goes to the endpoint of its pane, names the chosen model or
/// `default` where none is chosen, carries the app's settings, asks for a stream,
/// and ends in the question; what stands before the question is the conversation
/// so far.
pub proof fn a_request_ends_in_its_question(app: AppView, side: PaneSide, text: Seq<char>)
    ensures
        ({
            let pane = match side {
                PaneSide::Left => app.left,
                PaneSide::Right => app.right,
            };
            let r = app.request(side, text);
            &&& r.endpoint == pane.endpoint
            &&& pane.model.len() > 0 ==> r.model == pane.model
            &&& pane.model.len() == 0 ==> r.model == "default"@
            &&& r.temperature == app.temperature
            &&& r.max_tokens == app.max_tokens
            &&& r.stream
            &&& r.messages.len() == lead(app.system_prompt) + pane.messages.len() + 1
            &&& r.messages.last() == ("user"@, text)
            &&& r.messages.drop_last() == api_messages(app.system_prompt, pane.messages)
        }),
{
    let pane = app.pane(side);
    let r = app.request(side, text);
    let before = api_messages(app.system_prompt, pane.messages);
    assert(r.messages =~= before.push(("user"@, text)));
}

/// Sending puts the trimmed input to the pane's conversation as the user's
/// message and an empty answer behind it, empties the input and awaits the
/// answer. The other pane and the settings stay. Without text, or while an answer
/// is awaited, nothing happens and nothing is sent.
pub proof fn sending_puts_the_question(app: AppView, side: PaneSide)
    ensures
        ({
            let (pane, after, other, other_after) = match side {
                PaneSide::Left => (app.left, app.sent(side).left, app.right, app.sent(side).right),
                PaneSide::Right => (app.right, app.sent(side).right, app.left, app.sent(side).left),
            };
            let text = trimmed(pane.input);
            if text.len() > 0 && !pane.streaming {
                &&& app.sent_request(side) == Some(app.request(side, text))
                &&& after.messages.len() == pane.messages.len() + 2
                &&& after.messages.take(pane.messages.len() as int) == pane.messages
                &&& after.messages[pane.messages.len() as int] == (Role::User, text)
                &&& after.messages.last().0 == Role::Assistant
                &&& after.messages.last().1.len() == 0
                &&& after.input.len() == 0
                &&& after.streaming && after.stream_open
                &&& after.last_stats is None && after.current_tps is None
                &&& after.endpoint == pane.endpoint && after.model == pane.model
                &&& other_after == other
                &&& app.sent(side).system_prompt == app.system_prompt
                &&& app.sent(side).temperature == app.temperature
                &&& app.sent(side).max_tokens == app.max_tokens
                &&& app.sent(side).race_active == app.race_active
            } else {
                app.sent_request(side) is None && app.sent(side) == app
            }
        }),
{
    let pane = app.pane(side);
    let after = app.sent(side).pane(side);
    if app.can_send(side) {
        assert(after.messages.take(pane.messages.len() as int) =~= pane.messages);
    }
}

/// A follow-up question carries the answer: what a pane sends next holds every
/// message that stood in it, each with its content, before the new question.
pub proof fn a_follow_up_carries_the_answers(app: AppView, side: PaneSide, i: int)
    requires
        app.sent_request(side) is Some,
        0 <= i < app.pane(side).messages.len(),
    ensures
        ({
            let sent = app.sent_request(side)->0.messages;
            let h = lead(app.system_prompt);
            &&& sent.len() == h + app.pane(side).messages.len() + 1
            &&& sent[h + i].1 == app.pane(side).messages[i].1
            &&& sent.last() == ("user"@, trimmed(app.pane(side).input))
        }),
{
    let pane = app.pane(side);
    let text = trimmed(pane.input);
    a_request_ends_in_its_question(app, side, text);
    the_conversation_is_sent_as_it_stands(app.system_prompt, pane.messages, i);
    let r = app.request(side, text);
    assert(r.messages[lead(app.system_prompt) + i] == r.messages.drop_last()[lead(
        app.system_prompt,
    ) + i]);
}

/// Tokens as events.
pub open spec fn as_events(tokens: Seq<Seq<char>>) -> Seq<EventView> {
    tokens.map_values(|t: Seq<char>| EventView::Token(t))
}

/// Tokens are read before what stands behind them: they go to the end of the last
/// message, in order, and are counted.
pub proof fn tokens_are_read_first(
    pane: PaneView,
    tokens: Seq<Seq<char>>,
    rest: Seq<EventView>,
    disconnected: bool,
    now: u64,
)
    requires
        pane.messages.len() > 0,
        pane.race_token_count + tokens.len() <= u32::MAX,
    ensures
        ({
            let last = pane.messages.last();
            let mid = PaneView {
                messages: pane.messages.drop_last().push((last.0, last.1 + tokens.flatten())),
                race_token_count: (pane.race_token_count + tokens.len()) as u32,
                scroll_to_bottom: pane.scroll_to_bottom || tokens.len() > 0,
                ..pane
            };
            pane.after_events(as_events(tokens) + rest, disconnected, now) == mid.after_events(
                rest,
                disconnected,
                now,
            )
        }),
    decreases tokens.len(),
{
    let last = pane.messages.last();
    let events = as_events(tokens) + rest;
    if tokens.len() == 0 {
        assert(events =~= rest);
        assert(last.1 + tokens.flatten() =~= last.1);
        assert(pane.messages.drop_last().push((last.0, last.1 + tokens.flatten()))
            =~= pane.messages);
    } else {
        let next = pane.after_event(events[0], now);
        assert(events[0] == EventView::Token(tokens[0]));
        assert(events.drop_first() =~= as_events(tokens.drop_first()) + rest);
        tokens_are_read_first(next, tokens.drop_first(), rest, disconnected, now);
        assert(next.messages.drop_last() =~= pane.messages.drop_last());
        assert((last.1 + tokens[0]) + tokens.drop_first().flatten() =~= last.1
            + tokens.flatten());
    }
}

/// An answer that comes to its end is shown whole: the tokens in order behind
/// what was there. Its statistics are those of its end, the pane is idle, and
/// what comes in behind the end is not read.
pub proof fn a_finished_answer_is_shown_whole(
    pane: PaneView,
    tokens: Seq<Seq<char>>,
    count: u32,
    elapsed: F64Bits,
    behind: Seq<EventView>,
    disconnected: bool,
    now: u64,
)
    requires
        pane.stream_open,
        pane.messages.len() > 0,
        pane.race_token_count + tokens.len() <= u32::MAX,
    ensures
        ({
            let end = EventView::Done { tokens: count, elapsed_secs: elapsed };
            let after = pane.polled(
                None,
                as_events(tokens) + (seq![end] + behind),
                disconnected,
                now,
            );
            &&& after.messages.len() == pane.messages.len()
            &&& after.messages.drop_last() == pane.messages.drop_last()
            &&& after.messages.last().0 == pane.messages.last().0
            &&& after.messages.last().1 == pane.messages.last().1 + tokens.flatten()
            &&& after.last_stats == Some(AnswerStats { tokens: count, elapsed_secs: elapsed })
            &&& !after.streaming && !after.stream_open
            &&& after.current_tps is None
            &&& after.race_token_count == count
            &&& after.race_elapsed_secs == Some(elapsed)
            &&& after.race_finish_time == Some(now)
            &&& after.input == pane.input
            &&& after.model == pane.model
        }),
{
    let end = EventView::Done { tokens: count, elapsed_secs: elapsed };
    let rest = seq![end] + behind;
    tokens_are_read_first(pane, tokens, rest, disconnected, now);
    assert(rest[0] == end);
    let last = pane.messages.last();
    let shown = pane.messages.drop_last().push((last.0, last.1 + tokens.flatten()));
    assert(shown.drop_last() =~= pane.messages.drop_last());
}

/// An answer that fails leaves the pane idle. The error is shown in place of an
/// answer of which nothing has come; text that has come stays as it is.
pub proof fn a_failed_answer_keeps_its_text(
    pane: PaneView,
    tokens: Seq<Seq<char>>,
    error: Seq<char>,
    behind: Seq<EventView>,
    disconnected: bool,
    now: u64,
)
    requires
        pane.stream_open,
        pane.messages.len() > 0,
        pane.messages.last().0 == Role::Assistant,
        pane.race_token_count + tokens.len() <= u32::MAX,
    ensures
        ({
            let after = pane.polled(
                None,
                as_events(tokens) + (seq![EventView::Error(error)] + behind),
                disconnected,
                now,
            );
            let text = pane.messages.last().1 + tokens.flatten();
            &&& after.messages.len() == pane.messages.len()
            &&& after.messages.drop_last() == pane.messages.drop_last()
            &&& after.messages.last().0 == Role::Assistant
            &&& text.len() > 0 ==> after.messages.last().1 == text
            &&& text.len() == 0 ==> after.messages.last().1 == "[Error: "@ + error + "]"@
            &&& !after.streaming && !after.stream_open
            &&& after.current_tps is None
            &&& after.last_stats == pane.last_stats
            &&& after.race_token_count == pane.race_token_count + tokens.len()
            &&& after.race_elapsed_secs == Some(F64Bits(0))
            &&& after.race_finish_time == Some(now)
        }),
{
    let rest = seq![EventView::Error(error)] + behind;
    tokens_are_read_first(pane, tokens, rest, disconnected, now);
    assert(rest[0] == EventView::Error(error));
    let last = pane.messages.last();
    let shown = pane.messages.drop_last().push((last.0, last.1 + tokens.flatten()));
    assert(shown.drop_last() =~= pane.messages.drop_last());
    let failed = shown.drop_last().push((Role::Assistant, "[Error: "@ + error + "]"@));
    assert(failed.drop_last() =~= pane.messages.drop_last());
}

/// A rate that comes in is shown and changes nothing else, and an answer whose
/// end has not come goes on.
pub proof fn a_rate_is_only_shown(pane: PaneView, rate: F64Bits, now: u64)
    requires
        pane.stream_open,
    ensures
        pane.polled(None, seq![EventView::TokPerSec(rate)], false, now) == (PaneView {
            current_tps: Some(rate),
            ..pane
        }),
        pane.polled(None, Seq::empty(), false, now) == pane,
{
    let events = seq![EventView::TokPerSec(rate)];
    assert(events[0] == EventView::TokPerSec(rate));
    assert(events.drop_first() =~= Seq::empty());
    let after = pane.after_event(events[0], now);
    assert(after.after_events(Seq::empty(), false, now) == after);
}

/// A list of models that was awaited is taken over unless it is empty. The choice
/// is then one of the list: the old one where the list has it, else the first.
pub proof fn the_model_is_one_of_the_list(pane: PaneView, models: Seq<Seq<char>>, now: u64)
    requires
        !pane.stream_open,
    ensures
        ({
            let after = pane.polled(Some(models), Seq::empty(), false, now);
            if !pane.models_pending {
                after == pane
            } else {
                &&& !after.models_pending
                &&& after.messages == pane.messages
                &&& models.len() == 0 ==> after.model == pane.model && after.available_models
                    == pane.available_models
                &&& models.len() > 0 ==> {
                    &&& after.available_models == models
                    &&& models.contains(after.model)
                    &&& pane.model.len() > 0 && models.contains(pane.model) ==> after.model
                        == pane.model
                    &&& !models.contains(pane.model) ==> after.model == models[0]
                }
            }
        }),
{
    if models.len() > 0 {
        assert(models[0] == models.first());
        assert(models.contains(models[0]));
    }
}

/// The result of a race is what the panes counted and measured, each on its own
/// side; a pane that has no time counts as zero.
pub proof fn the_result_is_what_the_panes_measured(app: AppView)
    requires
        app.race_active,
        !app.race_checked().race_active,
    ensures
        app.race_checked().race_result matches Some(r) && {
            &&& r.left_tokens == app.left.race_token_count
            &&& r.right_tokens == app.right.race_token_count
            &&& app.left.race_elapsed_secs matches Some(t) ==> r.left_elapsed == t
            &&& app.right.race_elapsed_secs matches Some(t) ==> r.right_elapsed == t
            &&& app.left.race_elapsed_secs is None ==> r.left_elapsed == F64Bits(0)
            &&& app.right.race_elapsed_secs is None ==> r.right_elapsed == F64Bits(0)
        },
        app.race_checked().left == app.left,
        app.race_checked().right == app.right,
{
}

/// The winner's time is the shorter one, equal times are a tie, and with the
/// sides exchanged the other side wins.
pub proof fn the_shorter_time_wins(r: RaceResult)
    requires
        !r.left_elapsed.is_nan(),
        !r.right_elapsed.is_nan(),
    ensures
        r.first() == Winner::Left <==> r.left_elapsed.rank() < r.right_elapsed.rank(),
        r.first() == Winner::Right <==> r.left_elapsed.rank() > r.right_elapsed.rank(),
        r.first() == Winner::Tie <==> r.left_elapsed.rank() == r.right_elapsed.rank(),
        ({
            let exchanged = RaceResult {
                left_tokens: r.right_tokens,
                left_elapsed: r.right_elapsed,
                right_tokens: r.left_tokens,
                right_elapsed: r.left_elapsed,
            };
            r.first() == Winner::Left <==> exchanged.first() == Winner::Right
        }),
{
}

/// The time of a race ends with the pane that finished last.
pub proof fn the_clock_stops_with_the_last_pane(app: AppView)
    requires
        app.race_ticks() > 0,
    ensures
        app.race_start is Some && app.left.race_finish_time is Some
            && app.right.race_finish_time is Some,
        ({
            let end = app.race_start->0 + app.race_ticks();
            let l = app.left.race_finish_time->0;
            let r = app.right.race_finish_time->0;
            l <= end && r <= end && (l == end || r == end)
        }),
{
}

/// A race never starts while a pane awaits an answer or without a prompt, and
/// while one is on only the button starts another.
pub proof fn races_start_on_request_only(
    app: AppView,
    focused: bool,
    enter: bool,
    clicked: bool,
    shortcut: bool,
)
    ensures
        app.race_pressed(focused, enter, clicked, shortcut) ==> !app.left.streaming
            && !app.right.streaming && trimmed(app.race_prompt).len() > 0,
        app.race_active && !clicked ==> !app.race_pressed(focused, enter, clicked, shortcut),
        !clicked && !shortcut && !(focused && enter) ==> !app.race_pressed(
            focused,
            enter,
            clicked,
            shortcut,
        ),
        app.can_start_race() && (clicked || (shortcut && !app.race_active)) ==> app.race_pressed(
            focused,
            enter,
            clicked,
            shortcut,
        ),
{
}

} // verus!
