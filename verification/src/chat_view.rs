//! What the chat window shows and what its keys and buttons do.
//!
//! One frame has two halves. Before drawing, both panes read what came in and a
//! race that is over is closed; after drawing, the inputs that were marked while
//! drawing are sent.

use crate::chat::{
    event_views, texts, tokens_read, AppView, ChatApp, DisplayMessage, PaneSide, PaneState,
    PaneView, RaceActions, Role, SendAction, StreamEvent, SEND_MARK,
};
use crate::ids::F64Bits;
use crate::text::trimmed;
use vstd::prelude::*;

verus! {

/// What came in for a pane since the last frame.
#[derive(Debug)]
pub struct Incoming {
    pub models: Option<Vec<String>>,
    pub events: Vec<StreamEvent>,
    pub disconnected: bool,
}

impl Incoming {
    pub open spec fn model_texts(self) -> Option<Seq<Seq<char>>> {
        match self.models {
            Some(m) => Some(texts(m@)),
            None => None,
        }
    }

    /// Whether a pane can count the tokens that came in.
    pub open spec fn countable(self, pane: PaneView) -> bool {
        pane.stream_open ==> pane.race_token_count + tokens_read(event_views(self.events@))
            <= u32::MAX
    }
}

impl PaneView {
    /// The pane once it read what came in.
    pub open spec fn after(self, incoming: Incoming, now: u64) -> PaneView {
        self.polled(
            incoming.model_texts(),
            event_views(incoming.events@),
            incoming.disconnected,
            now,
        )
    }
}

impl AppView {
    /// The app at the moment that a frame is drawn.
    pub open spec fn before_drawing(self, left: Incoming, right: Incoming, now: u64) -> AppView {
        (AppView {
            left: self.left.after(left, now),
            right: self.right.after(right, now),
            ..self
        }).race_checked()
    }

    /// The app once a pane's marked input was sent.
    pub open spec fn marked_sent(self, side: PaneSide) -> AppView {
        if self.is_marked(side) {
            self.unmarked(side).sent(side)
        } else {
            self
        }
    }
}

/// On which side of the window a message stands.
#[derive(Copy, Clone, Debug, PartialEq, Eq, Structural)]
pub enum BubbleSide {
    Left,
    Right,
}

impl DisplayMessage {
    /// Who a message is from, in words.
    pub fn label(&self) -> (r: &'static str)
        ensures
            r@ == match self.role {
                Role::User => "You"@,
                Role::Assistant => "AI"@,
            },
    {
        match self.role {
            Role::User => "You",
            Role::Assistant => "AI",
        }
    }

    /// The user's messages stand on the right.
    pub fn side(&self) -> (r: BubbleSide)
        ensures
            r == match self.role {
                Role::User => BubbleSide::Right,
                Role::Assistant => BubbleSide::Left,
            },
    {
        match self.role {
            Role::User => BubbleSide::Right,
            Role::Assistant => BubbleSide::Left,
        }
    }

    /// What is shown of a message: dots for an answer that has not begun.
    pub fn shown(&self) -> (r: &str)
        ensures
            r@ == if self.role == Role::Assistant && self.content@.len() == 0 {
                "..."@
            } else {
                self.content@
            },
    {
        match self.role {
            Role::Assistant => if self.content.as_str().is_empty() {
                "..."
            } else {
                self.content.as_str()
            },
            Role::User => self.content.as_str(),
        }
    }
}

/// The row of a pane in which its model is chosen.
#[derive(Copy, Clone, Debug, PartialEq, Eq, Structural)]
pub enum ModelRow {
    /// No list has come in; it can be asked for.
    Refresh,
    /// The list can be chosen from.
    Choose,
}

impl PaneState {
    /// The rate in the header, shown while an answer streams.
    pub fn header_rate(&self) -> (r: Option<F64Bits>)
        ensures
            r == if self@.streaming {
                self@.current_tps
            } else {
                None
            },
    {
        if self.streaming {
            self.current_tps
        } else {
            None
        }
    }

    pub fn model_row(&self) -> (r: ModelRow)
        ensures
            r == if self@.available_models.len() == 0 {
                ModelRow::Refresh
            } else {
                ModelRow::Choose
            },
    {
        if self.available_models.len() == 0 {
            ModelRow::Refresh
        } else {
            ModelRow::Choose
        }
    }

    /// The text on the button that sends.
    pub fn send_label(&self) -> (r: &'static str)
        ensures
            r@ == if self@.streaming {
                "..."@
            } else {
                ">"@
            },
    {
        if self.streaming {
            "..."
        } else {
            ">"
        }
    }

    /// The button was clicked, or a key pressed in the input: enter sends, with
    /// shift it does not. What cannot be sent is left as it is.
    pub fn input_keys(&mut self, clicked: bool, focused: bool, enter: bool, shift: bool)
        ensures
            final(self)@ == if (clicked || (focused && enter && !shift)) && trimmed(
                old(self)@.input,
            ).len() > 0 && !old(self)@.streaming {
                PaneView {
                    input: seq![SEND_MARK] + old(self)@.input,
                    scroll_to_bottom: true,
                    ..old(self)@
                }
            } else {
                old(self)@
            },
    {
        if clicked || (focused && enter && !shift) {
            self.mark_send();
        }
    }
}

/// The clock of a race.
#[derive(Copy, Clone, Debug, PartialEq, Eq, Structural)]
pub enum RaceTimer {
    Hidden,
    /// Ticks since the start of a race that is on.
    Running(u64),
    /// Ticks that the last race took.
    Finished(u64),
}

impl AppView {
    /// Ticks from the start of the last race to the later of the two finishes;
    /// zero where one is missing or lies before the start.
    pub open spec fn race_ticks(self) -> int {
        match (self.race_start, self.left.race_finish_time, self.right.race_finish_time) {
            (Some(start), Some(l), Some(r)) => {
                let later = if l > r {
                    l
                } else {
                    r
                };
                if later > start {
                    later - start
                } else {
                    0
                }
            },
            _ => 0,
        }
    }

    /// The clock: it runs during a race, and afterwards shows what the race took
    /// once both panes have finished.
    pub open spec fn timer(self, now: u64) -> RaceTimer {
        match self.race_start {
            None => RaceTimer::Hidden,
            Some(start) => if self.race_active {
                RaceTimer::Running(
                    if now > start {
                        (now - start) as u64
                    } else {
                        0
                    },
                )
            } else if self.race_ticks() > 0 {
                RaceTimer::Finished(self.race_ticks() as u64)
            } else {
                RaceTimer::Hidden
            },
        }
    }

    /// Whether what was pressed starts a race: enter in the prompt or the
    /// shortcut while none is on, or the button; and one can start.
    pub open spec fn race_pressed(
        self,
        focused: bool,
        enter: bool,
        clicked: bool,
        shortcut: bool,
    ) -> bool {
        &&& ((focused && enter) || shortcut) && !self.race_active || clicked
        &&& self.can_start_race()
    }
}

impl ChatApp {
    /// Ticks from the start of the last race to the later of the two finishes;
    /// zero where one is missing or lies before the start.
    pub fn final_ticks(&self) -> (r: u64)
        ensures
            r == self@.race_ticks(),
    {
        match (self.race_start, self.left.race_finish_time, self.right.race_finish_time) {
            (Some(start), Some(l), Some(r)) => {
                let later: u64 = if l > r {
                    l
                } else {
                    r
                };
                if later > start {
                    later - start
                } else {
                    0
                }
            },
            _ => 0,
        }
    }

    pub fn timer(&self, now: u64) -> (r: RaceTimer)
        ensures
            r == self@.timer(now),
    {
        match self.race_start {
            None => RaceTimer::Hidden,
            Some(start) => {
                if self.race_active {
                    RaceTimer::Running(
                        if now > start {
                            now - start
                        } else {
                            0
                        },
                    )
                } else {
                    let ticks: u64 = self.final_ticks();
                    if ticks > 0 {
                        RaceTimer::Finished(ticks)
                    } else {
                        RaceTimer::Hidden
                    }
                }
            },
        }
    }

    /// The keys and the button of the race prompt. Returns what is to be sent.
    pub fn race_keys(
        &mut self,
        focused: bool,
        enter: bool,
        clicked: bool,
        shortcut: bool,
        now: u64,
    ) -> (r: Option<RaceActions>)
        requires
            old(self)@.wf(),
        ensures
            final(self)@.wf(),
            if old(self)@.race_pressed(focused, enter, clicked, shortcut) {
                let prompt = trimmed(old(self)@.race_prompt);
                &&& r is Some
                &&& r->0.left@ == old(self)@.request(PaneSide::Left, prompt)
                &&& r->0.right@ == old(self)@.request(PaneSide::Right, prompt)
                &&& final(self)@ == old(self)@.racing(now)
            } else {
                r is None && final(self)@ == old(self)@
            },
    {
        if focused && enter && !self.race_active {
            let started = self.start_race(now);
            if started.is_some() {
                return started;
            }
        }
        if clicked || (shortcut && self.can_race()) {
            self.start_race(now)
        } else {
            None
        }
    }

    /// The mark before the words of the button that unfolds the system prompt.
    pub fn system_prompt_arrow(&self) -> (r: &'static str)
        ensures
            r@ == if self@.show_system_prompt {
                "v"@
            } else {
                ">"@
            },
    {
        if self.show_system_prompt {
            "v"
        } else {
            ">"
        }
    }

    pub fn toggle_system_prompt(&mut self)
        ensures
            final(self)@ == (AppView {
                show_system_prompt: !old(self)@.show_system_prompt,
                ..old(self)@
            }),
    {
        self.show_system_prompt = !self.show_system_prompt;
    }

    /// The first half of a frame: both panes read what came in, and a race that
    /// is over is closed. Returns whether the next frame has to follow at once.
    pub fn begin_frame(&mut self, left: Incoming, right: Incoming, now: u64) -> (r: bool)
        requires
            old(self)@.wf(),
            left.countable(old(self)@.left),
            right.countable(old(self)@.right),
        ensures
            final(self)@.wf(),
            final(self)@ == old(self)@.before_drawing(left, right, now),
            r == (final(self)@.left.streaming || final(self)@.right.streaming
                || final(self)@.race_active),
    {
        self.poll_pane(PaneSide::Left, left.models, &left.events, left.disconnected, now);
        self.poll_pane(PaneSide::Right, right.models, &right.events, right.disconnected, now);
        self.check_race_completion();
        self.needs_repaint()
    }

    /// The second half of a frame: inputs that were marked are sent, the left
    /// one first.
    pub fn end_frame(&mut self) -> (r: (Option<SendAction>, Option<SendAction>))
        requires
            old(self)@.wf(),
        ensures
            final(self)@.wf(),
            final(self)@ == old(self)@.marked_sent(PaneSide::Left).marked_sent(PaneSide::Right),
            is_sent(r.0, old(self)@, PaneSide::Left),
            is_sent(r.1, old(self)@.marked_sent(PaneSide::Left), PaneSide::Right),
    {
        let left = self.send_marked(PaneSide::Left);
        let right = self.send_marked(PaneSide::Right);
        (left, right)
    }
}

/// Whether `action` is what sending a pane's marked input sends.
pub open spec fn is_sent(action: Option<SendAction>, app: AppView, side: PaneSide) -> bool {
    let due = if app.is_marked(side) {
        app.unmarked(side).sent_request(side)
    } else {
        None
    };
    match due {
        Some(request) => action is Some && action->0@ == request,
        None => action is None,
    }
}

/// The panes of a frame do not disturb each other: what one of them sends does
/// not depend on whether the other sent before.
pub proof fn panes_send_independently(app: AppView)
    ensures
        app.marked_sent(PaneSide::Left).marked_sent(PaneSide::Right) == app.marked_sent(
            PaneSide::Right,
        ).marked_sent(PaneSide::Left),
        app.marked_sent(PaneSide::Left).is_marked(PaneSide::Right) == app.is_marked(
            PaneSide::Right,
        ),
        app.marked_sent(PaneSide::Left).unmarked(PaneSide::Right).sent_request(PaneSide::Right)
            == app.unmarked(PaneSide::Right).sent_request(PaneSide::Right),
{
    let after_left = app.marked_sent(PaneSide::Left);
    let after_right = app.marked_sent(PaneSide::Right);
    sending_stays_in_its_pane(app, app, PaneSide::Left);
    sending_stays_in_its_pane(app, app, PaneSide::Right);
    sending_stays_in_its_pane(app, after_left, PaneSide::Right);
    sending_stays_in_its_pane(app, after_right, PaneSide::Left);
    assert(after_left.marked_sent(PaneSide::Right) =~= after_right.marked_sent(PaneSide::Left));
}

/// Sending changes nothing but the pane that sends, and depends on nothing else
/// that another pane could change.
proof fn sending_stays_in_its_pane(a: AppView, b: AppView, side: PaneSide)
    requires
        a.pane(side) == b.pane(side),
        a.system_prompt == b.system_prompt,
        a.temperature == b.temperature,
        a.max_tokens == b.max_tokens,
    ensures
        a.is_marked(side) == b.is_marked(side),
        a.marked_sent(side).pane(side) == b.marked_sent(side).pane(side),
        b.marked_sent(side) == b.with_pane(side, b.marked_sent(side).pane(side)),
        a.unmarked(side).sent_request(side) == b.unmarked(side).sent_request(side),
{
    assert(a.unmarked(side).pane(side) == b.unmarked(side).pane(side));
    assert(b.marked_sent(side) =~= b.with_pane(side, b.marked_sent(side).pane(side)));
}

/// A race that both panes ended in the same frame is closed in that frame, and
/// its clock stands still.
pub proof fn finished_race_stops_its_clock(app: AppView, a: u64, b: u64)
    requires
        app.race_active,
        !app.left.streaming,
        !app.right.streaming,
    ensures
        !app.race_checked().race_active,
        app.race_checked().timer(a) == app.race_checked().timer(b),
{
}

} // verus!
