//! The activation coordinator: the state machine behind show, hide,
//! snooze and focus handoff.
//!
//! The coordinator owns the two pieces of process state — the focus
//! memory and the snooze clock — and decides; the host performs. Each
//! command yields a new state plus an ordered list of [`Directive`]s,
//! which the host executes against the window, the foreground adapter and
//! the UI event channel. Window visibility itself is owned by the
//! windowing collaborator: the host reads it and passes it in, and the
//! directives tell the host how to change it.
//!
//! Seen from outside, the machine moves between three states: idle
//! (window hidden, nothing pending), visible (window shown, a
//! previous-focus snapshot may be remembered), and a transient hiding
//! state between a `Hide` and its delayed completion. The window flag
//! lives with the host and the pending completion with its worker, so
//! here those states appear as what this struct holds together with the
//! visibility the host passes in and the completion it later runs.

use vstd::prelude::*;

use crate::command::Command;
use crate::focus::FocusMemory;
use crate::snooze::SnoozeClock;

verus! {

/// How long the host waits after a `Hide` before hiding the window and
/// restoring focus, in milliseconds: long enough to outlast a hide or
/// fade animation, so the restored application never flashes behind the
/// still-visible window.
pub const HIDE_DELAY_MILLIS: u64 = 100;

/// A named event the coordinator emits to the UI layer; delivery is
/// fire-and-forget.
#[derive(Clone, Copy, Debug, PartialEq, Eq, Structural)]
pub enum UiEvent {
    Shown,
    Hiding,
    Completed,
}

/// One action the host must perform, in order, after a command.
#[derive(Clone, Copy, Debug, PartialEq, Eq, Structural)]
pub enum Directive {
    /// Make the window visible and give it input focus.
    ShowWindow,
    /// Hide the window immediately; no delay, no focus bookkeeping.
    /// Issued only on the lightweight `ToggleVisibility` path.
    HideWindowNow,
    /// After [`HIDE_DELAY_MILLIS`], hide the window, then call
    /// [`Coordinator::finish_hide`] and request activation of the
    /// identifier it returns, if any. The two-step order matters: hiding
    /// first avoids a visible flash of the restored application behind
    /// the still-visible window.
    ScheduleHideCompletion,
    /// Emit the named event to the UI layer.
    Emit(UiEvent),
    /// Terminate the process; no further commands follow.
    Exit,
}

/// The events among a list of directives, in order.
pub open spec fn emitted_events(directives: Seq<Directive>) -> Seq<UiEvent>
    decreases directives.len(),
{
    if directives.len() == 0 {
        Seq::empty()
    } else {
        let front = emitted_events(directives.drop_last());
        let last = match directives.last() {
            Directive::Emit(e) => seq![e],
            _ => Seq::<UiEvent>::empty(),
        };
        front + last
    }
}

/// The process-lifetime coordinator state: the remembered foreground
/// application and the snooze deadline. Both start empty.
#[verifier::ext_equal]
pub struct Coordinator {
    pub focus: FocusMemory,
    pub snooze: SnoozeClock,
}

impl Coordinator {
    /// True exactly when a snooze deadline is present and `now` lies
    /// strictly before it; while true, `Show` commands are suppressed.
    pub open spec fn snoozing_at(self, now: u64) -> bool {
        self.snooze.is_snoozing_at(now)
    }

    /// The state a command leaves the coordinator in. `foreground` is
    /// what the adapter answered when asked for the focused application;
    /// it is consulted only by a non-snoozed `Show`, which remembers it
    /// when present and leaves the memory alone when absent.
    pub open spec fn state_after(
        self,
        cmd: Command,
        now: u64,
        foreground: Option<String>,
    ) -> Coordinator {
        match cmd {
            Command::Show => if self.snoozing_at(now) {
                self
            } else {
                match foreground {
                    Some(id) => Coordinator {
                        focus: FocusMemory { remembered: Some(id) },
                        ..self
                    },
                    None => self,
                }
            },
            Command::Hide => self,
            Command::Notify => self,
            Command::Wake => Coordinator { snooze: SnoozeClock { deadline: None }, ..self },
            Command::SnoozeFor(d) => Coordinator {
                snooze: SnoozeClock { deadline: Some((now + d) as u64) },
                ..self
            },
            Command::Quit => self,
            Command::ToggleVisibility => self,
        }
    }

    /// The directives a command yields, in order. A snoozed `Show` yields
    /// none at all; `ToggleVisibility` flips on the visibility the host
    /// read, bypassing snooze and focus bookkeeping.
    pub open spec fn directives_for(
        self,
        cmd: Command,
        now: u64,
        window_visible: bool,
    ) -> Seq<Directive> {
        match cmd {
            Command::Show => if self.snoozing_at(now) {
                Seq::empty()
            } else {
                seq![Directive::ShowWindow, Directive::Emit(UiEvent::Shown)]
            },
            Command::Hide => seq![
                Directive::Emit(UiEvent::Hiding),
                Directive::ScheduleHideCompletion,
            ],
            Command::Notify => seq![Directive::Emit(UiEvent::Completed)],
            Command::Wake => Seq::empty(),
            Command::SnoozeFor(_) => Seq::empty(),
            Command::Quit => seq![Directive::Exit],
            Command::ToggleVisibility => if window_visible {
                seq![Directive::HideWindowNow]
            } else {
                seq![Directive::ShowWindow]
            },
        }
    }

    /// What the delayed hide completion hands to the adapter: the
    /// remembered identifier, if any.
    pub open spec fn pending_restore(self) -> Option<String> {
        self.focus.remembered
    }

    /// The state after the delayed hide completion: the focus memory is
    /// consumed, the snooze clock untouched.
    pub open spec fn after_finish_hide(self) -> Coordinator {
        Coordinator { focus: FocusMemory { remembered: None }, ..self }
    }

    /// A fresh coordinator: nothing remembered, no snooze deadline.
    pub fn new() -> (r: Coordinator)
        ensures
            r == (Coordinator {
                focus: FocusMemory { remembered: None },
                snooze: SnoozeClock { deadline: None },
            }),
    {
        Coordinator { focus: FocusMemory::new(), snooze: SnoozeClock::new() }
    }

    /// Runtime query matching `snoozing_at` exactly.
    pub fn is_snoozing(&self, now: u64) -> (r: bool)
        ensures
            r == self.snoozing_at(now),
    {
        self.snooze.is_snoozing(now)
    }

    /// Applies one command: updates the state as `state_after` says and
    /// returns exactly the directives `directives_for` says, for the host
    /// to execute in order.
    ///
    /// `now` is the current time in milliseconds, `foreground` the
    /// adapter's answer for the currently focused application (consulted
    /// only by a non-snoozed `Show`), and `window_visible` the visibility
    /// the host read (consulted only by `ToggleVisibility`).
    pub fn handle_command(
        &mut self,
        cmd: Command,
        now: u64,
        foreground: Option<String>,
        window_visible: bool,
    ) -> (r: Vec<Directive>)
        requires
            cmd matches Command::SnoozeFor(d) ==> now + d <= u64::MAX,
        ensures
            *final(self) == old(self).state_after(cmd, now, foreground),
            r@ == old(self).directives_for(cmd, now, window_visible),
    {
        let mut r: Vec<Directive> = Vec::new();
        match cmd {
            Command::Show => {
                if !self.snooze.is_snoozing(now) {
                    match foreground {
                        Some(id) => self.focus.remember(id),
                        None => {},
                    }
                    r.push(Directive::ShowWindow);
                    r.push(Directive::Emit(UiEvent::Shown));
                }
            },
            Command::Hide => {
                r.push(Directive::Emit(UiEvent::Hiding));
                r.push(Directive::ScheduleHideCompletion);
            },
            Command::Notify => {
                r.push(Directive::Emit(UiEvent::Completed));
            },
            Command::Wake => {
                self.snooze.wake();
            },
            Command::SnoozeFor(d) => {
                self.snooze.set_snooze(now, d);
            },
            Command::Quit => {
                r.push(Directive::Exit);
            },
            Command::ToggleVisibility => {
                if window_visible {
                    r.push(Directive::HideWindowNow);
                } else {
                    r.push(Directive::ShowWindow);
                }
            },
        }
        assert(r@ =~= old(self).directives_for(cmd, now, window_visible));
        assert(*self =~= old(self).state_after(cmd, now, foreground));
        r
    }

    /// The delayed hide completion, also used by the explicit
    /// restore-focus command: consumes the focus memory in one step and
    /// returns the identifier the host must activate, if one was
    /// remembered. A second call returns nothing, so an identifier is
    /// never restored twice.
    pub fn finish_hide(&mut self) -> (r: Option<String>)
        ensures
            r == old(self).pending_restore(),
            *final(self) == old(self).after_finish_hide(),
    {
        self.focus.take()
    }
}

} // verus!
