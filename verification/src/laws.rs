//! The guarantees the coordinator gives, stated and proved once and for
//! all over the spec-level transition functions that the executable
//! methods are proved to implement.

use vstd::prelude::*;

use crate::command::Command;
use crate::command::relaunch_command;
use crate::command::relaunch_commands;
use crate::coordinator::Coordinator;
use crate::coordinator::Directive;
use crate::coordinator::UiEvent;
use crate::coordinator::emitted_events;

verus! {

/// Law: for any duration `d`, immediately after `SnoozeFor(d)` issued at
/// `start`, the coordinator is snoozing at every time strictly before
/// `start + d` and not snoozing at or after that point. A zero duration
/// yields an immediately expired snooze.
pub proof fn lemma_snooze_for_window(c: Coordinator, start: u64, d: u64, now: u64)
    requires
        start + d <= u64::MAX,
    ensures
        c.state_after(Command::SnoozeFor(d), start, None).snoozing_at(now) <==> now < start + d,
{
}

/// Law: a `Show` issued while snoozing changes nothing at all — the
/// state (focus memory included) is untouched and no directive is
/// issued, so window visibility cannot change either.
pub proof fn lemma_show_while_snoozing(
    c: Coordinator,
    now: u64,
    foreground: Option<String>,
    window_visible: bool,
)
    requires
        c.snoozing_at(now),
    ensures
        c.state_after(Command::Show, now, foreground) == c,
        c.directives_for(Command::Show, now, window_visible) =~= Seq::<Directive>::empty(),
{
}

/// Law: after `Show` (with the adapter answering `id`) followed by
/// `Hide`, the hide directives schedule the delayed completion, and that
/// completion hands exactly `id` to the adapter for activation — exactly
/// once, since the completion consumes the memory and a second
/// completion finds nothing.
pub proof fn lemma_show_then_hide_restores_once(
    c: Coordinator,
    show_now: u64,
    hide_now: u64,
    id: String,
    window_visible: bool,
)
    requires
        !c.snoozing_at(show_now),
    ensures
        c.state_after(Command::Show, show_now, Some(id)).focus.remembered == Some(id),
        c.state_after(Command::Show, show_now, Some(id)).state_after(Command::Hide, hide_now, None)
            == c.state_after(Command::Show, show_now, Some(id)),
        c.state_after(Command::Show, show_now, Some(id)).directives_for(
            Command::Hide,
            hide_now,
            window_visible,
        ) =~= seq![Directive::Emit(UiEvent::Hiding), Directive::ScheduleHideCompletion],
        c.state_after(Command::Show, show_now, Some(id)).pending_restore() == Some(id),
        c.state_after(Command::Show, show_now, Some(id)).after_finish_hide().pending_restore()
            is None,
{
}

/// Law: two `Show`s with no intervening `Hide` leave only the identifier
/// captured at the second one — the first capture is discarded, never
/// restored (latest wins).
pub proof fn lemma_latest_show_wins(
    c: Coordinator,
    first_now: u64,
    second_now: u64,
    first: String,
    second: String,
)
    requires
        !c.snoozing_at(first_now),
        !c.snoozing_at(second_now),
    ensures
        c.state_after(Command::Show, first_now, Some(first)).state_after(
            Command::Show,
            second_now,
            Some(second),
        ).focus.remembered == Some(second),
{
}

/// Law: a `Hide` with nothing remembered still hides the window through
/// the delayed completion, but the completion finds nothing, so no
/// activation is ever requested.
pub proof fn lemma_hide_with_empty_memory(c: Coordinator, now: u64, window_visible: bool)
    requires
        c.focus.remembered is None,
    ensures
        c.state_after(Command::Hide, now, None) == c,
        c.directives_for(Command::Hide, now, window_visible) =~= seq![
            Directive::Emit(UiEvent::Hiding),
            Directive::ScheduleHideCompletion,
        ],
        c.pending_restore() is None,
        c.after_finish_hide() == c,
{
    assert(c.after_finish_hide() =~= c);
}

/// Law: the relaunch-argument list `["show", "notify"]` normalizes to
/// exactly `Show` then `Notify`, and handling those two commands in
/// order emits exactly a `Shown` event then a `Completed` event — in
/// particular, no `Hiding` event.
pub proof fn lemma_relaunch_show_notify(
    c: Coordinator,
    now: u64,
    foreground: Option<String>,
    window_visible: bool,
)
    requires
        !c.snoozing_at(now),
    ensures
        relaunch_commands(seq!["show"@, "notify"@]) =~= seq![Command::Show, Command::Notify],
        emitted_events(
            c.directives_for(Command::Show, now, window_visible) + c.state_after(
                Command::Show,
                now,
                foreground,
            ).directives_for(Command::Notify, now, window_visible),
        ) =~= seq![UiEvent::Shown, UiEvent::Completed],
{
    reveal_strlit("show");
    reveal_strlit("hide");
    reveal_strlit("notify");
    assert("show"@.len() == 4);
    assert("hide"@.len() == 4);
    assert("notify"@.len() == 6);
    assert("notify"@ != "show"@);
    assert("notify"@ != "hide"@);
    let tokens = seq!["show"@, "notify"@];
    let shorter = seq!["show"@];
    assert(tokens.drop_last() =~= shorter);
    assert(shorter.drop_last() =~= Seq::<Seq<char>>::empty());
    assert(relaunch_command("show"@) == Some(Command::Show));
    assert(relaunch_command("notify"@) == Some(Command::Notify));
    assert(relaunch_commands(Seq::<Seq<char>>::empty()) =~= Seq::<Command>::empty());
    assert(relaunch_commands(shorter) =~= seq![Command::Show]);
    assert(relaunch_commands(tokens) =~= seq![Command::Show, Command::Notify]);

    let one = seq![Directive::ShowWindow];
    let two = seq![Directive::ShowWindow, Directive::Emit(UiEvent::Shown)];
    let three = seq![
        Directive::ShowWindow,
        Directive::Emit(UiEvent::Shown),
        Directive::Emit(UiEvent::Completed),
    ];
    assert(c.directives_for(Command::Show, now, window_visible) + c.state_after(
        Command::Show,
        now,
        foreground,
    ).directives_for(Command::Notify, now, window_visible) =~= three);
    assert(one.drop_last() =~= Seq::<Directive>::empty());
    assert(two.drop_last() =~= one);
    assert(three.drop_last() =~= two);
    assert(emitted_events(Seq::<Directive>::empty()) =~= Seq::<UiEvent>::empty());
    assert(emitted_events(one) =~= Seq::<UiEvent>::empty());
    assert(emitted_events(two) =~= seq![UiEvent::Shown]);
    assert(emitted_events(three) =~= seq![UiEvent::Shown, UiEvent::Completed]);
}

/// Law: `ToggleVisibility` never touches the focus memory or the snooze
/// deadline; on a hidden window it shows it, on a visible window it
/// hides it immediately — no delay, no events, no focus restore.
pub proof fn lemma_toggle_visibility(c: Coordinator, now: u64)
    ensures
        c.state_after(Command::ToggleVisibility, now, None) == c,
        c.directives_for(Command::ToggleVisibility, now, false) =~= seq![Directive::ShowWindow],
        c.directives_for(Command::ToggleVisibility, now, true) =~= seq![Directive::HideWindowNow],
{
}

/// Law: `Wake` clears snoozing unconditionally, whatever the prior
/// deadline was — present, absent, or already in the past — so no later
/// time is ever snoozed until a new `SnoozeFor`.
pub proof fn lemma_wake_clears_snooze(c: Coordinator, wake_now: u64, any_now: u64)
    ensures
        c.state_after(Command::Wake, wake_now, None).snooze.deadline is None,
        !c.state_after(Command::Wake, wake_now, None).snoozing_at(any_now),
{
}

} // verus!
