//! Synthetic keyboard sequences that paste text into the focused application.
//!
//! The library decides which key events are sent and in which order; the
//! host program injects them through the operating system, pausing where a
//! `Pause` event says so.
use vstd::prelude::*;

verus! {

/// Pause between selecting all text and copying it, in milliseconds.
pub const SELECT_DELAY_MS: u64 = 50;

/// Pause between copying and pasting, in milliseconds; the copy must land
/// on the clipboard before the paste reads it.
pub const COPY_DELAY_MS: u64 = 100;

/// Pause while the paste key is held down in the direct strategy, in
/// milliseconds.
pub const KEY_HOLD_DELAY_MS: u64 = 50;

/// A key that the paste sequences press.
#[derive(Clone, Copy, Debug, PartialEq, Eq, Structural)]
pub enum Key {
    Control,
    A,
    C,
    V,
}

/// One synthetic input step.
#[derive(Clone, Copy, Debug, PartialEq, Eq, Structural)]
pub enum KeyEvent {
    Press(Key),
    Release(Key),
    /// Let the target application's input handling catch up.
    Pause(u64),
}

/// How the paste is performed.
#[derive(Clone, Copy, Debug, PartialEq, Eq, Structural)]
pub enum PasteStrategy {
    /// Paste at the cursor; the clipboard already holds the text.
    Direct,
    /// Select everything in the focused field, copy it, then paste, so that
    /// the field's whole content is replaced.
    SelectCopyPaste,
}

/// The operating system the program runs on.
#[derive(Clone, Copy, Debug, PartialEq, Eq, Structural)]
pub enum Platform {
    Windows,
    Linux,
    MacOs,
}

/// Control held around a press and release of `key`.
pub open spec fn control_chord(key: Key) -> Seq<KeyEvent> {
    seq![
        KeyEvent::Press(Key::Control),
        KeyEvent::Press(key),
        KeyEvent::Release(key),
        KeyEvent::Release(Key::Control),
    ]
}

/// Control-A, a pause, Control-C, a longer pause, Control-V.
pub open spec fn select_copy_paste_events() -> Seq<KeyEvent> {
    control_chord(Key::A) + seq![KeyEvent::Pause(SELECT_DELAY_MS)] + control_chord(Key::C) + seq![
        KeyEvent::Pause(COPY_DELAY_MS),
    ] + control_chord(Key::V)
}

/// Control down, V down, a pause, V up, Control up.
pub open spec fn direct_paste_events() -> Seq<KeyEvent> {
    seq![
        KeyEvent::Press(Key::Control),
        KeyEvent::Press(Key::V),
        KeyEvent::Pause(KEY_HOLD_DELAY_MS),
        KeyEvent::Release(Key::V),
        KeyEvent::Release(Key::Control),
    ]
}

pub open spec fn strategy_events(strategy: PasteStrategy) -> Seq<KeyEvent> {
    match strategy {
        PasteStrategy::Direct => direct_paste_events(),
        PasteStrategy::SelectCopyPaste => select_copy_paste_events(),
    }
}

/// The strategy a platform implements, if it has synthetic input at all.
pub open spec fn platform_strategy(platform: Platform) -> Option<PasteStrategy> {
    match platform {
        Platform::Windows => Some(PasteStrategy::SelectCopyPaste),
        _ => None,
    }
}

/// What `simulate_paste` sends on a platform: nothing where the platform has
/// no synthetic input.
pub open spec fn platform_paste_events(platform: Platform) -> Seq<KeyEvent> {
    match platform_strategy(platform) {
        Some(strategy) => strategy_events(strategy),
        None => Seq::empty(),
    }
}

fn push_control_chord(events: &mut Vec<KeyEvent>, key: Key)
    ensures
        final(events)@ == old(events)@ + control_chord(key),
{
    events.push(KeyEvent::Press(Key::Control));
    events.push(KeyEvent::Press(key));
    events.push(KeyEvent::Release(key));
    events.push(KeyEvent::Release(Key::Control));
    assert(final(events)@ =~= old(events)@ + control_chord(key));
}

/// The key events of one paste by `strategy`, in the order they are sent.
pub fn paste_sequence(strategy: PasteStrategy) -> (r: Vec<KeyEvent>)
    ensures
        r@ == strategy_events(strategy),
{
    let mut events: Vec<KeyEvent> = Vec::new();
    match strategy {
        PasteStrategy::Direct => {
            events.push(KeyEvent::Press(Key::Control));
            events.push(KeyEvent::Press(Key::V));
            events.push(KeyEvent::Pause(KEY_HOLD_DELAY_MS));
            events.push(KeyEvent::Release(Key::V));
            events.push(KeyEvent::Release(Key::Control));
            assert(events@ =~= direct_paste_events());
        },
        PasteStrategy::SelectCopyPaste => {
            push_control_chord(&mut events, Key::A);
            events.push(KeyEvent::Pause(SELECT_DELAY_MS));
            push_control_chord(&mut events, Key::C);
            events.push(KeyEvent::Pause(COPY_DELAY_MS));
            push_control_chord(&mut events, Key::V);
            assert(events@ =~= select_copy_paste_events());
        },
    }
    events
}

/// The key events that paste into the focused application on `platform`.
///
/// Where synthetic input is implemented the text is not injected: the
/// sequence selects the field, copies it and pastes what the clipboard then
/// holds. Elsewhere the paste is a no-op and the sequence is empty.
pub fn simulate_paste(platform: Platform, text: &str) -> (r: Vec<KeyEvent>)
    ensures
        r@ == platform_paste_events(platform),
        platform != Platform::Windows ==> r@.len() == 0,
        platform == Platform::Windows ==> r@ == select_copy_paste_events(),
{
    match platform {
        Platform::Windows => paste_sequence(PasteStrategy::SelectCopyPaste),
        _ => Vec::new(),
    }
}

} // verus!
