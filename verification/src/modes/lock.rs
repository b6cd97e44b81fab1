//! The lock screen: the passphrase is typed here before the vault opens.
use vstd::prelude::*;
use crate::keys::Key;
use crate::text::{byte_count, byte_len, pop_char, push_char, repeat_char};

verus! {

/// The lock screen: the passphrase typed so far and the message shown under it.
#[derive(Debug)]
pub struct Lock {
    pub input: String,
    pub alert: String,
}

/// What the lock screen asks of the application after a key.
#[derive(Debug, Clone, Copy, PartialEq, Eq, Structural)]
pub enum LockAction {
    SubmitPassword,
    Quit,
    Nothing,
}

impl Default for Lock {
    fn default() -> (r: Lock)
        ensures
            r.input@ == Seq::<char>::empty(),
            r.alert@ == Seq::<char>::empty(),
    {
        Lock { input: String::new(), alert: String::new() }
    }
}

/// The lock screen's response to a key: the passphrase afterwards and the action.
pub open spec fn lock_step(input: Seq<char>, key: Key) -> (Seq<char>, LockAction) {
    match key {
        Key::Esc => (input, LockAction::Quit),
        Key::Enter => (input, LockAction::SubmitPassword),
        Key::Backspace => (
            if input.len() > 0 {
                input.drop_last()
            } else {
                input
            },
            LockAction::Nothing,
        ),
        Key::Char(c) => (input.push(c), LockAction::Nothing),
        _ => (input, LockAction::Nothing),
    }
}

impl Lock {
    /// A lock screen with the given passphrase text and message.
    pub fn new(input: String, alert: String) -> (r: Self)
        ensures
            r.input == input,
            r.alert == alert,
    {
        Self { input, alert }
    }

    /// Esc quits, Enter submits the passphrase, Backspace removes its last character, and
    /// a character is appended to it; other keys do nothing.
    pub fn handle_inputs(&mut self, event: Key) -> (r: LockAction)
        ensures
            (final(self).input@, r) == lock_step(old(self).input@, event),
            final(self).alert == old(self).alert,
    {
        match event {
            Key::Esc => LockAction::Quit,
            Key::Enter => LockAction::SubmitPassword,
            Key::Backspace => {
                pop_char(&mut self.input);
                LockAction::Nothing
            },
            Key::Char(c) => {
                push_char(&mut self.input, c);
                LockAction::Nothing
            },
            _ => LockAction::Nothing,
        }
    }

    /// The passphrase as shown on screen: one `*` per byte of its UTF-8 text.
    pub fn masked_input(&self) -> (r: String)
        ensures
            r@ == Seq::new(byte_len(self.input@), |i: int| '*'),
    {
        let n = byte_count(self.input.as_str());
        repeat_char('*', n)
    }
}

/// Typing a character and then erasing it gives back the passphrase typed before.
pub proof fn lemma_lock_type_then_erase(input: Seq<char>, c: char)
    ensures
        lock_step(lock_step(input, Key::Char(c)).0, Key::Backspace).0 == input,
{
    assert(input.push(c).drop_last() =~= input);
}

} // verus!
