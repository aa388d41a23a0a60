use vstd::prelude::*;

verus! {

/// A command selected on the startup screen or during input.
#[derive(Debug, Clone, Copy, PartialEq, Eq, Structural)]
pub enum Command {
    Login,
    Logout,
    Add,
    Remove,
    Get,
    Register,
    Idle,
    Quit,
    Enter,
    Delete,
}

/// One keystroke as the core understands it: a printable character, Enter,
/// Backspace, or anything else.
#[derive(Debug, Clone, Copy, PartialEq, Eq, Structural)]
pub enum Key {
    Char(char),
    Enter,
    Backspace,
    Other,
}

/// Routes a startup-screen keystroke: `l` selects login, `r` register, `q`
/// quit; Enter is reported as such; every other key does nothing.
pub fn command_for_key(key: Key) -> (r: Command)
    ensures
        key == Key::Char('l') ==> r == Command::Login,
        key == Key::Char('r') ==> r == Command::Register,
        key == Key::Char('q') ==> r == Command::Quit,
        key == Key::Enter ==> r == Command::Enter,
        key != Key::Char('l') && key != Key::Char('r') && key != Key::Char('q') && key
            != Key::Enter ==> r == Command::Idle,
{
    match key {
        Key::Char(c) => {
            if c == 'l' {
                Command::Login
            } else if c == 'r' {
                Command::Register
            } else if c == 'q' {
                Command::Quit
            } else {
                Command::Idle
            }
        },
        Key::Enter => Command::Enter,
        _ => Command::Idle,
    }
}

/// Relies on `String::push`: appends one character at the end.
#[verifier::external_body]
fn push_char(s: &mut String, c: char)
    ensures
        final(s)@ == old(s)@.push(c),
{
    s.push(c);
}

/// Relies on `String::pop`: removes and returns the last character, if any.
#[verifier::external_body]
fn pop_char(s: &mut String) -> (r: Option<char>)
    ensures
        old(s)@.len() == 0 ==> final(s)@ == old(s)@ && r is None,
        old(s)@.len() > 0 ==> final(s)@ == old(s)@.drop_last() && r == Some(old(s)@.last()),
{
    s.pop()
}

/// A text buffer under edit, together with the masked form shown in place of
/// a secret: one `*` for each buffered character.
pub struct Input {
    pub message: String,
    pub message_encrypt: String,
}

impl Input {
    /// The masked form is exactly one `*` per buffered character.
    pub open spec fn wf(self) -> bool {
        &&& self.message_encrypt@.len() == self.message@.len()
        &&& forall|i: int|
            0 <= i < self.message_encrypt@.len() ==> self.message_encrypt@[i] == '*'
    }

    /// An empty buffer with an empty mask.
    pub fn new() -> (r: Input)
        ensures
            r.message@ == Seq::<char>::empty(),
            r.wf(),
    {
        Input { message: String::new(), message_encrypt: String::new() }
    }

    /// Appends one character to the buffer and one `*` to the mask.
    pub fn add(&mut self, c: char)
        ensures
            final(self).message@ == old(self).message@.push(c),
            final(self).message_encrypt@ == old(self).message_encrypt@.push('*'),
            old(self).wf() ==> final(self).wf(),
    {
        push_char(&mut self.message, c);
        push_char(&mut self.message_encrypt, '*');
    }

    /// Removes the last character of the buffer and of the mask, if any.
    pub fn remove(&mut self)
        ensures
            old(self).message@.len() == 0 ==> final(self).message@ == old(self).message@,
            old(self).message@.len() > 0 ==> final(self).message@ == old(
                self,
            ).message@.drop_last(),
            old(self).wf() ==> final(self).wf(),
    {
        let _ = pop_char(&mut self.message);
        let _ = pop_char(&mut self.message_encrypt);
    }

    /// Applies one input-prompt keystroke: a printable character is appended,
    /// Backspace removes the last character, Enter submits (the result is
    /// `true`), and any other key is ignored.
    pub fn apply_key(&mut self, key: Key) -> (done: bool)
        ensures
            old(self).wf() ==> final(self).wf(),
            done <==> key == Key::Enter,
            key == Key::Enter ==> *final(self) == *old(self),
            key == Key::Other ==> *final(self) == *old(self),
            key matches Key::Char(c) ==> final(self).message@ == old(self).message@.push(c),
            key == Key::Backspace && old(self).message@.len() == 0 ==> final(self).message@
                == old(self).message@,
            key == Key::Backspace && old(self).message@.len() > 0 ==> final(self).message@
                == old(self).message@.drop_last(),
    {
        match key {
            Key::Enter => true,
            Key::Backspace => {
                self.remove();
                false
            },
            Key::Char(c) => {
                self.add(c);
                false
            },
            Key::Other => false,
        }
    }
}

} // verus!
