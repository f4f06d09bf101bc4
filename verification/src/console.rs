//! The text that the kernel is to show. The library collects it; whoever
//! owns the screen takes it from here and puts it there.

use vstd::prelude::*;
use vstd::string::StringExecFns;

verus! {

/// `String::push`: the character is appended to the text.
#[verifier::external_body]
fn push_char(text: &mut String, character: char)
    ensures
        final(text)@ == old(text)@.push(character),
{
    text.push(character)
}

/// Text that waits to be shown.
pub struct Console {
    text: String,
}

impl View for Console {
    type V = Seq<char>;

    /// The characters that wait to be shown, in order.
    closed spec fn view(&self) -> Seq<char> {
        self.text@
    }
}

impl Console {
    /// A console on which nothing waits.
    pub fn new() -> (console: Self)
        ensures
            console@ == Seq::<char>::empty(),
    {
        Console { text: String::new() }
    }

    /// Appends one character.
    pub fn print_char(&mut self, character: char)
        ensures
            final(self)@ == old(self)@.push(character),
    {
        push_char(&mut self.text, character);
    }

    /// Appends the characters of `text`.
    pub fn print_str(&mut self, text: &str)
        ensures
            final(self)@ == old(self)@ + text@,
    {
        self.text.append(text);
    }

    /// The text that waits.
    pub fn text(&self) -> (text: &str)
        ensures
            text@ == self@,
    {
        self.text.as_str()
    }

    /// Hands the waiting text over and leaves the console empty.
    pub fn take(&mut self) -> (text: String)
        ensures
            text@ == old(self)@,
            final(self)@ == Seq::<char>::empty(),
    {
        let mut text = String::new();
        std::mem::swap(&mut self.text, &mut text);
        text
    }
}

} // verus!
