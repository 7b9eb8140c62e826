//! State of the command overlay: whether it is shown, and the command typed so far.
use vstd::prelude::*;

verus! {

/// The command overlay.
pub struct CommandLine {
    /// The command typed since the overlay was last opened.
    pub text: Vec<char>,
    /// Whether the overlay is shown and takes typed characters.
    pub visible: bool,
}

impl CommandLine {
    /// A hidden overlay holding the greeting `Hello` until it is first opened.
    pub fn new() -> (c: CommandLine)
        ensures
            c.text@ == seq!['H', 'e', 'l', 'l', 'o'],
            !c.visible,
    {
        CommandLine { text: vec!['H', 'e', 'l', 'l', 'o'], visible: false }
    }

    /// Shows the overlay with an empty command.
    pub fn open(&mut self)
        ensures
            final(self).visible,
            final(self).text@ == Seq::<char>::empty(),
    {
        self.visible = true;
        self.text = Vec::new();
    }

    /// Hides the overlay; the command is kept.
    pub fn close(&mut self)
        ensures
            !final(self).visible,
            final(self).text@ == old(self).text@,
    {
        self.visible = false;
    }

    /// Appends `c` to the command while the overlay is shown.
    pub fn push_char(&mut self, c: char)
        ensures
            final(self).visible == old(self).visible,
            final(self).text@ == if old(self).visible {
                old(self).text@.push(c)
            } else {
                old(self).text@
            },
    {
        if self.visible {
            self.text.push(c);
        }
    }

    /// Removes the last character of the command while the overlay is shown.
    pub fn pop_char(&mut self)
        ensures
            final(self).visible == old(self).visible,
            final(self).text@ == if old(self).visible && old(self).text@.len() > 0 {
                old(self).text@.drop_last()
            } else {
                old(self).text@
            },
    {
        if self.visible {
            let _ = self.text.pop();
        }
    }
}

} // verus!
