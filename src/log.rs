//! The message log: the few most recent messages, newest first.
use vstd::prelude::*;
use std::collections::VecDeque;

verus! {

/// An RGBA colour.
#[derive(Debug, Clone, Copy, PartialEq, Eq, Structural)]
pub struct Color {
    pub r: u8,
    pub g: u8,
    pub b: u8,
    pub a: u8,
}

#[derive(Debug)]
pub struct LogMessageText {
    pub text: String,
    pub color: Color,
}

impl LogMessageText {
    pub fn new(content: &str, color: Color) -> (r: LogMessageText)
        ensures
            r.text@ == content@,
            r.color == color,
    {
        LogMessageText { text: String::from_str(content), color }
    }
}

#[derive(Debug)]
pub struct Log {
    pub texts: VecDeque<LogMessageText>,
}

/// The messages that stay when a new one arrives: the oldest goes once the
/// log is full.
pub open spec fn kept(texts: Seq<LogMessageText>) -> Seq<LogMessageText> {
    if texts.len() >= 5 {
        texts.drop_last()
    } else {
        texts
    }
}

impl Log {
    /// How many messages the log shows.
    pub const TEXTS_LIMIT: usize = 5;

    pub fn new() -> (r: Log)
        ensures
            r.texts@.len() == 0,
    {
        Log { texts: VecDeque::with_capacity(Self::TEXTS_LIMIT) }
    }

    /// Puts `message` in front, dropping the oldest message if the log is
    /// full.
    pub fn log(&mut self, message: &str, color: Color)
        ensures
            final(self).texts@.len() == kept(old(self).texts@).len() + 1,
            final(self).texts@[0].text@ == message@,
            final(self).texts@[0].color == color,
            final(self).texts@.subrange(1, final(self).texts@.len() as int) == kept(old(self).texts@),
            old(self).texts@.len() <= 5 ==> final(self).texts@.len() <= 5,
    {
        if self.texts.len() >= Self::TEXTS_LIMIT {
            self.texts.pop_back();
        }
        self.texts.push_front(LogMessageText::new(message, color));
        assert(self.texts@.subrange(1, self.texts@.len() as int) =~= kept(old(self).texts@));
    }

    pub fn clear(&mut self)
        ensures
            final(self).texts@.len() == 0,
    {
        self.texts.clear()
    }

    /// Whether the newest message reads `new_msg`.
    pub fn same_message(&self, new_msg: &String) -> (r: bool)
        ensures
            r == (self.texts@.len() > 0 && self.texts@[0].text@ == new_msg@),
    {
        if self.texts.len() == 0 {
            false
        } else {
            *new_msg == self.texts[0].text
        }
    }
}

} // verus!
