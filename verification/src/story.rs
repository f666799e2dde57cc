//! A story told as a tree of two-way choices, and the rule by which a reader
//! moves through it. Reading the reader's answer and printing are the
//! caller's; the rule is here.

use vstd::prelude::*;
use crate::record::same_text;

verus! {

/// A passage of the story and the passages that its two choices lead to.
#[derive(Debug, PartialEq)]
pub struct Node {
    pub text: String,
    pub a: Option<Box<Node>>,
    pub b: Option<Box<Node>>,
}

/// What a reader answered, surrounding blanks already removed.
#[derive(Clone, Copy, Debug, PartialEq, Eq, Structural)]
pub enum Answer {
    A,
    B,
    Invalid,
}

/// Where an answer leads.
#[derive(Debug, PartialEq)]
pub enum Step<'a> {
    /// The answer was none of the two: the same passage is shown again.
    Stay,
    /// The chosen branch is not there: the story has ended.
    End,
    /// The story goes on with this passage.
    Move(&'a Node),
}

/// The answer that a text gives: `A`, `B`, or none of the two.
pub open spec fn answer_of(text: Seq<char>) -> Answer {
    if text == "A"@ {
        Answer::A
    } else if text == "B"@ {
        Answer::B
    } else {
        Answer::Invalid
    }
}

/// Reads a reader's answer.
pub fn read_answer(trimmed: &str) -> (r: Answer)
    ensures
        r == answer_of(trimmed@),
{
    if same_text(trimmed, "A") {
        Answer::A
    } else if same_text(trimmed, "B") {
        Answer::B
    } else {
        Answer::Invalid
    }
}

impl Node {
    /// Whether the story ends with this passage: it offers no choice.
    pub fn is_ending(&self) -> (r: bool)
        ensures
            r == (self.a is None && self.b is None),
    {
        self.a.is_none() && self.b.is_none()
    }

    /// Where `answer` leads from this passage: to the passage of the chosen
    /// branch, to the end where that branch is missing, and nowhere for an
    /// answer that is none of the two.
    pub fn follow(&self, answer: Answer) -> (r: Step<'_>)
        ensures
            match answer {
                Answer::A => match self.a {
                    Some(next) => r matches Step::Move(n) && *n == *next,
                    None => r is End,
                },
                Answer::B => match self.b {
                    Some(next) => r matches Step::Move(n) && *n == *next,
                    None => r is End,
                },
                Answer::Invalid => r is Stay,
            },
    {
        match answer {
            Answer::A => match &self.a {
                Some(next) => Step::Move(&**next),
                None => Step::End,
            },
            Answer::B => match &self.b {
                Some(next) => Step::Move(&**next),
                None => Step::End,
            },
            Answer::Invalid => Step::Stay,
        }
    }
}

} // verus!
