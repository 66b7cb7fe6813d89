//! Protocol messages: a command word with an ordered list of arguments.
use vstd::prelude::*;
use crate::util::{slicify, strings_view, strs_view, unslicify};
use crate::wire::{pack, packed_line};

verus! {

/// What a message holds, as character sequences.
pub struct MessageView {
    pub word: Seq<char>,
    pub args: Seq<Seq<char>>,
}

/// A protocol message: a command word and its ordered arguments.
#[derive(Debug)]
pub struct Message {
    word: String,
    args: Vec<String>,
}

impl View for Message {
    type V = MessageView;

    closed spec fn view(&self) -> MessageView {
        MessageView { word: self.word@, args: strings_view(self.args@) }
    }
}

impl Clone for Message {
    fn clone(&self) -> (r: Message)
        ensures
            r@ == self@,
    {
        let mut args: Vec<String> = Vec::new();
        let mut i: usize = 0;
        while i < self.args.len()
            invariant
                i <= self.args.len(),
                args@.len() == i,
                forall|j: int| 0 <= j < i ==> args@[j]@ == self.args@[j]@,
            decreases self.args.len() - i,
        {
            args.push(self.args[i].clone());
            i = i + 1;
        }
        assert(strings_view(args@) =~= strings_view(self.args@));
        Message { word: self.word.clone(), args }
    }
}

impl Message {
    /// Creates a message from a command word and its arguments.
    pub fn new(word: &str, args: &[&str]) -> (r: Message)
        ensures
            r@.word == word@,
            r@.args == strs_view(args@),
    {
        Message { word: String::from_str(word), args: unslicify(args) }
    }

    /// Creates a message with a command word and no arguments.
    pub fn from_word(word: &str) -> (r: Message)
        ensures
            r@.word == word@,
            r@.args == Seq::<Seq<char>>::empty(),
    {
        let args: Vec<String> = Vec::new();
        assert(strings_view(args@) =~= Seq::<Seq<char>>::empty());
        Message { word: String::from_str(word), args }
    }

    /// Encodes this message as one protocol line, ready to be sent.
    pub fn pack(&self) -> (r: String)
        ensures
            r@ == packed_line(self@.word, self@.args),
    {
        let vargs = self.args();
        pack(self.word(), vargs.as_slice())
    }

    /// The command word of this message.
    pub fn word(&self) -> (r: &str)
        ensures
            r@ == self@.word,
    {
        self.word.as_str()
    }

    /// The arguments of this message, in order.
    pub fn args(&self) -> (r: Vec<&str>)
        ensures
            strs_view(r@) == self@.args,
    {
        slicify(&self.args)
    }

    /// The command word followed by the arguments.
    pub fn as_str_vec(&self) -> (r: Vec<&str>)
        ensures
            strs_view(r@) == seq![self@.word] + self@.args,
    {
        let mut v = self.args();
        v.insert(0, self.word());
        assert(strs_view(v@) =~= seq![self@.word] + self@.args);
        v
    }
}

} // verus!
