//! The reading of a line of the debugger prompt.

use vstd::prelude::*;
use crate::debugger::command::{
    build_set, build_show, build_step, reply, set_of, show_of, step_of, texts, Command,
};
use crate::text::{chars_of, is_word};

verus! {

/// The parts of `text` between its spaces: one more than there are spaces,
/// empty where two spaces meet and where the text starts or ends with one.
pub open spec fn split(text: Seq<char>) -> Seq<Seq<char>>
    decreases text.len(),
{
    if text.len() == 0 {
        seq![Seq::<char>::empty()]
    } else if text[0] == ' ' {
        seq![Seq::<char>::empty()] + split(text.skip(1))
    } else {
        let rest = split(text.skip(1));
        seq![seq![text[0]] + rest[0]] + rest.skip(1)
    }
}

/// Where the first space of a text is at `k`, the first part is what
/// stands before it, and the other parts are those of what follows it.
pub proof fn lemma_split_at_space(text: Seq<char>, k: int)
    requires
        0 <= k < text.len(),
        text[k] == ' ',
        forall|j: int| 0 <= j < k ==> text[j] != ' ',
    ensures
        split(text) == seq![text.take(k)] + split(text.skip(k + 1)),
    decreases k,
{
    if k == 0 {
        assert(text.take(0) =~= Seq::<char>::empty());
    } else {
        let tail = text.skip(1);
        assert forall|j: int| 0 <= j < k - 1 implies tail[j] != ' ' by {
            assert(text[j + 1] != ' ');
        }
        lemma_split_at_space(tail, k - 1);
        let rest = split(tail);
        assert(tail.skip(k) =~= text.skip(k + 1));
        assert(rest[0] == tail.take(k - 1));
        assert(seq![text[0]] + tail.take(k - 1) =~= text.take(k));
        assert(rest.skip(1) =~= split(text.skip(k + 1)));
        assert(seq![text.take(k)] + rest.skip(1) =~= seq![text.take(k)] + split(text.skip(k + 1)));
    }
}

/// A text without a space is its own single part.
pub proof fn lemma_split_no_space(text: Seq<char>)
    requires
        forall|j: int| 0 <= j < text.len() ==> text[j] != ' ',
    ensures
        split(text) == seq![text],
    decreases text.len(),
{
    if text.len() == 0 {
        assert(text =~= Seq::<char>::empty());
    } else {
        let tail = text.skip(1);
        assert forall|j: int| 0 <= j < tail.len() implies tail[j] != ' ' by {
            assert(text[j + 1] != ' ');
        }
        lemma_split_no_space(tail);
        assert(seq![text[0]] + tail =~= text);
        assert(split(tail).skip(1) =~= Seq::<Seq<char>>::empty());
        assert(seq![seq![text[0]] + tail] + Seq::<Seq<char>>::empty() =~= seq![text]);
    }
}

/// Splits `text` at its spaces.
pub fn split_words<'a>(text: &'a str) -> (parts: Vec<&'a str>)
    ensures
        texts(&parts) == split(text@),
        parts@.len() >= 1,
{
    let chars = chars_of(text);
    let len = chars.len();
    let mut parts: Vec<&'a str> = Vec::new();
    let mut from: usize = 0;
    let mut i: usize = 0;
    proof {
        assert(text@.skip(0) =~= text@);
        assert(texts(&parts) =~= Seq::<Seq<char>>::empty());
        assert(texts(&parts) + split(text@.skip(0)) =~= split(text@));
    }
    while i < len
        invariant
            chars@ == text@,
            len == text@.len(),
            from <= i <= len,
            split(text@) == texts(&parts) + split(text@.skip(from as int)),
            forall|j: int| from <= j < i ==> text@[j] != ' ',
        decreases len - i,
    {
        if chars[i] == ' ' {
            let part = text.substring_char(from, i);
            proof {
                let rest = text@.skip(from as int);
                assert forall|j: int| 0 <= j < i - from implies rest[j] != ' ' by {
                    assert(text@[from + j] != ' ');
                }
                lemma_split_at_space(rest, i - from);
                assert(rest.take(i - from) =~= text@.subrange(from as int, i as int));
                assert(rest.skip(i - from + 1) =~= text@.skip(i + 1));
            }
            let ghost before = texts(&parts);
            parts.push(part);
            proof {
                assert(texts(&parts) =~= before + seq![part@]);
                assert(texts(&parts) + split(text@.skip(i + 1)) =~= before + (seq![part@] + split(
                    text@.skip(i + 1),
                )));
            }
            from = i + 1;
        }
        i += 1;
    }
    let part = text.substring_char(from, len);
    proof {
        let rest = text@.skip(from as int);
        assert forall|j: int| 0 <= j < rest.len() implies rest[j] != ' ' by {
            assert(text@[from + j] != ' ');
        }
        lemma_split_no_space(rest);
        assert(rest =~= text@.subrange(from as int, len as int));
    }
    let ghost before = texts(&parts);
    parts.push(part);
    proof {
        assert(texts(&parts) =~= before + seq![part@]);
    }
    parts
}

/// The words of `parts` from the one at `from` on.
pub fn tail_of<'a>(parts: &Vec<&'a str>, from: usize) -> (rest: Vec<&'a str>)
    requires
        from <= parts@.len(),
    ensures
        texts(&rest) == texts(parts).skip(from as int),
{
    let mut rest: Vec<&'a str> = Vec::new();
    let mut i: usize = from;
    while i < parts.len()
        invariant
            from <= i <= parts@.len(),
            rest@.len() == i - from,
            forall|k: int| 0 <= k < i - from ==> rest@[k] == parts@[from + k],
        decreases parts@.len() - i,
    {
        rest.push(parts[i]);
        i += 1;
    }
    assert(texts(&rest) =~= texts(parts).skip(from as int));
    rest
}

/// The command that the line `text` gives: the first word names it, the
/// words after it are its arguments. An empty line steps once.
pub open spec fn command_of(text: Seq<char>) -> Result<Command, Seq<char>> {
    let head = split(text)[0];
    let rest = split(text).skip(1);
    if head == "show"@ || head == "print"@ {
        show_of(rest)
    } else if head == "step"@ {
        step_of(rest)
    } else if head == "set"@ {
        set_of(rest)
    } else if head == "restart"@ || head == "r"@ {
        Ok(Command::Restart)
    } else if head == "go"@ || head == "resume"@ || head == "start"@ {
        Ok(Command::Resume)
    } else if head == "exit"@ || head == "quit"@ || head == "q"@ {
        Ok(Command::Quit)
    } else if head == "help"@ || head == "h"@ {
        Ok(Command::Help)
    } else if head == ""@ {
        Ok(Command::Step(1))
    } else {
        Err("Invalid command."@)
    }
}

/// Reads a line of the prompt.
pub fn parse_input(text: &str) -> (res: Result<Command, &'static str>)
    ensures
        reply(res) == command_of(text@),
{
    let parts = split_words(text);
    let next_parts = tail_of(&parts, 1);
    let head = chars_of(parts[0]);
    assert(head@ == split(text@)[0]);
    if is_word(&head, "show") || is_word(&head, "print") {
        build_show(&next_parts)
    } else if is_word(&head, "step") {
        build_step(&next_parts)
    } else if is_word(&head, "set") {
        build_set(&next_parts)
    } else if is_word(&head, "restart") || is_word(&head, "r") {
        Ok(Command::Restart)
    } else if is_word(&head, "go") || is_word(&head, "resume") || is_word(&head, "start") {
        Ok(Command::Resume)
    } else if is_word(&head, "exit") || is_word(&head, "quit") || is_word(&head, "q") {
        Ok(Command::Quit)
    } else if is_word(&head, "help") || is_word(&head, "h") {
        Ok(Command::Help)
    } else if is_word(&head, "") {
        Ok(Command::Step(1))
    } else {
        Err("Invalid command.")
    }
}

} // verus!
