//! Commands of the shell and their parsing from words.
use vstd::prelude::*;
use vstd::string::*;
use crate::words::{joined_of, join_words, views};

verus! {

/// One command, built from the words of one assembled line.
pub enum Command {
    Ask(String),
    Continue(String),
    Translate(String),
    Clear,
    Exit,
}

/// The mathematical value of a command.
pub enum CommandModel {
    Ask(Seq<char>),
    Continue(Seq<char>),
    Translate(Seq<char>),
    Clear,
    Exit,
}

/// Why words do not form a command.
pub enum UsageError {
    /// No words at all.
    MissingVerb,
    /// The first word names no command.
    UnknownVerb(String),
    /// A command that takes no argument was given this one first.
    UnexpectedArgument(String),
}

pub enum UsageModel {
    MissingVerb,
    UnknownVerb(Seq<char>),
    UnexpectedArgument(Seq<char>),
}

#[derive(Clone, Copy, PartialEq, Eq, Structural, Debug)]
pub enum Verb {
    Ask,
    Continue,
    Translate,
    Clear,
    Exit,
}

impl Command {
    pub open spec fn view(&self) -> CommandModel {
        match self {
            Command::Ask(t) => CommandModel::Ask(t@),
            Command::Continue(t) => CommandModel::Continue(t@),
            Command::Translate(t) => CommandModel::Translate(t@),
            Command::Clear => CommandModel::Clear,
            Command::Exit => CommandModel::Exit,
        }
    }
}

impl UsageError {
    pub open spec fn view(&self) -> UsageModel {
        match self {
            UsageError::MissingVerb => UsageModel::MissingVerb,
            UsageError::UnknownVerb(w) => UsageModel::UnknownVerb(w@),
            UsageError::UnexpectedArgument(w) => UsageModel::UnexpectedArgument(w@),
        }
    }
}

/// The verb that a word names, with the short aliases `q`, `c` and `tr`.
pub open spec fn verb_spec(w: Seq<char>) -> Option<Verb> {
    if w == "ask"@ || w == "q"@ {
        Some(Verb::Ask)
    } else if w == "continue"@ || w == "c"@ {
        Some(Verb::Continue)
    } else if w == "translate"@ || w == "tr"@ {
        Some(Verb::Translate)
    } else if w == "clear"@ {
        Some(Verb::Clear)
    } else if w == "exit"@ {
        Some(Verb::Exit)
    } else {
        None
    }
}

/// The command that words form: a verb, then its arguments, which the text
/// commands rejoin into one string.
pub open spec fn parse_spec(toks: Seq<Seq<char>>) -> Result<CommandModel, UsageModel> {
    if toks.len() == 0 {
        Err(UsageModel::MissingVerb)
    } else {
        let args = toks.drop_first();
        match verb_spec(toks[0]) {
            None => Err(UsageModel::UnknownVerb(toks[0])),
            Some(Verb::Ask) => Ok(CommandModel::Ask(joined_of(args))),
            Some(Verb::Continue) => Ok(CommandModel::Continue(joined_of(args))),
            Some(Verb::Translate) => Ok(CommandModel::Translate(joined_of(args))),
            Some(v) => if args.len() == 0 {
                if v == Verb::Clear {
                    Ok(CommandModel::Clear)
                } else {
                    Ok(CommandModel::Exit)
                }
            } else {
                Err(UsageModel::UnexpectedArgument(args[0]))
            },
        }
    }
}

pub open spec fn parse_view(r: Result<Command, UsageError>) -> Result<CommandModel, UsageModel> {
    match r {
        Ok(c) => Ok(c@),
        Err(e) => Err(e@),
    }
}

/// Whether a word is exactly the given text.
fn word_is(w: &str, lit: &str) -> (r: bool)
    ensures
        r == (w@ == lit@),
{
    let n = w.unicode_len();
    if n != lit.unicode_len() {
        return false;
    }
    let mut i: usize = 0;
    while i < n
        invariant
            n == w@.len(),
            n == lit@.len(),
            i <= n,
            w@.subrange(0, i as int) == lit@.subrange(0, i as int),
        decreases n - i,
    {
        if w.get_char(i) != lit.get_char(i) {
            assert(w@[i as int] != lit@[i as int]);
            return false;
        }
        assert(w@.subrange(0, i + 1) =~= w@.subrange(0, i as int).push(w@[i as int]));
        assert(lit@.subrange(0, i + 1) =~= lit@.subrange(0, i as int).push(lit@[i as int]));
        i = i + 1;
    }
    assert(w@ =~= w@.subrange(0, n as int));
    assert(lit@ =~= lit@.subrange(0, n as int));
    true
}

/// The verb that a word names.
pub fn verb_of(w: &str) -> (r: Option<Verb>)
    ensures
        r == verb_spec(w@),
{
    if word_is(w, "ask") || word_is(w, "q") {
        Some(Verb::Ask)
    } else if word_is(w, "continue") || word_is(w, "c") {
        Some(Verb::Continue)
    } else if word_is(w, "translate") || word_is(w, "tr") {
        Some(Verb::Translate)
    } else if word_is(w, "clear") {
        Some(Verb::Clear)
    } else if word_is(w, "exit") {
        Some(Verb::Exit)
    } else {
        None
    }
}

/// Parses words into a command.
pub fn parse_command(toks: &Vec<String>) -> (r: Result<Command, UsageError>)
    ensures
        parse_view(r) == parse_spec(views(toks@)),
{
    let ghost tv = views(toks@);
    if toks.len() == 0 {
        return Err(UsageError::MissingVerb);
    }
    let mut args: Vec<String> = Vec::new();
    let mut i: usize = 1;
    while i < toks.len()
        invariant
            1 <= i <= toks@.len(),
            tv == views(toks@),
            views(args@) == tv.subrange(1, i as int),
        decreases toks@.len() - i,
    {
        let ghost before = args@;
        let w = toks[i].clone();
        args.push(w);
        assert(views(args@) =~= views(before).push(toks@[i as int]@));
        assert(tv.subrange(1, i + 1) =~= tv.subrange(1, i as int).push(tv[i as int]));
        assert(views(args@) =~= tv.subrange(1, i + 1));
        i = i + 1;
    }
    assert(views(args@) =~= tv.drop_first());
    assert(tv[0] == toks@[0]@);
    match verb_of(toks[0].as_str()) {
        None => Err(UsageError::UnknownVerb(toks[0].clone())),
        Some(Verb::Ask) => Ok(Command::Ask(join_words(&args))),
        Some(Verb::Continue) => Ok(Command::Continue(join_words(&args))),
        Some(Verb::Translate) => Ok(Command::Translate(join_words(&args))),
        Some(v) => {
            if args.len() == 0 {
                if v == Verb::Clear {
                    Ok(Command::Clear)
                } else {
                    Ok(Command::Exit)
                }
            } else {
                assert(tv.drop_first()[0] == args@[0]@);
                Err(UsageError::UnexpectedArgument(args[0].clone()))
            }
        },
    }
}

} // verus!
