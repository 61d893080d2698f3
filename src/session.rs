//! The dispatcher: one command at a time from an assembled line to the
//! request it sends, and the bookkeeping once the request is answered.
use vstd::prelude::*;
use crate::command::{parse_command, parse_spec, Command, CommandModel, UsageError, UsageModel};
use crate::history::ConversationHistory;
use crate::indicator::{Indicator, IndicatorPhase};
use crate::request::{
    chat_spec,
    context_messages,
    lemma_context_index,
    lemma_context_len,
    Role,
    question_request,
    translate_request,
    Request,
    RequestModel,
    QUESTION_PROMPT,
    TRANSLATE_PROMPT,
};
use crate::words::{split_of, split_words};

verus! {

/// What the shell does next with one assembled line.
pub enum Step {
    /// The line has malformed quoting.
    Syntax,
    /// The words form no command.
    Usage(UsageError),
    /// Send this request, with the indicator running until it is answered.
    Call(Request),
    /// Clear the screen.
    ClearScreen,
    /// End the session successfully.
    Exit,
}

pub enum StepModel {
    Syntax,
    Usage(UsageModel),
    Call(RequestModel),
    ClearScreen,
    Exit,
}

impl Step {
    pub open spec fn view(&self) -> StepModel {
        match self {
            Step::Syntax => StepModel::Syntax,
            Step::Usage(u) => StepModel::Usage(u@),
            Step::Call(r) => StepModel::Call(r@),
            Step::ClearScreen => StepModel::ClearScreen,
            Step::Exit => StepModel::Exit,
        }
    }
}

/// The step for a line, given the conversation so far: `ask` sends its text
/// alone, `continue` sends it after the whole conversation, `translate` sends
/// it for translation.
pub open spec fn step_spec(qs: Seq<Seq<char>>, ans: Seq<Seq<char>>, line: Seq<char>) -> StepModel {
    match split_of(line) {
        None => StepModel::Syntax,
        Some(toks) => match parse_spec(toks) {
            Err(u) => StepModel::Usage(u),
            Ok(CommandModel::Ask(t)) => StepModel::Call(
                chat_spec(QUESTION_PROMPT@, Seq::empty(), t),
            ),
            Ok(CommandModel::Continue(t)) => StepModel::Call(
                chat_spec(QUESTION_PROMPT@, context_messages(qs, ans), t),
            ),
            Ok(CommandModel::Translate(t)) => StepModel::Call(
                chat_spec(TRANSLATE_PROMPT@, Seq::empty(), t),
            ),
            Ok(CommandModel::Clear) => StepModel::ClearScreen,
            Ok(CommandModel::Exit) => StepModel::Exit,
        },
    }
}

/// The question a line asks, which its answer is recorded under.
pub open spec fn question_spec(line: Seq<char>) -> Option<Seq<char>> {
    match split_of(line) {
        Some(toks) => match parse_spec(toks) {
            Ok(CommandModel::Ask(t)) => Some(t),
            Ok(CommandModel::Continue(t)) => Some(t),
            _ => None,
        },
        None => None,
    }
}

/// The request that is outstanding.
enum Outstanding {
    /// An answer to this question, to be recorded.
    Answer(String),
    /// A translation, recorded nowhere.
    Translation,
}

pub struct Session {
    history: ConversationHistory,
    outstanding: Option<Outstanding>,
    indicator: Indicator,
}

impl Session {
    pub closed spec fn questions(&self) -> Seq<Seq<char>> {
        self.history.questions()
    }

    pub closed spec fn answers(&self) -> Seq<Seq<char>> {
        self.history.answers()
    }

    /// Whether a request is outstanding.
    pub closed spec fn awaiting(&self) -> bool {
        self.outstanding.is_some()
    }

    /// The question of the outstanding request, where it asks one.
    pub closed spec fn pending_question(&self) -> Option<Seq<char>> {
        match self.outstanding {
            Some(Outstanding::Answer(q)) => Some(q@),
            _ => None,
        }
    }

    pub closed spec fn indicator_phase(&self) -> IndicatorPhase {
        self.indicator.phase()
    }

    /// Every question has its answer, and the indicator runs exactly while a
    /// request is outstanding.
    pub open spec fn wf(&self) -> bool {
        &&& self.questions().len() == self.answers().len()
        &&& (self.indicator_phase() == IndicatorPhase::Running) == self.awaiting()
    }

    pub fn new() -> (r: Self)
        ensures
            r.wf(),
            !r.awaiting(),
            r.questions() == Seq::<Seq<char>>::empty(),
            r.answers() == Seq::<Seq<char>>::empty(),
    {
        Session {
            history: ConversationHistory::new(),
            outstanding: None,
            indicator: Indicator::new(),
        }
    }

    /// The conversation so far.
    pub fn history(&self) -> (r: &ConversationHistory)
        ensures
            r.questions() == self.questions(),
            r.answers() == self.answers(),
    {
        &self.history
    }

    /// Whether a request is outstanding.
    pub fn is_awaiting(&self) -> (r: bool)
        ensures
            r == self.awaiting(),
    {
        self.outstanding.is_some()
    }

    /// Tokenizes and parses one assembled line and decides what to do. A
    /// request to send starts the indicator; nothing else changes the session.
    pub fn submit(&mut self, line: &str) -> (r: Step)
        requires
            old(self).wf(),
            !old(self).awaiting(),
        ensures
            final(self).wf(),
            r@ == step_spec(old(self).questions(), old(self).answers(), line@),
            final(self).questions() == old(self).questions(),
            final(self).answers() == old(self).answers(),
            final(self).awaiting() == r is Call,
            final(self).awaiting() ==> final(self).pending_question() == question_spec(line@),
            !final(self).awaiting() ==> final(self).indicator_phase() == old(
                self,
            ).indicator_phase(),
    {
        let toks = match split_words(line) {
            Ok(toks) => toks,
            Err(_) => return Step::Syntax,
        };
        let cmd = match parse_command(&toks) {
            Ok(cmd) => cmd,
            Err(u) => return Step::Usage(u),
        };
        match cmd {
            Command::Ask(t) => {
                let fresh = ConversationHistory::new();
                let req = question_request(t.clone(), &fresh);
                self.outstanding = Some(Outstanding::Answer(t));
                self.indicator = Indicator::new();
                self.indicator.start();
                Step::Call(req)
            },
            Command::Continue(t) => {
                let req = question_request(t.clone(), &self.history);
                self.outstanding = Some(Outstanding::Answer(t));
                self.indicator = Indicator::new();
                self.indicator.start();
                Step::Call(req)
            },
            Command::Translate(t) => {
                let req = translate_request(t);
                self.outstanding = Some(Outstanding::Translation);
                self.indicator = Indicator::new();
                self.indicator.start();
                Step::Call(req)
            },
            Command::Clear => Step::ClearScreen,
            Command::Exit => Step::Exit,
        }
    }

    /// Takes the outcome of the outstanding request: `Some` with the answer,
    /// `None` where it failed. Stops the indicator; an answer to a question
    /// is recorded, and nothing else changes the conversation.
    pub fn complete(&mut self, answer: Option<String>)
        requires
            old(self).wf(),
            old(self).awaiting(),
        ensures
            final(self).wf(),
            !final(self).awaiting(),
            final(self).indicator_phase() == IndicatorPhase::Stopped,
            match (old(self).pending_question(), answer) {
                (Some(q), Some(a)) => {
                    &&& final(self).questions() == old(self).questions().push(q)
                    &&& final(self).answers() == old(self).answers().push(a@)
                },
                _ => {
                    &&& final(self).questions() == old(self).questions()
                    &&& final(self).answers() == old(self).answers()
                },
            },
    {
        self.indicator.stop();
        let outstanding = self.outstanding.take();
        match (outstanding, answer) {
            (Some(Outstanding::Answer(q)), Some(a)) => {
                self.history.record(q, a);
            },
            _ => {},
        }
    }
}

/// A `continue` line sends the instruction, then every earlier question and
/// its answer in the order they were recorded, then its own text last.
pub proof fn law_continue_replays_history(
    qs: Seq<Seq<char>>,
    ans: Seq<Seq<char>>,
    line: Seq<char>,
    text: Seq<char>,
)
    requires
        qs.len() == ans.len(),
        split_of(line) matches Some(toks) && parse_spec(toks) == Ok::<CommandModel, UsageModel>(
            CommandModel::Continue(text),
        ),
    ensures
        step_spec(qs, ans, line) matches StepModel::Call(m) && {
            &&& m.messages.len() == 2 * qs.len() + 2
            &&& m.messages[0] == (Role::System, QUESTION_PROMPT@)
            &&& forall|i: int|
                0 <= i < qs.len() ==> {
                    &&& #[trigger] m.messages[2 * i + 1] == (Role::User, qs[i])
                    &&& m.messages[2 * i + 2] == (Role::Assistant, ans[i])
                }
            &&& m.messages.last() == (Role::User, text)
        },
{
    let m = chat_spec(QUESTION_PROMPT@, context_messages(qs, ans), text);
    let ctx = context_messages(qs, ans);
    lemma_context_len(qs, ans);
    assert forall|i: int| 0 <= i < qs.len() implies {
        &&& #[trigger] m.messages[2 * i + 1] == (Role::User, qs[i])
        &&& m.messages[2 * i + 2] == (Role::Assistant, ans[i])
    } by {
        lemma_context_index(qs, ans, i);
        assert(m.messages[2 * i + 1] == ctx[2 * i]);
        assert(m.messages[2 * i + 2] == ctx[2 * i + 1]);
    }
}

/// A line that is just `exit` ends the session whatever the conversation
/// holds, an empty one included.
pub proof fn law_exit_ends_session(qs: Seq<Seq<char>>, ans: Seq<Seq<char>>, line: Seq<char>)
    requires
        split_of(line) == Some(seq!["exit"@]),
    ensures
        step_spec(qs, ans, line) == StepModel::Exit,
{
    reveal_strlit("exit");
    reveal_strlit("ask");
    reveal_strlit("q");
    reveal_strlit("continue");
    reveal_strlit("c");
    reveal_strlit("translate");
    reveal_strlit("tr");
    reveal_strlit("clear");
    assert(seq!["exit"@].drop_first().len() == 0);
    assert("exit"@.len() == 4);
    assert("ask"@.len() == 3 && "q"@.len() == 1 && "continue"@.len() == 8 && "c"@.len() == 1);
    assert("translate"@.len() == 9 && "tr"@.len() == 2 && "clear"@.len() == 5);
}

/// A line with malformed quoting is a syntax error and asks nothing.
pub proof fn law_malformed_line_asks_nothing(
    qs: Seq<Seq<char>>,
    ans: Seq<Seq<char>>,
    line: Seq<char>,
)
    requires
        split_of(line).is_none(),
    ensures
        step_spec(qs, ans, line) == StepModel::Syntax,
        question_spec(line).is_none(),
{
}

/// Between commands the indicator is never running: whatever request was
/// outstanding has been completed, which stopped it, before the next line is
/// tokenized.
pub proof fn law_indicator_stopped_between_commands(s: Session)
    requires
        s.wf(),
        !s.awaiting(),
    ensures
        s.indicator_phase() != IndicatorPhase::Running,
{
}

} // verus!
