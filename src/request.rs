//! Chat completion requests sent to the question-answering service, and the
//! reading of its responses.
use vstd::prelude::*;
use crate::history::ConversationHistory;

verus! {

/// The model every request names.
pub const MODEL: &'static str = "gpt-4-1106-preview";

/// Instruction for plain questions: answer briefly, without repetition,
/// examples, extra explanation or invention.
pub const QUESTION_PROMPT: &'static str = "回答问题，语言简练不复读不举例子不做额外解释禁止胡编";

/// Instruction for translation: into Chinese, or into English when the text
/// is Chinese.
pub const TRANSLATE_PROMPT: &'static str = "翻成中文，用户输入中文则翻成英语";

/// Instruction for commit messages: an English text following the
/// conventional commits rules, from a summary.
pub const COMMIT_PROMPT: &'static str = "根据摘要用英文写符合 conventional commits 规范的 commit 文本";

#[derive(Clone, Copy, PartialEq, Eq, Structural, Debug)]
pub enum Role {
    System,
    User,
    Assistant,
}

pub struct Message {
    pub content: String,
    pub role: Role,
}

pub struct Request {
    pub messages: Vec<Message>,
    pub model: &'static str,
    pub temperature: Option<u8>,
}

/// The mathematical value of a request.
pub struct RequestModel {
    pub messages: Seq<(Role, Seq<char>)>,
    pub model: Seq<char>,
    pub temperature: Option<u8>,
}

impl Message {
    pub open spec fn view(&self) -> (Role, Seq<char>) {
        (self.role, self.content@)
    }

    pub fn new(content: String, role: Role) -> (r: Self)
        ensures
            r@ == (role, content@),
    {
        Message { content, role }
    }
}

pub open spec fn message_views(v: Seq<Message>) -> Seq<(Role, Seq<char>)> {
    v.map_values(|m: Message| m@)
}

impl Request {
    pub open spec fn view(&self) -> RequestModel {
        RequestModel {
            messages: message_views(self.messages@),
            model: self.model@,
            temperature: self.temperature,
        }
    }

    /// A request with no messages and the default temperature.
    pub fn new() -> (r: Self)
        ensures
            r@ == (RequestModel { messages: Seq::empty(), model: MODEL@, temperature: None }),
    {
        let r = Request { messages: Vec::new(), model: MODEL, temperature: None };
        assert(r@.messages =~= Seq::<(Role, Seq<char>)>::empty());
        r
    }

    /// The request with one more message at the end.
    pub fn append(self, message: Message) -> (r: Self)
        ensures
            r@ == (RequestModel { messages: self@.messages.push(message@), ..self@ }),
    {
        let ghost m0 = self.messages@;
        let ghost mv = message@;
        let mut r = self;
        r.messages.push(message);
        assert(message_views(r.messages@) =~= message_views(m0).push(mv));
        r
    }

    /// The request with the given sampling temperature.
    pub fn with_temperature(self, temperature: u8) -> (r: Self)
        ensures
            r@ == (RequestModel { temperature: Some(temperature), ..self@ }),
    {
        let mut r = self;
        r.temperature = Some(temperature);
        r
    }
}

/// The earlier exchanges, each question as a user message followed by its
/// answer as an assistant message.
pub open spec fn context_messages(qs: Seq<Seq<char>>, ans: Seq<Seq<char>>) -> Seq<(Role, Seq<char>)>
    decreases qs.len(),
{
    if qs.len() == 0 {
        Seq::empty()
    } else {
        context_messages(qs.drop_last(), ans.drop_last()) + seq![
            (Role::User, qs.last()),
            (Role::Assistant, ans.last()),
        ]
    }
}

/// A request at temperature 0: an instruction, the earlier messages, and the
/// user's text last.
pub open spec fn chat_spec(
    prompt: Seq<char>,
    context: Seq<(Role, Seq<char>)>,
    text: Seq<char>,
) -> RequestModel {
    RequestModel {
        messages: seq![(Role::System, prompt)] + context + seq![(Role::User, text)],
        model: MODEL@,
        temperature: Some(0),
    }
}

/// The context holds two messages for each earlier exchange.
pub proof fn lemma_context_len(qs: Seq<Seq<char>>, ans: Seq<Seq<char>>)
    ensures
        context_messages(qs, ans).len() == 2 * qs.len(),
    decreases qs.len(),
{
    if qs.len() > 0 {
        lemma_context_len(qs.drop_last(), ans.drop_last());
    }
}

/// Each earlier exchange stands in the context at its place: question `i` at
/// `2 * i`, its answer right after.
pub proof fn lemma_context_index(qs: Seq<Seq<char>>, ans: Seq<Seq<char>>, i: int)
    requires
        qs.len() == ans.len(),
        0 <= i < qs.len(),
    ensures
        context_messages(qs, ans).len() == 2 * qs.len(),
        context_messages(qs, ans)[2 * i] == (Role::User, qs[i]),
        context_messages(qs, ans)[2 * i + 1] == (Role::Assistant, ans[i]),
    decreases qs.len(),
{
    lemma_context_len(qs, ans);
    lemma_context_len(qs.drop_last(), ans.drop_last());
    if i < qs.len() - 1 {
        lemma_context_index(qs.drop_last(), ans.drop_last(), i);
    }
}

fn system_message(prompt: &str) -> (r: Message)
    ensures
        r@ == (Role::System, prompt@),
{
    Message::new(String::from_str(prompt), Role::System)
}

/// The request that asks `question`, with the conversation so far as context.
pub fn question_request(question: String, history: &ConversationHistory) -> (r: Request)
    requires
        history.wf(),
    ensures
        r@ == chat_spec(
            QUESTION_PROMPT@,
            context_messages(history.questions(), history.answers()),
            question@,
        ),
{
    let mut req = Request::new().with_temperature(0).append(system_message(QUESTION_PROMPT));
    let n = history.len();
    let mut i: usize = 0;
    while i < n
        invariant
            n == history.questions().len(),
            history.wf(),
            i <= n,
            req@ == (RequestModel {
                messages: seq![(Role::System, QUESTION_PROMPT@)] + context_messages(
                    history.questions().subrange(0, i as int),
                    history.answers().subrange(0, i as int),
                ),
                model: MODEL@,
                temperature: Some(0),
            }),
        decreases n - i,
    {
        let q = history.question(i).clone();
        let a = history.answer(i).clone();
        req = req.append(Message::new(q, Role::User)).append(Message::new(a, Role::Assistant));
        proof {
            let (qs, ans) = (history.questions(), history.answers());
            assert(qs.subrange(0, i + 1).drop_last() =~= qs.subrange(0, i as int));
            assert(ans.subrange(0, i + 1).drop_last() =~= ans.subrange(0, i as int));
            assert(req@.messages =~= seq![(Role::System, QUESTION_PROMPT@)] + context_messages(
                qs.subrange(0, i + 1),
                ans.subrange(0, i + 1),
            ));
        }
        i = i + 1;
    }
    proof {
        assert(history.questions().subrange(0, n as int) =~= history.questions());
        assert(history.answers().subrange(0, n as int) =~= history.answers());
    }
    let r = req.append(Message::new(question, Role::User));
    assert(r@.messages =~= chat_spec(
        QUESTION_PROMPT@,
        context_messages(history.questions(), history.answers()),
        question@,
    ).messages);
    r
}

/// A request with an instruction and one user text, at temperature 0.
fn single_request(prompt: &str, text: String) -> (r: Request)
    ensures
        r@ == chat_spec(prompt@, Seq::empty(), text@),
{
    let r = Request::new().with_temperature(0).append(system_message(prompt)).append(
        Message::new(text, Role::User),
    );
    assert(r@.messages =~= chat_spec(prompt@, Seq::empty(), text@).messages);
    r
}

/// The request that translates `text`.
pub fn translate_request(text: String) -> (r: Request)
    ensures
        r@ == chat_spec(TRANSLATE_PROMPT@, Seq::empty(), text@),
{
    single_request(TRANSLATE_PROMPT, text)
}

/// The request that writes a commit message from the summary `text`.
pub fn commit_request(text: String) -> (r: Request)
    ensures
        r@ == chat_spec(COMMIT_PROMPT@, Seq::empty(), text@),
{
    single_request(COMMIT_PROMPT, text)
}

/// The error the service reports.
pub struct ApiError {
    pub message: String,
}

pub struct Choice {
    pub message: Message,
}

/// A response of the service, as decoded.
pub struct Response {
    pub choices: Option<Vec<Choice>>,
    pub error: Option<ApiError>,
}

/// Why a response carries no answer.
pub enum CompletionError {
    /// The service gave no choices; its error message, or empty text.
    Rejected(String),
    /// The service gave an empty list of choices.
    EmptyChoices,
}

/// The answer in a response: the content of its last choice.
pub fn completion_content(resp: Response) -> (r: Result<String, CompletionError>)
    ensures
        match resp.choices {
            None => match r {
                Err(CompletionError::Rejected(m)) => m@ == match resp.error {
                    Some(e) => e.message@,
                    None => Seq::<char>::empty(),
                },
                _ => false,
            },
            Some(cs) => if cs@.len() == 0 {
                r matches Err(CompletionError::EmptyChoices)
            } else {
                r matches Ok(c) && c@ == cs@.last().message.content@
            },
        },
{
    match resp.choices {
        None => {
            let message = match resp.error {
                Some(e) => e.message,
                None => String::new(),
            };
            Err(CompletionError::Rejected(message))
        },
        Some(mut cs) => match cs.pop() {
            Some(c) => Ok(c.message.content),
            None => Err(CompletionError::EmptyChoices),
        },
    }
}

} // verus!
