//! The conversation: questions and their answers, in the order they were
//! answered.
use vstd::prelude::*;
use crate::words::views;

verus! {

pub struct ConversationHistory {
    questions: Vec<String>,
    answers: Vec<String>,
}

impl ConversationHistory {
    pub closed spec fn questions(&self) -> Seq<Seq<char>> {
        views(self.questions@)
    }

    pub closed spec fn answers(&self) -> Seq<Seq<char>> {
        views(self.answers@)
    }

    /// Every question has its answer.
    pub open spec fn wf(&self) -> bool {
        self.questions().len() == self.answers().len()
    }

    pub fn new() -> (r: Self)
        ensures
            r.wf(),
            r.questions() == Seq::<Seq<char>>::empty(),
            r.answers() == Seq::<Seq<char>>::empty(),
    {
        let r = ConversationHistory { questions: Vec::new(), answers: Vec::new() };
        assert(r.questions() =~= Seq::<Seq<char>>::empty());
        assert(r.answers() =~= Seq::<Seq<char>>::empty());
        r
    }

    /// The number of answered questions.
    pub fn len(&self) -> (r: usize)
        requires
            self.wf(),
        ensures
            r == self.questions().len(),
            r == self.answers().len(),
    {
        self.questions.len()
    }

    pub fn question(&self, i: usize) -> (r: &String)
        requires
            i < self.questions().len(),
        ensures
            r@ == self.questions()[i as int],
    {
        &self.questions[i]
    }

    pub fn answer(&self, i: usize) -> (r: &String)
        requires
            i < self.answers().len(),
        ensures
            r@ == self.answers()[i as int],
    {
        &self.answers[i]
    }

    /// Appends one answered question.
    pub fn record(&mut self, question: String, answer: String)
        requires
            old(self).wf(),
        ensures
            final(self).wf(),
            final(self).questions() == old(self).questions().push(question@),
            final(self).answers() == old(self).answers().push(answer@),
    {
        let ghost (q0, a0) = (self.questions@, self.answers@);
        let ghost (qv, av) = (question@, answer@);
        self.questions.push(question);
        self.answers.push(answer);
        assert(views(self.questions@) =~= views(q0).push(qv));
        assert(views(self.answers@) =~= views(a0).push(av));
    }
}

} // verus!
