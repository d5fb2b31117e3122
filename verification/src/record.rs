//! The quiz record: a question, its options and one vote counter for each option.

use crate::error::{full_tally_text, invalid_choice_text, Error};
use vstd::prelude::*;

verus! {

/// The texts of a sequence of strings.
pub open spec fn texts(labels: Seq<String>) -> Seq<Seq<char>> {
    Seq::new(labels.len(), |i: int| labels[i]@)
}

/// The later of two times.
pub open spec fn later(a: u64, b: u64) -> u64 {
    if a >= b {
        a
    } else {
        b
    }
}

/// Whether a question and a list of options can make a quiz: the question is not
/// empty, there are at least two options, and no option occurs twice.
pub open spec fn acceptable(question: Seq<char>, options: Seq<Seq<char>>) -> bool {
    &&& question.len() > 0
    &&& options.len() >= 2
    &&& options.no_duplicates()
}

/// What a quiz record is, as plain mathematical values.
pub struct QuizView {
    pub id: u64,
    pub author: Option<Seq<char>>,
    pub question: Seq<char>,
    pub options: Seq<Seq<char>>,
    pub answers: Seq<u32>,
    pub created_at: u64,
    pub updated_at: Option<u64>,
}

impl QuizView {
    /// The invariant of a record: an acceptable question and options, one counter
    /// for each option, and no update before the creation.
    pub open spec fn wf(self) -> bool {
        &&& acceptable(self.question, self.options)
        &&& self.answers.len() == self.options.len()
        &&& (self.updated_at matches Some(at) ==> at >= self.created_at)
    }

    /// The number of votes for `label`, which is meant to be an option.
    pub open spec fn count_of(self, label: Seq<char>) -> u32 {
        self.answers[self.options.index_of(label)]
    }

    /// The tally: the votes for each option, by its label.
    pub open spec fn tally(self) -> Map<Seq<char>, u32> {
        Map::new(|label: Seq<char>| self.options.contains(label), |label: Seq<char>| self.count_of(label))
    }

    /// Whether a vote for `label` is in order: the label is not empty and is an option.
    pub open spec fn accepts(self, label: Seq<char>) -> bool {
        label.len() > 0 && self.options.contains(label)
    }

    /// Whether `caller` may change or delete the record: it has no author, or the
    /// caller is the author.
    pub open spec fn may_change(self, caller: Seq<char>) -> bool {
        self.author matches Some(author) ==> author == caller
    }

    /// The record as it is created: no votes, no update.
    pub open spec fn created(
        id: u64,
        author: Option<Seq<char>>,
        question: Seq<char>,
        options: Seq<Seq<char>>,
        now: u64,
    ) -> QuizView {
        QuizView {
            id,
            author,
            question,
            options,
            answers: Seq::new(options.len(), |i: int| 0u32),
            created_at: now,
            updated_at: None,
        }
    }

    /// The record after an edit at `now`: a new question and new options, every
    /// counter back at zero.
    pub open spec fn edited(self, question: Seq<char>, options: Seq<Seq<char>>, now: u64) -> QuizView {
        QuizView {
            id: self.id,
            author: self.author,
            question,
            options,
            answers: Seq::new(options.len(), |i: int| 0u32),
            created_at: self.created_at,
            updated_at: Some(later(now, self.created_at)),
        }
    }

    /// Whether the record is as an edit to `question` and `options` at `now` leaves
    /// one: every field that an edit sets has the value that it sets.
    pub open spec fn is_edit(self, question: Seq<char>, options: Seq<Seq<char>>, now: u64) -> bool {
        self == self.edited(question, options, now)
    }

    /// Whether the record is as a vote for `label` at `now` leaves one: the label
    /// is an option with at least one vote, and the update bears that time.
    pub open spec fn is_vote(self, label: Seq<char>, now: u64) -> bool {
        &&& self.accepts(label)
        &&& self.count_of(label) >= 1
        &&& self.updated_at == Some(later(now, self.created_at))
    }

    /// The record after one vote for `label` at `now`.
    pub open spec fn voted(self, label: Seq<char>, now: u64) -> QuizView {
        let at = self.options.index_of(label);
        QuizView {
            id: self.id,
            author: self.author,
            question: self.question,
            options: self.options,
            answers: self.answers.update(at, (self.answers[at] + 1) as u32),
            created_at: self.created_at,
            updated_at: Some(later(now, self.created_at)),
        }
    }
}

/// What a caller offers to create or to edit a quiz.
#[derive(Debug, Clone, PartialEq, Eq, Default)]
pub struct QuizPayload {
    pub question: String,
    pub options: Vec<String>,
}

/// A quiz record.
#[derive(Debug, Clone, PartialEq, Eq)]
pub struct Quiz {
    /// The identifier, which never changes.
    pub id: u64,
    /// Who created the record, if that is kept.
    pub author: Option<String>,
    pub question: String,
    /// The labels that can be voted for, in the order they were given.
    pub options: Vec<String>,
    /// The votes: `answers[i]` counts those for `options[i]`.
    pub answers: Vec<u32>,
    pub created_at: u64,
    /// The time of the last edit or vote, if there was any.
    pub updated_at: Option<u64>,
}

/// The text of an optional string.
pub open spec fn text_of(name: Option<String>) -> Option<Seq<char>> {
    match name {
        Some(s) => Some(s@),
        None => None,
    }
}

impl View for Quiz {
    type V = QuizView;

    open spec fn view(&self) -> QuizView {
        QuizView {
            id: self.id,
            author: text_of(self.author),
            question: self.question@,
            options: texts(self.options@),
            answers: self.answers@,
            created_at: self.created_at,
            updated_at: self.updated_at,
        }
    }
}

/// Whether no label occurs twice.
pub fn all_distinct(labels: &Vec<String>) -> (distinct: bool)
    ensures
        distinct == texts(labels@).no_duplicates(),
{
    let n = labels.len();
    let mut i: usize = 0;
    while i < n
        invariant
            i <= n,
            n == labels@.len(),
            forall|a: int, b: int| 0 <= a < b < i ==> texts(labels@)[a] != texts(labels@)[b],
        decreases n - i,
    {
        let mut j: usize = 0;
        while j < i
            invariant
                j <= i < n,
                n == labels@.len(),
                forall|a: int| 0 <= a < j ==> texts(labels@)[a] != texts(labels@)[i as int],
            decreases i - j,
        {
            if labels[j] == labels[i] {
                assert(texts(labels@)[j as int] == texts(labels@)[i as int]);
                return false;
            }
            j += 1;
        }
        i += 1;
    }
    true
}

/// The place of `label` among `labels`: the first index that holds it.
pub fn find_label(labels: &Vec<String>, label: &String) -> (found: Option<usize>)
    ensures
        found is Some == texts(labels@).contains(label@),
        found matches Some(at) ==> at < labels@.len() && texts(labels@)[at as int] == label@ && forall|
            k: int,
        | 0 <= k < at ==> texts(labels@)[k] != label@,
{
    let n = labels.len();
    let mut i: usize = 0;
    while i < n
        invariant
            i <= n,
            n == labels@.len(),
            forall|k: int| 0 <= k < i ==> texts(labels@)[k] != label@,
        decreases n - i,
    {
        if labels[i] == *label {
            assert(texts(labels@)[i as int] == label@);
            return Some(i);
        }
        i += 1;
    }
    None
}

/// As many zero counters as `n`.
fn zeros(n: usize) -> (counters: Vec<u32>)
    ensures
        counters@ == Seq::new(n as nat, |i: int| 0u32),
{
    let mut counters: Vec<u32> = Vec::new();
    let mut i: usize = 0;
    while i < n
        invariant
            i <= n,
            counters@ == Seq::new(i as nat, |k: int| 0u32),
        decreases n - i,
    {
        counters.push(0);
        i += 1;
        assert(counters@ =~= Seq::new(i as nat, |k: int| 0u32));
    }
    counters
}

impl QuizPayload {
    /// Whether the payload can make a quiz.
    pub open spec fn acceptable(self) -> bool {
        acceptable(self.question@, texts(self.options@))
    }

    /// Tests whether the payload can make a quiz.
    pub fn is_valid(&self) -> (valid: bool)
        ensures
            valid == self.acceptable(),
    {
        !self.question.as_str().is_empty() && self.options.len() >= 2 && all_distinct(&self.options)
    }
}

impl Quiz {
    /// A new record for `payload`, with no votes and no update.
    pub fn new(id: u64, author: Option<String>, payload: QuizPayload, now: u64) -> (quiz: Quiz)
        requires
            payload.acceptable(),
        ensures
            quiz@ == QuizView::created(id, text_of(author), payload.question@, texts(payload.options@), now),
            quiz@.wf(),
    {
        let answers = zeros(payload.options.len());
        Quiz {
            id,
            author,
            question: payload.question,
            options: payload.options,
            answers,
            created_at: now,
            updated_at: None,
        }
    }

    /// Tests the invariant of a record.
    pub fn is_valid(&self) -> (valid: bool)
        ensures
            valid == self@.wf(),
    {
        let ordered = match self.updated_at {
            Some(at) => at >= self.created_at,
            None => true,
        };
        ordered && !self.question.as_str().is_empty() && self.options.len() >= 2
            && self.answers.len() == self.options.len() && all_distinct(&self.options)
    }

    /// Whether `caller` may change or delete the record.
    pub fn may_change(&self, caller: &String) -> (allowed: bool)
        ensures
            allowed == self@.may_change(caller@),
    {
        match &self.author {
            Some(author) => *author == *caller,
            None => true,
        }
    }

    /// The votes for `label`, if it is an option.
    pub fn tally_of(&self, label: &String) -> (count: Option<u32>)
        requires
            self@.wf(),
        ensures
            count is Some == self@.tally().contains_key(label@),
            count matches Some(n) ==> n == self@.tally()[label@],
    {
        match find_label(&self.options, label) {
            Some(at) => {
                assert(self@.options.index_of(label@) == at);
                Some(self.answers[at])
            },
            None => None,
        }
    }

    /// Replaces the question and the options, and starts the tally again from zero.
    pub fn edit(&mut self, payload: QuizPayload, now: u64)
        requires
            payload.acceptable(),
        ensures
            final(self)@ == old(self)@.edited(payload.question@, texts(payload.options@), now),
            final(self)@.wf(),
    {
        let answers = zeros(payload.options.len());
        let at = if now >= self.created_at {
            now
        } else {
            self.created_at
        };
        self.question = payload.question;
        self.options = payload.options;
        self.answers = answers;
        self.updated_at = Some(at);
    }

    /// Casts one vote for `label`. A label that is empty or is no option is
    /// refused, and so is a vote that the counter cannot take; the record is then
    /// left as it was.
    pub fn vote(&mut self, label: &String, now: u64) -> (outcome: Result<(), Error>)
        requires
            old(self)@.wf(),
        ensures
            match outcome {
                Ok(_) => {
                    &&& old(self)@.accepts(label@)
                    &&& old(self)@.count_of(label@) < u32::MAX
                    &&& final(self)@ == old(self)@.voted(label@, now)
                    &&& final(self)@.wf()
                },
                Err(e) => {
                    &&& *final(self) == *old(self)
                    &&& if !old(self)@.accepts(label@) {
                        e is InvalidChoice && e.text() == invalid_choice_text(label@)
                    } else {
                        &&& old(self)@.count_of(label@) == u32::MAX
                        &&& e is StorageFault
                        &&& e.text() == full_tally_text(label@)
                    }
                },
            },
    {
        if label.as_str().is_empty() {
            return Err(Error::invalid_choice(label));
        }
        match find_label(&self.options, label) {
            None => Err(Error::invalid_choice(label)),
            Some(at) => {
                assert(self@.options.index_of(label@) == at);
                let count = self.answers[at];
                if count == u32::MAX {
                    return Err(Error::full_tally(label));
                }
                let stamp = if now >= self.created_at {
                    now
                } else {
                    self.created_at
                };
                self.answers.set(at, count + 1);
                self.updated_at = Some(stamp);
                Ok(())
            },
        }
    }
}

/// The tally in which every one of `options` has no votes.
pub open spec fn zero_tally(options: Seq<Seq<char>>) -> Map<Seq<char>, u32> {
    Map::new(|label: Seq<char>| options.contains(label), |label: Seq<char>| 0u32)
}

/// A record as it is created meets the invariant, has no votes for any of its
/// options, and has no time of update.
pub proof fn lemma_created_starts_at_zero(
    id: u64,
    author: Option<Seq<char>>,
    question: Seq<char>,
    options: Seq<Seq<char>>,
    now: u64,
)
    requires
        acceptable(question, options),
    ensures
        QuizView::created(id, author, question, options, now).wf(),
        QuizView::created(id, author, question, options, now).tally() == zero_tally(options),
        QuizView::created(id, author, question, options, now).updated_at is None,
{
    let quiz = QuizView::created(id, author, question, options, now);
    assert forall|label: Seq<char>| options.contains(label) implies quiz.count_of(label) == 0 by {
        let at = options.index_of(label);
        assert(0 <= at < options.len());
    }
    assert(quiz.tally() =~= zero_tally(options));
}

/// An edit sets the tally to zero for each of the new options, whatever the
/// votes were before, and leaves a record that meets the invariant.
pub proof fn lemma_edit_resets_tally(
    quiz: QuizView,
    question: Seq<char>,
    options: Seq<Seq<char>>,
    now: u64,
)
    requires
        acceptable(question, options),
    ensures
        quiz.edited(question, options, now).tally() == zero_tally(options),
        quiz.edited(question, options, now).wf(),
        quiz.edited(question, options, now).id == quiz.id,
        quiz.edited(question, options, now).created_at == quiz.created_at,
{
    let after = quiz.edited(question, options, now);
    assert forall|label: Seq<char>| options.contains(label) implies after.count_of(label) == 0 by {
        let at = options.index_of(label);
        assert(0 <= at < options.len());
    }
    assert(after.tally() =~= zero_tally(options));
}

/// A vote that is in order adds exactly one to the count of its label and leaves
/// every other count as it was; the record then has a time of update, which is
/// not before its creation.
pub proof fn lemma_vote_counts_once(quiz: QuizView, label: Seq<char>, now: u64)
    requires
        quiz.wf(),
        quiz.accepts(label),
        quiz.count_of(label) < u32::MAX,
    ensures
        quiz.voted(label, now).tally() == quiz.tally().insert(label, (quiz.count_of(label) + 1) as u32),
        quiz.voted(label, now).updated_at matches Some(at) && at >= quiz.created_at,
        quiz.voted(label, now).wf(),
{
    let after = quiz.voted(label, now);
    let at = quiz.options.index_of(label);
    assert(0 <= at < quiz.options.len() && quiz.options[at] == label);
    assert forall|other: Seq<char>| quiz.options.contains(other) implies after.count_of(other) == (if other
        == label {
        (quiz.count_of(label) + 1) as u32
    } else {
        quiz.count_of(other)
    }) by {
        let place = quiz.options.index_of(other);
        assert(0 <= place < quiz.options.len() && quiz.options[place] == other);
    }
    assert(after.tally() =~= quiz.tally().insert(label, (quiz.count_of(label) + 1) as u32));
}

} // verus!
