use vstd::prelude::*;
use vstd::arithmetic::div_mod::{lemma_fundamental_div_mod, lemma_mod_bound};

verus! {

/// One school in the remote directory.
pub struct School {
    pub id: String,
    pub name: String,
}

impl School {
    /// A value-equal copy of this entry.
    pub fn dup(&self) -> (r: School)
        ensures
            r == *self,
    {
        School { id: self.id.clone(), name: self.name.clone() }
    }
}

/// One entry of the user's module list; only its identifier is consumed.
pub struct ModuleEntry {
    pub id: String,
}

/// One unit of study content inside a module. Only cells with an
/// associated document (a non-empty document id) are trackable.
pub struct Cell {
    pub id: String,
    pub doc_id: String,
}

impl Cell {
    /// Whether this cell carries document content and so takes part in
    /// time accrual.
    pub open spec fn is_trackable(&self) -> bool {
        self.doc_id@.len() > 0
    }

    /// Whether this cell carries document content.
    pub fn has_document(&self) -> (r: bool)
        ensures
            r == self.is_trackable(),
    {
        !self.doc_id.as_str().is_empty()
    }
}

/// The full description of a module: the course it opens and its cells.
pub struct ModuleInfo {
    pub course_open_id: String,
    pub cells: Vec<Cell>,
}

/// The kind of an exam question.
#[derive(PartialEq, Eq, Structural, Clone, Copy, Debug)]
pub enum QuestionKind {
    Single,
    Multiple,
    Judgment,
}

/// One question of an exam paper, identified by an opaque server string.
pub struct Question {
    pub ques_id: String,
    pub kind: QuestionKind,
}

/// One attempt-scoped exam instance. `paper_id` and `paper_stu_id` scope
/// the attempt and are threaded unchanged through every related call.
pub struct ExamPaper {
    pub paper_id: String,
    pub paper_stu_id: String,
    pub paper_name: String,
    pub questions: Vec<Question>,
}

/// One entry of the local answer bank: the known answer options and
/// display text for the question whose id matches `id` exactly.
pub struct AnswerRecord {
    pub id: String,
    pub kind: String,
    pub content: String,
    pub answer: Vec<String>,
}

/// Aggregate study counters reported by the server; consumed, never
/// computed locally.
#[derive(Clone, Copy)]
pub struct StudyTimerSummary {
    pub cumulative_study_timer: u64,
    pub cumulative_study_count: u64,
    pub cumulative_study_course: u64,
}

impl StudyTimerSummary {
    /// The cumulative study time split into whole hours, minutes and
    /// seconds for display.
    pub fn timer_hms(&self) -> (r: (u64, u64, u64))
        ensures
            r.0 * 3600 + r.1 * 60 + r.2 == self.cumulative_study_timer,
            r.1 < 60,
            r.2 < 60,
    {
        split_hms(self.cumulative_study_timer)
    }
}

/// Splits a number of seconds into whole hours, minutes and seconds.
pub fn split_hms(total: u64) -> (r: (u64, u64, u64))
    ensures
        r.0 * 3600 + r.1 * 60 + r.2 == total,
        r.1 < 60,
        r.2 < 60,
{
    let h = total / 3600;
    let rest = total % 3600;
    let m = rest / 60;
    let s = rest % 60;
    proof {
        lemma_fundamental_div_mod(total as int, 3600);
        lemma_mod_bound(total as int, 3600);
        lemma_fundamental_div_mod(rest as int, 60);
        lemma_mod_bound(rest as int, 60);
        assert(rest < 3600);
        assert(m < 60) by {
            if rest as int / 60 >= 60 {
                assert(rest >= 60 * (rest as int / 60));
            }
        };
    }
    (h, m, s)
}

/// The most recent graded attempt, as read back from the paper-info list.
pub struct PaperResult {
    pub answer_time: String,
    pub total_score: String,
}

impl PaperResult {
    /// A value-equal copy of this result.
    pub fn dup(&self) -> (r: PaperResult)
        ensures
            r == *self,
    {
        PaperResult { answer_time: self.answer_time.clone(), total_score: self.total_score.clone() }
    }
}

} // verus!
