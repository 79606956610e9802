use vstd::prelude::*;
use vstd::seq_lib::group_filter_ensures;
use crate::errors::ApiError;
use crate::model::{AnswerRecord, ExamPaper, PaperResult, Question};
use crate::rng::draw_answer_delay;
use crate::text::{join_with, json_escaped, spec_join, spec_json_escaped};

verus! {

/// Whether the answer bank holds a record whose id equals this question
/// id exactly.
pub open spec fn bank_has(bank: Seq<AnswerRecord>, id: Seq<char>) -> bool {
    exists|j: int| 0 <= j < bank.len() && (#[trigger] bank[j]).id@ == id
}

/// The index of the first bank record whose id equals `id`; -1 when none
/// does.
pub open spec fn spec_first_match(bank: Seq<AnswerRecord>, id: Seq<char>) -> int
    decreases bank.len(),
{
    if bank.len() == 0 {
        -1
    } else if bank[0].id@ == id {
        0
    } else {
        let r = spec_first_match(bank.drop_first(), id);
        if r < 0 {
            -1
        } else {
            r + 1
        }
    }
}

proof fn lemma_first_match_at(bank: Seq<AnswerRecord>, id: Seq<char>, j: int)
    requires
        0 <= j < bank.len(),
        bank[j].id@ == id,
        forall|k: int| 0 <= k < j ==> (#[trigger] bank[k]).id@ != id,
    ensures
        spec_first_match(bank, id) == j,
    decreases bank.len(),
{
    if j > 0 {
        let d = bank.drop_first();
        assert forall|k: int| 0 <= k < j - 1 implies (#[trigger] d[k]).id@ != id by {
            assert(d[k] == bank[k + 1]);
        }
        assert(d[j - 1] == bank[j]);
        lemma_first_match_at(d, id, j - 1);
    }
}

/// Resolves a question id against the local answer bank: the index of the
/// first record whose id matches exactly, or a `Lookup` miss. The miss is
/// the one recoverable failure of the exam workflow: it skips the
/// question, it does not abort the run.
pub fn resolve_answer(bank: &Vec<AnswerRecord>, ques_id: &String) -> (r: Result<
    usize,
    ApiError,
>)
    ensures
        r is Ok <==> bank_has(bank@, ques_id@),
        r matches Ok(j) ==> j < bank@.len() && bank@[j as int].id@ == ques_id@ && (forall|k: int|
            0 <= k < j ==> (#[trigger] bank@[k]).id@ != ques_id@),
        r matches Err(e) ==> (e matches ApiError::Lookup { key } && key@ == ques_id@),
{
    let mut j: usize = 0;
    while j < bank.len()
        invariant
            j <= bank.len(),
            forall|k: int| 0 <= k < j ==> (#[trigger] bank@[k]).id@ != ques_id@,
        decreases bank.len() - j,
    {
        if bank[j].id.eq(ques_id) {
            return Ok(j);
        }
        j += 1;
    }
    Err(ApiError::Lookup { key: ques_id.clone() })
}

/// The answer options of a record, as character sequences.
pub open spec fn spec_options(rec: AnswerRecord) -> Seq<Seq<char>> {
    rec.answer@.map_values(|p: String| p@)
}

/// The single answer string submitted for a record: its options joined
/// with the full-width semicolon, order preserved.
pub open spec fn spec_joined_answer(rec: AnswerRecord) -> Seq<char> {
    spec_join(spec_options(rec), seq!['；'])
}

/// Joins a record's answer options with the full-width semicolon
/// separator into the single submitted answer string.
pub fn joined_answer(rec: &AnswerRecord) -> (r: String)
    ensures
        r@ == spec_joined_answer(*rec),
{
    let r = join_with(&rec.answer, "；");
    proof {
        reveal_strlit("；");
        assert("；"@ =~= seq!['；']);
        assert(rec.answer@.map_values(|p: String| p@) =~= spec_options(*rec));
    }
    r
}

/// The serialized `{"quesId": ..., "answer": ...}` JSON object passed as
/// the single answer parameter of an answer-save call.
pub open spec fn spec_answer_payload(q: Seq<char>, a: Seq<char>) -> Seq<char> {
    "{\"quesId\":\""@ + spec_json_escaped(q) + "\",\"answer\":\""@ + spec_json_escaped(a)
        + "\"}"@
}

/// Serializes the `{quesId, answer}` payload of an answer-save call.
pub fn answer_payload(ques_id: &String, answer: &String) -> (r: String)
    ensures
        r@ == spec_answer_payload(ques_id@, answer@),
{
    let mut r = String::new();
    r.append("{\"quesId\":\"");
    let eq = json_escaped(ques_id.as_str());
    r.append(eq.as_str());
    r.append("\",\"answer\":\"");
    let ea = json_escaped(answer.as_str());
    r.append(ea.as_str());
    r.append("\"}");
    proof {
        assert(r@ =~= spec_answer_payload(ques_id@, answer@));
    }
    r
}

/// One submission the exam workflow has decided to make: a question id
/// and the answer string that goes with it.
pub struct PlannedAnswer {
    pub ques_id: String,
    pub answer: String,
}

/// The number of questions eligible for submission under the score cap.
pub open spec fn spec_cap(score: int, total: int) -> int {
    if score < total {
        score
    } else {
        total
    }
}

/// The questions that receive a submission: the first `min(score, total)`
/// in server order, kept only when the bank knows them.
pub open spec fn spec_submitted_questions(
    questions: Seq<Question>,
    bank: Seq<AnswerRecord>,
    score: int,
) -> Seq<Question> {
    questions.take(spec_cap(score, questions.len() as int)).filter(
        |q: Question| bank_has(bank, q.ques_id@),
    )
}

/// What a correct submission plan looks like: one entry per submitted
/// question, in order, each carrying the joined answer of the first bank
/// record that matches its id.
pub open spec fn plan_ok(
    plan: Seq<PlannedAnswer>,
    questions: Seq<Question>,
    bank: Seq<AnswerRecord>,
    score: int,
) -> bool {
    let picked = spec_submitted_questions(questions, bank, score);
    &&& plan.len() == picked.len()
    &&& forall|i: int|
        0 <= i < plan.len() ==> {
            &&& (#[trigger] plan[i]).ques_id@ == picked[i].ques_id@
            &&& plan[i].answer@ == spec_joined_answer(
                bank[spec_first_match(bank, picked[i].ques_id@)],
            )
        }
}

/// Resolves the paper's questions against the answer bank under the score
/// cap: questions past the cap are skipped without a submission, a
/// question the bank does not know is skipped without aborting, and every
/// other question in the capped prefix gets exactly one planned
/// submission, in server order.
pub fn plan_answers(questions: &Vec<Question>, bank: &Vec<AnswerRecord>, score: u32) -> (r: Vec<
    PlannedAnswer,
>)
    ensures
        plan_ok(r@, questions@, bank@, score as int),
{
    let cap: usize = if (score as usize) < questions.len() {
        score as usize
    } else {
        questions.len()
    };
    let ghost pred = |q: Question| bank_has(bank@, q.ques_id@);
    let mut r: Vec<PlannedAnswer> = Vec::new();
    let mut i: usize = 0;
    while i < cap
        invariant
            i <= cap <= questions@.len(),
            cap == spec_cap(score as int, questions@.len() as int),
            pred == (|q: Question| bank_has(bank@, q.ques_id@)),
            r@.len() == questions@.take(i as int).filter(pred).len(),
            forall|k: int|
                0 <= k < r@.len() ==> {
                    &&& (#[trigger] r@[k]).ques_id@ == questions@.take(i as int).filter(pred)[k].ques_id@
                    &&& r@[k].answer@ == spec_joined_answer(
                        bank@[spec_first_match(
                            bank@,
                            questions@.take(i as int).filter(pred)[k].ques_id@,
                        )],
                    )
                },
        decreases cap - i,
    {
        let ghost prev = questions@.take(i as int).filter(pred);
        match resolve_answer(bank, &questions[i].ques_id) {
            Ok(j) => {
                let ans = joined_answer(&bank[j]);
                let qid = questions[i].ques_id.clone();
                r.push(PlannedAnswer { ques_id: qid, answer: ans });
                proof {
                    lemma_first_match_at(bank@, questions@[i as int].ques_id@, j as int);
                }
            },
            Err(_) => {
            },
        }
        proof {
            assert(questions@.take(i + 1).drop_last() =~= questions@.take(i as int));
            assert(questions@.take(i + 1).last() == questions@[i as int]);
            reveal_with_fuel(Seq::filter, 2);
            assert(questions@.take(i + 1).filter(pred).len() == r@.len());
        }
        i += 1;
    }
    proof {
        assert(questions@.take(cap as int) == questions@.take(
            spec_cap(score as int, questions@.len() as int),
        ));
    }
    r
}

/// With every question in the capped prefix known to the bank, exactly
/// `min(score, total)` questions receive a submission.
pub proof fn lemma_plan_full_when_matched(
    questions: Seq<Question>,
    bank: Seq<AnswerRecord>,
    score: int,
)
    requires
        0 <= score,
        forall|i: int|
            0 <= i < spec_cap(score, questions.len() as int) ==> bank_has(
                bank,
                (#[trigger] questions[i]).ques_id@,
            ),
    ensures
        spec_submitted_questions(questions, bank, score).len() == spec_cap(
            score,
            questions.len() as int,
        ),
{
    let cap = spec_cap(score, questions.len() as int);
    let pre = questions.take(cap);
    assert forall|i: int| 0 <= i < pre.len() implies bank_has(
        bank,
        (#[trigger] pre[i]).ques_id@,
    ) by {
        assert(pre[i] == questions[i]);
    }
    lemma_filter_all_matched(pre, bank);
}

proof fn lemma_filter_all_matched(s: Seq<Question>, bank: Seq<AnswerRecord>)
    requires
        forall|i: int| 0 <= i < s.len() ==> bank_has(bank, (#[trigger] s[i]).ques_id@),
    ensures
        s.filter(|q: Question| bank_has(bank, q.ques_id@)) =~= s,
    decreases s.len(),
{
    reveal_with_fuel(Seq::filter, 2);
    if s.len() > 0 {
        let d = s.drop_last();
        assert forall|i: int| 0 <= i < d.len() implies bank_has(
            bank,
            (#[trigger] d[i]).ques_id@,
        ) by {
            assert(d[i] == s[i]);
        }
        lemma_filter_all_matched(d, bank);
        assert(bank_has(bank, s.last().ques_id@));
    }
}

/// A question in the capped prefix that the bank knows is never dropped:
/// it appears among the submitted questions even when other questions
/// around it are unknown.
pub proof fn lemma_plan_keeps_matched(
    questions: Seq<Question>,
    bank: Seq<AnswerRecord>,
    score: int,
    i: int,
)
    requires
        0 <= i < spec_cap(score, questions.len() as int),
        bank_has(bank, questions[i].ques_id@),
    ensures
        spec_submitted_questions(questions, bank, score).contains(questions[i]),
{
    broadcast use group_filter_ensures;

    let cap = spec_cap(score, questions.len() as int);
    let pre = questions.take(cap);
    assert(pre[i] == questions[i]);
    assert(bank_has(bank, pre[i].ques_id@));
    assert(pre.filter(|q: Question| bank_has(bank, q.ques_id@)).contains(pre[i]));
}

/// Where the exam workflow stands. The workflow is a strict sequence:
/// fetch the paper, submit the planned answers one by one, submit the
/// paper, let grading settle, read back the result. The first failure
/// aborts it for good.
pub enum ExamState {
    /// Waiting for the paper of the assessment course.
    FetchingPaper { score: u32, bank: Vec<AnswerRecord>, course_id: String },
    /// Submitting planned answers; `next` is the index of the answer to
    /// submit, or the plan length once the paper itself is to be
    /// submitted.
    Answering {
        course_id: String,
        paper_id: String,
        paper_stu_id: String,
        plan: Vec<PlannedAnswer>,
        next: usize,
    },
    /// Paper submitted; waiting out the grading settle delay before the
    /// result is read back.
    Settling { course_id: String },
    /// The graded result has been read back.
    Finished { result: PaperResult },
    /// A call failed; the workflow makes no further calls.
    Aborted { err: ApiError },
}

/// What the driver reports back to the exam workflow after carrying out
/// its latest action.
pub enum ExamEvent {
    /// The paper fetch succeeded.
    Paper { paper: ExamPaper },
    /// One answer-save call succeeded.
    AnswerSaved,
    /// The paper-submit call succeeded.
    PaperSubmitted,
    /// The read-back of the most recent graded attempt succeeded.
    ResultInfo { result: PaperResult },
    /// The call failed: a transport error, or a response of the wrong
    /// shape.
    Failed { err: ApiError },
}

/// What the exam workflow asks its driver to do next.
pub enum ExamAction {
    /// Fetch the student's paper for this course.
    FetchPaper { course_id: String },
    /// Save one answer, then pause `delay_secs` seconds before the next
    /// submission.
    SubmitAnswer {
        paper_stu_id: String,
        paper_id: String,
        ques_id: String,
        answer_json: String,
        delay_secs: u64,
    },
    /// Finalize the attempt.
    SubmitPaper { paper_stu_id: String, paper_id: String },
    /// Pause `settle_secs` seconds for grading, then fetch the course's
    /// paper info, whose first element is the most recent attempt.
    FetchResult { course_id: String, settle_secs: u64 },
    /// Report the graded result; the workflow is complete.
    Report { result: PaperResult },
    /// Report the failure; the workflow makes no further calls.
    Fail { err: ApiError },
}

/// Starts the exam workflow for the given assessment course, answer bank
/// and score cap.
pub fn exam_begin(course_id: String, bank: Vec<AnswerRecord>, score: u32) -> (s: ExamState)
    ensures
        s == (ExamState::FetchingPaper { score, bank, course_id }),
{
    ExamState::FetchingPaper { score, bank, course_id }
}

/// How the exam workflow state moves on an event.
pub open spec fn exam_step_ok(s: ExamState, e: ExamEvent, r: ExamState) -> bool {
    match s {
        ExamState::Finished { .. } => r == s,
        ExamState::Aborted { .. } => r == s,
        _ => match e {
            ExamEvent::Failed { err } => r == (ExamState::Aborted { err }),
            _ => match s {
                ExamState::FetchingPaper { score, bank, course_id } => match e {
                    ExamEvent::Paper { paper } => {
                        &&& r matches ExamState::Answering {
                            course_id: c,
                            paper_id,
                            paper_stu_id,
                            plan,
                            next,
                        }
                        &&& c == course_id
                        &&& paper_id == paper.paper_id
                        &&& paper_stu_id == paper.paper_stu_id
                        &&& next == 0
                        &&& plan_ok(plan@, paper.questions@, bank@, score as int)
                    },
                    _ => r == (ExamState::Aborted { err: ApiError::Protocol }),
                },
                ExamState::Answering { course_id, paper_id, paper_stu_id, plan, next } => match e {
                    ExamEvent::AnswerSaved => if next < plan.len() {
                        r == (ExamState::Answering {
                            course_id,
                            paper_id,
                            paper_stu_id,
                            plan,
                            next: (next + 1) as usize,
                        })
                    } else {
                        r == (ExamState::Aborted { err: ApiError::Protocol })
                    },
                    ExamEvent::PaperSubmitted => if next == plan.len() {
                        r == (ExamState::Settling { course_id })
                    } else {
                        r == (ExamState::Aborted { err: ApiError::Protocol })
                    },
                    _ => r == (ExamState::Aborted { err: ApiError::Protocol }),
                },
                ExamState::Settling { course_id } => match e {
                    ExamEvent::ResultInfo { result } => r == (ExamState::Finished { result }),
                    _ => r == (ExamState::Aborted { err: ApiError::Protocol }),
                },
                _ => false,
            },
        },
    }
}

/// Advances the exam workflow on the outcome of its latest action.
pub fn exam_step(s: ExamState, e: ExamEvent) -> (r: ExamState)
    ensures
        exam_step_ok(s, e, r),
{
    match s {
        ExamState::Finished { result } => ExamState::Finished { result },
        ExamState::Aborted { err } => ExamState::Aborted { err },
        ExamState::FetchingPaper { score, bank, course_id } => match e {
            ExamEvent::Failed { err } => ExamState::Aborted { err },
            ExamEvent::Paper { paper } => {
                let plan = plan_answers(&paper.questions, &bank, score);
                ExamState::Answering {
                    course_id,
                    paper_id: paper.paper_id,
                    paper_stu_id: paper.paper_stu_id,
                    plan,
                    next: 0,
                }
            },
            _ => ExamState::Aborted { err: ApiError::Protocol },
        },
        ExamState::Answering { course_id, paper_id, paper_stu_id, plan, next } => match e {
            ExamEvent::Failed { err } => ExamState::Aborted { err },
            ExamEvent::AnswerSaved => if next < plan.len() {
                ExamState::Answering { course_id, paper_id, paper_stu_id, plan, next: next + 1 }
            } else {
                ExamState::Aborted { err: ApiError::Protocol }
            },
            ExamEvent::PaperSubmitted => if next == plan.len() {
                ExamState::Settling { course_id }
            } else {
                ExamState::Aborted { err: ApiError::Protocol }
            },
            _ => ExamState::Aborted { err: ApiError::Protocol },
        },
        ExamState::Settling { course_id } => match e {
            ExamEvent::Failed { err } => ExamState::Aborted { err },
            ExamEvent::ResultInfo { result } => ExamState::Finished { result },
            _ => ExamState::Aborted { err: ApiError::Protocol },
        },
    }
}

/// What a correct next action looks like in each state.
pub open spec fn exam_action_ok(s: ExamState, a: ExamAction) -> bool {
    match s {
        ExamState::FetchingPaper { course_id, .. } => {
            &&& a matches ExamAction::FetchPaper { course_id: c }
            &&& c == course_id
        },
        ExamState::Answering { course_id, paper_id, paper_stu_id, plan, next } => if next
            < plan.len() {
            &&& a matches ExamAction::SubmitAnswer {
                paper_stu_id: ps,
                paper_id: pi,
                ques_id: q,
                answer_json: aj,
                delay_secs: d,
            }
            &&& ps == paper_stu_id
            &&& pi == paper_id
            &&& q == plan[next as int].ques_id
            &&& aj@ == spec_answer_payload(plan[next as int].ques_id@, plan[next as int].answer@)
            &&& 5 <= d < 10
        } else {
            &&& a matches ExamAction::SubmitPaper { paper_stu_id: ps, paper_id: pi }
            &&& ps == paper_stu_id
            &&& pi == paper_id
        },
        ExamState::Settling { course_id } => {
            &&& a matches ExamAction::FetchResult { course_id: c, settle_secs }
            &&& c == course_id
            &&& settle_secs == 3
        },
        ExamState::Finished { result } => {
            &&& a matches ExamAction::Report { result: rr }
            &&& rr == result
        },
        ExamState::Aborted { err } => {
            &&& a matches ExamAction::Fail { err: e2 }
            &&& e2 == err
        },
    }
}

/// The next action of the exam workflow in its current state. Each
/// answer submission carries a fresh randomized pause of 5 to 9 seconds;
/// the result read-back carries the fixed 3 second grading settle delay.
pub fn exam_action(s: &ExamState) -> (a: ExamAction)
    ensures
        exam_action_ok(*s, a),
{
    match s {
        ExamState::FetchingPaper { course_id, .. } => ExamAction::FetchPaper {
            course_id: course_id.clone(),
        },
        ExamState::Answering { course_id, paper_id, paper_stu_id, plan, next } => if *next
            < plan.len() {
            let entry = &plan[*next];
            ExamAction::SubmitAnswer {
                paper_stu_id: paper_stu_id.clone(),
                paper_id: paper_id.clone(),
                ques_id: entry.ques_id.clone(),
                answer_json: answer_payload(&entry.ques_id, &entry.answer),
                delay_secs: draw_answer_delay(),
            }
        } else {
            ExamAction::SubmitPaper {
                paper_stu_id: paper_stu_id.clone(),
                paper_id: paper_id.clone(),
            }
        },
        ExamState::Settling { course_id } => ExamAction::FetchResult {
            course_id: course_id.clone(),
            settle_secs: 3,
        },
        ExamState::Finished { result } => ExamAction::Report { result: result.dup() },
        ExamState::Aborted { err } => ExamAction::Fail { err: err.dup() },
    }
}

/// A failed exchange aborts the exam workflow with exactly that error.
pub proof fn lemma_exam_failure_aborts(s: ExamState, err: ApiError, r: ExamState)
    requires
        !(s matches ExamState::Finished { .. }),
        !(s matches ExamState::Aborted { .. }),
        exam_step_ok(s, ExamEvent::Failed { err }, r),
    ensures
        r == (ExamState::Aborted { err }),
{
}

/// Once aborted, the exam workflow stays aborted whatever else arrives,
/// and its only remaining action is to report the failure: it performs no
/// further calls.
pub proof fn lemma_exam_aborted_absorbing(err: ApiError, e: ExamEvent, r: ExamState, a: ExamAction)
    requires
        exam_step_ok(ExamState::Aborted { err }, e, r),
        exam_action_ok(ExamState::Aborted { err }, a),
    ensures
        r == (ExamState::Aborted { err }),
        a == (ExamAction::Fail { err }),
{
}

} // verus!
