use safety_edu::errors::ApiError;
use safety_edu::exam::{
    answer_payload, exam_action, exam_begin, exam_step, joined_answer, plan_answers,
    resolve_answer, ExamAction, ExamEvent, ExamState,
};
use safety_edu::model::{AnswerRecord, ExamPaper, PaperResult, Question, QuestionKind};
use safety_edu::rng::draw_answer_delay;

fn question(id: &str) -> Question {
    Question { ques_id: String::from(id), kind: QuestionKind::Single }
}

fn record(id: &str, answer: &[&str]) -> AnswerRecord {
    AnswerRecord {
        id: String::from(id),
        kind: String::from("single"),
        content: String::from("text"),
        answer: answer.iter().map(|a| String::from(*a)).collect(),
    }
}

fn paper(ids: &[&str]) -> ExamPaper {
    ExamPaper {
        paper_id: String::from("P"),
        paper_stu_id: String::from("PS"),
        paper_name: String::from("assessment"),
        questions: ids.iter().map(|i| question(i)).collect(),
    }
}

#[test]
fn joined_answer_uses_fullwidth_semicolon() {
    let rec = record("Q1", &["A", "C"]);
    assert_eq!(joined_answer(&rec), "A；C");
    let one = record("Q1", &["B"]);
    assert_eq!(joined_answer(&one), "B");
    let none = record("Q1", &[]);
    assert_eq!(joined_answer(&none), "");
}

#[test]
fn answer_bank_round_trip() {
    let bank = vec![record("Q1", &["A"])];
    assert_eq!(resolve_answer(&bank, &String::from("Q1")).unwrap(), 0);
    match resolve_answer(&bank, &String::from("Q2")) {
        Err(ApiError::Lookup { key }) => assert_eq!(key, "Q2"),
        _ => panic!("expected a lookup miss"),
    }
}

#[test]
fn resolve_answer_takes_first_exact_match() {
    let bank = vec![record("Q2", &["A"]), record("Q1", &["B"]), record("Q1", &["C"])];
    assert_eq!(resolve_answer(&bank, &String::from("Q1")).unwrap(), 1);
}

#[test]
fn plan_respects_score_cap() {
    let bank = vec![record("q1", &["A"]), record("q2", &["B"]), record("q3", &["C"])];
    let questions = vec![question("q1"), question("q2"), question("q3")];
    let plan = plan_answers(&questions, &bank, 2);
    assert_eq!(plan.len(), 2);
    assert_eq!(plan[0].ques_id, "q1");
    assert_eq!(plan[1].ques_id, "q2");
    let full = plan_answers(&questions, &bank, 100);
    assert_eq!(full.len(), 3);
    let nothing = plan_answers(&questions, &bank, 0);
    assert_eq!(nothing.len(), 0);
}

#[test]
fn plan_skips_unknown_question_and_continues() {
    let bank = vec![record("q1", &["A"]), record("q3", &["C", "D"])];
    let questions = vec![question("q1"), question("q2"), question("q3")];
    let plan = plan_answers(&questions, &bank, 100);
    assert_eq!(plan.len(), 2);
    assert_eq!(plan[0].ques_id, "q1");
    assert_eq!(plan[1].ques_id, "q3");
    assert_eq!(plan[1].answer, "C；D");
}

#[test]
fn payload_is_exact_json() {
    let p = answer_payload(&String::from("q1"), &String::from("A；C"));
    assert_eq!(p, "{\"quesId\":\"q1\",\"answer\":\"A；C\"}");
}

#[test]
fn payload_escapes_quotes_and_backslashes() {
    let p = answer_payload(&String::from("q\"1"), &String::from("a\\b\nc"));
    assert_eq!(p, "{\"quesId\":\"q\\\"1\",\"answer\":\"a\\\\b\\nc\"}");
}

#[test]
fn payload_escapes_control_characters() {
    let p = answer_payload(&String::from("q"), &String::from("\u{1}"));
    assert_eq!(p, "{\"quesId\":\"q\",\"answer\":\"\\u0001\"}");
}

#[test]
fn answer_delay_is_between_5_and_9_seconds() {
    for _ in 0..50 {
        let d = draw_answer_delay();
        assert!((5..10).contains(&d));
    }
}

#[test]
fn exam_scenario_three_questions_score_two() {
    let bank = vec![record("q1", &["A"]), record("q2", &["B", "C"]), record("q3", &["D"])];
    let mut state = exam_begin(String::from("course-x"), bank, 2);

    match exam_action(&state) {
        ExamAction::FetchPaper { course_id } => assert_eq!(course_id, "course-x"),
        _ => panic!("expected a paper fetch"),
    }
    state = exam_step(state, ExamEvent::Paper { paper: paper(&["q1", "q2", "q3"]) });

    let mut submitted: Vec<String> = Vec::new();
    loop {
        match exam_action(&state) {
            ExamAction::SubmitAnswer { paper_stu_id, paper_id, ques_id, answer_json, delay_secs } => {
                assert_eq!(paper_stu_id, "PS");
                assert_eq!(paper_id, "P");
                assert!((5..10).contains(&delay_secs));
                assert!(answer_json.contains(&ques_id));
                submitted.push(ques_id);
                state = exam_step(state, ExamEvent::AnswerSaved);
            }
            ExamAction::SubmitPaper { paper_stu_id, paper_id } => {
                assert_eq!(paper_stu_id, "PS");
                assert_eq!(paper_id, "P");
                state = exam_step(state, ExamEvent::PaperSubmitted);
                break;
            }
            _ => panic!("unexpected action while answering"),
        }
    }
    // exactly min(score, total) = 2 submissions, in order; q3 never submitted
    assert_eq!(submitted, vec![String::from("q1"), String::from("q2")]);

    match exam_action(&state) {
        ExamAction::FetchResult { course_id, settle_secs } => {
            assert_eq!(course_id, "course-x");
            assert_eq!(settle_secs, 3);
        }
        _ => panic!("expected the result read-back"),
    }
    let result = PaperResult {
        answer_time: String::from("4m30s"),
        total_score: String::from("98"),
    };
    state = exam_step(state, ExamEvent::ResultInfo { result });
    match exam_action(&state) {
        ExamAction::Report { result } => {
            assert_eq!(result.answer_time, "4m30s");
            assert_eq!(result.total_score, "98");
        }
        _ => panic!("expected the final report"),
    }
}

#[test]
fn exam_transport_failure_aborts_and_stays_aborted() {
    let bank = vec![record("q1", &["A"])];
    let mut state = exam_begin(String::from("course-x"), bank, 100);
    state = exam_step(state, ExamEvent::Paper { paper: paper(&["q1"]) });
    state = exam_step(
        state,
        ExamEvent::Failed { err: ApiError::Transport { status: 502 } },
    );
    match exam_action(&state) {
        ExamAction::Fail { err: ApiError::Transport { status } } => assert_eq!(status, 502),
        _ => panic!("expected the workflow to abort"),
    }
    // whatever arrives later, no further call is requested
    state = exam_step(state, ExamEvent::AnswerSaved);
    assert!(matches!(exam_action(&state), ExamAction::Fail { .. }));
    match state {
        ExamState::Aborted { err: ApiError::Transport { status } } => assert_eq!(status, 502),
        _ => panic!("expected the aborted state to be absorbing"),
    }
}

#[test]
fn exam_unknown_question_does_not_abort_the_run() {
    let bank = vec![record("q1", &["A"]), record("q3", &["B"])];
    let mut state = exam_begin(String::from("c"), bank, 100);
    state = exam_step(state, ExamEvent::Paper { paper: paper(&["q1", "q2", "q3"]) });
    let mut submitted: Vec<String> = Vec::new();
    while let ExamAction::SubmitAnswer { ques_id, .. } = exam_action(&state) {
        submitted.push(ques_id);
        state = exam_step(state, ExamEvent::AnswerSaved);
    }
    assert_eq!(submitted, vec![String::from("q1"), String::from("q3")]);
}
