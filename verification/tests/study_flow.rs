use safety_edu::errors::ApiError;
use safety_edu::model::{Cell, ModuleEntry, ModuleInfo, StudyTimerSummary};
use safety_edu::rng::draw_duration;
use safety_edu::study::{
    accrual_cells, study_action, study_begin, study_step, StudyAction, StudyEvent, StudyState,
};

fn cell(id: &str, doc_id: &str) -> Cell {
    Cell { id: String::from(id), doc_id: String::from(doc_id) }
}

fn summary() -> StudyTimerSummary {
    StudyTimerSummary {
        cumulative_study_timer: 3661,
        cumulative_study_count: 7,
        cumulative_study_course: 2,
    }
}

#[test]
fn cells_without_document_are_excluded() {
    let cells = vec![
        cell("c1", ""),
        cell("c2", "doc-a"),
        cell("c3", ""),
        cell("c4", "doc-b"),
    ];
    let ids = accrual_cells(&cells);
    assert_eq!(ids, vec![String::from("c2"), String::from("c4")]);
}

#[test]
fn all_cells_without_documents_mean_no_accrual() {
    let cells = vec![cell("c1", ""), cell("c2", "")];
    assert_eq!(accrual_cells(&cells).len(), 0);
}

#[test]
fn durations_lie_in_the_hours_scaled_window() {
    for _ in 0..50 {
        let d = draw_duration(6);
        assert!((108..138).contains(&d));
    }
    for _ in 0..50 {
        let d = draw_duration(0);
        assert!(d < 30);
    }
}

#[test]
fn study_scenario_walks_trackable_cells_in_order() {
    let mut state = study_begin(6);
    assert!(matches!(study_action(&state), StudyAction::FetchModuleList));
    state = study_step(
        state,
        StudyEvent::ModuleList { modules: vec![ModuleEntry { id: String::from("m1") }] },
    );

    match study_action(&state) {
        StudyAction::Enroll { module_id } => assert_eq!(module_id, "m1"),
        _ => panic!("expected the enrollment call"),
    }
    state = study_step(state, StudyEvent::Enrolled);

    match study_action(&state) {
        StudyAction::FetchModuleInfo { module_id } => assert_eq!(module_id, "m1"),
        _ => panic!("expected the module-info fetch"),
    }
    let info = ModuleInfo {
        course_open_id: String::from("course-7"),
        cells: vec![cell("c1", ""), cell("c2", "doc"), cell("c3", "doc")],
    };
    state = study_step(state, StudyEvent::ModuleDetail { info });

    let mut reported: Vec<String> = Vec::new();
    loop {
        match study_action(&state) {
            StudyAction::RecordTime { module_id, course_id, cell_id, duration } => {
                assert_eq!(module_id, "m1");
                assert_eq!(course_id, "course-7");
                assert!((108..138).contains(&duration));
                reported.push(cell_id);
                state = study_step(state, StudyEvent::TimeRecorded);
            }
            StudyAction::FetchSummary => break,
            _ => panic!("unexpected action while accruing"),
        }
    }
    // the cell without a document was skipped; order is preserved
    assert_eq!(reported, vec![String::from("c2"), String::from("c3")]);

    state = study_step(state, StudyEvent::Summary { summary: summary() });
    match study_action(&state) {
        StudyAction::Report { summary } => {
            assert_eq!(summary.cumulative_study_timer, 3661);
            assert_eq!(summary.cumulative_study_count, 7);
            assert_eq!(summary.cumulative_study_course, 2);
        }
        _ => panic!("expected the summary report"),
    }
}

#[test]
fn study_empty_module_list_is_a_protocol_error() {
    let state = study_begin(6);
    let state = study_step(state, StudyEvent::ModuleList { modules: Vec::new() });
    assert!(matches!(
        study_action(&state),
        StudyAction::Fail { err: ApiError::Protocol }
    ));
}

#[test]
fn study_transport_failure_aborts_and_stays_aborted() {
    let mut state = study_begin(6);
    state = study_step(
        state,
        StudyEvent::Failed { err: ApiError::Transport { status: 500 } },
    );
    match study_action(&state) {
        StudyAction::Fail { err: ApiError::Transport { status } } => assert_eq!(status, 500),
        _ => panic!("expected the workflow to abort"),
    }
    state = study_step(state, StudyEvent::Enrolled);
    match state {
        StudyState::Aborted { err: ApiError::Transport { status } } => assert_eq!(status, 500),
        _ => panic!("expected the aborted state to be absorbing"),
    }
}

#[test]
fn summary_timer_splits_for_display() {
    let s = summary();
    assert_eq!(s.timer_hms(), (1, 1, 1));
}
