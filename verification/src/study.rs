use vstd::prelude::*;
use crate::errors::ApiError;
use crate::model::{Cell, ModuleEntry, ModuleInfo, StudyTimerSummary};
use crate::rng::draw_duration;

verus! {

/// The ids of the cells eligible for time accrual: those with a
/// non-empty document id, in list order. Cells without document content
/// are not trackable and are skipped silently.
pub open spec fn spec_accrual_ids(cells: Seq<Cell>) -> Seq<String> {
    cells.filter(|c: Cell| c.is_trackable()).map_values(|c: Cell| c.id)
}

/// Filters a module's cells down to the ids that take part in time
/// accrual, keeping list order.
pub fn accrual_cells(cells: &Vec<Cell>) -> (r: Vec<String>)
    ensures
        r@ == spec_accrual_ids(cells@),
{
    let ghost pred = |c: Cell| c.is_trackable();
    let mut r: Vec<String> = Vec::new();
    let mut i: usize = 0;
    while i < cells.len()
        invariant
            i <= cells.len(),
            pred == (|c: Cell| c.is_trackable()),
            r@ == cells@.take(i as int).filter(pred).map_values(|c: Cell| c.id),
        decreases cells.len() - i,
    {
        if cells[i].has_document() {
            r.push(cells[i].id.clone());
        }
        proof {
            assert(cells@.take(i + 1).drop_last() =~= cells@.take(i as int));
            assert(cells@.take(i + 1).last() == cells@[i as int]);
            reveal_with_fuel(Seq::filter, 2);
            assert(r@ =~= cells@.take(i + 1).filter(pred).map_values(|c: Cell| c.id));
        }
        i += 1;
    }
    proof {
        assert(cells@.take(cells@.len() as int) =~= cells@);
    }
    r
}

/// Where the study workflow stands. The workflow is a strict sequential
/// batch: fetch the module list, enroll in the first module, fetch its
/// cells, report one simulated duration per trackable cell in order, then
/// read back the study-timer summary. The first failure aborts it.
pub enum StudyState {
    /// Waiting for the user's module list.
    FetchingModules { hours: u32 },
    /// Waiting for the (idempotent) enrollment into the first module.
    Enrolling { hours: u32, module_id: String },
    /// Waiting for the module's full description.
    FetchingInfo { hours: u32, module_id: String },
    /// Reporting per-cell durations; `next` is the index of the cell to
    /// report, or the cell count once the summary is to be fetched.
    Accruing {
        hours: u32,
        module_id: String,
        course_id: String,
        cells: Vec<String>,
        next: usize,
    },
    /// The study-timer summary has been read back.
    Finished { summary: StudyTimerSummary },
    /// A call failed; the workflow makes no further calls.
    Aborted { err: ApiError },
}

/// What the driver reports back to the study workflow after carrying out
/// its latest action.
pub enum StudyEvent {
    /// The module-list fetch succeeded.
    ModuleList { modules: Vec<ModuleEntry> },
    /// The enrollment call succeeded.
    Enrolled,
    /// The module-info fetch succeeded.
    ModuleDetail { info: ModuleInfo },
    /// One time-accrual call succeeded.
    TimeRecorded,
    /// The summary fetch succeeded.
    Summary { summary: StudyTimerSummary },
    /// The call failed: a transport error, or a response of the wrong
    /// shape.
    Failed { err: ApiError },
}

/// What the study workflow asks its driver to do next.
pub enum StudyAction {
    /// Fetch the user's module list.
    FetchModuleList,
    /// Enroll in (or confirm enrollment in) this module.
    Enroll { module_id: String },
    /// Fetch the module's cells and course id.
    FetchModuleInfo { module_id: String },
    /// Report one cell's simulated watch duration, in seconds; the same
    /// duration value goes into both duration parameters of the call.
    RecordTime { module_id: String, course_id: String, cell_id: String, duration: u64 },
    /// Fetch the cumulative study-timer summary.
    FetchSummary,
    /// Report the summary; the workflow is complete.
    Report { summary: StudyTimerSummary },
    /// Report the failure; the workflow makes no further calls.
    Fail { err: ApiError },
}

/// Starts the study workflow for an hours-equivalent target.
pub fn study_begin(hours: u32) -> (s: StudyState)
    ensures
        s == (StudyState::FetchingModules { hours }),
{
    StudyState::FetchingModules { hours }
}

/// How the study workflow state moves on an event. The first module of
/// the list is the one studied; an empty module list is a response of the
/// wrong shape. Everything but the accrual cell vector is fixed exactly;
/// the cell vector's view is the accrual id sequence of the fetched
/// cells.
pub open spec fn study_step_ok(s: StudyState, e: StudyEvent, r: StudyState) -> bool {
    match s {
        StudyState::Finished { .. } => r == s,
        StudyState::Aborted { .. } => r == s,
        _ => match e {
            StudyEvent::Failed { err } => r == (StudyState::Aborted { err }),
            _ => match s {
                StudyState::FetchingModules { hours } => match e {
                    StudyEvent::ModuleList { modules } => if modules@.len() == 0 {
                        r == (StudyState::Aborted { err: ApiError::Protocol })
                    } else {
                        r == (StudyState::Enrolling { hours, module_id: modules@[0].id })
                    },
                    _ => r == (StudyState::Aborted { err: ApiError::Protocol }),
                },
                StudyState::Enrolling { hours, module_id } => match e {
                    StudyEvent::Enrolled => r == (StudyState::FetchingInfo { hours, module_id }),
                    _ => r == (StudyState::Aborted { err: ApiError::Protocol }),
                },
                StudyState::FetchingInfo { hours, module_id } => match e {
                    StudyEvent::ModuleDetail { info } => {
                        &&& r matches StudyState::Accruing {
                            hours: h,
                            module_id: m,
                            course_id: c,
                            cells,
                            next,
                        }
                        &&& h == hours
                        &&& m == module_id
                        &&& c == info.course_open_id
                        &&& cells@ == spec_accrual_ids(info.cells@)
                        &&& next == 0
                    },
                    _ => r == (StudyState::Aborted { err: ApiError::Protocol }),
                },
                StudyState::Accruing { hours, module_id, course_id, cells, next } => match e {
                    StudyEvent::TimeRecorded => if next < cells@.len() {
                        r == (StudyState::Accruing {
                            hours,
                            module_id,
                            course_id,
                            cells,
                            next: (next + 1) as usize,
                        })
                    } else {
                        r == (StudyState::Aborted { err: ApiError::Protocol })
                    },
                    StudyEvent::Summary { summary } => if next == cells@.len() {
                        r == (StudyState::Finished { summary })
                    } else {
                        r == (StudyState::Aborted { err: ApiError::Protocol })
                    },
                    _ => r == (StudyState::Aborted { err: ApiError::Protocol }),
                },
                _ => false,
            },
        },
    }
}

/// Advances the study workflow on the outcome of its latest action.
pub fn study_step(s: StudyState, e: StudyEvent) -> (r: StudyState)
    ensures
        study_step_ok(s, e, r),
{
    match s {
        StudyState::Finished { summary } => StudyState::Finished { summary },
        StudyState::Aborted { err } => StudyState::Aborted { err },
        StudyState::FetchingModules { hours } => match e {
            StudyEvent::Failed { err } => StudyState::Aborted { err },
            StudyEvent::ModuleList { mut modules } => if modules.len() == 0 {
                StudyState::Aborted { err: ApiError::Protocol }
            } else {
                let first = modules.remove(0);
                StudyState::Enrolling { hours, module_id: first.id }
            },
            _ => StudyState::Aborted { err: ApiError::Protocol },
        },
        StudyState::Enrolling { hours, module_id } => match e {
            StudyEvent::Failed { err } => StudyState::Aborted { err },
            StudyEvent::Enrolled => StudyState::FetchingInfo { hours, module_id },
            _ => StudyState::Aborted { err: ApiError::Protocol },
        },
        StudyState::FetchingInfo { hours, module_id } => match e {
            StudyEvent::Failed { err } => StudyState::Aborted { err },
            StudyEvent::ModuleDetail { info } => {
                let cells = accrual_cells(&info.cells);
                StudyState::Accruing {
                    hours,
                    module_id,
                    course_id: info.course_open_id,
                    cells,
                    next: 0,
                }
            },
            _ => StudyState::Aborted { err: ApiError::Protocol },
        },
        StudyState::Accruing { hours, module_id, course_id, cells, next } => match e {
            StudyEvent::Failed { err } => StudyState::Aborted { err },
            StudyEvent::TimeRecorded => if next < cells.len() {
                StudyState::Accruing { hours, module_id, course_id, cells, next: next + 1 }
            } else {
                StudyState::Aborted { err: ApiError::Protocol }
            },
            StudyEvent::Summary { summary } => if next == cells.len() {
                StudyState::Finished { summary }
            } else {
                StudyState::Aborted { err: ApiError::Protocol }
            },
            _ => StudyState::Aborted { err: ApiError::Protocol },
        },
    }
}

/// What a correct next action looks like in each state. A per-cell
/// duration is a fresh uniform draw from `[18 * hours, 18 * hours + 30)`
/// seconds, one draw per cell.
pub open spec fn study_action_ok(s: StudyState, a: StudyAction) -> bool {
    match s {
        StudyState::FetchingModules { .. } => a == StudyAction::FetchModuleList,
        StudyState::Enrolling { hours, module_id } => {
            &&& a matches StudyAction::Enroll { module_id: m }
            &&& m == module_id
        },
        StudyState::FetchingInfo { hours, module_id } => {
            &&& a matches StudyAction::FetchModuleInfo { module_id: m }
            &&& m == module_id
        },
        StudyState::Accruing { hours, module_id, course_id, cells, next } => if next
            < cells@.len() {
            &&& a matches StudyAction::RecordTime {
                module_id: m,
                course_id: c,
                cell_id: ci,
                duration,
            }
            &&& m == module_id
            &&& c == course_id
            &&& ci == cells@[next as int]
            &&& 18 * (hours as int) <= duration as int
            &&& (duration as int) < 18 * (hours as int) + 30
        } else {
            a == StudyAction::FetchSummary
        },
        StudyState::Finished { summary } => {
            &&& a matches StudyAction::Report { summary: su }
            &&& su == summary
        },
        StudyState::Aborted { err } => {
            &&& a matches StudyAction::Fail { err: e2 }
            &&& e2 == err
        },
    }
}

/// The next action of the study workflow in its current state.
pub fn study_action(s: &StudyState) -> (a: StudyAction)
    ensures
        study_action_ok(*s, a),
{
    match s {
        StudyState::FetchingModules { .. } => StudyAction::FetchModuleList,
        StudyState::Enrolling { module_id, .. } => StudyAction::Enroll {
            module_id: module_id.clone(),
        },
        StudyState::FetchingInfo { module_id, .. } => StudyAction::FetchModuleInfo {
            module_id: module_id.clone(),
        },
        StudyState::Accruing { hours, module_id, course_id, cells, next } => if *next
            < cells.len() {
            StudyAction::RecordTime {
                module_id: module_id.clone(),
                course_id: course_id.clone(),
                cell_id: cells[*next].clone(),
                duration: draw_duration(*hours),
            }
        } else {
            StudyAction::FetchSummary
        },
        StudyState::Finished { summary } => StudyAction::Report { summary: *summary },
        StudyState::Aborted { err } => StudyAction::Fail { err: err.dup() },
    }
}

/// A failed exchange aborts the study workflow with exactly that error.
pub proof fn lemma_study_failure_aborts(s: StudyState, err: ApiError, r: StudyState)
    requires
        !(s matches StudyState::Finished { .. }),
        !(s matches StudyState::Aborted { .. }),
        study_step_ok(s, StudyEvent::Failed { err }, r),
    ensures
        r == (StudyState::Aborted { err }),
{
}

/// Once aborted, the study workflow stays aborted whatever else arrives,
/// and its only remaining action is to report the failure: it performs no
/// further calls.
pub proof fn lemma_study_aborted_absorbing(err: ApiError, e: StudyEvent, r: StudyState, a: StudyAction)
    requires
        study_step_ok(StudyState::Aborted { err }, e, r),
        study_action_ok(StudyState::Aborted { err }, a),
    ensures
        r == (StudyState::Aborted { err }),
        a == (StudyAction::Fail { err }),
{
}

} // verus!
