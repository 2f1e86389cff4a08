use crate::block::BlockType;
use crate::json::{json_pretty, pretty};
use crate::run::{inputs_view, lanes_view, traces_view, BlockExecution, BlockExecutionView, Run, TraceView};
use serde_json::Value;
use vstd::prelude::*;
use vstd::string::StringExecFns;

verus! {

/// Why a run or a block of it could not be inspected. Every variant says
/// that something asked for does not exist; a fault of the store is none
/// of them.
#[derive(Clone, Debug, PartialEq, Eq)]
pub enum InspectError {
    /// The latest run was asked for and no run was ever made.
    NeverExecuted,
    /// No run has the identifier.
    RunNotFound { run_id: String },
    /// The run's trace matrix has no entry for the block.
    BlockNotFound { block_type: BlockType, block_name: String, run_id: String },
}

/// What an [`InspectError`] holds, as a mathematical value.
pub ghost enum InspectErrorView {
    NeverExecuted,
    RunNotFound { run_id: Seq<char> },
    BlockNotFound { block_type: BlockType, block_name: Seq<char>, run_id: Seq<char> },
}

impl InspectErrorView {
    /// The text of the error; it names what was not found.
    pub open spec fn message(self) -> Seq<char> {
        match self {
            InspectErrorView::NeverExecuted => "No run found, the app was never executed"@,
            InspectErrorView::RunNotFound { run_id } => "Run with id "@ + run_id + " not found"@,
            InspectErrorView::BlockNotFound { block_type, block_name, run_id } => "Block `"@
                + block_type.rendered() + " "@ + block_name + "` not found in run `"@ + run_id + "`"@,
        }
    }
}

impl View for InspectError {
    type V = InspectErrorView;

    open spec fn view(&self) -> InspectErrorView {
        match self {
            InspectError::NeverExecuted => InspectErrorView::NeverExecuted,
            InspectError::RunNotFound { run_id } => InspectErrorView::RunNotFound { run_id: run_id@ },
            InspectError::BlockNotFound { block_type, block_name, run_id } => InspectErrorView::BlockNotFound {
                block_type: *block_type,
                block_name: block_name@,
                run_id: run_id@,
            },
        }
    }
}

impl InspectError {
    /// The text of the error.
    pub fn message(&self) -> (r: String)
        ensures
            r@ == self@.message(),
    {
        match self {
            InspectError::NeverExecuted => "No run found, the app was never executed".to_owned(),
            InspectError::RunNotFound { run_id } => {
                let mut text = "Run with id ".to_owned();
                text.append(run_id.as_str());
                text.append(" not found");
                text
            },
            InspectError::BlockNotFound { block_type, block_name, run_id } => {
                let mut text = "Block `".to_owned();
                let kind = block_type.to_string();
                text.append(kind.as_str());
                text.append(" ");
                text.append(block_name.as_str());
                text.append("` not found in run `");
                text.append(run_id.as_str());
                text.append("`");
                text
            },
        }
    }
}

/// What a lane has to show for its value.
#[derive(Clone, Debug, PartialEq, Eq)]
pub enum LaneValue {
    /// The execution returned no value.
    Absent,
    /// The value, pretty-printed.
    Rendered(String),
    /// The execution returned a value that the printer refused.
    Unrenderable,
}

/// What a [`LaneValue`] holds, as a mathematical value.
pub ghost enum LaneValueView {
    Absent,
    Rendered(Seq<char>),
    Unrenderable,
}

impl View for LaneValue {
    type V = LaneValueView;

    open spec fn view(&self) -> LaneValueView {
        match self {
            LaneValue::Absent => LaneValueView::Absent,
            LaneValue::Rendered(text) => LaneValueView::Rendered(text@),
            LaneValue::Unrenderable => LaneValueView::Unrenderable,
        }
    }
}

impl LaneValue {
    /// What a lane shows for a value, given what the printer made of it.
    pub fn from_rendering(rendering: Option<String>) -> (r: Self)
        ensures
            r@ == rendering_shown(
                match rendering {
                    Some(text) => Some(text@),
                    None => None,
                },
            ),
    {
        match rendering {
            Some(text) => LaneValue::Rendered(text),
            None => LaneValue::Unrenderable,
        }
    }
}

/// What a lane shows for a value of which the printer made `rendering`.
pub open spec fn rendering_shown(rendering: Option<Seq<char>>) -> LaneValueView {
    match rendering {
        Some(text) => LaneValueView::Rendered(text),
        None => LaneValueView::Unrenderable,
    }
}

/// What a lane shows for the value of its execution.
pub open spec fn value_shown(value: Option<Value>) -> LaneValueView {
    match value {
        Some(v) => rendering_shown(json_pretty(v)),
        None => LaneValueView::Absent,
    }
}

/// The report of one lane: where it stands among the inputs of the run and
/// among the lanes of its input, the value it returned, and the message of
/// its failure. A skipped lane has neither.
#[derive(Clone, Debug, PartialEq, Eq)]
pub struct LaneReport {
    pub input_idx: usize,
    pub input_count: usize,
    pub lane_idx: usize,
    pub lane_count: usize,
    pub value: LaneValue,
    pub error: Option<String>,
}

/// What a [`LaneReport`] holds, as a mathematical value.
pub ghost struct LaneReportView {
    pub input_idx: int,
    pub input_count: int,
    pub lane_idx: int,
    pub lane_count: int,
    pub value: LaneValueView,
    pub error: Option<Seq<char>>,
}

impl View for LaneReport {
    type V = LaneReportView;

    open spec fn view(&self) -> LaneReportView {
        LaneReportView {
            input_idx: self.input_idx as int,
            input_count: self.input_count as int,
            lane_idx: self.lane_idx as int,
            lane_count: self.lane_count as int,
            value: self.value@,
            error: match self.error {
                Some(e) => Some(e@),
                None => None,
            },
        }
    }
}

/// The views of a list of reports.
pub open spec fn report_views(reports: Seq<LaneReport>) -> Seq<LaneReportView> {
    reports.map_values(|r: LaneReport| r@)
}

/// The report of the execution `execution` on lane `lane_idx` of
/// `lane_count` of input `input_idx` of `input_count`.
pub open spec fn lane_report(
    execution: BlockExecutionView,
    input_idx: int,
    input_count: int,
    lane_idx: int,
    lane_count: int,
) -> LaneReportView {
    LaneReportView {
        input_idx,
        input_count,
        lane_idx,
        lane_count,
        value: value_shown(execution.value),
        error: execution.error,
    }
}

/// A skipped lane is reported with neither a value nor an error: it is no
/// failure.
pub proof fn skipped_lane_shows_nothing(
    execution: BlockExecution,
    input_idx: int,
    input_count: int,
    lane_idx: int,
    lane_count: int,
)
    requires
        execution.skipped(),
    ensures
        lane_report(execution@, input_idx, input_count, lane_idx, lane_count).value is Absent,
        lane_report(execution@, input_idx, input_count, lane_idx, lane_count).error is None,
{
}

/// The reports of the lanes of one input, in the order of the lanes.
pub open spec fn input_reports(lanes: Seq<BlockExecutionView>, input_idx: int, input_count: int) -> Seq<
    LaneReportView,
> {
    Seq::new(lanes.len(), |l: int| lane_report(lanes[l], input_idx, input_count, l, lanes.len() as int))
}

/// The reports of the first `upto` inputs of a block, input by input.
pub open spec fn block_reports(inputs: Seq<Seq<BlockExecutionView>>, upto: int) -> Seq<LaneReportView>
    decreases upto,
{
    if upto <= 0 {
        Seq::empty()
    } else {
        block_reports(inputs, upto - 1) + input_reports(inputs[upto - 1], upto - 1, inputs.len() as int)
    }
}

/// Whether an entry of a trace matrix is one of the block `name` of type
/// `block_type`.
pub open spec fn is_block(entry: TraceView, block_type: BlockType, name: Seq<char>) -> bool {
    entry.block_type == block_type && entry.name == name
}

/// Whether a trace matrix has an entry for the block.
pub open spec fn has_block(traces: Seq<TraceView>, block_type: BlockType, name: Seq<char>) -> bool {
    exists|k: int| 0 <= k < traces.len() && is_block(#[trigger] traces[k], block_type, name)
}

/// The reports of the block among the first `upto` entries of a trace
/// matrix: those of every entry of the block, in the order of the matrix.
pub open spec fn trace_reports(
    traces: Seq<TraceView>,
    block_type: BlockType,
    name: Seq<char>,
    upto: int,
) -> Seq<LaneReportView>
    decreases upto,
{
    if upto <= 0 {
        Seq::empty()
    } else if is_block(traces[upto - 1], block_type, name) {
        trace_reports(traces, block_type, name, upto - 1) + block_reports(
            traces[upto - 1].inputs,
            traces[upto - 1].inputs.len() as int,
        )
    } else {
        trace_reports(traces, block_type, name, upto - 1)
    }
}

/// Whether a requested run identifier asks for the latest run.
pub fn is_latest(run_id: &str) -> (r: bool)
    ensures
        r == (run_id@ == "latest"@),
{
    run_id.to_owned() == "latest".to_owned()
}

/// The identifier of the latest run, given what the store holds as such:
/// with no run ever made there is none to resolve to.
pub fn resolve_latest(latest: Option<String>) -> (r: Result<String, InspectError>)
    ensures
        match latest {
            Some(run_id) => r == Ok::<String, InspectError>(run_id),
            None => r is Err && r->Err_0@ == InspectErrorView::NeverExecuted,
        },
{
    match latest {
        Some(run_id) => Ok(run_id),
        None => Err(InspectError::NeverExecuted),
    }
}

/// The run that the store loaded for `run_id`, or the error that names the
/// identifier where it loaded none.
pub fn require_run(loaded: Option<Run>, run_id: &str) -> (r: Result<Run, InspectError>)
    ensures
        match loaded {
            Some(run) => r == Ok::<Run, InspectError>(run),
            None => r is Err && r->Err_0@ == (InspectErrorView::RunNotFound { run_id: run_id@ }),
        },
{
    match loaded {
        Some(run) => Ok(run),
        None => Err(InspectError::RunNotFound { run_id: run_id.to_owned() }),
    }
}

/// The report of one execution.
fn report_lane(
    execution: &BlockExecution,
    input_idx: usize,
    input_count: usize,
    lane_idx: usize,
    lane_count: usize,
) -> (r: LaneReport)
    ensures
        r@ == lane_report(
            execution@,
            input_idx as int,
            input_count as int,
            lane_idx as int,
            lane_count as int,
        ),
{
    let value = match &execution.value {
        Some(v) => LaneValue::from_rendering(pretty(v)),
        None => LaneValue::Absent,
    };
    let error = match &execution.error {
        Some(e) => Some(e.clone()),
        None => None,
    };
    LaneReport { input_idx, input_count, lane_idx, lane_count, value, error }
}

/// Appends the reports of the lanes of one input.
fn report_input(lanes: &Vec<BlockExecution>, input_idx: usize, input_count: usize, out: &mut Vec<LaneReport>)
    ensures
        report_views(final(out)@) == report_views(old(out)@) + input_reports(
            lanes_view(*lanes),
            input_idx as int,
            input_count as int,
        ),
{
    let ghost before = report_views(out@);
    let ghost all = input_reports(lanes_view(*lanes), input_idx as int, input_count as int);
    let mut l: usize = 0;
    proof {
        assert(report_views(out@) =~= before + all.take(0));
    }
    while l < lanes.len()
        invariant
            l <= lanes.len(),
            all == input_reports(lanes_view(*lanes), input_idx as int, input_count as int),
            report_views(out@) == before + all.take(l as int),
        decreases lanes.len() - l,
    {
        let report = report_lane(&lanes[l], input_idx, input_count, l, lanes.len());
        let ghost prev = out@;
        out.push(report);
        proof {
            assert(lanes_view(*lanes)[l as int] == lanes@[l as int]@);
            assert(report@ == all[l as int]);
            assert(report_views(out@) =~= report_views(prev).push(report@));
            assert(all.take(l + 1) =~= all.take(l as int).push(all[l as int]));
            assert(report_views(out@) =~= before + all.take(l + 1));
        }
        l += 1;
    }
    proof {
        assert(all.take(l as int) =~= all);
    }
}

/// Appends the reports of every input of a block.
fn report_block(inputs: &Vec<Vec<BlockExecution>>, out: &mut Vec<LaneReport>)
    ensures
        report_views(final(out)@) == report_views(old(out)@) + block_reports(
            inputs_view(*inputs),
            inputs@.len() as int,
        ),
{
    let ghost before = report_views(out@);
    let ghost all = inputs_view(*inputs);
    let mut i: usize = 0;
    proof {
        assert(report_views(out@) =~= before + block_reports(all, 0));
    }
    while i < inputs.len()
        invariant
            i <= inputs.len(),
            all == inputs_view(*inputs),
            report_views(out@) == before + block_reports(all, i as int),
        decreases inputs.len() - i,
    {
        let ghost prev = report_views(out@);
        report_input(&inputs[i], i, inputs.len(), out);
        proof {
            assert(all[i as int] == lanes_view(inputs@[i as int]));
            let step = input_reports(all[i as int], i as int, all.len() as int);
            assert(block_reports(all, i + 1) == block_reports(all, i as int) + step);
            assert(report_views(out@) =~= before + block_reports(all, i + 1));
        }
        i += 1;
    }
}

/// Reports what the block `block_name` of type `block_type` did in a run:
/// one report for each lane of each input, in that order, for every entry
/// of the block in the trace matrix. Where the matrix has no entry for the
/// block, the error names the block and the run.
pub fn inspect_block(run: &Run, block_type: BlockType, block_name: &str) -> (r: Result<
    Vec<LaneReport>,
    InspectError,
>)
    ensures
        match r {
            Ok(reports) => has_block(run@.traces, block_type, block_name@) && report_views(reports@)
                == trace_reports(run@.traces, block_type, block_name@, run@.traces.len() as int),
            Err(e) => !has_block(run@.traces, block_type, block_name@) && e@ == (
            InspectErrorView::BlockNotFound {
                block_type,
                block_name: block_name@,
                run_id: run@.run_id,
            }),
        },
{
    let traces = run.traces();
    let ghost matrix = traces_view(*traces);
    let name = block_name.to_owned();
    let mut out: Vec<LaneReport> = Vec::new();
    let mut found = false;
    let mut k: usize = 0;
    proof {
        assert(report_views(out@) =~= trace_reports(matrix, block_type, name@, 0));
    }
    while k < traces.len()
        invariant
            k <= traces.len(),
            name@ == block_name@,
            matrix == traces_view(*traces),
            report_views(out@) == trace_reports(matrix, block_type, name@, k as int),
            found <==> exists|j: int| 0 <= j < k && is_block(#[trigger] matrix[j], block_type, name@),
        decreases traces.len() - k,
    {
        proof {
            assert(matrix[k as int].block_type == traces@[k as int].0.0);
            assert(matrix[k as int].name == traces@[k as int].0.1@);
            assert(matrix[k as int].inputs == inputs_view(traces@[k as int].1));
        }
        if traces[k].0.0 == block_type && traces[k].0.1 == name {
            found = true;
            report_block(&traces[k].1, &mut out);
        }
        k += 1;
    }
    if found {
        Ok(out)
    } else {
        Err(
            InspectError::BlockNotFound {
                block_type,
                block_name: name,
                run_id: run.run_id().to_owned(),
            },
        )
    }
}

/// What the inspection of a block has learnt from outside.
#[derive(Clone, Debug, PartialEq)]
pub enum InspectEvent {
    /// A run was asked for, by its identifier or as the latest.
    Requested { run_id: String },
    /// The store told which run was created last, if any was.
    Latest { run_id: Option<String> },
    /// The store loaded the run `run_id`, or found none.
    Loaded { run_id: String, run: Option<Run> },
}

/// What the inspection of a block does next.
#[derive(Clone, Debug, PartialEq, Eq)]
pub enum InspectAction {
    /// Ask the store for the run created last.
    QueryLatest,
    /// Ask the store for the run `run_id`.
    LoadRun { run_id: String },
    /// Show the reports; the inspection is done.
    Report { reports: Vec<LaneReport> },
    /// Give up: what was asked for does not exist.
    Fail { error: InspectError },
}

/// What an [`InspectAction`] holds, as a mathematical value.
pub ghost enum InspectActionView {
    QueryLatest,
    LoadRun { run_id: Seq<char> },
    Report { reports: Seq<LaneReportView> },
    Fail { error: InspectErrorView },
}

impl View for InspectAction {
    type V = InspectActionView;

    open spec fn view(&self) -> InspectActionView {
        match self {
            InspectAction::QueryLatest => InspectActionView::QueryLatest,
            InspectAction::LoadRun { run_id } => InspectActionView::LoadRun { run_id: run_id@ },
            InspectAction::Report { reports } => InspectActionView::Report { reports: report_views(reports@) },
            InspectAction::Fail { error } => InspectActionView::Fail { error: error@ },
        }
    }
}

/// The action that follows an event in the inspection of the block `name`
/// of type `block_type`.
pub open spec fn next_action(event: InspectEvent, block_type: BlockType, name: Seq<char>) -> InspectActionView {
    match event {
        InspectEvent::Requested { run_id } => if run_id@ == "latest"@ {
            InspectActionView::QueryLatest
        } else {
            InspectActionView::LoadRun { run_id: run_id@ }
        },
        InspectEvent::Latest { run_id: Some(run_id) } => InspectActionView::LoadRun { run_id: run_id@ },
        InspectEvent::Latest { run_id: None } => InspectActionView::Fail {
            error: InspectErrorView::NeverExecuted,
        },
        InspectEvent::Loaded { run_id, run: None } => InspectActionView::Fail {
            error: InspectErrorView::RunNotFound { run_id: run_id@ },
        },
        InspectEvent::Loaded { run_id, run: Some(run) } => if has_block(run@.traces, block_type, name) {
            InspectActionView::Report {
                reports: trace_reports(run@.traces, block_type, name, run@.traces.len() as int),
            }
        } else {
            InspectActionView::Fail {
                error: InspectErrorView::BlockNotFound { block_type, block_name: name, run_id: run@.run_id },
            }
        },
    }
}

/// One step of the inspection of a block: given what was learnt from
/// outside, what to do next. The caller performs the action and comes back
/// with the event that it leads to, until the action is to report or to
/// fail.
pub fn inspect_step(event: InspectEvent, block_type: BlockType, block_name: &str) -> (r: InspectAction)
    ensures
        r@ == next_action(event, block_type, block_name@),
{
    match event {
        InspectEvent::Requested { run_id } => {
            if is_latest(run_id.as_str()) {
                InspectAction::QueryLatest
            } else {
                InspectAction::LoadRun { run_id }
            }
        },
        InspectEvent::Latest { run_id } => match resolve_latest(run_id) {
            Ok(run_id) => InspectAction::LoadRun { run_id },
            Err(error) => InspectAction::Fail { error },
        },
        InspectEvent::Loaded { run_id, run } => match require_run(run, run_id.as_str()) {
            Ok(run) => match inspect_block(&run, block_type, block_name) {
                Ok(reports) => InspectAction::Report { reports },
                Err(error) => InspectAction::Fail { error },
            },
            Err(error) => InspectAction::Fail { error },
        },
    }
}

} // verus!
