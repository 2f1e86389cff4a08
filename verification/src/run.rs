use crate::block::BlockType;
use crate::config::RunConfig;
use crate::json::duplicate;
use crate::status::{upserted, BlockStatus, BlockStatusView, RunStatus, RunStatusView, Status};
use serde_json::Value;
use vstd::prelude::*;

verus! {

/// The outcome of one evaluation of one block on one lane: the value it
/// returned, or the message of its failure.
#[derive(Debug, PartialEq)]
pub struct BlockExecution {
    pub value: Option<Value>,
    pub error: Option<String>,
}

/// What a [`BlockExecution`] holds, as a mathematical value.
pub ghost struct BlockExecutionView {
    pub value: Option<Value>,
    pub error: Option<Seq<char>>,
}

impl View for BlockExecution {
    type V = BlockExecutionView;

    open spec fn view(&self) -> BlockExecutionView {
        BlockExecutionView {
            value: self.value,
            error: match self.error {
                Some(e) => Some(e@),
                None => None,
            },
        }
    }
}

/// One entry of a trace matrix: the block it belongs to and, input by
/// input, the executions of the input's lanes.
pub ghost struct TraceView {
    pub block_type: BlockType,
    pub name: Seq<char>,
    pub inputs: Seq<Seq<BlockExecutionView>>,
}

/// The executions of the lanes of one input.
pub open spec fn lanes_view(lanes: Vec<BlockExecution>) -> Seq<BlockExecutionView> {
    Seq::new(lanes@.len(), |l: int| lanes@[l]@)
}

/// The executions of a block, input by input.
pub open spec fn inputs_view(inputs: Vec<Vec<BlockExecution>>) -> Seq<Seq<BlockExecutionView>> {
    Seq::new(inputs@.len(), |i: int| lanes_view(inputs@[i]))
}

/// The trace matrix that a vector of entries stands for.
pub open spec fn traces_view(traces: Vec<((BlockType, String), Vec<Vec<BlockExecution>>)>) -> Seq<TraceView> {
    Seq::new(
        traces@.len(),
        |k: int|
            TraceView {
                block_type: traces@[k].0.0,
                name: traces@[k].0.1@,
                inputs: inputs_view(traces@[k].1),
            },
    )
}

impl BlockExecution {
    /// The lane was passed over by a condition upstream: it neither
    /// returned a value nor failed.
    pub open spec fn skipped(&self) -> bool {
        self.value is None && self.error is None
    }

    /// A value and an error do not occur together.
    pub open spec fn well_formed(&self) -> bool {
        !(self.value is Some && self.error is Some)
    }
}

impl Clone for BlockExecution {
    fn clone(&self) -> (r: Self)
        ensures
            r == *self,
    {
        let value = match &self.value {
            Some(v) => Some(duplicate(v)),
            None => None,
        };
        let error = match &self.error {
            Some(e) => Some(e.clone()),
            None => None,
        };
        BlockExecution { value, error }
    }
}

/// One run of a pipeline on a batch of inputs: its identity, the pipeline
/// and configuration it ran with, its status, and its trace matrix.
///
/// `traces` holds one entry per block that was reached, in the order of the
/// pipeline, keyed by the block's type and name. An entry holds, for each
/// top-level input, the executions of the lanes that the input had fanned
/// out to at that block. A block that is absent was not reached; an
/// execution with neither value nor error was skipped.
#[derive(Clone, Debug, PartialEq)]
pub struct Run {
    run_id: String,
    created: u64,
    app_hash: String,
    config: RunConfig,
    status: RunStatus,
    pub traces: Vec<((BlockType, String), Vec<Vec<BlockExecution>>)>,
}

/// What a [`Run`] holds, as a mathematical value.
pub ghost struct RunView {
    pub run_id: Seq<char>,
    pub created: u64,
    pub app_hash: Seq<char>,
    pub config: Seq<(Seq<char>, Value)>,
    pub status: RunStatusView,
    pub traces: Seq<TraceView>,
}

impl View for Run {
    type V = RunView;

    closed spec fn view(&self) -> RunView {
        RunView {
            run_id: self.run_id@,
            created: self.created,
            app_hash: self.app_hash@,
            config: self.config@,
            status: self.status@,
            traces: traces_view(self.traces),
        }
    }
}

impl Run {
    /// A run that is about to be driven: running, with an empty ledger and
    /// an empty trace matrix. The identifier and the time of creation are
    /// the caller's to supply.
    pub fn new(run_id: &str, created: u64, app_hash: &str, config: RunConfig) -> (r: Self)
        ensures
            r@.run_id == run_id@,
            r@.created == created,
            r@.app_hash == app_hash@,
            r@.config == config@,
            r@.status.run == Status::Running,
            r@.status.blocks == Seq::<BlockStatusView>::empty(),
            r@.traces == Seq::<TraceView>::empty(),
    {
        let r = Run {
            run_id: run_id.to_owned(),
            created,
            app_hash: app_hash.to_owned(),
            config,
            status: RunStatus::new(),
            traces: Vec::new(),
        };
        proof {
            assert(r@.traces =~= Seq::<TraceView>::empty());
        }
        r
    }

    /// A run as it was stored: every part is taken as it is, unchecked.
    pub fn new_from_store(
        run_id: &str,
        created: u64,
        app_hash: &str,
        config: &RunConfig,
        status: &RunStatus,
        traces: Vec<((BlockType, String), Vec<Vec<BlockExecution>>)>,
    ) -> (r: Self)
        ensures
            r@.run_id == run_id@,
            r@.created == created,
            r@.app_hash == app_hash@,
            r@.config == config@,
            r@.status == status@,
            r@.traces == traces_view(traces),
    {
        Run {
            run_id: run_id.to_owned(),
            created,
            app_hash: app_hash.to_owned(),
            config: config.clone(),
            status: status.clone(),
            traces,
        }
    }

    /// The identifier of the run.
    pub fn run_id(&self) -> (r: &str)
        ensures
            r@ == self@.run_id,
    {
        self.run_id.as_str()
    }

    /// When the run was created.
    pub fn created(&self) -> (r: u64)
        ensures
            r == self@.created,
    {
        self.created
    }

    /// The content hash of the pipeline that the run executed.
    pub fn app_hash(&self) -> (r: &str)
        ensures
            r@ == self@.app_hash,
    {
        self.app_hash.as_str()
    }

    /// The configuration that the run was created with.
    pub fn config(&self) -> (r: &RunConfig)
        ensures
            r@ == self@.config,
    {
        &self.config
    }

    /// The status of the run and the ledger of its blocks.
    pub fn status(&self) -> (r: &RunStatus)
        ensures
            r@ == self@.status,
    {
        &self.status
    }

    /// The trace matrix.
    pub fn traces(&self) -> (r: &Vec<((BlockType, String), Vec<Vec<BlockExecution>>)>)
        ensures
            traces_view(*r) == self@.traces,
    {
        &self.traces
    }

    /// Replaces the whole status; nothing else changes.
    pub fn set_status(&mut self, status: RunStatus)
        ensures
            final(self)@ == (RunView { status: status@, ..old(self)@ }),
    {
        self.status = status;
    }

    /// Sets the status of the run as a whole, whatever it was; the ledger
    /// and everything else stay.
    pub fn set_run_status(&mut self, status: Status)
        ensures
            final(self)@ == (RunView {
                status: RunStatusView { run: status, blocks: old(self)@.status.blocks },
                ..old(self)@
            }),
    {
        self.status.set_run_status(status);
    }

    /// Records the status of a block in the ledger: in the place of the
    /// entry with its key, or at the end where the block is new.
    pub fn set_block_status(&mut self, status: BlockStatus)
        ensures
            final(self)@ == (RunView {
                status: RunStatusView {
                    run: old(self)@.status.run,
                    blocks: upserted(old(self)@.status.blocks, status@),
                },
                ..old(self)@
            }),
    {
        self.status.set_block_status(status);
    }
}

} // verus!
