//! The orchestrator boundary: capability snapshots, task lifecycle values and
//! the structured error that every orchestrator call may return.

use vstd::prelude::*;

use crate::seqs::texts;

verus! {

/// Point-in-time description of what an orchestrator supports.
#[derive(Debug, Clone)]
pub struct Capabilities {
    pub metadata: OrchestratorMetadata,
    pub limits: Limits,
    pub workloads: Vec<WorkloadCapability>,
    pub models: Vec<ModelCapability>,
    pub hardware: HardwareInventory,
    pub tools: Option<Vec<ToolCapability>>,
    pub captured_at: String,
}

#[derive(Debug, Clone)]
pub struct OrchestratorMetadata {
    pub engine: String,
    pub version: String,
    pub build: Option<String>,
    pub commit: Option<String>,
}

#[derive(Debug, Clone)]
pub struct Limits {
    pub ctx_max: u32,
    pub max_tokens_out: Option<u32>,
    pub max_concurrent_requests: Option<u32>,
    pub queue_depth_limit: Option<u32>,
}

#[derive(Debug, Clone)]
pub struct WorkloadCapability {
    pub workload: WorkloadKind,
    pub supported_models: Vec<String>,
    pub default_model: Option<String>,
    pub supports_guardrails: bool,
}

/// The categorical kind of task a model may be invoked under.
#[derive(Debug, Clone, Copy, PartialEq, Eq, Structural)]
pub enum WorkloadKind {
    Chat,
    Completion,
    Tool,
    Embedding,
    Audio,
}

#[derive(Debug, Clone)]
pub struct ModelCapability {
    pub id: String,
    pub display_name: Option<String>,
    pub family: Option<String>,
    pub modality: ModelModality,
    pub ctx_max: u32,
    pub max_tokens_out: Option<u32>,
    pub supports_tool_calls: bool,
    pub supports_parallel_functions: bool,
    /// Throughput hint, kept as the IEEE-754 bit pattern of a
    /// single-precision number.
    pub inference_units_per_ms_bits: Option<u32>,
}

#[derive(Debug, Clone)]
pub enum ModelModality {
    Text,
    Multimodal,
    Audio,
    Vision,
}

#[derive(Debug, Clone)]
pub struct HardwareInventory {
    pub gpus: Vec<GpuInfo>,
    pub cpus: Option<Vec<CpuInfo>>,
}

#[derive(Debug, Clone)]
pub struct GpuInfo {
    pub id: String,
    pub vendor: String,
    pub name: String,
    pub memory_gb: u32,
    pub driver: Option<String>,
    pub arch: Option<String>,
}

#[derive(Debug, Clone)]
pub struct CpuInfo {
    pub model: String,
    pub cores: u16,
    pub threads: u16,
}

#[derive(Debug, Clone)]
pub struct ToolCapability {
    pub name: String,
    pub description: Option<String>,
    pub input_schema: Option<String>,
    pub returns_schema: Option<String>,
    pub timeout_ms: Option<u32>,
}

/// Server-assigned task identifier. Uniqueness is the server's concern.
#[derive(Debug, Clone)]
pub struct TaskId(pub String);

#[derive(Debug, Clone)]
pub struct TaskRequest {
    pub model: String,
    pub workload: Option<WorkloadKind>,
    pub max_tokens: Option<u32>,
}

#[derive(Debug, Clone)]
pub struct TaskAccepted {
    pub task_id: TaskId,
    pub queue_position: Option<u32>,
}

/// One raw event of a task's stream, in the order the orchestrator sent it.
#[derive(Debug, Clone)]
pub enum StreamEvent {
    Started,
    Token(String),
    Metrics(String),
    End,
    Error(String),
}

/// Marker that the orchestrator accepted a cancellation request.
#[derive(Debug, Clone)]
pub struct Cancelled;

/// Structured failure of an orchestrator call.
#[derive(Debug, Clone)]
pub struct NrvServerError {
    pub code: String,
    pub message: String,
    pub retriable: Option<bool>,
    pub retry_after_ms: Option<u64>,
}

/// What request validation reads of a model entry.
pub struct ModelRules {
    pub id: Seq<char>,
    pub max_tokens_out: Option<u32>,
}

/// What request validation reads of a workload entry.
pub struct WorkloadRules {
    pub workload: WorkloadKind,
    pub supported_models: Seq<Seq<char>>,
}

/// What request validation reads of a capability snapshot: the model and
/// workload lists in snapshot order, and the global output-token ceiling.
pub struct SnapshotRules {
    pub models: Seq<ModelRules>,
    pub workloads: Seq<WorkloadRules>,
    pub max_tokens_out: Option<u32>,
}

/// The model entries of a snapshot, as validation reads them.
pub open spec fn model_rules(models: Seq<ModelCapability>) -> Seq<ModelRules> {
    Seq::new(models.len(), |i: int| models[i]@)
}

/// The workload entries of a snapshot, as validation reads them.
pub open spec fn workload_rules(workloads: Seq<WorkloadCapability>) -> Seq<WorkloadRules> {
    Seq::new(workloads.len(), |i: int| workloads[i]@)
}

impl View for ModelCapability {
    type V = ModelRules;

    open spec fn view(&self) -> ModelRules {
        ModelRules { id: self.id@, max_tokens_out: self.max_tokens_out }
    }
}

impl View for WorkloadCapability {
    type V = WorkloadRules;

    open spec fn view(&self) -> WorkloadRules {
        WorkloadRules { workload: self.workload, supported_models: texts(self.supported_models@) }
    }
}

impl View for Capabilities {
    type V = SnapshotRules;

    open spec fn view(&self) -> SnapshotRules {
        SnapshotRules {
            models: model_rules(self.models@),
            workloads: workload_rules(self.workloads@),
            max_tokens_out: self.limits.max_tokens_out,
        }
    }
}

/// An orchestrator failure, with code and message as texts.
pub struct ServerErrorView {
    pub code: Seq<char>,
    pub message: Seq<char>,
    pub retriable: Option<bool>,
    pub retry_after_ms: Option<u64>,
}

impl View for NrvServerError {
    type V = ServerErrorView;

    open spec fn view(&self) -> ServerErrorView {
        ServerErrorView {
            code: self.code@,
            message: self.message@,
            retriable: self.retriable,
            retry_after_ms: self.retry_after_ms,
        }
    }
}

/// A lazy, finite sequence of raw events that is consumed once. Each call
/// hands out the next event, or nothing when the source has none to give.
///
/// What a source may hand out is the source's own matter. The trait gives it
/// a name, `gives`, so that a caller can say which event it was handed; an
/// implementation that says nothing of itself allows every event.
pub trait EventSource {
    /// Whether this source, asked for its next event, may hand out `event`
    /// and be left as `after`.
    open spec fn gives(&self, event: Option<StreamEvent>, after: &Self) -> bool {
        true
    }

    fn next_event(&mut self) -> (event: Option<StreamEvent>)
        ensures
            old(self).gives(event, final(self)),
    ;
}

/// The four operations an orchestrator offers, whatever the transport.
///
/// A failure to begin streaming is an error of `stream` itself, not an
/// `Error` event of the stream. A successful `cancel` confirms that the
/// request was accepted, not that work in flight has stopped.
///
/// What an orchestrator may answer is its own matter. The trait gives each
/// operation's answers a name, so that a caller can say what it handed over
/// and which answer it was given; an implementation that says nothing of
/// itself allows every answer.
pub trait OrchestratorClient {
    type Stream: EventSource;

    /// Whether `answer` is an answer this orchestrator may give when asked
    /// for its capabilities.
    open spec fn answers_capabilities(
        &self,
        answer: Result<Capabilities, NrvServerError>,
    ) -> bool {
        true
    }

    /// Whether `answer` is an answer this orchestrator may give when handed
    /// the request `req`.
    open spec fn answers_enqueue(
        &self,
        req: TaskRequest,
        answer: Result<TaskAccepted, NrvServerError>,
    ) -> bool {
        true
    }

    /// Whether `answer` is an answer this orchestrator may give when asked
    /// for the events of the task `task_id`.
    open spec fn answers_stream(
        &self,
        task_id: &TaskId,
        answer: Result<Self::Stream, NrvServerError>,
    ) -> bool {
        true
    }

    /// Whether `answer` is an answer this orchestrator may give when asked
    /// to cancel the task `task_id`.
    open spec fn answers_cancel(
        &self,
        task_id: &TaskId,
        answer: Result<Cancelled, NrvServerError>,
    ) -> bool {
        true
    }

    fn capabilities(&self) -> (answer: Result<Capabilities, NrvServerError>)
        ensures
            self.answers_capabilities(answer),
    ;

    fn enqueue(&self, req: TaskRequest) -> (answer: Result<TaskAccepted, NrvServerError>)
        ensures
            self.answers_enqueue(req, answer),
    ;

    fn stream(&self, task_id: &TaskId) -> (answer: Result<Self::Stream, NrvServerError>)
        ensures
            self.answers_stream(task_id, answer),
    ;

    fn cancel(&self, task_id: &TaskId) -> (answer: Result<Cancelled, NrvServerError>)
        ensures
            self.answers_cancel(task_id, answer),
    ;
}

} // verus!
