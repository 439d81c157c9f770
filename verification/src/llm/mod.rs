//! Request validation against a capability snapshot, task handles, and the
//! translation of a raw event stream into indexed, terminating events.

use vstd::prelude::*;

use std::sync::Arc;

use crate::seqs::{find_first, lemma_find_first_none, lemma_find_first_some, texts};

use crate::orch_client::{
    model_rules, workload_rules, Cancelled, Capabilities, EventSource, ModelCapability,
    ModelRules, NrvServerError, OrchestratorClient, SnapshotRules, StreamEvent, TaskAccepted,
    TaskId, TaskRequest, WorkloadCapability, WorkloadKind, WorkloadRules,
};

pub mod laws;
pub mod toolkit;

verus! {

/// Name of the `nrv.llm` module.
pub fn module_name() -> (name: &'static str)
    ensures
        name@ == "llm"@,
{
    "llm"
}

/// The model entry carries the identifier `id`.
pub open spec fn model_is(id: Seq<char>) -> spec_fn(ModelRules) -> bool {
    |m: ModelRules| m.id == id
}

/// The workload entry is of kind `kind`.
pub open spec fn workload_is(kind: WorkloadKind) -> spec_fn(WorkloadRules) -> bool {
    |w: WorkloadRules| w.workload == kind
}

/// The workload entry lists `model` among its supported models.
pub open spec fn supports(model: Seq<char>) -> spec_fn(WorkloadRules) -> bool {
    |w: WorkloadRules| w.supported_models.contains(model)
}

/// A validated request, ready to be enqueued.
#[derive(Debug, Clone, PartialEq, Eq)]
pub struct LlmRequest {
    pub model: String,
    pub workload: WorkloadKind,
    pub max_tokens: Option<u32>,
}

/// A validated request, with the model identifier as text.
pub struct LlmRequestView {
    pub model: Seq<char>,
    pub workload: WorkloadKind,
    pub max_tokens: Option<u32>,
}

impl View for LlmRequest {
    type V = LlmRequestView;

    open spec fn view(&self) -> LlmRequestView {
        LlmRequestView { model: self.model@, workload: self.workload, max_tokens: self.max_tokens }
    }
}

/// Why a request was refused before anything was sent.
#[derive(Debug, PartialEq, Eq)]
pub enum LlmRequestBuildError {
    MissingModel,
    UnknownModel { model: String },
    UnknownWorkload { workload: WorkloadKind },
    WorkloadUnsupported { workload: WorkloadKind, model: String },
    WorkloadUnavailable { model: String },
    InvalidTokenLimit { requested: u32 },
    TokenLimitExceededForModel { requested: u32, limit: u32, model: String },
    TokenLimitExceededGlobal { requested: u32, limit: u32 },
}

/// A refusal of a request, with model identifiers as texts.
pub enum BuildErrorView {
    MissingModel,
    UnknownModel { model: Seq<char> },
    UnknownWorkload { workload: WorkloadKind },
    WorkloadUnsupported { workload: WorkloadKind, model: Seq<char> },
    WorkloadUnavailable { model: Seq<char> },
    InvalidTokenLimit { requested: u32 },
    TokenLimitExceededForModel { requested: u32, limit: u32, model: Seq<char> },
    TokenLimitExceededGlobal { requested: u32, limit: u32 },
}

impl View for LlmRequestBuildError {
    type V = BuildErrorView;

    open spec fn view(&self) -> BuildErrorView {
        match *self {
            LlmRequestBuildError::MissingModel => BuildErrorView::MissingModel,
            LlmRequestBuildError::UnknownModel { model } => BuildErrorView::UnknownModel {
                model: model@,
            },
            LlmRequestBuildError::UnknownWorkload { workload } => BuildErrorView::UnknownWorkload {
                workload,
            },
            LlmRequestBuildError::WorkloadUnsupported {
                workload,
                model,
            } => BuildErrorView::WorkloadUnsupported { workload, model: model@ },
            LlmRequestBuildError::WorkloadUnavailable {
                model,
            } => BuildErrorView::WorkloadUnavailable { model: model@ },
            LlmRequestBuildError::InvalidTokenLimit {
                requested,
            } => BuildErrorView::InvalidTokenLimit { requested },
            LlmRequestBuildError::TokenLimitExceededForModel {
                requested,
                limit,
                model,
            } => BuildErrorView::TokenLimitExceededForModel { requested, limit, model: model@ },
            LlmRequestBuildError::TokenLimitExceededGlobal {
                requested,
                limit,
            } => BuildErrorView::TokenLimitExceededGlobal { requested, limit },
        }
    }
}

/// The workload a request for `model` runs under, or the refusal.
///
/// A requested kind must stand in the snapshot, and its first entry must list
/// the model. Without a requested kind, the first entry in snapshot order that
/// lists the model decides.
pub open spec fn resolve_workload(
    workloads: Seq<WorkloadRules>,
    requested: Option<WorkloadKind>,
    model: Seq<char>,
) -> Result<WorkloadKind, BuildErrorView> {
    match requested {
        Some(kind) => match find_first(workloads, workload_is(kind)) {
            None => Err(BuildErrorView::UnknownWorkload { workload: kind }),
            Some(j) => if workloads[j].supported_models.contains(model) {
                Ok(kind)
            } else {
                Err(BuildErrorView::WorkloadUnsupported { workload: kind, model })
            },
        },
        None => match find_first(workloads, supports(model)) {
            None => Err(BuildErrorView::WorkloadUnavailable { model }),
            Some(j) => Ok(workloads[j].workload),
        },
    }
}

/// The refusal, if any, of a requested output-token ceiling. The model's own
/// limit is held against the request before the global one.
pub open spec fn token_refusal(
    requested: Option<u32>,
    model_limit: Option<u32>,
    global_limit: Option<u32>,
    model: Seq<char>,
) -> Option<BuildErrorView> {
    match requested {
        None => None,
        Some(n) => if n == 0 {
            Some(BuildErrorView::InvalidTokenLimit { requested: n })
        } else if model_limit is Some && n > model_limit->0 {
            Some(
                BuildErrorView::TokenLimitExceededForModel {
                    requested: n,
                    limit: model_limit->0,
                    model,
                },
            )
        } else if global_limit is Some && n > global_limit->0 {
            Some(BuildErrorView::TokenLimitExceededGlobal { requested: n, limit: global_limit->0 })
        } else {
            None
        },
    }
}

/// What validation makes of a desired model, workload and token ceiling
/// against a snapshot.
pub open spec fn validate(
    snapshot: SnapshotRules,
    model: Option<Seq<char>>,
    workload: Option<WorkloadKind>,
    max_tokens: Option<u32>,
) -> Result<LlmRequestView, BuildErrorView> {
    match model {
        None => Err(BuildErrorView::MissingModel),
        Some(id) => match find_first(snapshot.models, model_is(id)) {
            None => Err(BuildErrorView::UnknownModel { model: id }),
            Some(i) => match resolve_workload(snapshot.workloads, workload, id) {
                Err(e) => Err(e),
                Ok(kind) => match token_refusal(
                    max_tokens,
                    snapshot.models[i].max_tokens_out,
                    snapshot.max_tokens_out,
                    id,
                ) {
                    Some(e) => Err(e),
                    None => Ok(LlmRequestView { model: id, workload: kind, max_tokens }),
                },
            },
        },
    }
}

/// The first model entry whose identifier is `id`.
fn find_model(models: &Vec<ModelCapability>, id: &String) -> (found: Option<usize>)
    ensures
        match found {
            Some(i) => find_first(model_rules(models@), model_is(id@)) == Some(i as int),
            None => find_first(model_rules(models@), model_is(id@)) is None,
        },
{
    let mut i: usize = 0;
    while i < models.len()
        invariant
            i <= models.len(),
            forall|k: int|
                0 <= k < i ==> !model_is(id@)(#[trigger] model_rules(models@)[k]),
        decreases models.len() - i,
    {
        if models[i].id == *id {
            proof {
                lemma_find_first_some(model_rules(models@), model_is(id@), i as int);
            }
            return Some(i);
        }
        i += 1;
    }
    proof {
        lemma_find_first_none(model_rules(models@), model_is(id@));
    }
    None
}

/// Whether the workload entry lists `model` among its supported models.
fn supports_model(entry: &WorkloadCapability, model: &String) -> (listed: bool)
    ensures
        listed == entry@.supported_models.contains(model@),
{
    let mut i: usize = 0;
    while i < entry.supported_models.len()
        invariant
            i <= entry.supported_models.len(),
            forall|k: int| 0 <= k < i ==> #[trigger] texts(entry.supported_models@)[k] != model@,
        decreases entry.supported_models.len() - i,
    {
        if entry.supported_models[i] == *model {
            assert(texts(entry.supported_models@)[i as int] == model@);
            return true;
        }
        i += 1;
    }
    false
}

/// The first workload entry of kind `kind`.
fn find_workload(workloads: &Vec<WorkloadCapability>, kind: WorkloadKind) -> (found: Option<usize>)
    ensures
        match found {
            Some(j) => find_first(workload_rules(workloads@), workload_is(kind)) == Some(j as int),
            None => find_first(workload_rules(workloads@), workload_is(kind)) is None,
        },
{
    let mut j: usize = 0;
    while j < workloads.len()
        invariant
            j <= workloads.len(),
            forall|k: int|
                0 <= k < j ==> !workload_is(kind)(#[trigger] workload_rules(workloads@)[k]),
        decreases workloads.len() - j,
    {
        if workloads[j].workload == kind {
            proof {
                lemma_find_first_some(workload_rules(workloads@), workload_is(kind), j as int);
            }
            return Some(j);
        }
        j += 1;
    }
    proof {
        lemma_find_first_none(workload_rules(workloads@), workload_is(kind));
    }
    None
}

/// The first workload entry, in snapshot order, that lists `model`.
fn find_supporting_workload(workloads: &Vec<WorkloadCapability>, model: &String) -> (found: Option<
    usize,
>)
    ensures
        match found {
            Some(j) => find_first(workload_rules(workloads@), supports(model@)) == Some(j as int),
            None => find_first(workload_rules(workloads@), supports(model@)) is None,
        },
{
    let mut j: usize = 0;
    while j < workloads.len()
        invariant
            j <= workloads.len(),
            forall|k: int|
                0 <= k < j ==> !supports(model@)(#[trigger] workload_rules(workloads@)[k]),
        decreases workloads.len() - j,
    {
        if supports_model(&workloads[j], model) {
            proof {
                lemma_find_first_some(workload_rules(workloads@), supports(model@), j as int);
            }
            return Some(j);
        }
        j += 1;
    }
    proof {
        lemma_find_first_none(workload_rules(workloads@), supports(model@));
    }
    None
}

/// Validates a desired model, workload and token ceiling against a capability
/// snapshot. It never talks to the orchestrator.
#[derive(Debug, Clone)]
pub struct LlmRequestBuilder {
    capabilities: Capabilities,
    model: Option<String>,
    workload: Option<WorkloadKind>,
    max_tokens: Option<u32>,
}

/// What a builder holds: the snapshot as validation reads it, and the choices
/// made so far.
pub struct BuilderView {
    pub snapshot: SnapshotRules,
    pub model: Option<Seq<char>>,
    pub workload: Option<WorkloadKind>,
    pub max_tokens: Option<u32>,
}

impl View for LlmRequestBuilder {
    type V = BuilderView;

    closed spec fn view(&self) -> BuilderView {
        BuilderView {
            snapshot: self.capabilities@,
            model: match self.model {
                Some(id) => Some(id@),
                None => None,
            },
            workload: self.workload,
            max_tokens: self.max_tokens,
        }
    }
}

impl LlmRequestBuilder {
    /// A builder over `capabilities` with nothing chosen yet.
    pub fn new(capabilities: Capabilities) -> (builder: Self)
        ensures
            builder@ == (BuilderView {
                snapshot: capabilities@,
                model: None,
                workload: None,
                max_tokens: None,
            }),
    {
        Self { capabilities, model: None, workload: None, max_tokens: None }
    }

    /// Chooses the model; a later choice replaces an earlier one.
    pub fn model(self, model: &str) -> (builder: Self)
        ensures
            builder@ == (BuilderView { model: Some(model@), ..self@ }),
    {
        let mut builder = self;
        builder.model = Some(model.to_owned());
        builder
    }

    /// Asks for a workload kind explicitly.
    pub fn workload(self, workload: WorkloadKind) -> (builder: Self)
        ensures
            builder@ == (BuilderView { workload: Some(workload), ..self@ }),
    {
        let mut builder = self;
        builder.workload = Some(workload);
        builder
    }

    /// Asks for a ceiling on output tokens.
    pub fn max_tokens(self, max_tokens: u32) -> (builder: Self)
        ensures
            builder@ == (BuilderView { max_tokens: Some(max_tokens), ..self@ }),
    {
        let mut builder = self;
        builder.max_tokens = Some(max_tokens);
        builder
    }

    /// Validates the choices in order: the model is given, the snapshot knows
    /// it, the workload is resolved, the token ceiling is within the model's
    /// limit and then within the global one. The first rule broken decides
    /// the error.
    pub fn build(self) -> (built: Result<LlmRequest, LlmRequestBuildError>)
        ensures
            match built {
                Ok(request) => validate(
                    self@.snapshot,
                    self@.model,
                    self@.workload,
                    self@.max_tokens,
                ) == Ok::<LlmRequestView, BuildErrorView>(request@),
                Err(error) => validate(
                    self@.snapshot,
                    self@.model,
                    self@.workload,
                    self@.max_tokens,
                ) == Err::<LlmRequestView, BuildErrorView>(error@),
            },
    {
        let LlmRequestBuilder { capabilities, model, workload, max_tokens } = self;
        let model = match model {
            Some(id) => id,
            None => {
                return Err(LlmRequestBuildError::MissingModel);
            },
        };
        let model_index = match find_model(&capabilities.models, &model) {
            Some(i) => i,
            None => {
                return Err(LlmRequestBuildError::UnknownModel { model });
            },
        };
        let workload = match workload {
            Some(kind) => {
                match find_workload(&capabilities.workloads, kind) {
                    None => {
                        return Err(LlmRequestBuildError::UnknownWorkload { workload: kind });
                    },
                    Some(j) => {
                        if !supports_model(&capabilities.workloads[j], &model) {
                            return Err(
                                LlmRequestBuildError::WorkloadUnsupported { workload: kind, model },
                            );
                        }
                        kind
                    },
                }
            },
            None => match find_supporting_workload(&capabilities.workloads, &model) {
                Some(j) => capabilities.workloads[j].workload,
                None => {
                    return Err(LlmRequestBuildError::WorkloadUnavailable { model });
                },
            },
        };
        if let Some(requested) = max_tokens {
            if requested == 0 {
                return Err(LlmRequestBuildError::InvalidTokenLimit { requested });
            }
            if let Some(limit) = capabilities.models[model_index].max_tokens_out {
                if requested > limit {
                    return Err(
                        LlmRequestBuildError::TokenLimitExceededForModel {
                            requested,
                            limit,
                            model,
                        },
                    );
                }
            }
            if let Some(limit) = capabilities.limits.max_tokens_out {
                if requested > limit {
                    return Err(
                        LlmRequestBuildError::TokenLimitExceededGlobal { requested, limit },
                    );
                }
            }
        }
        Ok(LlmRequest { model, workload, max_tokens })
    }
}

impl LlmRequest {
    /// Starts validating a request against `capabilities`.
    pub fn builder(capabilities: Capabilities) -> (builder: LlmRequestBuilder)
        ensures
            builder@ == (BuilderView {
                snapshot: capabilities@,
                model: None,
                workload: None,
                max_tokens: None,
            }),
    {
        LlmRequestBuilder::new(capabilities)
    }

    /// The request as the orchestrator takes it: the workload is always named.
    pub open spec fn task_request(self) -> TaskRequest {
        TaskRequest {
            model: self.model,
            workload: Some(self.workload),
            max_tokens: self.max_tokens,
        }
    }

    /// The request as the orchestrator takes it: the workload is always named.
    pub fn into_task_request(self) -> (request: TaskRequest)
        ensures
            request == self.task_request(),
            request.model@ == self.model@,
            request.workload == Some(self.workload),
            request.max_tokens == self.max_tokens,
    {
        TaskRequest {
            model: self.model,
            workload: Some(self.workload),
            max_tokens: self.max_tokens,
        }
    }
}

/// A failure met while talking to the orchestrator or while reading a stream.
#[derive(Debug, PartialEq, Eq)]
pub enum LlmError {
    Orchestrator {
        code: String,
        message: String,
        retriable: Option<bool>,
        retry_after_ms: Option<u64>,
    },
    Stream { code: String, message: String, retriable: Option<bool>, retry_after_ms: Option<u64> },
}

/// A failure of the facade, with code and message as texts.
pub enum LlmErrorView {
    Orchestrator {
        code: Seq<char>,
        message: Seq<char>,
        retriable: Option<bool>,
        retry_after_ms: Option<u64>,
    },
    Stream {
        code: Seq<char>,
        message: Seq<char>,
        retriable: Option<bool>,
        retry_after_ms: Option<u64>,
    },
}

impl View for LlmError {
    type V = LlmErrorView;

    open spec fn view(&self) -> LlmErrorView {
        match *self {
            LlmError::Orchestrator {
                code,
                message,
                retriable,
                retry_after_ms,
            } => LlmErrorView::Orchestrator {
                code: code@,
                message: message@,
                retriable,
                retry_after_ms,
            },
            LlmError::Stream {
                code,
                message,
                retriable,
                retry_after_ms,
            } => LlmErrorView::Stream { code: code@, message: message@, retriable, retry_after_ms },
        }
    }
}

/// The facade's error for an orchestrator's error: code, message and both
/// retry hints are the orchestrator's.
pub open spec fn carried_over(err: NrvServerError) -> LlmErrorView {
    LlmErrorView::Orchestrator {
        code: err@.code,
        message: err@.message,
        retriable: err@.retriable,
        retry_after_ms: err@.retry_after_ms,
    }
}

impl LlmError {
    /// Carries an orchestrator error over unchanged: code, message and both
    /// retry hints.
    pub fn from_orchestrator(err: NrvServerError) -> (error: Self)
        ensures
            error@ == carried_over(err),
    {
        LlmError::Orchestrator {
            code: err.code,
            message: err.message,
            retriable: err.retriable,
            retry_after_ms: err.retry_after_ms,
        }
    }

    /// A stream failure with no retry hints.
    pub fn stream_error(code: &str, message: String) -> (error: Self)
        ensures
            error@ == (LlmErrorView::Stream {
                code: code@,
                message: message@,
                retriable: None,
                retry_after_ms: None,
            }),
    {
        LlmError::Stream { code: code.to_owned(), message, retriable: None, retry_after_ms: None }
    }
}

/// Correlates a request that was enqueued with the task the orchestrator
/// made of it.
#[derive(Debug, Clone)]
pub struct LlmTaskHandle {
    task_id: TaskId,
    queue_position: Option<u32>,
}

/// A task handle: the task identifier as text, and the queue position at
/// acceptance.
pub struct TaskHandleView {
    pub task_id: Seq<char>,
    pub queue_position: Option<u32>,
}

impl View for LlmTaskHandle {
    type V = TaskHandleView;

    closed spec fn view(&self) -> TaskHandleView {
        TaskHandleView { task_id: self.task_id.0@, queue_position: self.queue_position }
    }
}

impl LlmTaskHandle {
    /// The identifier of the task, as the orchestrator assigned it.
    pub closed spec fn id(&self) -> TaskId {
        self.task_id
    }

    /// The handle of an accepted task: its identifier and the queue position
    /// at acceptance.
    pub fn from(accepted: TaskAccepted) -> (handle: Self)
        ensures
            handle@ == (TaskHandleView {
                task_id: accepted.task_id.0@,
                queue_position: accepted.queue_position,
            }),
            handle.id() == accepted.task_id,
    {
        LlmTaskHandle { task_id: accepted.task_id, queue_position: accepted.queue_position }
    }

    pub fn task_id(&self) -> (id: &TaskId)
        ensures
            *id == self.id(),
            id.0@ == self@.task_id,
    {
        &self.task_id
    }

    pub fn queue_position(&self) -> (position: Option<u32>)
        ensures
            position == self@.queue_position,
    {
        self.queue_position
    }
}

/// The orchestrator accepted the cancellation request.
#[derive(Debug, Clone, Copy, PartialEq, Eq)]
pub struct CancelOutcome;

/// A translated event of a task's stream.
#[derive(Debug, Clone, PartialEq, Eq)]
pub enum LlmStreamEvent {
    Started,
    Token { text: String, index: usize },
    Metrics { payload: String },
    Completed,
}

/// A translated event, with its payload as text and its index as a natural
/// number.
pub enum StreamEventView {
    Started,
    Token { text: Seq<char>, index: nat },
    Metrics { payload: Seq<char> },
    Completed,
}

impl View for LlmStreamEvent {
    type V = StreamEventView;

    open spec fn view(&self) -> StreamEventView {
        match *self {
            LlmStreamEvent::Started => StreamEventView::Started,
            LlmStreamEvent::Token { text, index } => StreamEventView::Token {
                text: text@,
                index: index as nat,
            },
            LlmStreamEvent::Metrics { payload } => StreamEventView::Metrics { payload: payload@ },
            LlmStreamEvent::Completed => StreamEventView::Completed,
        }
    }
}

/// What a translator remembers between events.
pub struct TranslatorState {
    /// The index the next token will carry.
    pub next_token_index: nat,
    /// Whether an `End` or an `Error` has been seen.
    pub finished: bool,
}

/// The state of a translator that has seen nothing.
pub open spec fn fresh() -> TranslatorState {
    TranslatorState { next_token_index: 0, finished: false }
}

/// What a translator in state `state` yields for the raw event `raw`.
///
/// A finished translator yields nothing, whatever it is handed. Otherwise a
/// token takes the next index, `End` becomes `Completed`, and `Error` becomes
/// a stream error with code `orch.stream`; both of the latter finish the
/// translator.
pub open spec fn yielded(state: TranslatorState, raw: StreamEvent) -> Option<
    Result<StreamEventView, LlmErrorView>,
> {
    if state.finished {
        None
    } else {
        Some(
            match raw {
                StreamEvent::Started => Ok(StreamEventView::Started),
                StreamEvent::Token(text) => Ok(
                    StreamEventView::Token { text: text@, index: state.next_token_index },
                ),
                StreamEvent::Metrics(payload) => Ok(StreamEventView::Metrics { payload: payload@ }),
                StreamEvent::End => Ok(StreamEventView::Completed),
                StreamEvent::Error(message) => Err(
                    LlmErrorView::Stream {
                        code: "orch.stream"@,
                        message: message@,
                        retriable: None,
                        retry_after_ms: None,
                    },
                ),
            },
        )
    }
}

/// The state of a translator after it was handed the raw event `raw`.
pub open spec fn advanced(state: TranslatorState, raw: StreamEvent) -> TranslatorState {
    if state.finished {
        state
    } else {
        match raw {
            StreamEvent::Token(_) => TranslatorState {
                next_token_index: state.next_token_index + 1,
                ..state
            },
            StreamEvent::End | StreamEvent::Error(_) => TranslatorState { finished: true, ..state },
            _ => state,
        }
    }
}

/// The view of an item that a translated stream hands out.
pub open spec fn item_view(item: Option<Result<LlmStreamEvent, LlmError>>) -> Option<
    Result<StreamEventView, LlmErrorView>,
> {
    match item {
        None => None,
        Some(Ok(event)) => Some(Ok(event@)),
        Some(Err(error)) => Some(Err(error@)),
    }
}

/// Translates the raw events of a source into indexed events and stops for
/// good at the first `End` or `Error`.
pub struct LlmStream<S: EventSource> {
    inner: S,
    next_token_index: usize,
    finished: bool,
}

impl<S: EventSource> LlmStream<S> {
    /// The translator's state.
    pub closed spec fn state(&self) -> TranslatorState {
        TranslatorState {
            next_token_index: self.next_token_index as nat,
            finished: self.finished,
        }
    }

    /// The source the raw events come from.
    pub closed spec fn source(&self) -> S {
        self.inner
    }

    /// A translator over `stream` that has seen nothing.
    pub fn new(stream: S) -> (translated: Self)
        ensures
            translated.state() == fresh(),
            translated.source() == stream,
    {
        LlmStream { inner: stream, next_token_index: 0, finished: false }
    }

    /// The index the next token will carry, which is the number of tokens
    /// handed out so far.
    pub fn next_token_index(&self) -> (index: usize)
        ensures
            index == self.state().next_token_index,
    {
        self.next_token_index
    }

    /// Whether the stream has ended: no further item will come.
    pub fn is_finished(&self) -> (finished: bool)
        ensures
            finished == self.state().finished,
    {
        self.finished
    }

    /// Takes one raw event and hands out what it translates to. The source is
    /// left alone.
    pub fn translate(&mut self, raw: StreamEvent) -> (item: Option<
        Result<LlmStreamEvent, LlmError>,
    >)
        requires
            old(self).state().next_token_index < usize::MAX,
        ensures
            item_view(item) == yielded(old(self).state(), raw),
            final(self).state() == advanced(old(self).state(), raw),
            final(self).source() == old(self).source(),
    {
        if self.finished {
            return None;
        }
        let mapped = match raw {
            StreamEvent::Started => Ok(LlmStreamEvent::Started),
            StreamEvent::Token(text) => {
                let index = self.next_token_index;
                self.next_token_index = self.next_token_index + 1;
                Ok(LlmStreamEvent::Token { text, index })
            },
            StreamEvent::Metrics(payload) => Ok(LlmStreamEvent::Metrics { payload }),
            StreamEvent::End => {
                self.finished = true;
                Ok(LlmStreamEvent::Completed)
            },
            StreamEvent::Error(message) => {
                self.finished = true;
                Err(LlmError::stream_error("orch.stream", message))
            },
        };
        Some(mapped)
    }

    /// Polls the stream. A finished stream hands out nothing and does not
    /// touch its source; otherwise the source is asked for one raw event,
    /// which is translated.
    pub fn next(&mut self) -> (item: Option<Result<LlmStreamEvent, LlmError>>)
        requires
            old(self).state().next_token_index < usize::MAX,
        ensures
            old(self).state().finished ==> item is None && *final(self) == *old(self),
            !old(self).state().finished ==> exists|raw: Option<StreamEvent>|
                {
                    &&& #[trigger] old(self).source().gives(raw, &final(self).source())
                    &&& item_view(item) == polled(old(self).state(), raw)
                    &&& final(self).state() == state_after_poll(old(self).state(), raw)
                },
    {
        if self.finished {
            return None;
        }
        let raw = self.inner.next_event();
        let ghost given = raw;
        let item = match raw {
            None => None,
            Some(event) => self.translate(event),
        };
        assert(old(self).source().gives(given, &self.source()));
        item
    }
}

/// What a stream that is not finished hands out when its source gave `raw`:
/// nothing where the source gave nothing, else what the raw event
/// translates to.
pub open spec fn polled(state: TranslatorState, raw: Option<StreamEvent>) -> Option<
    Result<StreamEventView, LlmErrorView>,
> {
    match raw {
        Some(event) => yielded(state, event),
        None => None,
    }
}

/// The state of a translator after its source gave `raw`.
pub open spec fn state_after_poll(
    state: TranslatorState,
    raw: Option<StreamEvent>,
) -> TranslatorState {
    match raw {
        Some(event) => advanced(state, event),
        None => state,
    }
}

/// `wrapped` is the facade's form of the orchestrator's answer to a
/// capability request: the snapshot as it came, or the error carried over.
pub open spec fn wraps_capabilities(
    answer: Result<Capabilities, NrvServerError>,
    wrapped: Result<Capabilities, LlmError>,
) -> bool {
    match answer {
        Ok(snapshot) => wrapped == Ok::<Capabilities, LlmError>(snapshot),
        Err(err) => wrapped is Err && wrapped->Err_0@ == carried_over(err),
    }
}

/// `wrapped` is the facade's form of the orchestrator's answer to an
/// enqueue request: the handle of the accepted task, or the error carried
/// over.
pub open spec fn wraps_accepted(
    answer: Result<TaskAccepted, NrvServerError>,
    wrapped: Result<LlmTaskHandle, LlmError>,
) -> bool {
    match answer {
        Ok(accepted) => {
            &&& wrapped is Ok
            &&& wrapped->Ok_0@ == (TaskHandleView {
                task_id: accepted.task_id.0@,
                queue_position: accepted.queue_position,
            })
            &&& wrapped->Ok_0.id() == accepted.task_id
        },
        Err(err) => wrapped is Err && wrapped->Err_0@ == carried_over(err),
    }
}

/// `wrapped` is the facade's form of the orchestrator's answer to a stream
/// request: a translated stream over the raw one that has seen nothing, or
/// the error carried over.
pub open spec fn wraps_stream<S: EventSource>(
    answer: Result<S, NrvServerError>,
    wrapped: Result<LlmStream<S>, LlmError>,
) -> bool {
    match answer {
        Ok(raw) => {
            &&& wrapped is Ok
            &&& wrapped->Ok_0.state() == fresh()
            &&& wrapped->Ok_0.source() == raw
        },
        Err(err) => wrapped is Err && wrapped->Err_0@ == carried_over(err),
    }
}

/// `wrapped` is the facade's form of the orchestrator's answer to a
/// cancellation request: the confirmation, or the error carried over.
pub open spec fn wraps_cancelled(
    answer: Result<Cancelled, NrvServerError>,
    wrapped: Result<CancelOutcome, LlmError>,
) -> bool {
    match answer {
        Ok(_) => wrapped is Ok,
        Err(err) => wrapped is Err && wrapped->Err_0@ == carried_over(err),
    }
}

/// Turns the orchestrator's answer to a capability request into the
/// facade's.
pub fn wrap_capabilities(answer: Result<Capabilities, NrvServerError>) -> (wrapped: Result<
    Capabilities,
    LlmError,
>)
    ensures
        wraps_capabilities(answer, wrapped),
{
    match answer {
        Ok(snapshot) => Ok(snapshot),
        Err(err) => Err(LlmError::from_orchestrator(err)),
    }
}

/// Turns the orchestrator's answer to an enqueue request into a task handle.
pub fn wrap_accepted(answer: Result<TaskAccepted, NrvServerError>) -> (wrapped: Result<
    LlmTaskHandle,
    LlmError,
>)
    ensures
        wraps_accepted(answer, wrapped),
{
    match answer {
        Ok(accepted) => Ok(LlmTaskHandle::from(accepted)),
        Err(err) => Err(LlmError::from_orchestrator(err)),
    }
}

/// Turns the orchestrator's answer to a stream request into a translated
/// stream that has seen nothing.
pub fn wrap_stream<S: EventSource>(answer: Result<S, NrvServerError>) -> (wrapped: Result<
    LlmStream<S>,
    LlmError,
>)
    ensures
        wraps_stream(answer, wrapped),
{
    match answer {
        Ok(raw) => Ok(LlmStream::new(raw)),
        Err(err) => Err(LlmError::from_orchestrator(err)),
    }
}

/// Turns the orchestrator's answer to a cancellation request into the
/// facade's.
pub fn wrap_cancelled(answer: Result<Cancelled, NrvServerError>) -> (wrapped: Result<
    CancelOutcome,
    LlmError,
>)
    ensures
        wraps_cancelled(answer, wrapped),
{
    match answer {
        Ok(_) => Ok(CancelOutcome),
        Err(err) => Err(LlmError::from_orchestrator(err)),
    }
}

/// `Arc::clone`: a second handle to the same shared value.
#[verifier::external_body]
fn share<T>(shared: &Arc<T>) -> (again: Arc<T>)
    ensures
        again == *shared,
{
    Arc::clone(shared)
}

/// What an [`LlmClient`] is made from.
pub struct LlmClientConfig<O: OrchestratorClient + Send + Sync + 'static> {
    pub orchestrator: Arc<O>,
}

impl<O: OrchestratorClient + Send + Sync + 'static> LlmClientConfig<O> {
    pub fn new(orchestrator: O) -> (config: Self)
        ensures
            *config.orchestrator == orchestrator,
    {
        Self { orchestrator: Arc::new(orchestrator) }
    }
}

/// Builds a client from its configuration.
pub fn client<O: OrchestratorClient + Send + Sync + 'static>(config: LlmClientConfig<O>) -> (made:
    Result<LlmClient<O>, LlmError>)
    ensures
        made is Ok,
        made->Ok_0.orchestrator() == config.orchestrator,
{
    Ok(LlmClient::new(config.orchestrator))
}

/// The facade over one orchestrator implementation, which its clones share.
pub struct LlmClient<O: OrchestratorClient + Send + Sync + 'static> {
    orchestrator: Arc<O>,
}

impl<O: OrchestratorClient + Send + Sync + 'static> Clone for LlmClient<O> {
    fn clone(&self) -> (copy: Self)
        ensures
            copy.orchestrator() == self.orchestrator(),
    {
        Self { orchestrator: share(&self.orchestrator) }
    }
}

impl<O: OrchestratorClient + Send + Sync + 'static> LlmClient<O> {
    /// The shared orchestrator implementation.
    pub closed spec fn orchestrator(&self) -> Arc<O> {
        self.orchestrator
    }

    pub fn new(orchestrator: Arc<O>) -> (made: Self)
        ensures
            made.orchestrator() == orchestrator,
    {
        Self { orchestrator }
    }

    /// Asks the orchestrator for its capability snapshot and hands back its
    /// answer: the snapshot as it came, or the refusal as an orchestrator
    /// error.
    pub fn capabilities(&self) -> (answer: Result<Capabilities, LlmError>)
        ensures
            exists|given: Result<Capabilities, NrvServerError>|
                {
                    &&& #[trigger] self.orchestrator().answers_capabilities(given)
                    &&& wraps_capabilities(given, answer)
                },
            answer is Err ==> answer->Err_0@ is Orchestrator,
    {
        let given = self.orchestrator.capabilities();
        assert(self.orchestrator().answers_capabilities(given));
        wrap_capabilities(given)
    }

    /// Hands the orchestrator the task request made of `request`, with the
    /// workload named, and hands back its answer: the handle of the accepted
    /// task, or the refusal as an orchestrator error.
    pub fn enqueue(&self, request: LlmRequest) -> (answer: Result<LlmTaskHandle, LlmError>)
        ensures
            exists|given: Result<TaskAccepted, NrvServerError>|
                {
                    &&& #[trigger] self.orchestrator().answers_enqueue(
                        request.task_request(),
                        given,
                    )
                    &&& wraps_accepted(given, answer)
                },
            answer is Err ==> answer->Err_0@ is Orchestrator,
    {
        let given = self.orchestrator.enqueue(request.into_task_request());
        assert(self.orchestrator().answers_enqueue(request.task_request(), given));
        wrap_accepted(given)
    }

    /// Asks the orchestrator for the events of the task behind `handle` and
    /// hands back its answer: a translated stream over the raw one that has
    /// seen nothing yet, or the refusal as an orchestrator error.
    pub fn stream(&self, handle: &LlmTaskHandle) -> (answer: Result<
        LlmStream<O::Stream>,
        LlmError,
    >)
        ensures
            exists|given: Result<O::Stream, NrvServerError>|
                {
                    &&& #[trigger] self.orchestrator().answers_stream(&handle.id(), given)
                    &&& wraps_stream(given, answer)
                },
            answer is Ok ==> answer->Ok_0.state() == fresh(),
            answer is Err ==> answer->Err_0@ is Orchestrator,
    {
        let given = self.orchestrator.stream(handle.task_id());
        assert(self.orchestrator().answers_stream(&handle.id(), given));
        wrap_stream(given)
    }

    /// Asks the orchestrator to cancel the task behind `handle` and hands
    /// back its answer: the confirmation, or the refusal as an orchestrator
    /// error.
    pub fn cancel(&self, handle: &LlmTaskHandle) -> (answer: Result<CancelOutcome, LlmError>)
        ensures
            exists|given: Result<Cancelled, NrvServerError>|
                {
                    &&& #[trigger] self.orchestrator().answers_cancel(&handle.id(), given)
                    &&& wraps_cancelled(given, answer)
                },
            answer is Err ==> answer->Err_0@ is Orchestrator,
    {
        let given = self.orchestrator.cancel(handle.task_id());
        assert(self.orchestrator().answers_cancel(&handle.id(), given));
        wrap_cancelled(given)
    }
}

} // verus!
