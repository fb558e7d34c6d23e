//! The pipeline runner as a state machine. The host does the outside work (the
//! fetch from the daemon, the serialization of the records) and reports each
//! outcome as an event; `step` decides what comes next.
use crate::cell::Cell;
use crate::error::{conversion_failure, fetch_failure, LabeledError, RequestContext, TransportError};
use crate::mapper::{map_all, normalized, NormalizedRecord, RawRecords};
use crate::mode::Mode;
use crate::rules::{mode_rules, rule_views, rules_for, transform, transformed, Rule};
use vstd::prelude::*;

verus! {

/// Where an invocation stands. `Done` and `Failed` are terminal.
///
/// A fetched batch is mapped in the step that receives it, and serialized
/// values are transformed in the step that receives them, so the machine
/// never rests between a fetch and its mapping or between a serialization and
/// its transform.
#[derive(Clone, Copy, Debug, PartialEq, Eq, Structural)]
pub enum Stage {
    /// Nothing has been asked of the host yet.
    Idle,
    /// The host is fetching the listing.
    Fetching,
    /// The host is serializing the tagged records.
    Serializing,
    /// The rows have been handed out.
    Done,
    /// An error has been handed out.
    Failed,
}

/// What the host reports.
#[derive(Debug, PartialEq, Eq)]
pub enum Event<C, I> {
    /// The invocation starts.
    Begin,
    /// The fetch returned a batch.
    Fetched(RawRecords<C, I>),
    /// The fetch failed.
    FetchFailed(TransportError),
    /// The records were serialized, one value for each.
    Serialized(Vec<Cell>),
    /// The serializer gave up, with this message.
    SerializeFailed(String),
}

/// What the host is to do next.
#[derive(Debug, PartialEq, Eq)]
pub enum Action<C, I> {
    /// Fetch this listing from the daemon, once and unfiltered.
    Fetch(Mode),
    /// Serialize these records, all or none.
    Serialize(Vec<NormalizedRecord<C, I>>),
    /// Hand these values back as the result, each marked a success.
    Emit(Vec<Cell>),
    /// Hand this error back as the result, and no row.
    Fail(LabeledError),
    /// The event is not one that the stage waits for: do nothing.
    Ignore,
}

/// One invocation: what it lists, the context that its errors carry, the rules
/// for its rows and its stage.
#[derive(Debug, PartialEq, Eq)]
pub struct Pipeline {
    pub mode: Mode,
    pub context: RequestContext,
    pub rules: Vec<Rule>,
    pub stage: Stage,
}

/// Whether `event` is what a pipeline of `mode` waits for at `stage`.
pub open spec fn expected<C, I>(stage: Stage, mode: Mode, event: Event<C, I>) -> bool {
    match stage {
        Stage::Idle => event is Begin,
        Stage::Fetching => (event matches Event::Fetched(raw) && raw.mode() == mode)
            || event is FetchFailed,
        Stage::Serializing => event is Serialized || event is SerializeFailed,
        Stage::Done | Stage::Failed => false,
    }
}

/// The stage after `event`. An event that is not expected leaves the stage as it is.
pub open spec fn next_stage<C, I>(stage: Stage, mode: Mode, event: Event<C, I>) -> Stage {
    if !expected(stage, mode, event) {
        stage
    } else {
        match event {
            Event::Begin => Stage::Fetching,
            Event::Fetched(_) => Stage::Serializing,
            Event::FetchFailed(_) => Stage::Failed,
            Event::Serialized(_) => Stage::Done,
            Event::SerializeFailed(_) => Stage::Failed,
        }
    }
}

/// Whether `action` is the answer of `pipeline` to `event`.
pub open spec fn answers<C, I>(pipeline: Pipeline, event: Event<C, I>, action: Action<C, I>) -> bool {
    if !expected(pipeline.stage, pipeline.mode, event) {
        action is Ignore
    } else {
        match event {
            Event::Begin => action == Action::<C, I>::Fetch(pipeline.mode),
            Event::Fetched(raw) => action matches Action::Serialize(records) && records@
                == normalized(raw),
            Event::FetchFailed(cause) => action matches Action::Fail(error) && error@
                == fetch_failure(cause, pipeline.context),
            Event::Serialized(values) => action matches Action::Emit(rows) && transformed(
                values@,
                rows@,
                rule_views(pipeline.rules@),
            ),
            Event::SerializeFailed(detail) => action matches Action::Fail(error) && error@
                == conversion_failure(detail@, pipeline.context),
        }
    }
}

impl Pipeline {
    /// An idle pipeline for `mode` with the rule list of that listing.
    pub fn new(mode: Mode, context: RequestContext) -> (pipeline: Pipeline)
        ensures
            pipeline.mode == mode,
            pipeline.context == context,
            rule_views(pipeline.rules@) == mode_rules(mode),
            pipeline.stage == Stage::Idle,
    {
        Pipeline { mode, context, rules: rules_for(mode), stage: Stage::Idle }
    }

    /// An idle pipeline for `mode` with a rule list of the caller's.
    pub fn with_rules(mode: Mode, context: RequestContext, rules: Vec<Rule>) -> (pipeline: Pipeline)
        ensures
            pipeline.mode == mode,
            pipeline.context == context,
            pipeline.rules == rules,
            pipeline.stage == Stage::Idle,
    {
        Pipeline { mode, context, rules, stage: Stage::Idle }
    }

    /// Takes the host's report and says what to do next.
    ///
    /// A failure ends the invocation at once: a failed fetch is labelled and
    /// handed back without any record being mapped, a failed serialization
    /// without any row being emitted. On success the batch is mapped, and the
    /// serialized values are transformed by the pipeline's rules, all by the
    /// same list and in the order in which they were fetched.
    pub fn step<C, I>(&mut self, event: Event<C, I>) -> (action: Action<C, I>)
        ensures
            final(self).mode == old(self).mode,
            final(self).context == old(self).context,
            final(self).rules == old(self).rules,
            final(self).stage == next_stage(old(self).stage, old(self).mode, event),
            answers(*old(self), event, action),
    {
        match self.stage {
            Stage::Idle => match event {
                Event::Begin => {
                    self.stage = Stage::Fetching;
                    Action::Fetch(self.mode)
                },
                _ => Action::Ignore,
            },
            Stage::Fetching => match event {
                Event::Fetched(raw) => {
                    if raw.listing() == self.mode {
                        self.stage = Stage::Serializing;
                        Action::Serialize(map_all(raw))
                    } else {
                        Action::Ignore
                    }
                },
                Event::FetchFailed(cause) => {
                    self.stage = Stage::Failed;
                    Action::Fail(LabeledError::fetch_failed(&cause, self.context))
                },
                _ => Action::Ignore,
            },
            Stage::Serializing => match event {
                Event::Serialized(values) => {
                    let mut rows = values;
                    transform(&mut rows, &self.rules);
                    self.stage = Stage::Done;
                    Action::Emit(rows)
                },
                Event::SerializeFailed(detail) => {
                    self.stage = Stage::Failed;
                    Action::Fail(LabeledError::conversion_failed(detail.as_str(), self.context))
                },
                _ => Action::Ignore,
            },
            Stage::Done | Stage::Failed => Action::Ignore,
        }
    }

    /// Whether the invocation has ended.
    pub fn is_finished(&self) -> (finished: bool)
        ensures
            finished == (self.stage == Stage::Done || self.stage == Stage::Failed),
    {
        self.stage == Stage::Done || self.stage == Stage::Failed
    }
}

/// `Done` and `Failed` are terminal: no event moves a pipeline out of them.
pub proof fn lemma_terminal_stages<C, I>(stage: Stage, mode: Mode, event: Event<C, I>)
    requires
        stage == Stage::Done || stage == Stage::Failed,
    ensures
        next_stage(stage, mode, event) == stage,
{
}

/// One fetch for each invocation: a fetch is asked for only on the step out of
/// `Idle`, and no step leads back into `Idle`.
pub proof fn lemma_one_fetch<C, I>(pipeline: Pipeline, event: Event<C, I>, action: Action<C, I>)
    requires
        answers(pipeline, event, action),
    ensures
        action is Fetch ==> pipeline.stage == Stage::Idle && next_stage(
            pipeline.stage,
            pipeline.mode,
            event,
        ) == Stage::Fetching,
        pipeline.stage != Stage::Idle ==> next_stage(pipeline.stage, pipeline.mode, event)
            != Stage::Idle,
{
}

/// Rows are emitted only on the step into `Done`, and an error only on a step into `Failed`.
pub proof fn lemma_results_end_the_invocation<C, I>(
    pipeline: Pipeline,
    event: Event<C, I>,
    action: Action<C, I>,
)
    requires
        answers(pipeline, event, action),
    ensures
        action is Emit <==> next_stage(pipeline.stage, pipeline.mode, event) == Stage::Done
            && pipeline.stage != Stage::Done,
        action is Fail <==> next_stage(pipeline.stage, pipeline.mode, event) == Stage::Failed
            && pipeline.stage != Stage::Failed,
{
}

} // verus!
