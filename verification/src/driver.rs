//! The dynamic-shape inference session as a state machine.
//!
//! The foreign runtime can only be called from unverified code, so the
//! session logic is a pure transition function: given the machine's state
//! and the outcome of the last foreign call (an [`Event`]), [`step`] decides
//! the next state and the next call to make (an [`Action`]).  An outer loop
//! performs each action against the real runtime and feeds the outcome
//! back.  Every decision of the session — the config check, the
//! round-per-candidate-shape structure, the re-queries, the run repetition,
//! the error taxonomy, and the destroy-exactly-once discipline — is made
//! here, under contract.

use crate::tensor::{
    attrs_view, merge_shapes, merged_attr, ranges_match_attrs, CoreMask, ShapeRange, TensorAttr,
};
use vstd::prelude::*;

verus! {

/// Why a session ended: file access, the lifecycle stage whose foreign call
/// reported non-success (with the status code where the stage is generic),
/// a configuration mismatch, or an event that does not answer the action
/// the machine ordered.
#[derive(Clone, Copy, Debug, PartialEq, Eq, Structural)]
pub enum DriverError {
    Io,
    RuntimeInit,
    Query,
    ShapeApply,
    RuntimeOutput,
    RuntimeCall(i32),
    Configuration,
    Protocol,
}

/// How a session ended.
#[derive(Clone, Copy, Debug, PartialEq, Eq, Structural)]
pub enum Outcome {
    Completed,
    Failed(DriverError),
}

/// The next foreign call (or local piece of work) the outer loop must
/// perform.
pub enum Action {
    /// Initialize the runtime with the model and query its slot counts.
    LoadModel,
    /// Query the runtime's version strings.
    QuerySdkVersion,
    /// Query one descriptor per input slot.
    QueryInputAttrs,
    /// Query one descriptor per output slot.
    QueryOutputAttrs,
    /// Query the dynamic shape range of every input slot.
    QueryShapeRanges,
    /// Decode the input images from their files.
    DecodeImages,
    /// Submit these descriptors, whose dimensions hold the current
    /// candidate shape, to the runtime.
    ApplyShapes(Vec<TensorAttr>),
    /// Select the processing-unit affinity.
    SetCoreMask(CoreMask),
    /// Resize each image to its slot's resolved shape and bind the buffers.
    BindInputs(Vec<TensorAttr>),
    /// Execute one synchronous inference run and time it.
    RunOnce,
    /// Fetch the output buffers.  Ownership of the fetched buffers
    /// transfers to the caller; the machine never orders the runtime's own
    /// release call for them, which would free them a second time.
    FetchOutputs,
    /// Tear the context down.
    Destroy,
    /// Nothing is left to do; the session ended as reported.
    Finish(Outcome),
}

/// The outcome of the last ordered action, as the outer loop reports it.
pub enum Event {
    /// The model loaded; the runtime declared these slot counts.
    Loaded { n_input: u32, n_output: u32 },
    /// The version query succeeded.
    SdkVersionOk,
    /// The input-descriptor query succeeded with these descriptors.
    InputAttrs(Vec<TensorAttr>),
    /// The output-descriptor query succeeded with these descriptors.
    OutputAttrs(Vec<TensorAttr>),
    /// The shape-range query succeeded with these ranges.
    ShapeRanges(Vec<ShapeRange>),
    /// All input images decoded.
    ImagesDecoded,
    /// A required input file — the model or an image — could not be read
    /// or decoded.
    InputUnavailable,
    /// The runtime accepted the submitted shapes.
    ShapesApplied,
    /// The affinity mask was set.
    CoreMaskSet,
    /// The input buffers were bound.
    InputsBound,
    /// One run finished, taking this many milliseconds of wall clock.
    RunFinished { elapsed_ms: u32 },
    /// The output buffers were fetched.
    OutputsFetched,
    /// The ordered foreign call reported this non-success status.
    CallFailed { status: i32 },
    /// The context was torn down.
    Destroyed,
}

/// Where in its lifecycle the session stands: which answer it awaits, and
/// for the per-round phases, which candidate shape `s` it is negotiating.
#[derive(Clone, Copy, Debug, PartialEq, Eq, Structural)]
pub enum Phase {
    AwaitLoad,
    AwaitSdkVersion,
    AwaitInputAttrs,
    AwaitOutputAttrs,
    AwaitShapeRanges,
    AwaitImages,
    AwaitShapeApplied { s: u32 },
    AwaitRequeryIn { s: u32 },
    AwaitRequeryOut { s: u32 },
    AwaitCoreMask { s: u32 },
    AwaitInputsBound { s: u32 },
    AwaitRun { s: u32, done: u8 },
    AwaitOutputs { s: u32 },
    Destroying { outcome: Outcome },
    Finished { outcome: Outcome },
}

/// What the session was asked to do: how many input files were supplied,
/// how often to run per candidate shape, and which cores to use.
#[derive(Clone, Copy, Debug, PartialEq, Eq, Structural)]
pub struct RunConfig {
    pub input_count: usize,
    pub loop_count: u8,
    pub core_mask: CoreMask,
}

/// The session state.  Besides the phase and the data collected from the
/// runtime, it keeps audit counters that move only when the matching action
/// is ordered, so that the contracts can speak about how often each foreign
/// call happens.
pub struct Driver {
    pub phase: Phase,
    /// Declared input slot count, once loaded.
    pub n_input: u32,
    /// Declared output slot count, once loaded.
    pub n_output: u32,
    /// Input descriptors from the first query; each round's candidate
    /// dimensions are merged over these.
    pub base_attrs: Vec<TensorAttr>,
    /// One shape range per input slot.
    pub ranges: Vec<ShapeRange>,
    /// Number of candidate shapes, `K`; zero for a fixed-shape model.
    pub shape_count: u32,
    /// Re-queried input descriptors of the current round.
    pub cur_attrs: Vec<TensorAttr>,
    /// Wall-clock durations of this round's runs, in milliseconds.
    pub samples: Vec<u32>,
    /// Whether a context was ever created.
    pub ctx_created: bool,
    /// Whether the context is currently alive.
    pub ctx_live: bool,
    /// How many `QueryInputAttrs` actions were ordered.
    pub input_queries: u64,
    /// How many `QueryOutputAttrs` actions were ordered.
    pub output_queries: u64,
    /// How many `ApplyShapes` actions were ordered.
    pub applies: u64,
    /// How many `RunOnce` actions were ordered.
    pub runs: u64,
    /// How many `Destroy` actions were ordered.
    pub destroys: u32,
}

/// A full descriptor set: one well-formed descriptor per declared slot.
pub open spec fn attrs_ok(s: Seq<TensorAttr>, n: u32) -> bool {
    &&& s.len() == n
    &&& forall|i: int| 0 <= i < s.len() ==> (#[trigger] s[i])@.wf()
}

/// Number of candidate shapes a range set offers (all slots offer the same
/// number once validated).
pub open spec fn shape_count_of(rs: Seq<ShapeRange>) -> int {
    if rs.len() == 0 {
        0
    } else {
        rs[0]@.entries.len() as int
    }
}

/// A validated range set: one well-formed range per input slot, each of the
/// slot's declared rank, all offering the same number of candidates.
pub open spec fn ranges_ok(rs: Seq<ShapeRange>, base: Seq<TensorAttr>, n: u32) -> bool {
    &&& rs.len() == n
    &&& base.len() == n
    &&& forall|i: int| 0 <= i < rs.len() ==> (#[trigger] rs[i])@.wf()
    &&& forall|i: int| 0 <= i < rs.len() ==> (#[trigger] rs[i])@.n_dims == base[i]@.n_dims
    &&& forall|i: int|
        0 <= i < rs.len() ==> (#[trigger] rs[i])@.entries.len() == shape_count_of(rs)
}

/// Everything negotiation needs is in hand and consistent.
pub open spec fn negotiation_ready(d: Driver) -> bool {
    &&& attrs_ok(d.base_attrs@, d.n_input)
    &&& ranges_ok(d.ranges@, d.base_attrs@, d.n_input)
    &&& d.shape_count == shape_count_of(d.ranges@)
}

/// No runtime work has been ordered yet.
pub open spec fn counters_zero(d: Driver) -> bool {
    &&& d.input_queries == 0
    &&& d.output_queries == 0
    &&& d.applies == 0
    &&& d.runs == 0
}

/// Facts shared by every phase in which the context is alive.
pub open spec fn session_live(cfg: RunConfig, d: Driver) -> bool {
    &&& d.ctx_created
    &&& d.ctx_live
    &&& d.destroys == 0
    &&& cfg.input_count == d.n_input
}

/// Counter bookkeeping of one negotiation round: before candidate `s` is
/// applied, `s` rounds are fully accounted for.
pub open spec fn round_counters(cfg: RunConfig, d: Driver, s: u32) -> bool {
    &&& s < d.shape_count
    &&& d.applies == s + 1
    &&& d.runs == s * cfg.loop_count
}

/// The state invariant: what holds of the machine in each phase.  In
/// particular, a session that reaches its end successfully has applied all
/// `K` candidate shapes, re-queried both descriptor sets once per round on
/// top of the initial queries, and run `K * loop_count` times; and a
/// destroy is ordered exactly once for a context that was created, never
/// for one that was not.
pub open spec fn inv(cfg: RunConfig, d: Driver) -> bool {
    match d.phase {
        Phase::AwaitLoad => {
            &&& d.samples@.len() == 0
            &&& !d.ctx_created
            &&& !d.ctx_live
            &&& d.destroys == 0
            &&& counters_zero(d)
        },
        Phase::AwaitSdkVersion => {
            &&& session_live(cfg, d)
            &&& d.samples@.len() == 0
            &&& counters_zero(d)
        },
        Phase::AwaitInputAttrs => {
            &&& session_live(cfg, d)
            &&& d.samples@.len() == 0
            &&& d.input_queries == 1
            &&& d.output_queries == 0
            &&& d.applies == 0
            &&& d.runs == 0
        },
        Phase::AwaitOutputAttrs => {
            &&& session_live(cfg, d)
            &&& d.samples@.len() == 0
            &&& attrs_ok(d.base_attrs@, d.n_input)
            &&& d.input_queries == 1
            &&& d.output_queries == 1
            &&& d.applies == 0
            &&& d.runs == 0
        },
        Phase::AwaitShapeRanges => {
            &&& session_live(cfg, d)
            &&& d.samples@.len() == 0
            &&& attrs_ok(d.base_attrs@, d.n_input)
            &&& d.input_queries == 1
            &&& d.output_queries == 1
            &&& d.applies == 0
            &&& d.runs == 0
        },
        Phase::AwaitImages => {
            &&& session_live(cfg, d)
            &&& d.samples@.len() == 0
            &&& negotiation_ready(d)
            &&& d.input_queries == 1
            &&& d.output_queries == 1
            &&& d.applies == 0
            &&& d.runs == 0
        },
        Phase::AwaitShapeApplied { s } => {
            &&& session_live(cfg, d)
            &&& negotiation_ready(d)
            &&& round_counters(cfg, d, s)
            &&& d.input_queries == s + 1
            &&& d.output_queries == s + 1
            &&& d.samples@.len() == 0
        },
        Phase::AwaitRequeryIn { s } => {
            &&& session_live(cfg, d)
            &&& negotiation_ready(d)
            &&& round_counters(cfg, d, s)
            &&& d.input_queries == s + 2
            &&& d.output_queries == s + 1
            &&& d.samples@.len() == 0
        },
        Phase::AwaitRequeryOut { s } => {
            &&& session_live(cfg, d)
            &&& negotiation_ready(d)
            &&& round_counters(cfg, d, s)
            &&& d.input_queries == s + 2
            &&& d.output_queries == s + 2
            &&& attrs_ok(d.cur_attrs@, d.n_input)
            &&& d.samples@.len() == 0
        },
        Phase::AwaitCoreMask { s } => {
            &&& session_live(cfg, d)
            &&& negotiation_ready(d)
            &&& round_counters(cfg, d, s)
            &&& d.input_queries == s + 2
            &&& d.output_queries == s + 2
            &&& attrs_ok(d.cur_attrs@, d.n_input)
            &&& d.samples@.len() == 0
        },
        Phase::AwaitInputsBound { s } => {
            &&& session_live(cfg, d)
            &&& negotiation_ready(d)
            &&& round_counters(cfg, d, s)
            &&& d.input_queries == s + 2
            &&& d.output_queries == s + 2
            &&& d.samples@.len() == 0
        },
        Phase::AwaitRun { s, done } => {
            &&& session_live(cfg, d)
            &&& negotiation_ready(d)
            &&& s < d.shape_count
            &&& done < cfg.loop_count
            &&& d.applies == s + 1
            &&& d.runs == s * cfg.loop_count + done + 1
            &&& d.input_queries == s + 2
            &&& d.output_queries == s + 2
            &&& d.samples@.len() == done
        },
        Phase::AwaitOutputs { s } => {
            &&& session_live(cfg, d)
            &&& negotiation_ready(d)
            &&& s < d.shape_count
            &&& d.applies == s + 1
            &&& d.runs == (s + 1) * cfg.loop_count
            &&& d.input_queries == s + 2
            &&& d.output_queries == s + 2
            &&& d.samples@.len() == cfg.loop_count
        },
        Phase::Destroying { outcome } => {
            &&& d.ctx_created
            &&& d.ctx_live
            &&& d.destroys == 1
            &&& outcome is Completed ==> {
                &&& d.runs == d.shape_count * cfg.loop_count
                &&& d.applies == d.shape_count
                &&& d.input_queries == d.shape_count + 1
                &&& d.output_queries == d.shape_count + 1
            }
        },
        Phase::Finished { outcome } => {
            &&& !d.ctx_live
            &&& d.destroys == (if d.ctx_created {
                1int
            } else {
                0int
            })
            &&& outcome is Completed ==> {
                &&& d.runs == d.shape_count * cfg.loop_count
                &&& d.applies == d.shape_count
                &&& d.input_queries == d.shape_count + 1
                &&& d.output_queries == d.shape_count + 1
            }
        },
    }
}

/// The parts of the machine that stand for the loaded model: the slot
/// counts, the base descriptors and the shape ranges.  Once gathered they
/// never change.
pub open spec fn keeps_model(d: Driver, d2: Driver) -> bool {
    &&& d2.n_input == d.n_input
    &&& d2.n_output == d.n_output
    &&& d2.base_attrs@ == d.base_attrs@
    &&& d2.ranges@ == d.ranges@
    &&& d2.shape_count == d.shape_count
}

/// The machine fails the session: teardown is ordered for a live context.
pub open spec fn fails_with(d: Driver, d2: Driver, a: Action, err: DriverError) -> bool {
    &&& d2.phase == (Phase::Destroying { outcome: Outcome::Failed(err) })
    &&& a is Destroy
    &&& keeps_model(d, d2)
}

/// The full transition relation of the session machine: for every phase and
/// event, which phase and action follow, and which gathered data the new
/// state holds.  [`step`] ensures it, so the machine's behaviour is pinned,
/// not merely bounded.
pub open spec fn transition_ok(cfg: RunConfig, d: Driver, ev: Event, d2: Driver, a: Action) -> bool {
    match d.phase {
        Phase::AwaitLoad => match ev {
            Event::Loaded { n_input, n_output } => if cfg.input_count == n_input {
                &&& d2.phase == Phase::AwaitSdkVersion
                &&& a is QuerySdkVersion
                &&& d2.n_input == n_input
                &&& d2.n_output == n_output
                &&& d2.ctx_created
                &&& d2.ctx_live
            } else {
                &&& d2.phase == (Phase::Destroying {
                    outcome: Outcome::Failed(DriverError::Configuration),
                })
                &&& a is Destroy
            },
            Event::InputUnavailable => {
                &&& d2.phase == (Phase::Finished { outcome: Outcome::Failed(DriverError::Io) })
                &&& a is Finish
            },
            Event::CallFailed { .. } => {
                &&& d2.phase == (Phase::Finished {
                    outcome: Outcome::Failed(DriverError::RuntimeInit),
                })
                &&& a is Finish
            },
            _ => {
                &&& d2.phase == (Phase::Finished {
                    outcome: Outcome::Failed(DriverError::Protocol),
                })
                &&& a is Finish
            },
        },
        Phase::AwaitSdkVersion => match ev {
            Event::SdkVersionOk => {
                &&& d2.phase == Phase::AwaitInputAttrs
                &&& a is QueryInputAttrs
                &&& keeps_model(d, d2)
            },
            Event::CallFailed { .. } => fails_with(d, d2, a, DriverError::Query),
            _ => fails_with(d, d2, a, DriverError::Protocol),
        },
        Phase::AwaitInputAttrs => match ev {
            Event::InputAttrs(attrs) => if attrs_ok(attrs@, d.n_input) {
                &&& d2.phase == Phase::AwaitOutputAttrs
                &&& a is QueryOutputAttrs
                &&& d2.base_attrs@ == attrs@
                &&& d2.n_input == d.n_input
                &&& d2.n_output == d.n_output
            } else {
                fails_with(d, d2, a, DriverError::Query)
            },
            Event::CallFailed { .. } => fails_with(d, d2, a, DriverError::Query),
            _ => fails_with(d, d2, a, DriverError::Protocol),
        },
        Phase::AwaitOutputAttrs => match ev {
            Event::OutputAttrs(..) => {
                &&& d2.phase == Phase::AwaitShapeRanges
                &&& a is QueryShapeRanges
                &&& keeps_model(d, d2)
            },
            Event::CallFailed { .. } => fails_with(d, d2, a, DriverError::Query),
            _ => fails_with(d, d2, a, DriverError::Protocol),
        },
        Phase::AwaitShapeRanges => match ev {
            Event::ShapeRanges(rs) => if ranges_ok(rs@, d.base_attrs@, d.n_input)
                && shape_count_of(rs@) <= u32::MAX {
                &&& d2.phase == Phase::AwaitImages
                &&& a is DecodeImages
                &&& d2.ranges@ == rs@
                &&& d2.shape_count == shape_count_of(rs@)
                &&& d2.base_attrs@ == d.base_attrs@
                &&& d2.n_input == d.n_input
                &&& d2.n_output == d.n_output
            } else {
                fails_with(d, d2, a, DriverError::Query)
            },
            Event::CallFailed { .. } => fails_with(d, d2, a, DriverError::Query),
            _ => fails_with(d, d2, a, DriverError::Protocol),
        },
        Phase::AwaitImages => match ev {
            Event::ImagesDecoded => if d.shape_count == 0 {
                &&& d2.phase == (Phase::Destroying { outcome: Outcome::Completed })
                &&& a is Destroy
                &&& keeps_model(d, d2)
            } else {
                &&& d2.phase == (Phase::AwaitShapeApplied { s: 0 })
                &&& a is ApplyShapes
                &&& keeps_model(d, d2)
            },
            Event::InputUnavailable => fails_with(d, d2, a, DriverError::Io),
            _ => fails_with(d, d2, a, DriverError::Protocol),
        },
        Phase::AwaitShapeApplied { s } => match ev {
            Event::ShapesApplied => {
                &&& d2.phase == (Phase::AwaitRequeryIn { s })
                &&& a is QueryInputAttrs
                &&& keeps_model(d, d2)
            },
            Event::CallFailed { .. } => fails_with(d, d2, a, DriverError::ShapeApply),
            _ => fails_with(d, d2, a, DriverError::Protocol),
        },
        Phase::AwaitRequeryIn { s } => match ev {
            Event::InputAttrs(attrs) => if attrs_ok(attrs@, d.n_input) {
                &&& d2.phase == (Phase::AwaitRequeryOut { s })
                &&& a is QueryOutputAttrs
                &&& d2.cur_attrs@ == attrs@
                &&& keeps_model(d, d2)
            } else {
                fails_with(d, d2, a, DriverError::Query)
            },
            Event::CallFailed { .. } => fails_with(d, d2, a, DriverError::Query),
            _ => fails_with(d, d2, a, DriverError::Protocol),
        },
        Phase::AwaitRequeryOut { s } => match ev {
            Event::OutputAttrs(..) => {
                &&& d2.phase == (Phase::AwaitCoreMask { s })
                &&& a matches Action::SetCoreMask(m) && m == cfg.core_mask
                &&& keeps_model(d, d2)
            },
            Event::CallFailed { .. } => fails_with(d, d2, a, DriverError::Query),
            _ => fails_with(d, d2, a, DriverError::Protocol),
        },
        Phase::AwaitCoreMask { s } => match ev {
            Event::CoreMaskSet => {
                &&& d2.phase == (Phase::AwaitInputsBound { s })
                &&& a matches Action::BindInputs(v) && v@ == d.cur_attrs@
                &&& keeps_model(d, d2)
            },
            Event::CallFailed { status } => fails_with(
                d,
                d2,
                a,
                DriverError::RuntimeCall(status),
            ),
            _ => fails_with(d, d2, a, DriverError::Protocol),
        },
        Phase::AwaitInputsBound { s } => match ev {
            Event::InputsBound => if cfg.loop_count == 0 {
                &&& d2.phase == (Phase::AwaitOutputs { s })
                &&& a is FetchOutputs
                &&& keeps_model(d, d2)
            } else {
                &&& d2.phase == (Phase::AwaitRun { s, done: 0 })
                &&& a is RunOnce
                &&& keeps_model(d, d2)
            },
            Event::CallFailed { status } => fails_with(
                d,
                d2,
                a,
                DriverError::RuntimeCall(status),
            ),
            _ => fails_with(d, d2, a, DriverError::Protocol),
        },
        Phase::AwaitRun { s, done } => match ev {
            Event::RunFinished { elapsed_ms } => if done + 1 < cfg.loop_count {
                &&& d2.phase == (Phase::AwaitRun { s, done: (done + 1) as u8 })
                &&& a is RunOnce
                &&& d2.samples@ == d.samples@.push(elapsed_ms)
                &&& keeps_model(d, d2)
            } else {
                &&& d2.phase == (Phase::AwaitOutputs { s })
                &&& a is FetchOutputs
                &&& d2.samples@ == d.samples@.push(elapsed_ms)
                &&& keeps_model(d, d2)
            },
            Event::CallFailed { status } => fails_with(
                d,
                d2,
                a,
                DriverError::RuntimeCall(status),
            ),
            _ => fails_with(d, d2, a, DriverError::Protocol),
        },
        Phase::AwaitOutputs { s } => match ev {
            Event::OutputsFetched => if s + 1 < d.shape_count {
                &&& d2.phase == (Phase::AwaitShapeApplied { s: (s + 1) as u32 })
                &&& a is ApplyShapes
                &&& keeps_model(d, d2)
            } else {
                &&& d2.phase == (Phase::Destroying { outcome: Outcome::Completed })
                &&& a is Destroy
                &&& keeps_model(d, d2)
            },
            Event::CallFailed { .. } => fails_with(d, d2, a, DriverError::RuntimeOutput),
            _ => fails_with(d, d2, a, DriverError::Protocol),
        },
        Phase::Destroying { outcome } => {
            &&& d2.phase == (Phase::Finished { outcome })
            &&& a matches Action::Finish(o) && o == outcome
            &&& !d2.ctx_live
        },
        Phase::Finished { outcome } => {
            &&& d2.phase == (Phase::Finished { outcome })
            &&& a matches Action::Finish(o) && o == outcome
        },
    }
}

/// A validated descriptor and range set admits every candidate shape index
/// as a merge round.
proof fn lemma_ready_matches(base: Seq<TensorAttr>, rs: Seq<ShapeRange>, n: u32, s: int)
    requires
        attrs_ok(base, n),
        ranges_ok(rs, base, n),
        0 <= s < shape_count_of(rs),
    ensures
        ranges_match_attrs(attrs_view(base), rs.map_values(|g: ShapeRange| g@), s),
{
    let av = attrs_view(base);
    let rv = rs.map_values(|g: ShapeRange| g@);
    assert(forall|i: int| 0 <= i < av.len() ==> #[trigger] av[i] == base[i]@);
    assert(forall|i: int| 0 <= i < rv.len() ==> #[trigger] rv[i] == rs[i]@);
}

/// Checks that a freshly received descriptor set has one well-formed entry
/// per declared slot.
pub fn check_attrs(attrs: &Vec<TensorAttr>, n: u32) -> (r: bool)
    ensures
        r == attrs_ok(attrs@, n),
{
    if attrs.len() != n as usize {
        return false;
    }
    let mut i: usize = 0;
    while i < attrs.len()
        invariant
            i <= attrs@.len(),
            forall|t: int| 0 <= t < i ==> (#[trigger] attrs@[t])@.wf(),
        decreases attrs@.len() - i,
    {
        if attrs[i].dims.len() != crate::tensor::MAX_DIMS || attrs[i].n_dims as usize
            > crate::tensor::MAX_DIMS {
            assert(!attrs@[i as int]@.wf());
            return false;
        }
        i = i + 1;
    }
    true
}

/// Checks a freshly received range set against the declared slot count and
/// the descriptors' ranks, and that all slots offer the same number of
/// candidates.
pub fn check_ranges(rs: &Vec<ShapeRange>, base: &Vec<TensorAttr>, n: u32) -> (r: bool)
    ensures
        r == ranges_ok(rs@, base@, n),
{
    if rs.len() != n as usize || base.len() != n as usize {
        return false;
    }
    if rs.len() == 0 {
        return true;
    }
    let count = rs[0].entries.len();
    let mut i: usize = 0;
    while i < rs.len()
        invariant
            i <= rs@.len(),
            rs@.len() == base@.len(),
            rs@.len() > 0,
            count == shape_count_of(rs@),
            forall|t: int| 0 <= t < i ==> (#[trigger] rs@[t])@.wf(),
            forall|t: int| 0 <= t < i ==> (#[trigger] rs@[t])@.n_dims == base@[t]@.n_dims,
            forall|t: int| 0 <= t < i ==> (#[trigger] rs@[t])@.entries.len() == count,
        decreases rs@.len() - i,
    {
        if !rs[i].check_wf() {
            return false;
        }
        if rs[i].n_dims != base[i].n_dims {
            return false;
        }
        if rs[i].entries.len() != count {
            assert(rs@[i as int]@.entries.len() != count);
            return false;
        }
        i = i + 1;
    }
    true
}

/// A session that ended successfully ran `loop_count` times for each of its
/// `K` candidate shapes, applied each of the `K` candidates exactly once,
/// and queried each descriptor set `K + 1` times: once up front and once
/// more per round, before that round's runs.
pub proof fn lemma_completed_session_counts(cfg: RunConfig, d: Driver)
    requires
        inv(cfg, d),
        d.phase == (Phase::Finished { outcome: Outcome::Completed }),
    ensures
        d.runs == d.shape_count * cfg.loop_count,
        d.applies == d.shape_count,
        d.input_queries == d.shape_count + 1,
        d.output_queries == d.shape_count + 1,
{
}

/// Teardown is ordered exactly once for every session whose context came to
/// exist — however the session ended — and never when loading already
/// failed.
pub proof fn lemma_teardown_once(cfg: RunConfig, d: Driver)
    requires
        inv(cfg, d),
        d.phase matches Phase::Finished { .. },
    ensures
        d.ctx_created ==> d.destroys == 1,
        !d.ctx_created ==> d.destroys == 0,
{
}

/// A fresh session: nothing created yet, and the first thing to do is to
/// load the model.
pub fn start(cfg: &RunConfig) -> (r: (Driver, Action))
    ensures
        inv(*cfg, r.0),
        r.0.phase == Phase::AwaitLoad,
        r.1 is LoadModel,
        counters_zero(r.0),
        !r.0.ctx_created,
        r.0.destroys == 0,
{
    let d = Driver {
        phase: Phase::AwaitLoad,
        n_input: 0,
        n_output: 0,
        base_attrs: Vec::new(),
        ranges: Vec::new(),
        shape_count: 0,
        cur_attrs: Vec::new(),
        samples: Vec::new(),
        ctx_created: false,
        ctx_live: false,
        input_queries: 0,
        output_queries: 0,
        applies: 0,
        runs: 0,
        destroys: 0,
    };
    (d, Action::LoadModel)
}

/// One decision of the session: consumes the outcome of the last ordered
/// action and produces the next state and the next action.
///
/// The contract carries the session laws.  The audit counters move exactly
/// with the action ordered, a destroy is never ordered twice, a supplied
/// input count that contradicts the declared slot count fails the session
/// with `Configuration` before any further runtime call, an inference run
/// is only ordered once the round's inputs are bound, the shapes submitted
/// for round `s` are exactly candidate `s` merged over the base
/// descriptors, and binding hands over the descriptors re-queried in the
/// same round.
pub fn step(cfg: &RunConfig, d: Driver, ev: Event) -> (r: (Driver, Action))
    requires
        inv(*cfg, d),
    ensures
        inv(*cfg, r.0),
        transition_ok(*cfg, d, ev, r.0, r.1),
        r.0.input_queries == d.input_queries + (if r.1 is QueryInputAttrs {
            1int
        } else {
            0int
        }),
        r.0.output_queries == d.output_queries + (if r.1 is QueryOutputAttrs {
            1int
        } else {
            0int
        }),
        r.0.applies == d.applies + (if r.1 is ApplyShapes {
            1int
        } else {
            0int
        }),
        r.0.runs == d.runs + (if r.1 is RunOnce {
            1int
        } else {
            0int
        }),
        r.0.destroys == d.destroys + (if r.1 is Destroy {
            1int
        } else {
            0int
        }),
        r.0.destroys <= 1,
        ev matches Event::Loaded { n_input, .. } ==> ((d.phase is AwaitLoad && cfg.input_count
            != n_input) ==> (r.0.phase == (Phase::Destroying {
            outcome: Outcome::Failed(DriverError::Configuration),
        }) && r.1 is Destroy && counters_zero(r.0))),
        r.1 is RunOnce ==> (d.phase matches Phase::AwaitInputsBound { .. } || d.phase
            matches Phase::AwaitRun { .. }),
        r.1 matches Action::ApplyShapes(v) ==> {
            &&& r.0.phase matches Phase::AwaitShapeApplied { s }
            &&& v@.len() == r.0.base_attrs@.len()
            &&& forall|i: int|
                0 <= i < v@.len() ==> (#[trigger] v@[i])@ == merged_attr(
                    r.0.base_attrs@[i]@,
                    r.0.ranges@[i]@.entries[s as int],
                )
        },
        (d.phase matches Phase::AwaitCoreMask { .. } && ev is CoreMaskSet) ==> {
            &&& r.1 matches Action::BindInputs(v)
            &&& v@ == d.cur_attrs@
        },
        (r.1 matches Action::SetCoreMask(m) ==> m == cfg.core_mask),
        d.phase matches Phase::AwaitRun { .. } ==> (ev matches Event::RunFinished { elapsed_ms }
            ==> r.0.samples@ == d.samples@.push(elapsed_ms)),
        (r.1 matches Action::Finish(o) ==> r.0.phase == (Phase::Finished { outcome: o })),
        r.0.phase matches Phase::Finished { outcome } ==> {
            &&& r.1 matches Action::Finish(o)
            &&& o == outcome
        },
{
    let mut d = d;
    match (d.phase, ev) {
        (Phase::AwaitLoad, Event::Loaded { n_input, n_output }) => {
            d.ctx_created = true;
            d.ctx_live = true;
            d.n_input = n_input;
            d.n_output = n_output;
            if cfg.input_count != n_input as usize {
                d.phase = Phase::Destroying {
                    outcome: Outcome::Failed(DriverError::Configuration),
                };
                d.destroys = d.destroys + 1;
                (d, Action::Destroy)
            } else {
                d.phase = Phase::AwaitSdkVersion;
                (d, Action::QuerySdkVersion)
            }
        },
        (Phase::AwaitLoad, Event::InputUnavailable) => {
            d.phase = Phase::Finished { outcome: Outcome::Failed(DriverError::Io) };
            (d, Action::Finish(Outcome::Failed(DriverError::Io)))
        },
        (Phase::AwaitLoad, Event::CallFailed { .. }) => {
            d.phase = Phase::Finished { outcome: Outcome::Failed(DriverError::RuntimeInit) };
            (d, Action::Finish(Outcome::Failed(DriverError::RuntimeInit)))
        },
        (Phase::AwaitLoad, _) => {
            d.phase = Phase::Finished { outcome: Outcome::Failed(DriverError::Protocol) };
            (d, Action::Finish(Outcome::Failed(DriverError::Protocol)))
        },
        (Phase::AwaitSdkVersion, Event::SdkVersionOk) => {
            d.input_queries = d.input_queries + 1;
            d.phase = Phase::AwaitInputAttrs;
            (d, Action::QueryInputAttrs)
        },
        (Phase::AwaitSdkVersion, Event::CallFailed { .. }) => {
            d.phase = Phase::Destroying { outcome: Outcome::Failed(DriverError::Query) };
            d.destroys = d.destroys + 1;
            (d, Action::Destroy)
        },
        (Phase::AwaitInputAttrs, Event::InputAttrs(attrs)) => {
            if check_attrs(&attrs, d.n_input) {
                d.base_attrs = attrs;
                d.output_queries = d.output_queries + 1;
                d.phase = Phase::AwaitOutputAttrs;
                (d, Action::QueryOutputAttrs)
            } else {
                d.phase = Phase::Destroying { outcome: Outcome::Failed(DriverError::Query) };
                d.destroys = d.destroys + 1;
                (d, Action::Destroy)
            }
        },
        (Phase::AwaitInputAttrs, Event::CallFailed { .. }) => {
            d.phase = Phase::Destroying { outcome: Outcome::Failed(DriverError::Query) };
            d.destroys = d.destroys + 1;
            (d, Action::Destroy)
        },
        (Phase::AwaitOutputAttrs, Event::OutputAttrs(..)) => {
            d.phase = Phase::AwaitShapeRanges;
            (d, Action::QueryShapeRanges)
        },
        (Phase::AwaitOutputAttrs, Event::CallFailed { .. }) => {
            d.phase = Phase::Destroying { outcome: Outcome::Failed(DriverError::Query) };
            d.destroys = d.destroys + 1;
            (d, Action::Destroy)
        },
        (Phase::AwaitShapeRanges, Event::ShapeRanges(rs)) => {
            if check_ranges(&rs, &d.base_attrs, d.n_input) {
                let count: usize = if rs.len() == 0 {
                    0
                } else {
                    rs[0].entries.len()
                };
                if count <= u32::MAX as usize {
                    d.ranges = rs;
                    d.shape_count = count as u32;
                    d.phase = Phase::AwaitImages;
                    return (d, Action::DecodeImages);
                }
            }
            d.phase = Phase::Destroying { outcome: Outcome::Failed(DriverError::Query) };
            d.destroys = d.destroys + 1;
            (d, Action::Destroy)
        },
        (Phase::AwaitShapeRanges, Event::CallFailed { .. }) => {
            d.phase = Phase::Destroying { outcome: Outcome::Failed(DriverError::Query) };
            d.destroys = d.destroys + 1;
            (d, Action::Destroy)
        },
        (Phase::AwaitImages, Event::ImagesDecoded) => {
            if d.shape_count == 0 {
                proof {
                    assert(0int * cfg.loop_count == 0) by (nonlinear_arith);
                }
                d.phase = Phase::Destroying { outcome: Outcome::Completed };
                d.destroys = d.destroys + 1;
                (d, Action::Destroy)
            } else {
                proof {
                    lemma_ready_matches(d.base_attrs@, d.ranges@, d.n_input, 0);
                    assert(0int * cfg.loop_count == 0) by (nonlinear_arith);
                }
                let merged = merge_shapes(&d.base_attrs, &d.ranges, 0);
                d.applies = d.applies + 1;
                d.phase = Phase::AwaitShapeApplied { s: 0 };
                (d, Action::ApplyShapes(merged))
            }
        },
        (Phase::AwaitImages, Event::InputUnavailable) => {
            d.phase = Phase::Destroying { outcome: Outcome::Failed(DriverError::Io) };
            d.destroys = d.destroys + 1;
            (d, Action::Destroy)
        },
        (Phase::AwaitShapeApplied { s }, Event::ShapesApplied) => {
            d.input_queries = d.input_queries + 1;
            d.phase = Phase::AwaitRequeryIn { s };
            (d, Action::QueryInputAttrs)
        },
        (Phase::AwaitShapeApplied { .. }, Event::CallFailed { .. }) => {
            d.phase = Phase::Destroying { outcome: Outcome::Failed(DriverError::ShapeApply) };
            d.destroys = d.destroys + 1;
            (d, Action::Destroy)
        },
        (Phase::AwaitRequeryIn { s }, Event::InputAttrs(attrs)) => {
            if check_attrs(&attrs, d.n_input) {
                d.cur_attrs = attrs;
                d.output_queries = d.output_queries + 1;
                d.phase = Phase::AwaitRequeryOut { s };
                (d, Action::QueryOutputAttrs)
            } else {
                d.phase = Phase::Destroying { outcome: Outcome::Failed(DriverError::Query) };
                d.destroys = d.destroys + 1;
                (d, Action::Destroy)
            }
        },
        (Phase::AwaitRequeryIn { .. }, Event::CallFailed { .. }) => {
            d.phase = Phase::Destroying { outcome: Outcome::Failed(DriverError::Query) };
            d.destroys = d.destroys + 1;
            (d, Action::Destroy)
        },
        (Phase::AwaitRequeryOut { s }, Event::OutputAttrs(..)) => {
            d.phase = Phase::AwaitCoreMask { s };
            (d, Action::SetCoreMask(cfg.core_mask))
        },
        (Phase::AwaitRequeryOut { .. }, Event::CallFailed { .. }) => {
            d.phase = Phase::Destroying { outcome: Outcome::Failed(DriverError::Query) };
            d.destroys = d.destroys + 1;
            (d, Action::Destroy)
        },
        (Phase::AwaitCoreMask { s }, Event::CoreMaskSet) => {
            let mut taken: Vec<TensorAttr> = Vec::new();
            core::mem::swap(&mut taken, &mut d.cur_attrs);
            d.phase = Phase::AwaitInputsBound { s };
            (d, Action::BindInputs(taken))
        },
        (Phase::AwaitCoreMask { .. }, Event::CallFailed { status }) => {
            d.phase = Phase::Destroying {
                outcome: Outcome::Failed(DriverError::RuntimeCall(status)),
            };
            d.destroys = d.destroys + 1;
            (d, Action::Destroy)
        },
        (Phase::AwaitInputsBound { s }, Event::InputsBound) => {
            if cfg.loop_count == 0 {
                proof {
                    assert((s + 1int) * cfg.loop_count == s * cfg.loop_count) by (nonlinear_arith)
                        requires cfg.loop_count == 0;
                }
                d.phase = Phase::AwaitOutputs { s };
                (d, Action::FetchOutputs)
            } else {
                proof {
                    assert(s * cfg.loop_count <= 0xffff_ffffint * 255) by (nonlinear_arith)
                        requires 0 <= s <= 0xffff_ffffint, 0 <= cfg.loop_count <= 255;
                }
                d.runs = d.runs + 1;
                d.phase = Phase::AwaitRun { s, done: 0 };
                (d, Action::RunOnce)
            }
        },
        (Phase::AwaitInputsBound { .. }, Event::CallFailed { status }) => {
            d.phase = Phase::Destroying {
                outcome: Outcome::Failed(DriverError::RuntimeCall(status)),
            };
            d.destroys = d.destroys + 1;
            (d, Action::Destroy)
        },
        (Phase::AwaitRun { s, done }, Event::RunFinished { elapsed_ms }) => {
            d.samples.push(elapsed_ms);
            if done + 1 < cfg.loop_count {
                proof {
                    assert(s * cfg.loop_count <= 0xffff_ffffint * 255) by (nonlinear_arith)
                        requires 0 <= s <= 0xffff_ffffint, 0 <= cfg.loop_count <= 255;
                }
                d.runs = d.runs + 1;
                d.phase = Phase::AwaitRun { s, done: done + 1 };
                (d, Action::RunOnce)
            } else {
                proof {
                    assert((s + 1int) * cfg.loop_count == s * cfg.loop_count + cfg.loop_count)
                        by (nonlinear_arith);
                }
                d.phase = Phase::AwaitOutputs { s };
                (d, Action::FetchOutputs)
            }
        },
        (Phase::AwaitRun { .. }, Event::CallFailed { status }) => {
            d.phase = Phase::Destroying {
                outcome: Outcome::Failed(DriverError::RuntimeCall(status)),
            };
            d.destroys = d.destroys + 1;
            (d, Action::Destroy)
        },
        (Phase::AwaitOutputs { s }, Event::OutputsFetched) => {
            if s + 1 < d.shape_count {
                proof {
                    lemma_ready_matches(d.base_attrs@, d.ranges@, d.n_input, s + 1);
                }
                let merged = merge_shapes(&d.base_attrs, &d.ranges, (s + 1) as usize);
                d.applies = d.applies + 1;
                d.samples = Vec::new();
                d.phase = Phase::AwaitShapeApplied { s: s + 1 };
                (d, Action::ApplyShapes(merged))
            } else {
                d.phase = Phase::Destroying { outcome: Outcome::Completed };
                d.destroys = d.destroys + 1;
                (d, Action::Destroy)
            }
        },
        (Phase::AwaitOutputs { .. }, Event::CallFailed { .. }) => {
            d.phase = Phase::Destroying { outcome: Outcome::Failed(DriverError::RuntimeOutput) };
            d.destroys = d.destroys + 1;
            (d, Action::Destroy)
        },
        (Phase::Destroying { outcome }, _) => {
            d.ctx_live = false;
            d.phase = Phase::Finished { outcome };
            (d, Action::Finish(outcome))
        },
        (Phase::Finished { outcome }, _) => (d, Action::Finish(outcome)),
        (_, _) => {
            d.phase = Phase::Destroying { outcome: Outcome::Failed(DriverError::Protocol) };
            d.destroys = d.destroys + 1;
            (d, Action::Destroy)
        },
    }
}

} // verus!
