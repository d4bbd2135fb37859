use rknn_driver::driver::{
    start, step, Action, Driver, DriverError, Event, Outcome, Phase, RunConfig,
};
use rknn_driver::stats::{duration_stats, DurationStats};
use rknn_driver::tensor::{
    CoreMask, QuantType, ShapeRange, TensorAttr, TensorFormat, TensorType, MAX_DIMS,
};
use rknn_driver::{CLIOptions, Example};

fn attr(index: u32, dims_prefix: &[u32]) -> TensorAttr {
    let mut dims = vec![0u32; MAX_DIMS];
    for (i, d) in dims_prefix.iter().enumerate() {
        dims[i] = *d;
    }
    TensorAttr {
        index,
        name: b"data".to_vec(),
        n_dims: dims_prefix.len() as u32,
        dims,
        n_elems: 0,
        size: 0,
        fmt: TensorFormat::Nhwc,
        ty: TensorType::Uint8,
        qnt: QuantType::Unquantized,
        zp: 0,
        scale_bits: 1.0f32.to_bits(),
    }
}

fn shape_range(index: u32, entries: Vec<Vec<u32>>) -> ShapeRange {
    ShapeRange {
        index,
        name: b"data".to_vec(),
        n_dims: 4,
        entries,
        fmt: TensorFormat::Nhwc,
    }
}

/// A synthetic model: one input slot, the given candidate shapes, and a
/// fixed run duration fed back per run.
struct FakeModel {
    entries: Vec<Vec<u32>>,
    durations: Vec<u32>,
    next_duration: usize,
}

impl FakeModel {
    fn respond(&mut self, action: &Action) -> Event {
        match action {
            Action::LoadModel => Event::Loaded { n_input: 1, n_output: 1 },
            Action::QuerySdkVersion => Event::SdkVersionOk,
            Action::QueryInputAttrs => Event::InputAttrs(vec![attr(0, &[1, 224, 224, 3])]),
            Action::QueryOutputAttrs => Event::OutputAttrs(vec![attr(0, &[1, 1000])]),
            Action::QueryShapeRanges => {
                Event::ShapeRanges(vec![shape_range(0, self.entries.clone())])
            }
            Action::DecodeImages => Event::ImagesDecoded,
            Action::ApplyShapes(_) => Event::ShapesApplied,
            Action::SetCoreMask(_) => Event::CoreMaskSet,
            Action::BindInputs(_) => Event::InputsBound,
            Action::RunOnce => {
                let ms = self.durations[self.next_duration % self.durations.len()];
                self.next_duration += 1;
                Event::RunFinished { elapsed_ms: ms }
            }
            Action::FetchOutputs => Event::OutputsFetched,
            Action::Destroy => Event::Destroyed,
            Action::Finish(_) => panic!("no response to a finished session"),
        }
    }
}

fn tag(action: &Action) -> &'static str {
    match action {
        Action::LoadModel => "load",
        Action::QuerySdkVersion => "sdk",
        Action::QueryInputAttrs => "q_in",
        Action::QueryOutputAttrs => "q_out",
        Action::QueryShapeRanges => "q_ranges",
        Action::DecodeImages => "decode",
        Action::ApplyShapes(_) => "apply",
        Action::SetCoreMask(_) => "mask",
        Action::BindInputs(_) => "bind",
        Action::RunOnce => "run",
        Action::FetchOutputs => "fetch",
        Action::Destroy => "destroy",
        Action::Finish(_) => "finish",
    }
}

fn drive(cfg: &RunConfig, model: &mut FakeModel) -> (Driver, Outcome, Vec<&'static str>) {
    let (mut d, mut a) = start(cfg);
    let mut tags: Vec<&'static str> = vec![tag(&a)];
    loop {
        if let Action::Finish(outcome) = a {
            return (d, outcome, tags);
        }
        let ev = model.respond(&a);
        let (d2, a2) = step(cfg, d, ev);
        d = d2;
        a = a2;
        tags.push(tag(&a));
        assert!(tags.len() < 1000, "session does not terminate");
    }
}

#[test]
fn two_candidate_shapes_run_exactly_twice_each() {
    let cfg = RunConfig { input_count: 1, loop_count: 2, core_mask: CoreMask::Npu0 };
    let mut model = FakeModel {
        entries: vec![vec![1, 224, 224, 3], vec![1, 112, 112, 3]],
        durations: vec![10, 30],
        next_duration: 0,
    };
    let (d, outcome, tags) = drive(&cfg, &mut model);
    assert_eq!(outcome, Outcome::Completed);
    let round = ["apply", "q_in", "q_out", "mask", "bind", "run", "run", "fetch"];
    let mut expected = vec!["load", "sdk", "q_in", "q_out", "q_ranges", "decode"];
    expected.extend_from_slice(&round);
    expected.extend_from_slice(&round);
    expected.extend_from_slice(&["destroy", "finish"]);
    assert_eq!(tags, expected);
    assert_eq!(d.runs, 4);
    assert_eq!(d.applies, 2);
    assert_eq!(d.input_queries, 3);
    assert_eq!(d.output_queries, 3);
    assert_eq!(d.destroys, 1);
}

#[test]
fn candidate_dimensions_are_submitted() {
    let cfg = RunConfig { input_count: 1, loop_count: 1, core_mask: CoreMask::Auto };
    let mut model = FakeModel {
        entries: vec![vec![1, 224, 224, 3], vec![1, 112, 112, 3]],
        durations: vec![10],
        next_duration: 0,
    };
    let (mut d, mut a) = start(&cfg);
    let mut submitted: Vec<Vec<u32>> = Vec::new();
    loop {
        if let Action::Finish(_) = a {
            break;
        }
        if let Action::ApplyShapes(attrs) = &a {
            submitted.push(attrs[0].dims[..4].to_vec());
        }
        let ev = model.respond(&a);
        let (d2, a2) = step(&cfg, d, ev);
        d = d2;
        a = a2;
    }
    assert_eq!(submitted, vec![vec![1, 224, 224, 3], vec![1, 112, 112, 3]]);
}

#[test]
fn run_durations_are_collected_per_round() {
    let cfg = RunConfig { input_count: 1, loop_count: 2, core_mask: CoreMask::Npu0 };
    let mut model = FakeModel {
        entries: vec![vec![1, 224, 224, 3]],
        durations: vec![10, 30],
        next_duration: 0,
    };
    let (mut d, mut a) = start(&cfg);
    let mut stats_at_fetch: Option<DurationStats> = None;
    loop {
        if let Action::Finish(_) = a {
            break;
        }
        if let Action::FetchOutputs = a {
            stats_at_fetch = Some(duration_stats(&d.samples));
        }
        let ev = model.respond(&a);
        let (d2, a2) = step(&cfg, d, ev);
        d = d2;
        a = a2;
    }
    assert_eq!(
        stats_at_fetch,
        Some(DurationStats::Available { mean_centi: 2000, min: 10, max: 30, sd_centi: 1000 })
    );
}

#[test]
fn input_count_mismatch_fails_before_any_further_call() {
    let cfg = RunConfig { input_count: 2, loop_count: 1, core_mask: CoreMask::Npu0 };
    let (d, a) = start(&cfg);
    let (d, a2) = step(&cfg, d, Event::Loaded { n_input: 1, n_output: 1 });
    let _ = a;
    assert!(matches!(a2, Action::Destroy));
    assert_eq!(d.phase, Phase::Destroying { outcome: Outcome::Failed(DriverError::Configuration) });
    assert_eq!(d.input_queries, 0);
    assert_eq!(d.output_queries, 0);
    assert_eq!(d.applies, 0);
    assert_eq!(d.runs, 0);
    let (d, a3) = step(&cfg, d, Event::Destroyed);
    assert!(matches!(a3, Action::Finish(Outcome::Failed(DriverError::Configuration))));
    assert_eq!(d.destroys, 1);
}

#[test]
fn teardown_happens_once_on_mid_session_failure() {
    let cfg = RunConfig { input_count: 1, loop_count: 3, core_mask: CoreMask::Npu0 };
    let mut model = FakeModel {
        entries: vec![vec![1, 224, 224, 3]],
        durations: vec![10],
        next_duration: 0,
    };
    let (mut d, mut a) = start(&cfg);
    let mut destroy_actions = 0;
    loop {
        if let Action::Finish(outcome) = a {
            assert_eq!(outcome, Outcome::Failed(DriverError::RuntimeCall(-3)));
            break;
        }
        let ev = if matches!(a, Action::RunOnce) {
            Event::CallFailed { status: -3 }
        } else {
            model.respond(&a)
        };
        if matches!(a, Action::Destroy) {
            destroy_actions += 1;
        }
        let (d2, a2) = step(&cfg, d, ev);
        d = d2;
        a = a2;
    }
    assert_eq!(destroy_actions, 1);
    assert_eq!(d.destroys, 1);
}

#[test]
fn load_failure_needs_no_teardown() {
    let cfg = RunConfig { input_count: 1, loop_count: 1, core_mask: CoreMask::Npu0 };
    let (d, _) = start(&cfg);
    let (d, a) = step(&cfg, d, Event::CallFailed { status: -1 });
    assert!(matches!(a, Action::Finish(Outcome::Failed(DriverError::RuntimeInit))));
    assert_eq!(d.destroys, 0);
    assert_eq!(d.phase, Phase::Finished { outcome: Outcome::Failed(DriverError::RuntimeInit) });
}

#[test]
fn unreadable_model_reports_io_without_teardown() {
    let cfg = RunConfig { input_count: 1, loop_count: 1, core_mask: CoreMask::Npu0 };
    let (d, _) = start(&cfg);
    let (d, a) = step(&cfg, d, Event::InputUnavailable);
    assert!(matches!(a, Action::Finish(Outcome::Failed(DriverError::Io))));
    assert_eq!(d.destroys, 0);
}

#[test]
fn fixed_shape_model_runs_no_rounds() {
    let cfg = RunConfig { input_count: 1, loop_count: 5, core_mask: CoreMask::All };
    let mut model = FakeModel {
        entries: Vec::new(),
        durations: vec![10],
        next_duration: 0,
    };
    let (d, outcome, tags) = drive(&cfg, &mut model);
    assert_eq!(outcome, Outcome::Completed);
    assert_eq!(d.runs, 0);
    assert_eq!(d.destroys, 1);
    assert_eq!(
        tags,
        vec!["load", "sdk", "q_in", "q_out", "q_ranges", "decode", "destroy", "finish"]
    );
}

#[test]
fn decode_failure_reports_io() {
    let cfg = RunConfig { input_count: 1, loop_count: 1, core_mask: CoreMask::Npu0 };
    let mut model = FakeModel {
        entries: vec![vec![1, 224, 224, 3]],
        durations: vec![10],
        next_duration: 0,
    };
    let (mut d, mut a) = start(&cfg);
    loop {
        if let Action::Finish(outcome) = a {
            assert_eq!(outcome, Outcome::Failed(DriverError::Io));
            break;
        }
        let ev = if matches!(a, Action::DecodeImages) {
            Event::InputUnavailable
        } else {
            model.respond(&a)
        };
        let (d2, a2) = step(&cfg, d, ev);
        d = d2;
        a = a2;
    }
    assert_eq!(d.destroys, 1);
}

#[test]
fn shape_apply_failure_reports_its_stage() {
    let cfg = RunConfig { input_count: 1, loop_count: 1, core_mask: CoreMask::Npu0 };
    let mut model = FakeModel {
        entries: vec![vec![1, 224, 224, 3]],
        durations: vec![10],
        next_duration: 0,
    };
    let (mut d, mut a) = start(&cfg);
    loop {
        if let Action::Finish(outcome) = a {
            assert_eq!(outcome, Outcome::Failed(DriverError::ShapeApply));
            break;
        }
        let ev = if matches!(a, Action::ApplyShapes(_)) {
            Event::CallFailed { status: -5 }
        } else {
            model.respond(&a)
        };
        let (d2, a2) = step(&cfg, d, ev);
        d = d2;
        a = a2;
    }
    assert_eq!(d.destroys, 1);
}

#[test]
fn attribute_query_failure_reports_query_error() {
    let cfg = RunConfig { input_count: 1, loop_count: 1, core_mask: CoreMask::Npu0 };
    let mut model = FakeModel {
        entries: vec![vec![1, 224, 224, 3]],
        durations: vec![10],
        next_duration: 0,
    };
    let (mut d, mut a) = start(&cfg);
    loop {
        if let Action::Finish(outcome) = a {
            assert_eq!(outcome, Outcome::Failed(DriverError::Query));
            break;
        }
        let ev = if matches!(a, Action::QueryInputAttrs) {
            Event::CallFailed { status: -2 }
        } else {
            model.respond(&a)
        };
        let (d2, a2) = step(&cfg, d, ev);
        d = d2;
        a = a2;
    }
    assert_eq!(d.destroys, 1);
}

#[test]
fn output_fetch_failure_reports_its_stage() {
    let cfg = RunConfig { input_count: 1, loop_count: 1, core_mask: CoreMask::Npu0 };
    let mut model = FakeModel {
        entries: vec![vec![1, 224, 224, 3]],
        durations: vec![10],
        next_duration: 0,
    };
    let (mut d, mut a) = start(&cfg);
    loop {
        if let Action::Finish(outcome) = a {
            assert_eq!(outcome, Outcome::Failed(DriverError::RuntimeOutput));
            break;
        }
        let ev = if matches!(a, Action::FetchOutputs) {
            Event::CallFailed { status: -4 }
        } else {
            model.respond(&a)
        };
        let (d2, a2) = step(&cfg, d, ev);
        d = d2;
        a = a2;
    }
    assert_eq!(d.destroys, 1);
}

#[test]
fn mismatched_answer_reports_protocol_error() {
    let cfg = RunConfig { input_count: 1, loop_count: 1, core_mask: CoreMask::Npu0 };
    let (d, _) = start(&cfg);
    let (d, a) = step(&cfg, d, Event::Loaded { n_input: 1, n_output: 1 });
    assert!(matches!(a, Action::QuerySdkVersion));
    // answer the version query with a run result instead
    let (d, a2) = step(&cfg, d, Event::RunFinished { elapsed_ms: 1 });
    assert!(matches!(a2, Action::Destroy));
    assert_eq!(d.phase, Phase::Destroying { outcome: Outcome::Failed(DriverError::Protocol) });
    let (d, a3) = step(&cfg, d, Event::Destroyed);
    assert!(matches!(a3, Action::Finish(Outcome::Failed(DriverError::Protocol))));
    assert_eq!(d.destroys, 1);
}

#[test]
fn cli_options_begin_with_loading() {
    let example = Example {
        model_path: "model.rknn".to_string(),
        input_paths: vec!["cat.jpg".to_string()],
        loop_count: 1,
        core_mask: CoreMask::Npu0,
        output_dir: None,
    };
    let options = CLIOptions::DynshapeInference(example);
    let (d, a) = options.execute();
    assert_eq!(d.phase, Phase::AwaitLoad);
    assert!(matches!(a, Action::LoadModel));
}
