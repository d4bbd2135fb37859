//! Verified driver logic for a dynamic-shape NPU inference session.
//!
//! The vendor runtime itself is a closed foreign library; this crate holds
//! the parts around it that are pure logic: tensor descriptors and their
//! code mappings, dynamic-shape negotiation, duration statistics, score
//! ranking, and the session state machine that sequences the foreign calls.
//! An unverified outer loop owns the model file, the images and the runtime
//! handle; it performs each [`driver::Action`] the machine orders and feeds
//! the outcome back as a [`driver::Event`].

pub mod buffer;
pub mod driver;
pub mod rank;
pub mod stats;
pub mod tensor;

use crate::driver::{inv, start, Action, Driver, Phase, RunConfig};
use crate::tensor::CoreMask;
use vstd::prelude::*;

verus! {

/// The command-line parameters of the dynamic-shape inference example.
pub struct Example {
    /// The path to the model file.
    pub model_path: String,
    /// The paths of the input image files, one per input slot.
    pub input_paths: Vec<String>,
    /// How many runs per candidate shape.
    pub loop_count: u8,
    /// The processing-unit affinity to request.
    pub core_mask: CoreMask,
    /// Where output artifacts would go; accepted but unused.
    pub output_dir: Option<String>,
}

impl Example {
    /// The session configuration this invocation asks for.
    pub open spec fn spec_config(&self) -> RunConfig {
        RunConfig {
            input_count: self.input_paths@.len() as usize,
            loop_count: self.loop_count,
            core_mask: self.core_mask,
        }
    }

    /// Builds the session configuration: one expected input per supplied
    /// image path, with the requested repetition count and affinity.
    pub fn config(&self) -> (r: RunConfig)
        ensures
            r == self.spec_config(),
    {
        RunConfig {
            input_count: self.input_paths.len(),
            loop_count: self.loop_count,
            core_mask: self.core_mask,
        }
    }

    /// Begins the session: the fresh machine state and its first action,
    /// loading the model.  The outer loop then alternates performing the
    /// action and calling [`driver::step`] until a `Finish` action arrives.
    pub fn execute(&self) -> (r: (Driver, Action))
        ensures
            inv(self.spec_config(), r.0),
            r.0.phase == Phase::AwaitLoad,
            r.1 is LoadModel,
    {
        let cfg = self.config();
        start(&cfg)
    }
}

/// The command-line surface: one subcommand.
pub enum CLIOptions {
    DynshapeInference(Example),
}

impl CLIOptions {
    /// Dispatches the selected subcommand to its session starter.
    pub fn execute(&self) -> (r: (Driver, Action))
        ensures
            (match self {
                CLIOptions::DynshapeInference(e) => {
                    &&& inv(e.spec_config(), r.0)
                    &&& r.0.phase == Phase::AwaitLoad
                    &&& r.1 is LoadModel
                },
            }),
    {
        match self {
            CLIOptions::DynshapeInference(example) => example.execute(),
        }
    }
}

} // verus!
