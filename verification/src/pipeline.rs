//! Pipeline orchestration: a strictly sequential state machine that
//! decides, stage by stage, which external invocation comes next. The
//! embedding program performs each returned action (writing the
//! concatenation manifest, running the encoder) and reports the outcome
//! back; the library decides everything else.
//!
//! Stage order: optional concatenation (only with more than one input),
//! then loudness measurement (only when normalization is enabled), then
//! the two encode passes, then optional metadata stripping.

use vstd::prelude::*;
use crate::types::{
    Operation,
    OperationV,
    ConfigError,
    spec_config_error,
    spec_valid_operation,
    spec_extension,
};
use crate::loudnorm::{
    Loudnorm,
    LoudnormV,
    MeasurementParseError,
    spec_analyze_af,
    spec_missing_field,
    spec_last_value,
    lemma_last_value_determined,
    view_opt,
};
use crate::filters::{EncodePass, spec_encode_args, build_encode_args};
use crate::strutil::{spec_sanitize, sanitize_title, push_arg, push_owned};

verus! {

/// The file the concatenation manifest is written to.
pub const CONCAT_LIST: &'static str = "concat.txt";

/// The concatenated intermediate all later stages read when the operation
/// has several inputs.
pub const CONCAT_INTERMEDIATE: &'static str = "concat.mp4";

/// The stages of one pipeline run. A non-terminal stage other than `Init`
/// names the invocation currently awaiting its outcome.
#[derive(Debug, Clone, Copy, PartialEq, Eq, Structural)]
pub enum Stage {
    /// Nothing issued yet.
    Init,
    /// Concatenating the inputs into one intermediate.
    Concatenating,
    /// Measuring loudness.
    Measuring,
    /// First encode pass: gathering rate-control statistics.
    EncodingPass1,
    /// Second encode pass: producing the encoded output.
    EncodingPass2,
    /// Copying streams while clearing metadata.
    StrippingMetadata,
    /// The final deliverable exists.
    Done,
    /// A stage failed; the run is over.
    Failed,
}

/// A fatal pipeline error.
#[derive(Debug)]
pub enum PipelineError {
    /// The measurement text lacked a required field.
    MeasurementParse { error: MeasurementParseError },
    /// An external invocation exited with failure; its captured
    /// diagnostic text is kept verbatim.
    ExternalProcess { stage: Stage, diagnostics: String },
}

/// The mathematical content of a [`PipelineError`].
pub enum PipelineErrorV {
    MeasurementParse { error: MeasurementParseError },
    ExternalProcess { stage: Stage, diagnostics: Seq<char> },
}

impl View for PipelineError {
    type V = PipelineErrorV;

    open spec fn view(&self) -> PipelineErrorV {
        match self {
            PipelineError::MeasurementParse { error } => PipelineErrorV::MeasurementParse {
                error: *error,
            },
            PipelineError::ExternalProcess { stage, diagnostics } =>
                PipelineErrorV::ExternalProcess { stage: *stage, diagnostics: diagnostics@ },
        }
    }
}

/// What the embedding program is asked to do next.
#[derive(Debug)]
pub enum Action {
    /// Write `manifest` to the concatenation list file and run the
    /// concatenation with `args`.
    Concat { manifest: String, args: Vec<String> },
    /// Run the loudness measurement of `input` with `args` and hand back
    /// the captured diagnostic text.
    Measure { input: String, args: Vec<String> },
    /// Run the first encode pass of `input` with `args`.
    Pass1 { input: String, args: Vec<String> },
    /// Run the second encode pass of `input` with `args`.
    Pass2 { input: String, args: Vec<String> },
    /// Run the metadata strip of `input` with `args`.
    Strip { input: String, args: Vec<String> },
    /// The run succeeded; `output` is the final deliverable.
    Complete { output: String },
    /// The run failed.
    Fail { error: PipelineError },
}

/// The mathematical content of an [`Action`].
pub enum ActionV {
    Concat { manifest: Seq<char>, args: Seq<Seq<char>> },
    Measure { input: Seq<char>, args: Seq<Seq<char>> },
    Pass1 { input: Seq<char>, args: Seq<Seq<char>> },
    Pass2 { input: Seq<char>, args: Seq<Seq<char>> },
    Strip { input: Seq<char>, args: Seq<Seq<char>> },
    Complete { output: Seq<char> },
    Fail { error: PipelineErrorV },
}

impl View for Action {
    type V = ActionV;

    open spec fn view(&self) -> ActionV {
        match self {
            Action::Concat { manifest, args } => ActionV::Concat {
                manifest: manifest@,
                args: args.deep_view(),
            },
            Action::Measure { input, args } => ActionV::Measure {
                input: input@,
                args: args.deep_view(),
            },
            Action::Pass1 { input, args } => ActionV::Pass1 {
                input: input@,
                args: args.deep_view(),
            },
            Action::Pass2 { input, args } => ActionV::Pass2 {
                input: input@,
                args: args.deep_view(),
            },
            Action::Strip { input, args } => ActionV::Strip {
                input: input@,
                args: args.deep_view(),
            },
            Action::Complete { output } => ActionV::Complete { output: output@ },
            Action::Fail { error } => ActionV::Fail { error: error@ },
        }
    }
}

/// One pipeline run.
#[derive(Debug)]
pub struct Pipeline {
    /// The configuration the run was started with; never changes.
    pub op: Operation,
    /// The current stage.
    pub stage: Stage,
    /// The loudness measurement, once the measuring stage has parsed one.
    pub measurement: Option<Loudnorm>,
}

/// The mathematical content of a [`Pipeline`].
pub struct PipelineV {
    pub op: OperationV,
    pub stage: Stage,
    pub measurement: Option<LoudnormV>,
}

impl View for Pipeline {
    type V = PipelineV;

    open spec fn view(&self) -> PipelineV {
        PipelineV { op: self.op@, stage: self.stage, measurement: view_opt(&self.measurement) }
    }
}

/// The file all measurement and encode stages read: the concatenated
/// intermediate when several inputs were given, else the single input.
pub open spec fn spec_current_input(op: OperationV) -> Seq<char> {
    if op.inputs.len() > 1 {
        CONCAT_INTERMEDIATE@
    } else {
        op.inputs[0]
    }
}

/// The final deliverable's name: the sanitized title with the container's
/// canonical extension.
pub open spec fn spec_final_output(op: OperationV) -> Seq<char> {
    spec_sanitize(op.title) + "."@ + spec_extension(op.container)
}

/// The second pass's target: a distinctly suffixed intermediate when a
/// strip stage will produce the final output, else the final name itself.
pub open spec fn spec_encode_output(op: OperationV) -> Seq<char> {
    if op.strip_metadata {
        spec_sanitize(op.title) + ".enc."@ + spec_extension(op.container)
    } else {
        spec_final_output(op)
    }
}

/// The concatenation manifest: one quoted input path per line, in the
/// operation's input order.
pub open spec fn spec_manifest(inputs: Seq<Seq<char>>) -> Seq<char>
    decreases inputs.len(),
{
    if inputs.len() == 0 {
        Seq::empty()
    } else {
        spec_manifest(inputs.drop_last()) + "file '"@ + inputs.last() + "'\n"@
    }
}

/// The concatenation arguments: read the manifest, copy streams into the
/// intermediate.
pub open spec fn spec_concat_args() -> Seq<Seq<char>> {
    seq!["-f"@, "concat"@, "-i"@, CONCAT_LIST@, "-c"@, "copy"@, CONCAT_INTERMEDIATE@]
}

/// The measurement arguments: run the analysis filter over the input into
/// a null sink, so only the diagnostic text is produced.
pub open spec fn spec_measure_args(input: Seq<char>) -> Seq<Seq<char>> {
    seq!["-y"@, "-i"@, input, "-af"@, spec_analyze_af(), "-f"@, "null"@, "-"@]
}

/// The strip arguments: copy both streams verbatim, clear all metadata,
/// and set exactly one new title field, producing the final deliverable.
pub open spec fn spec_strip_args(op: OperationV) -> Seq<Seq<char>> {
    seq![
        "-y"@,
        "-i"@,
        spec_encode_output(op),
        "-map_metadata"@,
        "-1"@,
        "-metadata"@,
        "title="@ + op.title,
        "-c:v"@,
        "copy"@,
        "-c:a"@,
        "copy"@,
        spec_final_output(op),
    ]
}

/// The measurement parsed out of a diagnostic text that has all five keys.
pub open spec fn spec_parsed_measurement(diag: Seq<char>) -> LoudnormV {
    LoudnormV {
        input_i: spec_last_value(diag, "input_i"@),
        input_lra: spec_last_value(diag, "input_lra"@),
        input_tp: spec_last_value(diag, "input_tp"@),
        input_thresh: spec_last_value(diag, "input_thresh"@),
        target_offset: spec_last_value(diag, "target_offset"@),
    }
}

/// The state a fresh pipeline starts in.
pub open spec fn spec_init(op: OperationV) -> PipelineV {
    PipelineV { op, stage: Stage::Init, measurement: None }
}

/// What every reachable pipeline state satisfies: the operation is valid,
/// and once an encode pass or later stage is reached under loudness
/// normalization, a measurement exists.
pub open spec fn spec_pipeline_inv(p: PipelineV) -> bool {
    &&& spec_valid_operation(p.op)
    &&& (p.stage == Stage::EncodingPass1 || p.stage == Stage::EncodingPass2 || p.stage
        == Stage::StrippingMetadata || p.stage == Stage::Done) && p.op.loudnorm
        ==> p.measurement is Some
}

/// The state after the current input is ready (no concatenation needed, or
/// concatenation succeeded): measure if normalization is enabled, else go
/// straight to the first encode pass.
pub open spec fn spec_after_input_ready(p: PipelineV) -> PipelineV {
    if p.op.loudnorm {
        PipelineV { stage: Stage::Measuring, ..p }
    } else {
        PipelineV { stage: Stage::EncodingPass1, ..p }
    }
}

/// The action issued when the current input is ready.
pub open spec fn spec_action_input_ready(p: PipelineV) -> ActionV {
    if p.op.loudnorm {
        ActionV::Measure {
            input: spec_current_input(p.op),
            args: spec_measure_args(spec_current_input(p.op)),
        }
    } else {
        spec_action_pass1(PipelineV { stage: Stage::EncodingPass1, ..p })
    }
}

/// The first-pass action of a state (whose measurement, if any, is already
/// in place).
pub open spec fn spec_action_pass1(p: PipelineV) -> ActionV {
    ActionV::Pass1 {
        input: spec_current_input(p.op),
        args: spec_encode_args(
            p.op,
            p.measurement,
            spec_current_input(p.op),
            EncodePass::First,
            spec_encode_output(p.op),
        ),
    }
}

/// The second-pass action of a state.
pub open spec fn spec_action_pass2(p: PipelineV) -> ActionV {
    ActionV::Pass2 {
        input: spec_current_input(p.op),
        args: spec_encode_args(
            p.op,
            p.measurement,
            spec_current_input(p.op),
            EncodePass::Second,
            spec_encode_output(p.op),
        ),
    }
}

/// The state after one step: from `p`, on the outcome (`ok`, `diag`) of
/// the stage `p` was in. Terminal states do not move.
pub open spec fn spec_step(p: PipelineV, ok: bool, diag: Seq<char>) -> PipelineV {
    match p.stage {
        Stage::Init => {
            if p.op.inputs.len() > 1 {
                PipelineV { stage: Stage::Concatenating, ..p }
            } else {
                spec_after_input_ready(p)
            }
        },
        Stage::Concatenating => {
            if ok {
                spec_after_input_ready(p)
            } else {
                PipelineV { stage: Stage::Failed, ..p }
            }
        },
        Stage::Measuring => {
            if ok && spec_missing_field(diag) is None {
                PipelineV {
                    stage: Stage::EncodingPass1,
                    measurement: Some(spec_parsed_measurement(diag)),
                    ..p
                }
            } else {
                PipelineV { stage: Stage::Failed, ..p }
            }
        },
        Stage::EncodingPass1 => {
            if ok {
                PipelineV { stage: Stage::EncodingPass2, ..p }
            } else {
                PipelineV { stage: Stage::Failed, ..p }
            }
        },
        Stage::EncodingPass2 => {
            if ok {
                if p.op.strip_metadata {
                    PipelineV { stage: Stage::StrippingMetadata, ..p }
                } else {
                    PipelineV { stage: Stage::Done, ..p }
                }
            } else {
                PipelineV { stage: Stage::Failed, ..p }
            }
        },
        Stage::StrippingMetadata => {
            if ok {
                PipelineV { stage: Stage::Done, ..p }
            } else {
                PipelineV { stage: Stage::Failed, ..p }
            }
        },
        Stage::Done => p,
        Stage::Failed => p,
    }
}

/// The action issued by one step, `None` from a terminal state.
pub open spec fn spec_action(p: PipelineV, ok: bool, diag: Seq<char>) -> Option<ActionV> {
    match p.stage {
        Stage::Init => {
            if p.op.inputs.len() > 1 {
                Some(
                    ActionV::Concat {
                        manifest: spec_manifest(p.op.inputs),
                        args: spec_concat_args(),
                    },
                )
            } else {
                Some(spec_action_input_ready(p))
            }
        },
        Stage::Concatenating => {
            if ok {
                Some(spec_action_input_ready(p))
            } else {
                Some(spec_fail_action(p.stage, diag))
            }
        },
        Stage::Measuring => {
            if !ok {
                Some(spec_fail_action(p.stage, diag))
            } else {
                match spec_missing_field(diag) {
                    None => Some(spec_action_pass1(spec_step(p, ok, diag))),
                    Some(f) => Some(
                        ActionV::Fail {
                            error: PipelineErrorV::MeasurementParse {
                                error: MeasurementParseError { field: f },
                            },
                        },
                    ),
                }
            }
        },
        Stage::EncodingPass1 => {
            if ok {
                Some(spec_action_pass2(p))
            } else {
                Some(spec_fail_action(p.stage, diag))
            }
        },
        Stage::EncodingPass2 => {
            if ok {
                if p.op.strip_metadata {
                    Some(
                        ActionV::Strip { input: spec_encode_output(p.op), args: spec_strip_args(p.op) },
                    )
                } else {
                    Some(ActionV::Complete { output: spec_final_output(p.op) })
                }
            } else {
                Some(spec_fail_action(p.stage, diag))
            }
        },
        Stage::StrippingMetadata => {
            if ok {
                Some(ActionV::Complete { output: spec_final_output(p.op) })
            } else {
                Some(spec_fail_action(p.stage, diag))
            }
        },
        Stage::Done => None,
        Stage::Failed => None,
    }
}

/// The failure action of a stage whose invocation exited with failure,
/// carrying the captured diagnostic text verbatim.
pub open spec fn spec_fail_action(stage: Stage, diag: Seq<char>) -> ActionV {
    ActionV::Fail { error: PipelineErrorV::ExternalProcess { stage, diagnostics: diag } }
}

/// Build the concatenation manifest of the operation's inputs.
pub fn build_manifest(inputs: &Vec<String>) -> (r: String)
    ensures
        r@ == spec_manifest(inputs.deep_view()),
{
    let mut s = String::new();
    let mut i: usize = 0;
    while i < inputs.len()
        invariant
            i <= inputs.len(),
            inputs.deep_view().len() == inputs@.len(),
            s@ == spec_manifest(inputs.deep_view().take(i as int)),
        decreases inputs.len() - i,
    {
        s.append("file '");
        s.append(inputs[i].as_str());
        s.append("'\n");
        proof {
            assert(inputs.deep_view().take(i + 1).drop_last() =~= inputs.deep_view().take(i as int));
            assert(inputs.deep_view().take(i + 1).last() == inputs[i as int]@);
        }
        i += 1;
    }
    proof {
        assert(inputs.deep_view().take(inputs@.len() as int) =~= inputs.deep_view());
    }
    s
}

/// Build the concatenation arguments.
fn build_concat_args() -> (r: Vec<String>)
    ensures
        r.deep_view() == spec_concat_args(),
{
    let mut args: Vec<String> = Vec::new();
    push_arg(&mut args, "-f");
    push_arg(&mut args, "concat");
    push_arg(&mut args, "-i");
    push_arg(&mut args, CONCAT_LIST);
    push_arg(&mut args, "-c");
    push_arg(&mut args, "copy");
    push_arg(&mut args, CONCAT_INTERMEDIATE);
    proof {
        assert(args.deep_view() =~= spec_concat_args());
    }
    args
}

/// Build the measurement arguments for an input.
fn build_measure_args(input: &str) -> (r: Vec<String>)
    ensures
        r.deep_view() == spec_measure_args(input@),
{
    let mut args: Vec<String> = Vec::new();
    push_arg(&mut args, "-y");
    push_arg(&mut args, "-i");
    push_arg(&mut args, input);
    push_arg(&mut args, "-af");
    push_owned(&mut args, Loudnorm::analyze_af());
    push_arg(&mut args, "-f");
    push_arg(&mut args, "null");
    push_arg(&mut args, "-");
    proof {
        assert(args.deep_view() =~= spec_measure_args(input@));
    }
    args
}

impl Pipeline {
    /// The file the measurement and encode stages read.
    pub fn current_input(&self) -> (r: String)
        requires
            self@.op.inputs.len() > 0,
        ensures
            r@ == spec_current_input(self@.op),
    {
        if self.op.inputs.len() > 1 {
            String::from_str(CONCAT_INTERMEDIATE)
        } else {
            proof {
                assert(self.op.inputs.deep_view()[0] == self.op.inputs[0]@);
            }
            self.op.inputs[0].clone()
        }
    }

    /// The final deliverable's name.
    pub fn final_output(&self) -> (r: String)
        ensures
            r@ == spec_final_output(self@.op),
    {
        let mut s = sanitize_title(self.op.title.as_str());
        s.append(".");
        s.append(self.op.container.extension());
        s
    }

    /// The second encode pass's target.
    pub fn encode_output(&self) -> (r: String)
        ensures
            r@ == spec_encode_output(self@.op),
    {
        if self.op.strip_metadata {
            let mut s = sanitize_title(self.op.title.as_str());
            s.append(".enc.");
            s.append(self.op.container.extension());
            s
        } else {
            self.final_output()
        }
    }

    /// Build the strip arguments of the operation.
    fn build_strip_args(&self) -> (r: Vec<String>)
        ensures
            r.deep_view() == spec_strip_args(self@.op),
    {
        let mut args: Vec<String> = Vec::new();
        push_arg(&mut args, "-y");
        push_arg(&mut args, "-i");
        push_owned(&mut args, self.encode_output());
        push_arg(&mut args, "-map_metadata");
        push_arg(&mut args, "-1");
        push_arg(&mut args, "-metadata");
        push_owned(&mut args, String::from_str("title=").concat(self.op.title.as_str()));
        push_arg(&mut args, "-c:v");
        push_arg(&mut args, "copy");
        push_arg(&mut args, "-c:a");
        push_arg(&mut args, "copy");
        push_owned(&mut args, self.final_output());
        proof {
            assert(args.deep_view() =~= spec_strip_args(self@.op));
        }
        args
    }

    /// Start a run: check the operation, then wait in `Init` for the first
    /// [`Self::advance`] call.
    pub fn new(op: Operation) -> (r: Result<Pipeline, ConfigError>)
        ensures
            r is Ok <==> spec_valid_operation(op@),
            r matches Ok(p) ==> p@ == spec_init(op@) && spec_pipeline_inv(p@),
            r matches Err(e) ==> Some(e) == spec_config_error(op@),
    {
        match op.validate() {
            Ok(()) => Ok(Pipeline { op, stage: Stage::Init, measurement: None }),
            Err(e) => Err(e),
        }
    }

    /// Whether the run is over.
    pub fn is_terminal(&self) -> (r: bool)
        ensures
            r == (self@.stage == Stage::Done || self@.stage == Stage::Failed),
    {
        match self.stage {
            Stage::Done => true,
            Stage::Failed => true,
            _ => false,
        }
    }

    /// The action after the current input is ready.
    fn action_input_ready(&mut self) -> (r: Action)
        requires
            spec_pipeline_inv(old(self)@),
            old(self)@.stage == Stage::Init || old(self)@.stage == Stage::Concatenating,
        ensures
            final(self)@ == spec_after_input_ready(old(self)@),
            final(self).op == old(self).op,
            r@ == spec_action_input_ready(old(self)@),
            spec_pipeline_inv(final(self)@),
    {
        let input = self.current_input();
        if self.op.loudnorm {
            self.stage = Stage::Measuring;
            let args = build_measure_args(input.as_str());
            Action::Measure { input, args }
        } else {
            self.stage = Stage::EncodingPass1;
            let output = self.encode_output();
            let args = build_encode_args(
                &self.op,
                &self.measurement,
                input.as_str(),
                EncodePass::First,
                output.as_str(),
            );
            Action::Pass1 { input, args }
        }
    }

    /// Decide the next action from the outcome of the last one.
    ///
    /// The first call (from `Init`) ignores the outcome. `ok` is whether
    /// the last invocation succeeded; `diagnostics` is its captured
    /// diagnostic text, which the measuring stage parses and a failure
    /// carries verbatim into the error.
    pub fn advance(&mut self, ok: bool, diagnostics: &str) -> (r: Action)
        requires
            spec_pipeline_inv(old(self)@),
            old(self)@.stage != Stage::Done,
            old(self)@.stage != Stage::Failed,
        ensures
            final(self)@ == spec_step(old(self)@, ok, diagnostics@),
            spec_pipeline_inv(final(self)@),
            Some(r@) == spec_action(old(self)@, ok, diagnostics@),
    {
        match self.stage {
            Stage::Init => {
                if self.op.inputs.len() > 1 {
                    self.stage = Stage::Concatenating;
                    let manifest = build_manifest(&self.op.inputs);
                    let args = build_concat_args();
                    Action::Concat { manifest, args }
                } else {
                    self.action_input_ready()
                }
            },
            Stage::Concatenating => {
                if ok {
                    self.action_input_ready()
                } else {
                    self.fail(diagnostics)
                }
            },
            Stage::Measuring => {
                if !ok {
                    self.fail(diagnostics)
                } else {
                    match Loudnorm::from_analyze_data(diagnostics) {
                        Ok(m) => {
                            proof {
                                lemma_last_value_determined(
                                    diagnostics@,
                                    "input_i"@,
                                    m@.input_i,
                                );
                                lemma_last_value_determined(
                                    diagnostics@,
                                    "input_lra"@,
                                    m@.input_lra,
                                );
                                lemma_last_value_determined(
                                    diagnostics@,
                                    "input_tp"@,
                                    m@.input_tp,
                                );
                                lemma_last_value_determined(
                                    diagnostics@,
                                    "input_thresh"@,
                                    m@.input_thresh,
                                );
                                lemma_last_value_determined(
                                    diagnostics@,
                                    "target_offset"@,
                                    m@.target_offset,
                                );
                            }
                            self.measurement = Some(m);
                            self.stage = Stage::EncodingPass1;
                            let input = self.current_input();
                            let output = self.encode_output();
                            let args = build_encode_args(
                                &self.op,
                                &self.measurement,
                                input.as_str(),
                                EncodePass::First,
                                output.as_str(),
                            );
                            Action::Pass1 { input, args }
                        },
                        Err(e) => {
                            self.stage = Stage::Failed;
                            Action::Fail {
                                error: PipelineError::MeasurementParse { error: e },
                            }
                        },
                    }
                }
            },
            Stage::EncodingPass1 => {
                if ok {
                    self.stage = Stage::EncodingPass2;
                    let input = self.current_input();
                    let output = self.encode_output();
                    let args = build_encode_args(
                        &self.op,
                        &self.measurement,
                        input.as_str(),
                        EncodePass::Second,
                        output.as_str(),
                    );
                    Action::Pass2 { input, args }
                } else {
                    self.fail(diagnostics)
                }
            },
            Stage::EncodingPass2 => {
                if ok {
                    if self.op.strip_metadata {
                        self.stage = Stage::StrippingMetadata;
                        let input = self.encode_output();
                        let args = self.build_strip_args();
                        Action::Strip { input, args }
                    } else {
                        self.stage = Stage::Done;
                        Action::Complete { output: self.final_output() }
                    }
                } else {
                    self.fail(diagnostics)
                }
            },
            Stage::StrippingMetadata => {
                if ok {
                    self.stage = Stage::Done;
                    Action::Complete { output: self.final_output() }
                } else {
                    self.fail(diagnostics)
                }
            },
            Stage::Done => {
                vstd::pervasive::unreached()
            },
            Stage::Failed => {
                vstd::pervasive::unreached()
            },
        }
    }

    /// Record a stage failure, keeping the captured diagnostics.
    fn fail(&mut self, diagnostics: &str) -> (r: Action)
        ensures
            final(self)@ == (PipelineV { stage: Stage::Failed, ..old(self)@ }),
            r@ == spec_fail_action(old(self)@.stage, diagnostics@),
    {
        let stage = self.stage;
        self.stage = Stage::Failed;
        Action::Fail {
            error: PipelineError::ExternalProcess {
                stage,
                diagnostics: String::from_str(diagnostics),
            },
        }
    }
}

/// The states of a run: from `p0`, the state reached after each prefix of
/// the outcomes. A run's index `k` state is the one the `k`th outcome is
/// judged from.
pub open spec fn spec_run_states(p0: PipelineV, outs: Seq<(bool, Seq<char>)>) -> Seq<PipelineV>
    decreases outs.len(),
{
    if outs.len() == 0 {
        seq![p0]
    } else {
        let prev = spec_run_states(p0, outs.drop_last());
        prev.push(spec_step(prev.last(), outs.last().0, outs.last().1))
    }
}

/// The actions of a run: one per outcome.
pub open spec fn spec_run_actions(p0: PipelineV, outs: Seq<(bool, Seq<char>)>) -> Seq<
    Option<ActionV>,
>
    decreases outs.len(),
{
    if outs.len() == 0 {
        Seq::empty()
    } else {
        spec_run_actions(p0, outs.drop_last()).push(
            spec_action(
                spec_run_states(p0, outs.drop_last()).last(),
                outs.last().0,
                outs.last().1,
            ),
        )
    }
}

/// A run has one more state than outcomes and starts at `p0`.
pub proof fn lemma_run_shape(p0: PipelineV, outs: Seq<(bool, Seq<char>)>)
    ensures
        spec_run_states(p0, outs).len() == outs.len() + 1,
        spec_run_actions(p0, outs).len() == outs.len(),
        spec_run_states(p0, outs)[0] == p0,
    decreases outs.len(),
{
    if outs.len() > 0 {
        lemma_run_shape(p0, outs.drop_last());
    }
}

/// Each state of a run follows from the previous one by one step, and
/// each action is the one that step issued.
pub proof fn lemma_run_index(p0: PipelineV, outs: Seq<(bool, Seq<char>)>, k: int)
    requires
        0 <= k < outs.len(),
    ensures
        spec_run_states(p0, outs)[k + 1] == spec_step(
            spec_run_states(p0, outs)[k],
            outs[k].0,
            outs[k].1,
        ),
        spec_run_actions(p0, outs)[k] == spec_action(
            spec_run_states(p0, outs)[k],
            outs[k].0,
            outs[k].1,
        ),
    decreases outs.len(),
{
    lemma_run_shape(p0, outs);
    lemma_run_shape(p0, outs.drop_last());
    if k == outs.len() - 1 {
        assert(spec_run_states(p0, outs)[k] == spec_run_states(p0, outs.drop_last()).last());
    } else {
        lemma_run_index(p0, outs.drop_last(), k);
        assert(outs.drop_last()[k] == outs[k]);
        assert(spec_run_states(p0, outs)[k] == spec_run_states(p0, outs.drop_last())[k]);
        assert(spec_run_states(p0, outs)[k + 1] == spec_run_states(p0, outs.drop_last())[k + 1]);
        assert(spec_run_actions(p0, outs)[k] == spec_run_actions(p0, outs.drop_last())[k]);
    }
}

/// A step never changes the operation.
pub proof fn lemma_step_preserves_op(p: PipelineV, ok: bool, diag: Seq<char>)
    ensures
        spec_step(p, ok, diag).op == p.op,
{
}

/// Every state of a run carries the operation the run started with.
pub proof fn lemma_run_op(p0: PipelineV, outs: Seq<(bool, Seq<char>)>, k: int)
    requires
        0 <= k <= outs.len(),
    ensures
        spec_run_states(p0, outs)[k].op == p0.op,
    decreases k,
{
    lemma_run_shape(p0, outs);
    if k > 0 {
        lemma_run_op(p0, outs, k - 1);
        lemma_run_index(p0, outs, k - 1);
        lemma_step_preserves_op(spec_run_states(p0, outs)[k - 1], outs[k - 1].0, outs[k - 1].1);
    }
}

/// A step of an operation without loudness normalization never issues a
/// measurement action.
proof fn lemma_step_no_measure(p: PipelineV, ok: bool, diag: Seq<char>)
    requires
        !p.op.loudnorm,
    ensures
        spec_action(p, ok, diag) matches Some(a) ==> !(a is Measure),
{
}

/// For an operation with loudness normalization disabled, no step of any
/// run ever invokes the loudness analyzer. (Together with
/// `lemma_no_audio_filters_without_loudnorm`, such an operation's encode
/// passes also receive an empty audio filter chain.)
pub proof fn lemma_no_measure_without_loudnorm(
    op: OperationV,
    outs: Seq<(bool, Seq<char>)>,
    k: int,
)
    requires
        !op.loudnorm,
        0 <= k < outs.len(),
    ensures
        spec_run_actions(spec_init(op), outs)[k] matches Some(a) ==> !(a is Measure),
{
    lemma_run_index(spec_init(op), outs, k);
    lemma_run_op(spec_init(op), outs, k);
    lemma_step_no_measure(spec_run_states(spec_init(op), outs)[k], outs[k].0, outs[k].1);
}

/// A second-pass action is issued only from a state in the first-pass
/// stage, is exactly the second-pass action of that state, and the step
/// keeps the measurement.
proof fn lemma_step_pass2_source(p: PipelineV, ok: bool, diag: Seq<char>)
    ensures
        (spec_action(p, ok, diag) matches Some(a) && a is Pass2) ==> p.stage
            == Stage::EncodingPass1 && spec_action(p, ok, diag) == Some(spec_action_pass2(p)),
{
}

/// A step that lands in the first-pass stage issued exactly the
/// first-pass action of the state it lands in.
proof fn lemma_step_into_pass1(p: PipelineV, ok: bool, diag: Seq<char>)
    requires
        spec_step(p, ok, diag).stage == Stage::EncodingPass1,
    ensures
        spec_action(p, ok, diag) == Some(spec_action_pass1(spec_step(p, ok, diag))),
{
}

/// In every run, the first encode pass is invoked immediately before the
/// second, on the same input, with the argument lists both derived from
/// the run's operation and the same measurement: the two passes target the
/// same input, resolution and parameter set, as valid two-pass rate
/// control requires.
pub proof fn lemma_pass1_before_pass2(op: OperationV, outs: Seq<(bool, Seq<char>)>, k: int)
    requires
        0 <= k < outs.len(),
        spec_run_actions(spec_init(op), outs)[k] matches Some(a) && a is Pass2,
    ensures
        1 <= k,
        spec_run_states(spec_init(op), outs)[k].op == op,
        spec_run_actions(spec_init(op), outs)[k - 1] == Some(
            spec_action_pass1(spec_run_states(spec_init(op), outs)[k]),
        ),
        spec_run_actions(spec_init(op), outs)[k] == Some(
            spec_action_pass2(spec_run_states(spec_init(op), outs)[k]),
        ),
{
    let p0 = spec_init(op);
    lemma_run_shape(p0, outs);
    lemma_run_index(p0, outs, k);
    let st = spec_run_states(p0, outs)[k];
    lemma_step_pass2_source(st, outs[k].0, outs[k].1);
    assert(st.stage == Stage::EncodingPass1);
    if k == 0 {
        assert(st == p0);
        assert(false);
    }
    lemma_run_op(p0, outs, k);
    lemma_run_index(p0, outs, k - 1);
    lemma_step_into_pass1(spec_run_states(p0, outs)[k - 1], outs[k - 1].0, outs[k - 1].1);
}

} // verus!
