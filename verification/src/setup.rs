//! The configuration of the VoiceProcessingIO unit as a plan of steps.
//!
//! The caller performs each step against Core Audio and reports the status
//! it got back; the plan decides which steps there are, in which order, on
//! which property, scope and bus, with what value, and what a failure means.

use vstd::prelude::*;
use crate::config::{AecConfig, AecError, DuckingLevel};
use crate::status::{os_status_message, os_status_to_result};

verus! {

/// The bus that carries the microphone.
pub const INPUT_BUS: u32 = 1;
/// The bus that carries the speaker.
pub const OUTPUT_BUS: u32 = 0;
/// Buffer size reported when the unit does not say how many frames it renders at most.
pub const DEFAULT_BUFFER_FRAMES: u32 = 512;

/// Audio unit scopes.
#[derive(Clone, Copy, Debug, PartialEq, Eq, Structural)]
pub enum Scope {
    Global,
    Input,
    Output,
}

/// Audio unit properties that the backend reads or writes.
#[derive(Clone, Copy, Debug, PartialEq, Eq, Structural)]
pub enum Property {
    CurrentDevice,
    EnableIO,
    OtherAudioDuckingConfiguration,
    VoiceProcessingEnableAGC,
    BypassVoiceProcessing,
    StreamFormat,
    SetInputCallback,
    SetRenderCallback,
    MaximumFramesPerSlice,
}

/// Where a step reads or writes: property, scope and bus.
#[derive(Clone, Copy, Debug, PartialEq, Eq, Structural)]
pub struct Target {
    pub property: Property,
    pub scope: Scope,
    pub element: u32,
}

/// One step of bringing up the voice processor.
#[derive(Clone, Copy, Debug, PartialEq, Eq, Structural)]
pub enum SetupStep {
    /// Use the given input device.
    SelectInputDevice(u32),
    /// Use the given output device.
    SelectOutputDevice(u32),
    /// Turn on the microphone side.
    EnableInput,
    /// Turn on the speaker side.
    EnableOutput,
    /// Write the ducking configuration (`advanced` is the Core Audio Boolean 0 or 1).
    ConfigureDucking { advanced: u8, level: DuckingLevel },
    /// Write the automatic gain control switch (0 or 1).
    ConfigureAgc(u32),
    /// Write the voice-processing bypass switch (0 or 1).
    ConfigureBypass(u32),
    /// Read the unit's native stream format.
    ReadNativeFormat,
    /// Write the client format of the captured samples.
    SetInputFormat,
    /// Write the client format of the played samples.
    SetOutputFormat,
    /// Install the capture callback.
    SetInputCallback,
    /// Install the render callback.
    SetRenderCallback,
    /// Initialize the unit.
    Initialize,
    /// Start the unit.
    Start,
    /// Read how many frames the unit renders at most per callback.
    ReadMaxFrames,
}

/// Core Audio Boolean for a Rust `bool`.
pub open spec fn boolean_of(b: bool) -> u8 {
    if b { 1 } else { 0 }
}

/// The two device selections the configuration asks for, input first.
pub open spec fn device_steps(config: AecConfig) -> Seq<SetupStep> {
    (match config.input_device_id {
        Some(d) => seq![SetupStep::SelectInputDevice(d)],
        None => Seq::empty(),
    }) + (match config.output_device_id {
        Some(d) => seq![SetupStep::SelectOutputDevice(d)],
        None => Seq::empty(),
    })
}

/// Whether the ducking configuration is written at all: only when it differs
/// from what the unit does by default.
pub open spec fn ducking_requested(config: AecConfig) -> bool {
    config.enable_advanced_ducking || config.ducking_level != DuckingLevel::Default
}

/// The ducking step, when ducking is requested.
pub open spec fn ducking_steps(config: AecConfig) -> Seq<SetupStep> {
    if ducking_requested(config) {
        seq![SetupStep::ConfigureDucking {
            advanced: boolean_of(config.enable_advanced_ducking),
            level: config.ducking_level,
        }]
    } else {
        Seq::empty()
    }
}

/// The gain-control step, when the configuration sets it.
pub open spec fn agc_steps(config: AecConfig) -> Seq<SetupStep> {
    match config.voice_processing_enable_agc {
        Some(on) => seq![SetupStep::ConfigureAgc(if on { 1u32 } else { 0u32 })],
        None => Seq::empty(),
    }
}

/// The bypass step, when the configuration sets it.
pub open spec fn bypass_steps(config: AecConfig) -> Seq<SetupStep> {
    match config.voice_processing_bypass {
        Some(on) => seq![SetupStep::ConfigureBypass(if on { 1u32 } else { 0u32 })],
        None => Seq::empty(),
    }
}

/// The voice-processing options the configuration asks for: ducking, then
/// automatic gain control, then bypass.
pub open spec fn option_steps(config: AecConfig) -> Seq<SetupStep> {
    ducking_steps(config) + agc_steps(config) + bypass_steps(config)
}

/// The steps after the options: formats, callbacks, start, buffer size.
pub open spec fn plan_tail() -> Seq<SetupStep> {
    seq![
        SetupStep::ReadNativeFormat,
        SetupStep::SetInputFormat,
        SetupStep::SetOutputFormat,
        SetupStep::SetInputCallback,
        SetupStep::SetRenderCallback,
        SetupStep::Initialize,
        SetupStep::Start,
        SetupStep::ReadMaxFrames,
    ]
}

/// The whole bring-up, in order.
pub open spec fn setup_plan_spec(config: AecConfig) -> Seq<SetupStep> {
    device_steps(config)
        + seq![SetupStep::EnableInput, SetupStep::EnableOutput]
        + option_steps(config)
        + plan_tail()
}

/// Property, scope and bus of each step that reads or writes a property.
pub open spec fn target_spec(step: SetupStep) -> Option<Target> {
    match step {
        SetupStep::SelectInputDevice(_) | SetupStep::SelectOutputDevice(_) => Some(
            Target { property: Property::CurrentDevice, scope: Scope::Global, element: OUTPUT_BUS },
        ),
        SetupStep::EnableInput => Some(
            Target { property: Property::EnableIO, scope: Scope::Input, element: INPUT_BUS },
        ),
        SetupStep::EnableOutput => Some(
            Target { property: Property::EnableIO, scope: Scope::Output, element: OUTPUT_BUS },
        ),
        SetupStep::ConfigureDucking { .. } => Some(
            Target {
                property: Property::OtherAudioDuckingConfiguration,
                scope: Scope::Global,
                element: OUTPUT_BUS,
            },
        ),
        SetupStep::ConfigureAgc(_) => Some(
            Target {
                property: Property::VoiceProcessingEnableAGC,
                scope: Scope::Global,
                element: OUTPUT_BUS,
            },
        ),
        SetupStep::ConfigureBypass(_) => Some(
            Target {
                property: Property::BypassVoiceProcessing,
                scope: Scope::Global,
                element: OUTPUT_BUS,
            },
        ),
        SetupStep::ReadNativeFormat | SetupStep::SetInputFormat => Some(
            Target { property: Property::StreamFormat, scope: Scope::Output, element: INPUT_BUS },
        ),
        SetupStep::SetOutputFormat => Some(
            Target { property: Property::StreamFormat, scope: Scope::Input, element: OUTPUT_BUS },
        ),
        SetupStep::SetInputCallback => Some(
            Target { property: Property::SetInputCallback, scope: Scope::Global, element: OUTPUT_BUS },
        ),
        SetupStep::SetRenderCallback => Some(
            Target { property: Property::SetRenderCallback, scope: Scope::Global, element: OUTPUT_BUS },
        ),
        SetupStep::ReadMaxFrames => Some(
            Target {
                property: Property::MaximumFramesPerSlice,
                scope: Scope::Global,
                element: OUTPUT_BUS,
            },
        ),
        SetupStep::Initialize | SetupStep::Start => None,
    }
}

/// The text that an error of each step starts with.
pub open spec fn context_spec(step: SetupStep) -> Seq<char> {
    match step {
        SetupStep::SelectInputDevice(_) => "failed to set input device"@,
        SetupStep::SelectOutputDevice(_) => "failed to set output device"@,
        SetupStep::EnableInput => "failed to enable input IO"@,
        SetupStep::EnableOutput => "failed to enable output IO"@,
        SetupStep::ConfigureDucking { .. } =>
            "failed to configure VoiceProcessingIO ducking (requires supported macOS runtime)"@,
        SetupStep::ConfigureAgc(_) => "failed to configure VoiceProcessingIO AGC"@,
        SetupStep::ConfigureBypass(_) => "failed to configure VoiceProcessingIO bypass"@,
        SetupStep::ReadNativeFormat => "failed to get native stream format"@,
        SetupStep::SetInputFormat => "failed to set input stream format"@,
        SetupStep::SetOutputFormat => "failed to set output stream format"@,
        SetupStep::SetInputCallback => "failed to set input callback"@,
        SetupStep::SetRenderCallback => "failed to set render callback"@,
        SetupStep::Initialize => "failed to initialize VoiceProcessingIO"@,
        SetupStep::Start => "failed to start VoiceProcessingIO"@,
        SetupStep::ReadMaxFrames => "failed to query maximum frames per slice"@,
    }
}

/// Steps whose failure does not stop the bring-up: a device that cannot be
/// selected leaves the system default in place, and an unknown maximum
/// frame count falls back to the default buffer size.
pub open spec fn failure_ignored_spec(step: SetupStep) -> bool {
    match step {
        SetupStep::SelectInputDevice(_) | SetupStep::SelectOutputDevice(_) | SetupStep::ReadMaxFrames => true,
        _ => false,
    }
}

/// The 32-bit value a step writes, for the steps that write one: the device
/// identifier, 1 to enable a bus, or the gain-control and bypass switches.
pub open spec fn word_value_spec(step: SetupStep) -> Option<u32> {
    match step {
        SetupStep::SelectInputDevice(d) | SetupStep::SelectOutputDevice(d) => Some(d),
        SetupStep::EnableInput | SetupStep::EnableOutput => Some(1),
        SetupStep::ConfigureAgc(v) | SetupStep::ConfigureBypass(v) => Some(v),
        _ => None,
    }
}

impl SetupStep {
    /// Property, scope and bus the step reads or writes; `None` for
    /// initializing and starting the unit.
    pub fn target(&self) -> (t: Option<Target>)
        ensures
            t == target_spec(*self),
    {
        match self {
            SetupStep::SelectInputDevice(_) | SetupStep::SelectOutputDevice(_) => Some(
                Target { property: Property::CurrentDevice, scope: Scope::Global, element: OUTPUT_BUS },
            ),
            SetupStep::EnableInput => Some(
                Target { property: Property::EnableIO, scope: Scope::Input, element: INPUT_BUS },
            ),
            SetupStep::EnableOutput => Some(
                Target { property: Property::EnableIO, scope: Scope::Output, element: OUTPUT_BUS },
            ),
            SetupStep::ConfigureDucking { .. } => Some(
                Target {
                    property: Property::OtherAudioDuckingConfiguration,
                    scope: Scope::Global,
                    element: OUTPUT_BUS,
                },
            ),
            SetupStep::ConfigureAgc(_) => Some(
                Target {
                    property: Property::VoiceProcessingEnableAGC,
                    scope: Scope::Global,
                    element: OUTPUT_BUS,
                },
            ),
            SetupStep::ConfigureBypass(_) => Some(
                Target {
                    property: Property::BypassVoiceProcessing,
                    scope: Scope::Global,
                    element: OUTPUT_BUS,
                },
            ),
            SetupStep::ReadNativeFormat | SetupStep::SetInputFormat => Some(
                Target { property: Property::StreamFormat, scope: Scope::Output, element: INPUT_BUS },
            ),
            SetupStep::SetOutputFormat => Some(
                Target { property: Property::StreamFormat, scope: Scope::Input, element: OUTPUT_BUS },
            ),
            SetupStep::SetInputCallback => Some(
                Target {
                    property: Property::SetInputCallback,
                    scope: Scope::Global,
                    element: OUTPUT_BUS,
                },
            ),
            SetupStep::SetRenderCallback => Some(
                Target {
                    property: Property::SetRenderCallback,
                    scope: Scope::Global,
                    element: OUTPUT_BUS,
                },
            ),
            SetupStep::ReadMaxFrames => Some(
                Target {
                    property: Property::MaximumFramesPerSlice,
                    scope: Scope::Global,
                    element: OUTPUT_BUS,
                },
            ),
            SetupStep::Initialize | SetupStep::Start => None,
        }
    }

    /// The text that an error of this step starts with.
    pub fn context(&self) -> (s: &'static str)
        ensures
            s@ == context_spec(*self),
    {
        match self {
            SetupStep::SelectInputDevice(_) => "failed to set input device",
            SetupStep::SelectOutputDevice(_) => "failed to set output device",
            SetupStep::EnableInput => "failed to enable input IO",
            SetupStep::EnableOutput => "failed to enable output IO",
            SetupStep::ConfigureDucking { .. } =>
                "failed to configure VoiceProcessingIO ducking (requires supported macOS runtime)",
            SetupStep::ConfigureAgc(_) => "failed to configure VoiceProcessingIO AGC",
            SetupStep::ConfigureBypass(_) => "failed to configure VoiceProcessingIO bypass",
            SetupStep::ReadNativeFormat => "failed to get native stream format",
            SetupStep::SetInputFormat => "failed to set input stream format",
            SetupStep::SetOutputFormat => "failed to set output stream format",
            SetupStep::SetInputCallback => "failed to set input callback",
            SetupStep::SetRenderCallback => "failed to set render callback",
            SetupStep::Initialize => "failed to initialize VoiceProcessingIO",
            SetupStep::Start => "failed to start VoiceProcessingIO",
            SetupStep::ReadMaxFrames => "failed to query maximum frames per slice",
        }
    }

    /// The 32-bit value the step writes, if it writes one.
    pub fn word_value(&self) -> (v: Option<u32>)
        ensures
            v == word_value_spec(*self),
    {
        match self {
            SetupStep::SelectInputDevice(d) | SetupStep::SelectOutputDevice(d) => Some(*d),
            SetupStep::EnableInput | SetupStep::EnableOutput => Some(1),
            SetupStep::ConfigureAgc(v) | SetupStep::ConfigureBypass(v) => Some(*v),
            _ => None,
        }
    }

    /// Whether a failure of this step lets the bring-up go on.
    pub fn failure_ignored(&self) -> (b: bool)
        ensures
            b == failure_ignored_spec(*self),
    {
        match self {
            SetupStep::SelectInputDevice(_) | SetupStep::SelectOutputDevice(_) | SetupStep::ReadMaxFrames => true,
            _ => false,
        }
    }
}

fn push_device_steps(plan: &mut Vec<SetupStep>, config: &AecConfig)
    ensures
        final(plan)@ == old(plan)@ + device_steps(*config),
{
    let ghost start = plan@;
    if let Some(d) = config.input_device_id {
        plan.push(SetupStep::SelectInputDevice(d));
    }
    if let Some(d) = config.output_device_id {
        plan.push(SetupStep::SelectOutputDevice(d));
    }
    assert(plan@ =~= start + device_steps(*config));
}

fn push_option_steps(plan: &mut Vec<SetupStep>, config: &AecConfig)
    ensures
        final(plan)@ == old(plan)@ + option_steps(*config),
{
    let ghost start = plan@;
    if config.enable_advanced_ducking || config.ducking_level != DuckingLevel::Default {
        let advanced: u8 = if config.enable_advanced_ducking { 1 } else { 0 };
        plan.push(SetupStep::ConfigureDucking { advanced, level: config.ducking_level });
    }
    if let Some(on) = config.voice_processing_enable_agc {
        let flag: u32 = if on { 1 } else { 0 };
        plan.push(SetupStep::ConfigureAgc(flag));
    }
    if let Some(on) = config.voice_processing_bypass {
        let flag: u32 = if on { 1 } else { 0 };
        plan.push(SetupStep::ConfigureBypass(flag));
    }
    assert(plan@ =~= start + option_steps(*config));
}

/// The steps of bringing up the voice processor for `config`, in order:
/// device selections, enabling microphone then speaker, the requested
/// voice-processing options, then formats, callbacks, start, and the
/// buffer-size query.
pub fn setup_plan(config: &AecConfig) -> (plan: Vec<SetupStep>)
    ensures
        plan@ == setup_plan_spec(*config),
{
    let mut plan: Vec<SetupStep> = Vec::new();
    push_device_steps(&mut plan, config);
    plan.push(SetupStep::EnableInput);
    plan.push(SetupStep::EnableOutput);
    push_option_steps(&mut plan, config);
    plan.push(SetupStep::ReadNativeFormat);
    plan.push(SetupStep::SetInputFormat);
    plan.push(SetupStep::SetOutputFormat);
    plan.push(SetupStep::SetInputCallback);
    plan.push(SetupStep::SetRenderCallback);
    plan.push(SetupStep::Initialize);
    plan.push(SetupStep::Start);
    plan.push(SetupStep::ReadMaxFrames);
    assert(plan@ =~= setup_plan_spec(*config));
    plan
}

/// What the status of a performed step means: success, a failure that is
/// passed over, or the error that ends the bring-up.
pub fn check_step(step: &SetupStep, status: i32) -> (r: Result<(), AecError>)
    ensures
        r is Ok <==> (status == 0 || failure_ignored_spec(*step)),
        r matches Err(e) ==> e matches AecError::BackendError(m)
            && m@ == os_status_message(context_spec(*step), status),
{
    if step.failure_ignored() {
        Ok(())
    } else {
        os_status_to_result(status, step.context())
    }
}

/// Frames per callback reported to the caller: what the unit said, or the
/// default when the query failed.
pub fn buffer_size(status: i32, max_frames: u32) -> (n: usize)
    ensures
        n == if status == 0 { max_frames } else { DEFAULT_BUFFER_FRAMES },
{
    if status == 0 {
        max_frames as usize
    } else {
        DEFAULT_BUFFER_FRAMES as usize
    }
}

/// A bring-up in progress: the plan and the index of the next step to perform.
pub struct SetupRun {
    plan: Vec<SetupStep>,
    next: usize,
}

impl SetupRun {
    /// The steps of the run.
    pub closed spec fn steps(&self) -> Seq<SetupStep> {
        self.plan@
    }

    /// How many steps have been performed successfully (or passed over).
    pub closed spec fn position(&self) -> nat {
        self.next as nat
    }

    /// A run at the first step of the plan for `config`.
    pub fn new(config: &AecConfig) -> (run: SetupRun)
        ensures
            run.steps() == setup_plan_spec(*config),
            run.position() == 0,
    {
        SetupRun { plan: setup_plan(config), next: 0 }
    }

    /// The step to perform now, or `None` when every step is done.
    pub fn current(&self) -> (step: Option<SetupStep>)
        ensures
            self.position() < self.steps().len() ==> step == Some(self.steps()[self.position() as int]),
            self.position() >= self.steps().len() ==> step is None,
    {
        if self.next < self.plan.len() {
            Some(self.plan[self.next])
        } else {
            None
        }
    }

    /// Records the status of the current step. The run moves on when the
    /// step succeeded or its failure is passed over; otherwise it stays on
    /// the failed step and the error that ends the bring-up comes back.
    pub fn report(&mut self, status: i32) -> (r: Result<(), AecError>)
        requires
            old(self).position() < old(self).steps().len(),
        ensures
            final(self).steps() == old(self).steps(),
            r is Ok <==> (status == 0 || failure_ignored_spec(old(self).steps()[old(self).position() as int])),
            r is Ok ==> final(self).position() == old(self).position() + 1,
            r is Err ==> final(self).position() == old(self).position(),
            r matches Err(e) ==> e matches AecError::BackendError(m)
                && m@ == os_status_message(context_spec(old(self).steps()[old(self).position() as int]), status),
    {
        let step = self.plan[self.next];
        let r = check_step(&step, status);
        let len = self.plan.len();
        assert(self.next < len);
        if r.is_ok() {
            self.next = self.next + 1;
        }
        r
    }
}

/// The place of each kind of step in a bring-up.
pub open spec fn step_rank(step: SetupStep) -> int {
    match step {
        SetupStep::SelectInputDevice(_) => 0,
        SetupStep::SelectOutputDevice(_) => 1,
        SetupStep::EnableInput => 2,
        SetupStep::EnableOutput => 3,
        SetupStep::ConfigureDucking { .. } => 4,
        SetupStep::ConfigureAgc(_) => 5,
        SetupStep::ConfigureBypass(_) => 6,
        SetupStep::ReadNativeFormat => 7,
        SetupStep::SetInputFormat => 8,
        SetupStep::SetOutputFormat => 9,
        SetupStep::SetInputCallback => 10,
        SetupStep::SetRenderCallback => 11,
        SetupStep::Initialize => 12,
        SetupStep::Start => 13,
        SetupStep::ReadMaxFrames => 14,
    }
}

/// Steps strictly ordered by rank.
pub open spec fn rank_increasing(steps: Seq<SetupStep>) -> bool {
    forall|i: int, j: int| 0 <= i < j < steps.len() ==> step_rank(steps[i]) < step_rank(steps[j])
}

proof fn lemma_concat_increasing(a: Seq<SetupStep>, b: Seq<SetupStep>, bound: int)
    requires
        rank_increasing(a),
        rank_increasing(b),
        forall|i: int| 0 <= i < a.len() ==> step_rank(#[trigger] a[i]) < bound,
        forall|j: int| 0 <= j < b.len() ==> bound <= step_rank(#[trigger] b[j]),
    ensures
        rank_increasing(a + b),
{
    let c = a + b;
    assert forall|i: int, j: int| 0 <= i < j < c.len() implies step_rank(c[i]) < step_rank(c[j]) by {
        if j < a.len() {
            assert(c[i] == a[i] && c[j] == a[j]);
        } else if i >= a.len() {
            assert(c[i] == b[i - a.len()] && c[j] == b[j - a.len()]);
        } else {
            assert(c[i] == a[i] && c[j] == b[j - a.len()]);
        }
    }
}

proof fn lemma_option_steps(config: AecConfig)
    ensures
        option_steps(config).len() <= 3,
        rank_increasing(option_steps(config)),
        forall|i: int| 0 <= i < option_steps(config).len() ==> {
            &&& 4 <= step_rank(#[trigger] option_steps(config)[i]) < 7
            &&& option_steps(config)[i] is ConfigureDucking ==> ducking_requested(config)
            &&& option_steps(config)[i] is ConfigureAgc ==> config.voice_processing_enable_agc is Some
            &&& option_steps(config)[i] is ConfigureBypass ==> config.voice_processing_bypass is Some
            &&& !(option_steps(config)[i] is SelectInputDevice)
            &&& !(option_steps(config)[i] is SelectOutputDevice)
        },
        ducking_requested(config) ==> option_steps(config)[0] is ConfigureDucking,
        config.voice_processing_enable_agc is Some
            ==> option_steps(config)[ducking_steps(config).len() as int] is ConfigureAgc,
        config.voice_processing_bypass is Some
            ==> option_steps(config)[option_steps(config).len() - 1] is ConfigureBypass,
{
    let d = ducking_steps(config);
    let g = agc_steps(config);
    let b = bypass_steps(config);
    let o = option_steps(config);
    assert forall|i: int| 0 <= i < o.len() implies
        (i < d.len() ==> o[i] == d[i])
        && (d.len() <= i < d.len() + g.len() ==> o[i] == g[i - d.len()])
        && (d.len() + g.len() <= i ==> o[i] == b[i - d.len() - g.len()])
    by {
        if i < d.len() + g.len() {
            assert(o[i] == (d + g)[i]);
        }
    }
}

proof fn lemma_plan_increasing(config: AecConfig)
    ensures
        rank_increasing(setup_plan_spec(config)),
        setup_plan_spec(config).last() == SetupStep::ReadMaxFrames,
{
    let dev = device_steps(config);
    let io = seq![SetupStep::EnableInput, SetupStep::EnableOutput];
    let opt = option_steps(config);
    let tail = plan_tail();
    let p = setup_plan_spec(config);
    assert(p == dev + io + opt + tail);
    assert forall|i: int| 0 <= i < dev.len() implies 0 <= step_rank(#[trigger] dev[i]) < 2 by {}
    lemma_option_steps(config);
    assert(rank_increasing(dev));
    assert(rank_increasing(io));
    assert(rank_increasing(tail));
    lemma_concat_increasing(dev, io, 2);
    let a = dev + io;
    assert forall|i: int| 0 <= i < a.len() implies step_rank(#[trigger] a[i]) < 4 by {
        if i < dev.len() { assert(a[i] == dev[i]); } else { assert(a[i] == io[i - dev.len()]); }
    }
    lemma_concat_increasing(a, opt, 4);
    let b = a + opt;
    assert forall|i: int| 0 <= i < b.len() implies step_rank(#[trigger] b[i]) < 7 by {
        if i < a.len() { assert(b[i] == a[i]); } else { assert(b[i] == opt[i - a.len()]); }
    }
    lemma_concat_increasing(b, tail, 7);
    assert(p == b + tail);
    assert(p.last() == tail.last());
}

proof fn lemma_plan_parts(config: AecConfig)
    ensures
        forall|i: int| #![trigger setup_plan_spec(config)[i]] 0 <= i < setup_plan_spec(config).len() ==> {
            let p = setup_plan_spec(config);
            let d = device_steps(config).len() as int;
            let o = option_steps(config).len() as int;
            &&& (i < d ==> p[i] == device_steps(config)[i])
            &&& (d <= i < d + 2 ==> (p[i] == SetupStep::EnableInput || p[i] == SetupStep::EnableOutput))
            &&& (d + 2 <= i < d + 2 + o ==> p[i] == option_steps(config)[i - d - 2])
            &&& (d + 2 + o <= i ==> p[i] == plan_tail()[i - d - 2 - o])
        },
        setup_plan_spec(config).len() == device_steps(config).len() + 2 + option_steps(config).len() + 8,
{
    let dev = device_steps(config);
    let io = seq![SetupStep::EnableInput, SetupStep::EnableOutput];
    let opt = option_steps(config);
    let tail = plan_tail();
    let p = setup_plan_spec(config);
    let a = dev + io;
    let b = a + opt;
    assert(p == b + tail);
    assert forall|i: int| 0 <= i < p.len() implies
        (i < dev.len() ==> p[i] == dev[i])
        && (dev.len() <= i < dev.len() + 2 ==> (p[i] == SetupStep::EnableInput || p[i] == SetupStep::EnableOutput))
        && (dev.len() + 2 <= i < b.len() ==> p[i] == opt[i - dev.len() - 2])
        && (b.len() <= i ==> p[i] == tail[i - b.len()])
    by {
        if i < b.len() {
            assert(p[i] == b[i]);
            if i < a.len() {
                assert(b[i] == a[i]);
                if i < dev.len() {
                    assert(a[i] == dev[i]);
                } else {
                    assert(a[i] == io[i - dev.len()]);
                }
            } else {
                assert(b[i] == opt[i - a.len()]);
            }
        } else {
            assert(p[i] == tail[i - b.len()]);
        }
    }
}

/// The bring-up performs each kind of step at most once and always in the
/// same order: device selections before the microphone and speaker are
/// enabled, the voice-processing options after that, the native format read
/// before the client formats are written, every property written before the
/// unit is initialized and started, and the buffer size asked for last.
/// The ducking step is there exactly when ducking differs from the default,
/// the gain-control and bypass steps exactly when the configuration sets
/// them, and each device step exactly when a device is chosen.
pub proof fn lemma_setup_plan_order(config: AecConfig)
    ensures
        rank_increasing(setup_plan_spec(config)),
        setup_plan_spec(config).last() == SetupStep::ReadMaxFrames,
        (exists|i: int| 0 <= i < setup_plan_spec(config).len()
            && #[trigger] setup_plan_spec(config)[i] is ConfigureDucking) <==> ducking_requested(config),
        (exists|i: int| 0 <= i < setup_plan_spec(config).len()
            && #[trigger] setup_plan_spec(config)[i] is ConfigureAgc) <==> config.voice_processing_enable_agc is Some,
        (exists|i: int| 0 <= i < setup_plan_spec(config).len()
            && #[trigger] setup_plan_spec(config)[i] is ConfigureBypass) <==> config.voice_processing_bypass is Some,
        (exists|i: int| 0 <= i < setup_plan_spec(config).len()
            && #[trigger] setup_plan_spec(config)[i] is SelectInputDevice) <==> config.input_device_id is Some,
        (exists|i: int| 0 <= i < setup_plan_spec(config).len()
            && #[trigger] setup_plan_spec(config)[i] is SelectOutputDevice) <==> config.output_device_id is Some,
{
    lemma_plan_increasing(config);
    lemma_plan_parts(config);
    lemma_option_steps(config);
    let p = setup_plan_spec(config);
    let dev = device_steps(config);
    let opt = option_steps(config);
    let d = dev.len() as int;
    let o = opt.len() as int;
    assert(dev.len() <= 2);
    assert forall|i: int| 0 <= i < p.len() implies {
        &&& (p[i] is ConfigureDucking ==> ducking_requested(config))
        &&& (p[i] is ConfigureAgc ==> config.voice_processing_enable_agc is Some)
        &&& (p[i] is ConfigureBypass ==> config.voice_processing_bypass is Some)
        &&& (p[i] is SelectInputDevice ==> config.input_device_id is Some)
        &&& (p[i] is SelectOutputDevice ==> config.output_device_id is Some)
    } by {
        if i < d {
            assert(p[i] == dev[i]);
        } else if i < d + 2 {
        } else if i < d + 2 + o {
            assert(p[i] == opt[i - d - 2]);
        } else {
            assert(p[i] == plan_tail()[i - d - 2 - o]);
        }
    }
    if ducking_requested(config) {
        assert(p[d + 2] is ConfigureDucking);
    }
    if config.voice_processing_enable_agc is Some {
        assert(p[d + 2 + ducking_steps(config).len() as int] is ConfigureAgc);
    }
    if config.voice_processing_bypass is Some {
        assert(p[d + 2 + o - 1] is ConfigureBypass);
    }
    if config.input_device_id is Some {
        assert(p[0] is SelectInputDevice);
    }
    if config.output_device_id is Some {
        assert(p[d - 1] is SelectOutputDevice);
    }
}



/// Where each step reads or writes. Both device selections go to the
/// current-device property in Global scope on element 0; the microphone is
/// enabled in Input scope on bus 1 and the speaker in Output scope on bus 0;
/// the ducking, gain-control and bypass properties are written in Global
/// scope on element 0; the captured format is read and written in Output
/// scope on bus 1 and the played format in Input scope on bus 0; both
/// callbacks are installed in Global scope on bus 0; the buffer size is read
/// in Global scope on element 0; initializing and starting touch no property.
pub proof fn lemma_step_targets(d: u32, v: u32, a: u8, level: DuckingLevel)
    ensures
        target_spec(SetupStep::SelectInputDevice(d))
            == Some(Target { property: Property::CurrentDevice, scope: Scope::Global, element: 0u32 }),
        target_spec(SetupStep::SelectOutputDevice(d))
            == Some(Target { property: Property::CurrentDevice, scope: Scope::Global, element: 0u32 }),
        target_spec(SetupStep::EnableInput)
            == Some(Target { property: Property::EnableIO, scope: Scope::Input, element: 1u32 }),
        target_spec(SetupStep::EnableOutput)
            == Some(Target { property: Property::EnableIO, scope: Scope::Output, element: 0u32 }),
        target_spec(SetupStep::ConfigureDucking { advanced: a, level })
            == Some(Target {
                property: Property::OtherAudioDuckingConfiguration,
                scope: Scope::Global,
                element: 0u32,
            }),
        target_spec(SetupStep::ConfigureAgc(v))
            == Some(Target { property: Property::VoiceProcessingEnableAGC, scope: Scope::Global, element: 0u32 }),
        target_spec(SetupStep::ConfigureBypass(v))
            == Some(Target { property: Property::BypassVoiceProcessing, scope: Scope::Global, element: 0u32 }),
        target_spec(SetupStep::ReadNativeFormat)
            == Some(Target { property: Property::StreamFormat, scope: Scope::Output, element: 1u32 }),
        target_spec(SetupStep::SetInputFormat)
            == Some(Target { property: Property::StreamFormat, scope: Scope::Output, element: 1u32 }),
        target_spec(SetupStep::SetOutputFormat)
            == Some(Target { property: Property::StreamFormat, scope: Scope::Input, element: 0u32 }),
        target_spec(SetupStep::SetInputCallback)
            == Some(Target { property: Property::SetInputCallback, scope: Scope::Global, element: 0u32 }),
        target_spec(SetupStep::SetRenderCallback)
            == Some(Target { property: Property::SetRenderCallback, scope: Scope::Global, element: 0u32 }),
        target_spec(SetupStep::ReadMaxFrames)
            == Some(Target { property: Property::MaximumFramesPerSlice, scope: Scope::Global, element: 0u32 }),
        target_spec(SetupStep::Initialize) is None,
        target_spec(SetupStep::Start) is None,
{
}

/// The 32-bit value each step writes: a device selection writes the chosen
/// device, both enable steps write 1, the gain-control and bypass steps
/// write the switch they carry; the other steps write no such value.
pub proof fn lemma_step_word_values(step: SetupStep)
    ensures
        word_value_spec(step) == match step {
            SetupStep::SelectInputDevice(d) => Some(d),
            SetupStep::SelectOutputDevice(d) => Some(d),
            SetupStep::EnableInput => Some(1u32),
            SetupStep::EnableOutput => Some(1u32),
            SetupStep::ConfigureAgc(v) => Some(v),
            SetupStep::ConfigureBypass(v) => Some(v),
            _ => None,
        },
{
}

/// Only a failed device selection or a failed buffer-size query is passed
/// over; every other step that reports a nonzero status ends the bring-up.
pub proof fn lemma_ignored_failures(step: SetupStep)
    ensures
        failure_ignored_spec(step)
            <==> (step is SelectInputDevice || step is SelectOutputDevice || step is ReadMaxFrames),
{
}

/// What the plan for `config` asks of the voice processor: the gain-control
/// property receives 1 when gain control is asked for and 0 when it is
/// refused, the bypass property likewise, the ducking configuration carries
/// exactly the requested level and advanced-ducking switch (1 or 0) and is
/// written exactly when advanced ducking is on or the level is not the
/// default, and each chosen device is the value written for its selection.
pub proof fn lemma_plan_values(config: AecConfig)
    ensures
        forall|i: int| #![trigger setup_plan_spec(config)[i]] 0 <= i < setup_plan_spec(config).len() ==> {
            let step = setup_plan_spec(config)[i];
            &&& (step is ConfigureAgc ==> config.voice_processing_enable_agc is Some
                && word_value_spec(step) == Some(if config.voice_processing_enable_agc->0 { 1u32 } else { 0u32 }))
            &&& (step is ConfigureBypass ==> config.voice_processing_bypass is Some
                && word_value_spec(step) == Some(if config.voice_processing_bypass->0 { 1u32 } else { 0u32 }))
            &&& (step is ConfigureDucking ==> step == (SetupStep::ConfigureDucking {
                    advanced: if config.enable_advanced_ducking { 1u8 } else { 0u8 },
                    level: config.ducking_level,
                })
                && (config.enable_advanced_ducking || config.ducking_level != DuckingLevel::Default))
            &&& (step is SelectInputDevice ==> config.input_device_id == Some(step->SelectInputDevice_0))
            &&& (step is SelectOutputDevice ==> config.output_device_id == Some(step->SelectOutputDevice_0))
        },
        (config.enable_advanced_ducking || config.ducking_level != DuckingLevel::Default) ==> exists|i: int|
            0 <= i < setup_plan_spec(config).len() && #[trigger] setup_plan_spec(config)[i]
                == (SetupStep::ConfigureDucking {
                    advanced: if config.enable_advanced_ducking { 1u8 } else { 0u8 },
                    level: config.ducking_level,
                }),
        config.voice_processing_enable_agc is Some ==> exists|i: int|
            0 <= i < setup_plan_spec(config).len() && #[trigger] setup_plan_spec(config)[i]
                == SetupStep::ConfigureAgc(if config.voice_processing_enable_agc->0 { 1u32 } else { 0u32 }),
        config.voice_processing_bypass is Some ==> exists|i: int|
            0 <= i < setup_plan_spec(config).len() && #[trigger] setup_plan_spec(config)[i]
                == SetupStep::ConfigureBypass(if config.voice_processing_bypass->0 { 1u32 } else { 0u32 }),
        config.input_device_id is Some ==> exists|i: int|
            0 <= i < setup_plan_spec(config).len() && #[trigger] setup_plan_spec(config)[i]
                == SetupStep::SelectInputDevice(config.input_device_id->0),
        config.output_device_id is Some ==> exists|i: int|
            0 <= i < setup_plan_spec(config).len() && #[trigger] setup_plan_spec(config)[i]
                == SetupStep::SelectOutputDevice(config.output_device_id->0),
{
    lemma_plan_parts(config);
    lemma_option_steps(config);
    let p = setup_plan_spec(config);
    let dev = device_steps(config);
    let opt = option_steps(config);
    let d = dev.len() as int;
    let o = opt.len() as int;
    let dk = ducking_steps(config);
    let ag = agc_steps(config);
    let bp = bypass_steps(config);
    assert(opt == dk + ag + bp);
    assert forall|i: int| #![trigger p[i]] 0 <= i < p.len() implies {
        let step = p[i];
        &&& (step is ConfigureAgc ==> config.voice_processing_enable_agc is Some
            && word_value_spec(step) == Some(if config.voice_processing_enable_agc->0 { 1u32 } else { 0u32 }))
        &&& (step is ConfigureBypass ==> config.voice_processing_bypass is Some
            && word_value_spec(step) == Some(if config.voice_processing_bypass->0 { 1u32 } else { 0u32 }))
        &&& (step is ConfigureDucking ==> step == SetupStep::ConfigureDucking {
                advanced: if config.enable_advanced_ducking { 1u8 } else { 0u8 },
                level: config.ducking_level,
            }
            && (config.enable_advanced_ducking || config.ducking_level != DuckingLevel::Default))
        &&& (step is SelectInputDevice ==> config.input_device_id == Some(step->SelectInputDevice_0))
        &&& (step is SelectOutputDevice ==> config.output_device_id == Some(step->SelectOutputDevice_0))
    } by {
        if i < d {
            assert(p[i] == dev[i]);
            if config.input_device_id is Some && i == 0 {
            } else {
            }
        } else if i < d + 2 {
        } else if i < d + 2 + o {
            let k = i - d - 2;
            assert(p[i] == opt[k]);
            if k < dk.len() {
                assert(opt[k] == dk[k]);
            } else if k < dk.len() + ag.len() {
                assert(opt[k] == (dk + ag)[k]);
                assert(opt[k] == ag[k - dk.len()]);
            } else {
                assert(opt[k] == bp[k - dk.len() - ag.len()]);
            }
        } else {
            assert(p[i] == plan_tail()[i - d - 2 - o]);
        }
    }
    if config.enable_advanced_ducking || config.ducking_level != DuckingLevel::Default {
        assert(p[d + 2] == opt[0]);
    }
    if config.voice_processing_enable_agc is Some {
        assert(opt[dk.len() as int] == (dk + ag)[dk.len() as int]);
        assert(p[d + 2 + dk.len() as int] == opt[dk.len() as int]);
    }
    if config.voice_processing_bypass is Some {
        assert(p[d + 2 + o - 1] == opt[o - 1]);
    }
    if config.input_device_id is Some {
        assert(p[0] == dev[0]);
    }
    if config.output_device_id is Some {
        assert(p[d - 1] == dev[d - 1]);
    }
}

/// The plan's order, stated step kind by step kind: device selections come
/// before the microphone is enabled, the microphone before the speaker, the
/// speaker before the ducking, gain-control and bypass options (in that
/// order), those before the native format is read, which comes before both
/// client formats, then the capture and render callbacks, initializing,
/// starting, and last the buffer-size query.
pub proof fn lemma_plan_precedence(config: AecConfig)
    ensures
        forall|i: int, j: int|
            #![trigger setup_plan_spec(config)[i], setup_plan_spec(config)[j]]
            0 <= i < setup_plan_spec(config).len() && 0 <= j < setup_plan_spec(config).len() ==> {
                let a = setup_plan_spec(config)[i];
                let b = setup_plan_spec(config)[j];
                &&& (a is SelectInputDevice && b is SelectOutputDevice ==> i < j)
                &&& ((a is SelectInputDevice || a is SelectOutputDevice) && b is EnableInput ==> i < j)
                &&& (a is EnableInput && b is EnableOutput ==> i < j)
                &&& (a is EnableOutput && (b is ConfigureDucking || b is ConfigureAgc || b is ConfigureBypass) ==> i < j)
                &&& (a is ConfigureDucking && b is ConfigureAgc ==> i < j)
                &&& (a is ConfigureAgc && b is ConfigureBypass ==> i < j)
                &&& ((a is EnableOutput || a is ConfigureDucking || a is ConfigureAgc || a is ConfigureBypass)
                    && b is ReadNativeFormat ==> i < j)
                &&& (a is ReadNativeFormat && (b is SetInputFormat || b is SetOutputFormat) ==> i < j)
                &&& (a is SetInputFormat && b is SetOutputFormat ==> i < j)
                &&& (a is SetOutputFormat && b is SetInputCallback ==> i < j)
                &&& (a is SetInputCallback && b is SetRenderCallback ==> i < j)
                &&& (a is SetRenderCallback && b is Initialize ==> i < j)
                &&& (a is Initialize && b is Start ==> i < j)
                &&& (a is Start && b is ReadMaxFrames ==> i < j)
                &&& (a == b ==> i == j)
            },
{
    lemma_plan_increasing(config);
    let p = setup_plan_spec(config);
    assert forall|i: int, j: int|
        #![trigger p[i], p[j]]
        0 <= i < p.len() && 0 <= j < p.len() && step_rank(p[i]) < step_rank(p[j]) implies i < j by {
        if j < i {
            assert(step_rank(p[j]) < step_rank(p[i]));
        }
    }
    assert forall|i: int, j: int|
        #![trigger p[i], p[j]]
        0 <= i < p.len() && 0 <= j < p.len() && step_rank(p[i]) == step_rank(p[j]) implies i == j by {
        if j < i {
            assert(step_rank(p[j]) < step_rank(p[i]));
        } else if i < j {
            assert(step_rank(p[i]) < step_rank(p[j]));
        }
    }
}


/// The microphone is bus 1, the speaker bus 0, the buffer size reported
/// when the unit does not say is 512 frames, and the errors of finding and
/// creating the unit read as Core Audio users expect.
pub proof fn lemma_setup_constants()
    ensures
        INPUT_BUS == 1,
        OUTPUT_BUS == 0,
        DEFAULT_BUFFER_FRAMES == 512,
        missing_component_message() == "failed to find VoiceProcessingIO component"@,
        create_instance_context() == "failed to create VoiceProcessingIO"@,
{
}

/// The text each step's error starts with.
pub proof fn lemma_step_contexts(d: u32, v: u32, a: u8, level: DuckingLevel)
    ensures
        context_spec(SetupStep::SelectInputDevice(d)) == "failed to set input device"@,
        context_spec(SetupStep::SelectOutputDevice(d)) == "failed to set output device"@,
        context_spec(SetupStep::EnableInput) == "failed to enable input IO"@,
        context_spec(SetupStep::EnableOutput) == "failed to enable output IO"@,
        context_spec(SetupStep::ConfigureDucking { advanced: a, level })
            == "failed to configure VoiceProcessingIO ducking (requires supported macOS runtime)"@,
        context_spec(SetupStep::ConfigureAgc(v)) == "failed to configure VoiceProcessingIO AGC"@,
        context_spec(SetupStep::ConfigureBypass(v)) == "failed to configure VoiceProcessingIO bypass"@,
        context_spec(SetupStep::ReadNativeFormat) == "failed to get native stream format"@,
        context_spec(SetupStep::SetInputFormat) == "failed to set input stream format"@,
        context_spec(SetupStep::SetOutputFormat) == "failed to set output stream format"@,
        context_spec(SetupStep::SetInputCallback) == "failed to set input callback"@,
        context_spec(SetupStep::SetRenderCallback) == "failed to set render callback"@,
        context_spec(SetupStep::Initialize) == "failed to initialize VoiceProcessingIO"@,
        context_spec(SetupStep::Start) == "failed to start VoiceProcessingIO"@,
        context_spec(SetupStep::ReadMaxFrames) == "failed to query maximum frames per slice"@,
{
}


/// Every bring-up enables the microphone and the speaker, reads the native
/// format, writes both client formats, installs both callbacks, initializes
/// and starts the unit and asks for the buffer size; besides those it has
/// one step for each chosen device and each requested option, nothing else.
pub proof fn lemma_plan_mandatory_steps(config: AecConfig)
    ensures
        ({
            let p = setup_plan_spec(config);
            &&& p.contains(SetupStep::EnableInput)
            &&& p.contains(SetupStep::EnableOutput)
            &&& p.contains(SetupStep::ReadNativeFormat)
            &&& p.contains(SetupStep::SetInputFormat)
            &&& p.contains(SetupStep::SetOutputFormat)
            &&& p.contains(SetupStep::SetInputCallback)
            &&& p.contains(SetupStep::SetRenderCallback)
            &&& p.contains(SetupStep::Initialize)
            &&& p.contains(SetupStep::Start)
            &&& p.contains(SetupStep::ReadMaxFrames)
            &&& p.len() == 10
                + (if config.input_device_id is Some { 1int } else { 0int })
                + (if config.output_device_id is Some { 1int } else { 0int })
                + (if config.enable_advanced_ducking || config.ducking_level != DuckingLevel::Default { 1int } else { 0int })
                + (if config.voice_processing_enable_agc is Some { 1int } else { 0int })
                + (if config.voice_processing_bypass is Some { 1int } else { 0int })
        }),
{
    lemma_plan_parts(config);
    let p = setup_plan_spec(config);
    let d = device_steps(config).len() as int;
    let o = option_steps(config).len() as int;
    let t = plan_tail();
    assert(p[d] == SetupStep::EnableInput || p[d] == SetupStep::EnableOutput);
    assert(p == device_steps(config) + seq![SetupStep::EnableInput, SetupStep::EnableOutput] + option_steps(config) + t);
    assert(p[d] == SetupStep::EnableInput);
    assert(p[d + 1] == SetupStep::EnableOutput);
    assert(p[d + 2 + o] == t[0]);
    assert(p[d + 3 + o] == t[1]);
    assert(p[d + 4 + o] == t[2]);
    assert(p[d + 5 + o] == t[3]);
    assert(p[d + 6 + o] == t[4]);
    assert(p[d + 7 + o] == t[5]);
    assert(p[d + 8 + o] == t[6]);
    assert(p[d + 9 + o] == t[7]);
    assert(ducking_steps(config).len() + agc_steps(config).len() + bypass_steps(config).len() == o);
}

/// Text of the error when the system has no VoiceProcessingIO component.
pub open spec fn missing_component_message() -> Seq<char> {
    "failed to find VoiceProcessingIO component"@
}

/// Text that an error creating the unit instance starts with.
pub open spec fn create_instance_context() -> Seq<char> {
    "failed to create VoiceProcessingIO"@
}

/// The bring-up can only start when the VoiceProcessingIO component exists.
pub fn require_component(found: bool) -> (r: Result<(), AecError>)
    ensures
        r is Ok <==> found,
        r matches Err(e) ==> e matches AecError::BackendError(m) && m@ == missing_component_message(),
{
    if found {
        Ok(())
    } else {
        Err(AecError::BackendError(String::from_str("failed to find VoiceProcessingIO component")))
    }
}

/// What the status of creating the unit instance means.
pub fn instance_created(status: i32) -> (r: Result<(), AecError>)
    ensures
        r is Ok <==> status == 0,
        r matches Err(e) ==> e matches AecError::BackendError(m)
            && m@ == os_status_message(create_instance_context(), status),
{
    os_status_to_result(status, "failed to create VoiceProcessingIO")
}

/// One step of shutting the unit down. Their statuses are not examined:
/// shutting down goes on whatever each step reports.
#[derive(Clone, Copy, Debug, PartialEq, Eq, Structural)]
pub enum TeardownStep {
    /// Stop the unit.
    Stop,
    /// Uninitialize the unit.
    Uninitialize,
    /// Dispose of the unit instance.
    Dispose,
}

/// Shutting down: stop, then uninitialize, then dispose.
pub fn teardown_plan() -> (plan: Vec<TeardownStep>)
    ensures
        plan@ == seq![TeardownStep::Stop, TeardownStep::Uninitialize, TeardownStep::Dispose],
{
    let mut plan: Vec<TeardownStep> = Vec::new();
    plan.push(TeardownStep::Stop);
    plan.push(TeardownStep::Uninitialize);
    plan.push(TeardownStep::Dispose);
    plan
}

} // verus!
