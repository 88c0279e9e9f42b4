use sys_voice::config::{AecConfig, AecError, Channels, DuckingLevel};
use sys_voice::setup::{
    buffer_size, check_step, instance_created, require_component, setup_plan, teardown_plan,
    Property, Scope, SetupRun, SetupStep, Target, TeardownStep, INPUT_BUS, OUTPUT_BUS,
};
use sys_voice::status::{append_decimal, os_status_to_result};

fn backend_message(r: Result<(), AecError>) -> String {
    match r {
        Err(AecError::BackendError(m)) => m,
        other => panic!("expected a backend error, got {:?}", other),
    }
}

#[test]
fn zero_status_is_success() {
    assert_eq!(os_status_to_result(0, "failed to create VoiceProcessingIO"), Ok(()));
}

#[test]
fn nonzero_status_names_context_and_status() {
    let m = backend_message(os_status_to_result(-50, "failed to create VoiceProcessingIO"));
    assert_eq!(m, "failed to create VoiceProcessingIO: OSStatus -50");
    let m = backend_message(os_status_to_result(1718449215, "failed to start VoiceProcessingIO"));
    assert_eq!(m, "failed to start VoiceProcessingIO: OSStatus 1718449215");
}

#[test]
fn decimal_text_matches_display() {
    for v in [0, 7, 10, -1, -10851, 100000, i32::MAX, i32::MIN] {
        let mut s = String::from("x=");
        append_decimal(&mut s, v);
        assert_eq!(s, format!("x={}", v));
    }
}

#[test]
fn default_config_values() {
    let c = AecConfig::default();
    assert_eq!(c.sample_rate, 48000);
    assert_eq!(c.channels, Channels::Mono);
    assert!(!c.enable_advanced_ducking);
    assert_eq!(c.ducking_level, DuckingLevel::Default);
    assert_eq!(c.voice_processing_enable_agc, None);
    assert_eq!(c.voice_processing_bypass, None);
    assert_eq!(c.input_device_id, None);
    assert_eq!(c.output_device_id, None);
}

const TAIL: [SetupStep; 8] = [
    SetupStep::ReadNativeFormat,
    SetupStep::SetInputFormat,
    SetupStep::SetOutputFormat,
    SetupStep::SetInputCallback,
    SetupStep::SetRenderCallback,
    SetupStep::Initialize,
    SetupStep::Start,
    SetupStep::ReadMaxFrames,
];

#[test]
fn default_plan_enables_io_then_formats() {
    let plan = setup_plan(&AecConfig::default());
    let mut expected = vec![SetupStep::EnableInput, SetupStep::EnableOutput];
    expected.extend_from_slice(&TAIL);
    assert_eq!(plan, expected);
}

#[test]
fn full_plan_selects_devices_first_then_options() {
    let config = AecConfig {
        sample_rate: 48000,
        channels: Channels::Mono,
        enable_advanced_ducking: true,
        ducking_level: DuckingLevel::Mid,
        voice_processing_enable_agc: Some(true),
        voice_processing_bypass: Some(false),
        input_device_id: Some(73),
        output_device_id: Some(81),
    };
    let plan = setup_plan(&config);
    let mut expected = vec![
        SetupStep::SelectInputDevice(73),
        SetupStep::SelectOutputDevice(81),
        SetupStep::EnableInput,
        SetupStep::EnableOutput,
        SetupStep::ConfigureDucking { advanced: 1, level: DuckingLevel::Mid },
        SetupStep::ConfigureAgc(1),
        SetupStep::ConfigureBypass(0),
    ];
    expected.extend_from_slice(&TAIL);
    assert_eq!(plan, expected);
}

#[test]
fn ducking_level_alone_writes_ducking_without_advanced() {
    let config = AecConfig { ducking_level: DuckingLevel::Min, voice_processing_enable_agc: Some(false), ..AecConfig::default() };
    let plan = setup_plan(&config);
    assert_eq!(plan[2], SetupStep::ConfigureDucking { advanced: 0, level: DuckingLevel::Min });
    assert_eq!(plan[3], SetupStep::ConfigureAgc(0));
    assert_eq!(plan.len(), 12);
}

#[test]
fn advanced_ducking_alone_keeps_default_level() {
    let config = AecConfig { enable_advanced_ducking: true, ..AecConfig::default() };
    let plan = setup_plan(&config);
    assert_eq!(plan[2], SetupStep::ConfigureDucking { advanced: 1, level: DuckingLevel::Default });
    assert_eq!(plan.len(), 11);
}

#[test]
fn only_output_device_selected() {
    let config = AecConfig { output_device_id: Some(5), ..AecConfig::default() };
    let plan = setup_plan(&config);
    assert_eq!(plan[0], SetupStep::SelectOutputDevice(5));
    assert_eq!(plan[1], SetupStep::EnableInput);
}

#[test]
fn step_targets() {
    let t = |property, scope, element| Some(Target { property, scope, element });
    assert_eq!(SetupStep::EnableInput.target(), t(Property::EnableIO, Scope::Input, INPUT_BUS));
    assert_eq!(SetupStep::EnableOutput.target(), t(Property::EnableIO, Scope::Output, OUTPUT_BUS));
    assert_eq!(SetupStep::SelectInputDevice(3).target(), t(Property::CurrentDevice, Scope::Global, 0));
    assert_eq!(
        SetupStep::ConfigureDucking { advanced: 1, level: DuckingLevel::Max }.target(),
        t(Property::OtherAudioDuckingConfiguration, Scope::Global, OUTPUT_BUS)
    );
    assert_eq!(SetupStep::ConfigureAgc(1).target(), t(Property::VoiceProcessingEnableAGC, Scope::Global, OUTPUT_BUS));
    assert_eq!(SetupStep::ConfigureBypass(1).target(), t(Property::BypassVoiceProcessing, Scope::Global, OUTPUT_BUS));
    assert_eq!(SetupStep::ReadNativeFormat.target(), t(Property::StreamFormat, Scope::Output, INPUT_BUS));
    assert_eq!(SetupStep::SetInputFormat.target(), t(Property::StreamFormat, Scope::Output, INPUT_BUS));
    assert_eq!(SetupStep::SetOutputFormat.target(), t(Property::StreamFormat, Scope::Input, OUTPUT_BUS));
    assert_eq!(SetupStep::SetInputCallback.target(), t(Property::SetInputCallback, Scope::Global, OUTPUT_BUS));
    assert_eq!(SetupStep::SetRenderCallback.target(), t(Property::SetRenderCallback, Scope::Global, OUTPUT_BUS));
    assert_eq!(SetupStep::ReadMaxFrames.target(), t(Property::MaximumFramesPerSlice, Scope::Global, OUTPUT_BUS));
    assert_eq!(SetupStep::Initialize.target(), None);
    assert_eq!(SetupStep::Start.target(), None);
}

#[test]
fn failures_that_end_the_bring_up() {
    assert_eq!(check_step(&SetupStep::EnableInput, 0), Ok(()));
    let m = backend_message(check_step(&SetupStep::EnableInput, -10851));
    assert_eq!(m, "failed to enable input IO: OSStatus -10851");
    let m = backend_message(check_step(
        &SetupStep::ConfigureDucking { advanced: 1, level: DuckingLevel::Mid },
        -10879,
    ));
    assert_eq!(
        m,
        "failed to configure VoiceProcessingIO ducking (requires supported macOS runtime): OSStatus -10879"
    );
    let m = backend_message(check_step(&SetupStep::Start, 1));
    assert_eq!(m, "failed to start VoiceProcessingIO: OSStatus 1");
}

#[test]
fn failures_that_are_passed_over() {
    assert_eq!(check_step(&SetupStep::SelectInputDevice(9), -10851), Ok(()));
    assert_eq!(check_step(&SetupStep::SelectOutputDevice(9), -10851), Ok(()));
    assert_eq!(check_step(&SetupStep::ReadMaxFrames, -1), Ok(()));
}

#[test]
fn buffer_size_falls_back_to_512() {
    assert_eq!(buffer_size(0, 1156), 1156);
    assert_eq!(buffer_size(-10879, 1156), 512);
}

#[test]
fn run_walks_the_plan_and_stops_at_a_failure() {
    let config = AecConfig { input_device_id: Some(2), ..AecConfig::default() };
    let mut run = SetupRun::new(&config);
    assert_eq!(run.current(), Some(SetupStep::SelectInputDevice(2)));
    assert_eq!(run.report(-1), Ok(()));
    assert_eq!(run.current(), Some(SetupStep::EnableInput));
    assert_eq!(run.report(0), Ok(()));
    let m = backend_message(run.report(-66635));
    assert_eq!(m, "failed to enable output IO: OSStatus -66635");
    assert_eq!(run.current(), Some(SetupStep::EnableOutput));
}

#[test]
fn run_finishes_when_every_step_succeeds() {
    let mut run = SetupRun::new(&AecConfig::default());
    let mut performed = Vec::new();
    while let Some(step) = run.current() {
        performed.push(step);
        assert_eq!(run.report(0), Ok(()));
    }
    assert_eq!(performed.len(), 10);
    assert_eq!(performed.last(), Some(&SetupStep::ReadMaxFrames));
}

#[test]
fn bypass_alone_adds_one_step_after_io() {
    let config = AecConfig { voice_processing_bypass: Some(true), ..AecConfig::default() };
    let plan = setup_plan(&config);
    assert_eq!(plan[2], SetupStep::ConfigureBypass(1));
    assert_eq!(plan.len(), 11);
    let m = backend_message(check_step(&SetupStep::ConfigureBypass(1), -10879));
    assert_eq!(m, "failed to configure VoiceProcessingIO bypass: OSStatus -10879");
}

#[test]
fn word_values_written_by_steps() {
    assert_eq!(SetupStep::SelectInputDevice(73).word_value(), Some(73));
    assert_eq!(SetupStep::SelectOutputDevice(81).word_value(), Some(81));
    assert_eq!(SetupStep::EnableInput.word_value(), Some(1));
    assert_eq!(SetupStep::EnableOutput.word_value(), Some(1));
    assert_eq!(SetupStep::ConfigureAgc(0).word_value(), Some(0));
    assert_eq!(SetupStep::ConfigureBypass(1).word_value(), Some(1));
    assert_eq!(SetupStep::ConfigureDucking { advanced: 1, level: DuckingLevel::Mid }.word_value(), None);
    assert_eq!(SetupStep::SetRenderCallback.word_value(), None);
    assert_eq!(SetupStep::Start.word_value(), None);
}

#[test]
fn component_and_instance_errors() {
    assert_eq!(require_component(true), Ok(()));
    assert_eq!(
        backend_message(require_component(false)),
        "failed to find VoiceProcessingIO component"
    );
    assert_eq!(instance_created(0), Ok(()));
    assert_eq!(
        backend_message(instance_created(-3000)),
        "failed to create VoiceProcessingIO: OSStatus -3000"
    );
}

#[test]
fn teardown_stops_then_uninitializes_then_disposes() {
    assert_eq!(
        teardown_plan(),
        vec![TeardownStep::Stop, TeardownStep::Uninitialize, TeardownStep::Dispose]
    );
}
