//! The plans of the recording sessions.
//!
//! Each session is a fixed sequence of libobs calls, parameterised only by
//! what the application learns at run time (the platform, the recording path,
//! the encoder that was found).  The plans are built here and carried out by
//! the application, step by step, under the [`crate::runner`] driver.
use vstd::prelude::*;
use crate::plan::{
    AudioBuffering, AudioSetup, Call, CallView, EncoderChoice, EncoderChoiceView, FailureReport,
    FailureReportView, GraphicsModule, Plan, SourceKind, SourceKindView, Step, StepView, VideoMode,
    VideoSetup, plan_checks,
};
use crate::presets::{
    aac_settings, aac_view, cbr_x264_settings, cbr_x264_view, crf_x264_settings, crf_x264_view,
    default_audio_device_settings, default_audio_device_view, file_output_settings,
    file_output_view, monitor_retarget_settings, monitor_retarget_view, monitor_source_settings,
    monitor_source_view, replay_buffer_settings, replay_buffer_view,
};
use crate::runner::{
    consistent, fails, law_listing_with_items_goes_on, law_reached_states_are_consistent, run_from,
    spec_advance, Check, Directive, Outcome, RunState,
};
use crate::names::{
    created_name, created_raw_object, releases_created_objects, used_names, uses_only_created,
};
use crate::messages::{decimal_of, index_message, notice_of, NoticeView};
use crate::settings::{SettingValue, SettingValueView};

verus! {

/// The operating system the session runs on; it decides the graphics module,
/// the capture sources and the platform set-up.
#[derive(Clone, Copy, PartialEq, Eq, Structural)]
pub enum Platform {
    Windows,
    Linux,
}

/// A step whose outcome is not looked at.
pub open spec fn just(call: CallView) -> StepView {
    StepView { call, check: Check::Proceed, on_failure: FailureReportView::Silent }
}

/// A step with a check and a failure report.
pub open spec fn guarded(call: CallView, check: Check, on_failure: FailureReportView) -> StepView {
    StepView { call, check, on_failure }
}

/// A step of the libobs-wrapper API that is unwrapped: its error ends the
/// program.
pub open spec fn must(call: CallView) -> StepView {
    guarded(call, Check::StopIfFalse, FailureReportView::Unwrap)
}

/// Listing the monitors and unwrapping the first of them: a failed listing
/// or an empty one ends the program.
pub open spec fn first_monitor_listing() -> StepView {
    guarded(CallView::ListMonitors, Check::StopIfEmpty, FailureReportView::Unwrap)
}

/// A step that prints `line`.
pub open spec fn say(line: Seq<char>) -> StepView {
    just(CallView::Print { line })
}

/// A step of the libobs-wrapper API that picks the item at position `index`
/// of a list and unwraps the result: a list too short for it, or an error,
/// ends the program.
pub open spec fn must_index(call: CallView, index: usize) -> StepView {
    guarded(call, Check::StopUnlessTrue, FailureReportView::IndexOrUnwrap { index })
}

fn text(s: &str) -> (r: String)
    ensures
        r@ == s@,
{
    String::from_str(s)
}

fn plain(call: Call) -> (s: Step)
    ensures
        s@ == just(call@),
{
    Step { call, check: Check::Proceed, on_failure: FailureReport::Silent }
}

fn checked(call: Call, check: Check, on_failure: FailureReport) -> (s: Step)
    ensures
        s@ == guarded(call@, check, on_failure@),
{
    Step { call, check, on_failure }
}

fn must_succeed(call: Call) -> (s: Step)
    ensures
        s@ == must(call@),
{
    Step { call, check: Check::StopIfFalse, on_failure: FailureReport::Unwrap }
}

fn print_step(line: &str) -> (s: Step)
    ensures
        s@ == say(line@),
{
    plain(Call::Print { line: text(line) })
}

fn must_index_step(call: Call, index: usize) -> (s: Step)
    ensures
        s@ == must_index(call@, index),
{
    Step { call, check: Check::StopUnlessTrue, on_failure: FailureReport::IndexOrUnwrap { index } }
}

fn first_monitor_step() -> (s: Step)
    ensures
        s@ == first_monitor_listing(),
{
    Step { call: Call::ListMonitors, check: Check::StopIfEmpty, on_failure: FailureReport::Unwrap }
}

// ---------------------------------------------------------------------------
// A raw libobs recording of the main monitor to a file next to the executable,
// with a replay buffer set up beside it.
// ---------------------------------------------------------------------------

/// The plan of the raw monitor recording.
pub open spec fn monitor_recording_view() -> Seq<StepView> {
    seq![
        guarded(
            CallView::QueryInitialized,
            Check::StopIfTrue,
            FailureReportView::Print("Already initialized, can't do it again"@),
        ),
        just(CallView::LogVersion { label: "OBS VERSION: "@ }),
        guarded(
            CallView::Startup { locale: "en-US"@ },
            Check::StopIfFalse,
            FailureReportView::Print("Startup failed"@),
        ),
        just(CallView::AddDataPath { path: "data/libobs"@ }),
        just(
            CallView::AddModulePath {
                binaries: "obs-plugins/64bit"@,
                data: "data/obs-plugins/%module%"@,
            },
        ),
        guarded(
            CallView::ResetVideo { video: VideoSetup::WrapperDefault },
            Check::StopIfNonZero,
            FailureReportView::Print("error reseting video in obs"@),
        ),
        guarded(
            CallView::ResetAudio {
                audio: AudioSetup { samples_per_sec: 44100, buffering: None },
                label: None,
            },
            Check::StopIfFalse,
            FailureReportView::Print("error reseting audio in obs"@),
        ),
        just(CallView::LoadModules),
        just(
            CallView::CreateSource {
                source_type: SourceKindView::Id("monitor_capture"@),
                name: "Screen capture source"@,
                settings: None,
            },
        ),
        just(CallView::SetOutputSource { channel: 0, source: "Screen capture source"@ }),
        just(
            CallView::CreateVideoEncoder {
                id: "obs_x264"@,
                name: "simple_h264_recording"@,
                settings: Some(crf_x264_view()),
            },
        ),
        just(CallView::EncoderUseVideo { encoder: "simple_h264_recording"@ }),
        just(
            CallView::CreateSource {
                source_type: SourceKindView::Id("wasapi_output_capture"@),
                name: "Audio Capture Source"@,
                settings: None,
            },
        ),
        just(CallView::SetOutputSource { channel: 1, source: "Audio Capture Source"@ }),
        just(
            CallView::CreateOutput {
                kind: "ffmpeg_muxer"@,
                name: "simple_ffmpeg_output"@,
                settings: Some(file_output_view(SettingValueView::ExePath("./test_record.mp4"@))),
            },
        ),
        just(
            CallView::OutputUseVideoEncoder {
                output: "simple_ffmpeg_output"@,
                encoder: "simple_h264_recording"@,
            },
        ),
        just(
            CallView::CreateOutput {
                kind: "replay_buffer"@,
                name: "replay_buffer_output"@,
                settings: Some(replay_buffer_view()),
            },
        ),
        just(
            CallView::OutputUseVideoEncoder {
                output: "replay_buffer_output"@,
                encoder: "simple_h264_recording"@,
            },
        ),
        guarded(
            CallView::StartOutput {
                output: "simple_ffmpeg_output"@,
                label: Some("RECORD OUTPUT START: "@),
            },
            Check::ReportIfFalse,
            FailureReportView::PrintWithDetail { prefix: "ERROR OCCURRED: ERROR"@, quoted: false },
        ),
        just(CallView::Sleep { millis: 10000 }),
        just(CallView::LogOutputId { output: "simple_ffmpeg_output"@, label: "ID: "@ }),
        just(CallView::StopOutput { output: "simple_ffmpeg_output"@ }),
        just(CallView::Shutdown),
    ]
}

/// Builds the plan of the raw monitor recording.
pub fn monitor_recording_plan() -> (p: Plan)
    ensures
        p@ == monitor_recording_view(),
{
    let mut p = Plan::new();
    p.push(
        checked(
            Call::QueryInitialized,
            Check::StopIfTrue,
            FailureReport::Print(text("Already initialized, can't do it again")),
        ),
    );
    p.push(plain(Call::LogVersion { label: text("OBS VERSION: ") }));
    p.push(
        checked(
            Call::Startup { locale: text("en-US") },
            Check::StopIfFalse,
            FailureReport::Print(text("Startup failed")),
        ),
    );
    p.push(plain(Call::AddDataPath { path: text("data/libobs") }));
    p.push(
        plain(
            Call::AddModulePath {
                binaries: text("obs-plugins/64bit"),
                data: text("data/obs-plugins/%module%"),
            },
        ),
    );
    p.push(
        checked(
            Call::ResetVideo { video: VideoSetup::WrapperDefault },
            Check::StopIfNonZero,
            FailureReport::Print(text("error reseting video in obs")),
        ),
    );
    p.push(
        checked(
            Call::ResetAudio {
                audio: AudioSetup { samples_per_sec: 44100, buffering: None },
                label: None,
            },
            Check::StopIfFalse,
            FailureReport::Print(text("error reseting audio in obs")),
        ),
    );
    p.push(plain(Call::LoadModules));
    p.push(
        plain(
            Call::CreateSource {
                source_type: SourceKind::Id(text("monitor_capture")),
                name: text("Screen capture source"),
                settings: None,
            },
        ),
    );
    p.push(plain(Call::SetOutputSource { channel: 0, source: text("Screen capture source") }));
    p.push(
        plain(
            Call::CreateVideoEncoder {
                id: text("obs_x264"),
                name: text("simple_h264_recording"),
                settings: Some(crf_x264_settings()),
            },
        ),
    );
    p.push(plain(Call::EncoderUseVideo { encoder: text("simple_h264_recording") }));
    p.push(
        plain(
            Call::CreateSource {
                source_type: SourceKind::Id(text("wasapi_output_capture")),
                name: text("Audio Capture Source"),
                settings: None,
            },
        ),
    );
    p.push(plain(Call::SetOutputSource { channel: 1, source: text("Audio Capture Source") }));
    p.push(
        plain(
            Call::CreateOutput {
                kind: text("ffmpeg_muxer"),
                name: text("simple_ffmpeg_output"),
                settings: Some(
                    file_output_settings(SettingValue::ExePath(text("./test_record.mp4"))),
                ),
            },
        ),
    );
    p.push(
        plain(
            Call::OutputUseVideoEncoder {
                output: text("simple_ffmpeg_output"),
                encoder: text("simple_h264_recording"),
            },
        ),
    );
    p.push(
        plain(
            Call::CreateOutput {
                kind: text("replay_buffer"),
                name: text("replay_buffer_output"),
                settings: Some(replay_buffer_settings()),
            },
        ),
    );
    p.push(
        plain(
            Call::OutputUseVideoEncoder {
                output: text("replay_buffer_output"),
                encoder: text("simple_h264_recording"),
            },
        ),
    );
    p.push(
        checked(
            Call::StartOutput {
                output: text("simple_ffmpeg_output"),
                label: Some(text("RECORD OUTPUT START: ")),
            },
            Check::ReportIfFalse,
            FailureReport::PrintWithDetail { prefix: text("ERROR OCCURRED: ERROR"), quoted: false },
        ),
    );
    p.push(plain(Call::Sleep { millis: 10000 }));
    p.push(plain(Call::LogOutputId { output: text("simple_ffmpeg_output"), label: text("ID: ") }));
    p.push(plain(Call::StopOutput { output: text("simple_ffmpeg_output") }));
    p.push(plain(Call::Shutdown));
    assert(p@ =~= monitor_recording_view());
    p
}

// ---------------------------------------------------------------------------
// A raw libobs recording driven from the console: the screen and the default
// audio output are recorded to `./record.mp4` until a line is entered, then
// every object is released and libobs is shut down.
// ---------------------------------------------------------------------------

/// The platform set-up before startup, with its progress lines.
pub open spec fn platform_setup_view(platform: Platform) -> Seq<StepView> {
    match platform {
        Platform::Windows => seq![
            say("Setting log handler on Windows"@),
            just(CallView::InstallLogHandler),
            say("Log handler set successfully"@),
        ],
        Platform::Linux => seq![
            say("Setting NIX platform to X11_EGL"@),
            say("Opening X display"@),
            just(CallView::UseX11Display),
            say("NIX platform display set"@),
        ],
    }
}

/// The video mode of the console recording: 1920x1080 at 60 fps on the first
/// adapter, converted on the GPU.
pub open spec fn console_video_mode(platform: Platform) -> VideoMode {
    VideoMode {
        graphics: match platform {
            Platform::Windows => GraphicsModule::Direct3D11,
            Platform::Linux => GraphicsModule::OpenGl,
        },
        fps_num: 60,
        fps_den: 1,
        base_width: 1920,
        base_height: 1080,
        output_width: 1920,
        output_height: 1080,
        adapter: 0,
        gpu_conversion: true,
    }
}

/// The screen capture source of the console recording.
pub open spec fn screen_source_kind(platform: Platform) -> SourceKindView {
    match platform {
        Platform::Windows => SourceKindView::LatestOf("monitor_capture"@),
        Platform::Linux => SourceKindView::Id("xshm_input"@),
    }
}

/// The audio capture source of the console recording.
pub open spec fn audio_capture_view(platform: Platform) -> StepView {
    just(
        CallView::CreateSource {
            source_type: match platform {
                Platform::Windows => SourceKindView::Id("wasapi_output_capture"@),
                Platform::Linux => SourceKindView::Id("pulse_output_capture"@),
            },
            name: "Audio Capture Source"@,
            settings: None,
        },
    )
}

/// The record output of the console recording.
pub open spec fn console_output_view() -> StepView {
    just(
        CallView::CreateOutput {
            kind: "ffmpeg_muxer"@,
            name: "simple_ffmpeg_output"@,
            settings: Some(file_output_view(SettingValueView::Text("./record.mp4"@))),
        },
    )
}

/// Steps that run on Windows only.
pub open spec fn on_windows(platform: Platform, steps: Seq<StepView>) -> Seq<StepView> {
    if platform == Platform::Windows {
        steps
    } else {
        Seq::empty()
    }
}

/// The plan of the console recording.
pub open spec fn console_recording_view(platform: Platform) -> Seq<StepView> {
    console_setup_view(platform) + console_capture_view(platform) + console_teardown_view(platform)
}

/// Startup and the video and audio set-up of the console recording.
pub open spec fn console_setup_view(platform: Platform) -> Seq<StepView> {
    console_startup_view(platform) + console_reset_view(platform)
}

/// Starting libobs up, with the platform set-up before it.
pub open spec fn console_startup_view(platform: Platform) -> Seq<StepView> {
    seq![
        say("Starting OBS initialization process"@),
        guarded(
            CallView::QueryInitialized,
            Check::StopIfTrue,
            FailureReportView::Panic("error: obs already initialized"@),
        ),
        say("OBS not yet initialized, continuing"@),
    ] + platform_setup_view(platform) + seq![
        say("Retrieving libobs version string..."@),
        just(CallView::LogVersion { label: "libobs version: "@ }),
        say("Starting OBS with locale 'en-US'"@),
        guarded(
            CallView::Startup { locale: "en-US"@ },
            Check::StopIfFalse,
            FailureReportView::Panic("error on libobs startup"@),
        ),
        say("OBS startup successful"@),
    ]
}

/// The scene, the paths, and the audio and video resets after startup.
pub open spec fn console_reset_view(platform: Platform) -> Seq<StepView> {
    seq![
        just(CallView::CreateScene { name: "MAIN"@ }),
        just(CallView::AddDataPath { path: "./data/libobs/"@ }),
        say("Data path added successfully"@),
        say("Adding module path"@),
        just(
            CallView::AddModulePath {
                binaries: "./obs-plugins/64bit/"@,
                data: "./data/obs-plugins/%module%/"@,
            },
        ),
        say("Module paths added successfully"@),
        say("Configuring audio settings"@),
        say("Resetting audio system"@),
        just(
            CallView::ResetAudio {
                audio: AudioSetup {
                    samples_per_sec: 48000,
                    buffering: Some(AudioBuffering { max_buffering_ms: 960, fixed_buffering: false }),
                },
                label: Some("Audio reset result: "@),
            },
        ),
        say("Configuring video settings"@),
        say("Resetting video system"@),
        guarded(
            CallView::ResetVideo { video: VideoSetup::Custom(console_video_mode(platform)) },
            Check::StopIfNonZero,
            FailureReportView::Panic("error on libobs reset video"@),
        ),
        say("Video reset successful"@),
        just(CallView::SetMonitoringDevice { name: "Default"@, id: "default"@ }),
    ] + on_windows(platform, seq![just(CallView::InitWinRt)])
}

/// The encoders, sources and output of the console recording.
pub open spec fn console_capture_view(platform: Platform) -> Seq<StepView> {
    seq![
        say("Loading all modules"@),
        just(CallView::LoadAllModules),
        say("Logging loaded modules"@),
        just(CallView::LogLoadedModules),
        say("Post-loading modules"@),
        just(CallView::PostLoadModules),
        say("Module loading complete"@),
        just(
            CallView::CreateVideoEncoder {
                id: "obs_x264"@,
                name: "simple_h264_recording"@,
                settings: Some(crf_x264_view()),
            },
        ),
        just(
            CallView::CreateAudioEncoder {
                id: "ffmpeg_aac"@,
                name: "simple_aac_recording"@,
                settings: None,
                mixer: 0,
            },
        ),
        just(
            CallView::CreateSource {
                source_type: screen_source_kind(platform),
                name: "Screen Capture Source"@,
                settings: None,
            },
        ),
        just(
            CallView::AddToSceneAtomic {
                scene: "MAIN"@,
                source: "Screen Capture Source"@,
                visible: true,
            },
        ),
        guarded(
            CallView::UpdateSourceSettings {
                source: "Screen Capture Source"@,
                changes: monitor_retarget_view(),
            },
            Check::StopIfFalse,
            FailureReportView::Silent,
        ),
        just(CallView::SceneAdd { scene: "MAIN"@, source: "Screen Capture Source"@ }),
        just(CallView::SetOutputSource { channel: 0, source: "Screen Capture Source"@ }),
        just(CallView::EncoderUseVideo { encoder: "simple_h264_recording"@ }),
    ] + (if platform == Platform::Windows {
        seq![audio_capture_view(platform), console_output_view()]
    } else {
        seq![console_output_view(), audio_capture_view(platform)]
    })
}

/// Recording until a line is entered, then releasing everything.
pub open spec fn console_teardown_view(platform: Platform) -> Seq<StepView> {
    seq![
        just(CallView::SetOutputSource { channel: 1, source: "Audio Capture Source"@ }),
        just(CallView::EncoderUseAudio { encoder: "simple_aac_recording"@ }),
        just(
            CallView::OutputUseVideoEncoder {
                output: "simple_ffmpeg_output"@,
                encoder: "simple_h264_recording"@,
            },
        ),
        just(
            CallView::OutputUseAudioEncoder {
                output: "simple_ffmpeg_output"@,
                encoder: "simple_aac_recording"@,
                track: 0,
            },
        ),
        guarded(
            CallView::StartOutput {
                output: "simple_ffmpeg_output"@,
                label: Some("record output successful start: "@),
            },
            Check::ReportIfFalse,
            FailureReportView::PrintWithDetail { prefix: "record output error"@, quoted: true },
        ),
        just(
            CallView::LogOutputId { output: "simple_ffmpeg_output"@, label: "Record Output id is "@ },
        ),
        say("Press enter to stop recording and clean up..."@),
        just(CallView::WaitForEnter),
        just(CallView::StopOutput { output: "simple_ffmpeg_output"@ }),
        just(CallView::Release { name: "simple_ffmpeg_output"@ }),
        just(CallView::Release { name: "simple_aac_recording"@ }),
        just(CallView::Release { name: "simple_h264_recording"@ }),
        just(CallView::Release { name: "Audio Capture Source"@ }),
        just(CallView::Release { name: "Screen Capture Source"@ }),
    ] + on_windows(platform, seq![just(CallView::UninitWinRt)]) + seq![
        just(CallView::Shutdown),
        say("OBS shutdown completed"@),
    ]
}

fn audio_capture_step(platform: Platform) -> (s: Step)
    ensures
        s@ == audio_capture_view(platform),
{
    let kind = match platform {
        Platform::Windows => SourceKind::Id(text("wasapi_output_capture")),
        Platform::Linux => SourceKind::Id(text("pulse_output_capture")),
    };
    plain(Call::CreateSource { source_type: kind, name: text("Audio Capture Source"), settings: None })
}

fn console_output_step() -> (s: Step)
    ensures
        s@ == console_output_view(),
{
    plain(
        Call::CreateOutput {
            kind: text("ffmpeg_muxer"),
            name: text("simple_ffmpeg_output"),
            settings: Some(file_output_settings(SettingValue::Text(text("./record.mp4")))),
        },
    )
}

/// Builds the plan of the console recording for `platform`.
pub fn console_recording_plan(platform: Platform) -> (p: Plan)
    ensures
        p@ == console_recording_view(platform),
{
    let mut p = Plan::new();
    push_console_setup(&mut p, platform);
    push_console_capture(&mut p, platform);
    push_console_teardown(&mut p, platform);
    assert(p@ =~= console_recording_view(platform));
    p
}

fn push_platform_setup(p: &mut Plan, platform: Platform)
    ensures
        final(p)@ == old(p)@ + platform_setup_view(platform),
{
    match platform {
        Platform::Windows => {
            p.push(print_step("Setting log handler on Windows"));
            p.push(plain(Call::InstallLogHandler));
            p.push(print_step("Log handler set successfully"));
        },
        Platform::Linux => {
            p.push(print_step("Setting NIX platform to X11_EGL"));
            p.push(print_step("Opening X display"));
            p.push(plain(Call::UseX11Display));
            p.push(print_step("NIX platform display set"));
        },
    }
    assert(p@ =~= old(p)@ + platform_setup_view(platform));
}

fn push_console_setup(p: &mut Plan, platform: Platform)
    ensures
        final(p)@ == old(p)@ + console_setup_view(platform),
{
    push_console_startup(p, platform);
    push_console_reset(p, platform);
    assert(p@ =~= old(p)@ + console_setup_view(platform));
}

fn push_console_startup(p: &mut Plan, platform: Platform)
    ensures
        final(p)@ == old(p)@ + console_startup_view(platform),
{
    p.push(print_step("Starting OBS initialization process"));
    p.push(
        checked(
            Call::QueryInitialized,
            Check::StopIfTrue,
            FailureReport::Panic(text("error: obs already initialized")),
        ),
    );
    p.push(print_step("OBS not yet initialized, continuing"));
    push_platform_setup(p, platform);
    p.push(print_step("Retrieving libobs version string..."));
    p.push(plain(Call::LogVersion { label: text("libobs version: ") }));
    p.push(print_step("Starting OBS with locale 'en-US'"));
    p.push(
        checked(
            Call::Startup { locale: text("en-US") },
            Check::StopIfFalse,
            FailureReport::Panic(text("error on libobs startup")),
        ),
    );
    p.push(print_step("OBS startup successful"));
    assert(p@ =~= old(p)@ + console_startup_view(platform));
}

fn push_console_reset(p: &mut Plan, platform: Platform)
    ensures
        final(p)@ == old(p)@ + console_reset_view(platform),
{
    p.push(plain(Call::CreateScene { name: text("MAIN") }));
    p.push(plain(Call::AddDataPath { path: text("./data/libobs/") }));
    p.push(print_step("Data path added successfully"));
    p.push(print_step("Adding module path"));
    p.push(
        plain(
            Call::AddModulePath {
                binaries: text("./obs-plugins/64bit/"),
                data: text("./data/obs-plugins/%module%/"),
            },
        ),
    );
    p.push(print_step("Module paths added successfully"));
    p.push(print_step("Configuring audio settings"));
    p.push(print_step("Resetting audio system"));
    p.push(
        plain(
            Call::ResetAudio {
                audio: AudioSetup {
                    samples_per_sec: 48000,
                    buffering: Some(AudioBuffering { max_buffering_ms: 960, fixed_buffering: false }),
                },
                label: Some(text("Audio reset result: ")),
            },
        ),
    );
    p.push(print_step("Configuring video settings"));
    p.push(print_step("Resetting video system"));
    let graphics = match platform {
        Platform::Windows => GraphicsModule::Direct3D11,
        Platform::Linux => GraphicsModule::OpenGl,
    };
    let mode = VideoMode {
        graphics,
        fps_num: 60,
        fps_den: 1,
        base_width: 1920,
        base_height: 1080,
        output_width: 1920,
        output_height: 1080,
        adapter: 0,
        gpu_conversion: true,
    };
    p.push(
        checked(
            Call::ResetVideo { video: VideoSetup::Custom(mode) },
            Check::StopIfNonZero,
            FailureReport::Panic(text("error on libobs reset video")),
        ),
    );
    p.push(print_step("Video reset successful"));
    p.push(plain(Call::SetMonitoringDevice { name: text("Default"), id: text("default") }));
    if platform == Platform::Windows {
        p.push(plain(Call::InitWinRt));
    }
    assert(p@ =~= old(p)@ + console_reset_view(platform));
}

fn push_console_capture(p: &mut Plan, platform: Platform)
    ensures
        final(p)@ == old(p)@ + console_capture_view(platform),
{
    p.push(print_step("Loading all modules"));
    p.push(plain(Call::LoadAllModules));
    p.push(print_step("Logging loaded modules"));
    p.push(plain(Call::LogLoadedModules));
    p.push(print_step("Post-loading modules"));
    p.push(plain(Call::PostLoadModules));
    p.push(print_step("Module loading complete"));
    p.push(
        plain(
            Call::CreateVideoEncoder {
                id: text("obs_x264"),
                name: text("simple_h264_recording"),
                settings: Some(crf_x264_settings()),
            },
        ),
    );
    p.push(
        plain(
            Call::CreateAudioEncoder {
                id: text("ffmpeg_aac"),
                name: text("simple_aac_recording"),
                settings: None,
                mixer: 0,
            },
        ),
    );
    let screen = match platform {
        Platform::Windows => SourceKind::LatestOf(text("monitor_capture")),
        Platform::Linux => SourceKind::Id(text("xshm_input")),
    };
    p.push(
        plain(Call::CreateSource { source_type: screen, name: text("Screen Capture Source"), settings: None }),
    );
    p.push(
        plain(
            Call::AddToSceneAtomic {
                scene: text("MAIN"),
                source: text("Screen Capture Source"),
                visible: true,
            },
        ),
    );
    p.push(
        checked(
            Call::UpdateSourceSettings {
                source: text("Screen Capture Source"),
                changes: monitor_retarget_settings(),
            },
            Check::StopIfFalse,
            FailureReport::Silent,
        ),
    );
    p.push(plain(Call::SceneAdd { scene: text("MAIN"), source: text("Screen Capture Source") }));
    p.push(plain(Call::SetOutputSource { channel: 0, source: text("Screen Capture Source") }));
    p.push(plain(Call::EncoderUseVideo { encoder: text("simple_h264_recording") }));
    if platform == Platform::Windows {
        p.push(audio_capture_step(platform));
        p.push(console_output_step());
    } else {
        p.push(console_output_step());
        p.push(audio_capture_step(platform));
    }
    assert(p@ =~= old(p)@ + console_capture_view(platform));
}

fn push_console_teardown(p: &mut Plan, platform: Platform)
    ensures
        final(p)@ == old(p)@ + console_teardown_view(platform),
{
    p.push(plain(Call::SetOutputSource { channel: 1, source: text("Audio Capture Source") }));
    p.push(plain(Call::EncoderUseAudio { encoder: text("simple_aac_recording") }));
    p.push(
        plain(
            Call::OutputUseVideoEncoder {
                output: text("simple_ffmpeg_output"),
                encoder: text("simple_h264_recording"),
            },
        ),
    );
    p.push(
        plain(
            Call::OutputUseAudioEncoder {
                output: text("simple_ffmpeg_output"),
                encoder: text("simple_aac_recording"),
                track: 0,
            },
        ),
    );
    p.push(
        checked(
            Call::StartOutput {
                output: text("simple_ffmpeg_output"),
                label: Some(text("record output successful start: ")),
            },
            Check::ReportIfFalse,
            FailureReport::PrintWithDetail { prefix: text("record output error"), quoted: true },
        ),
    );
    p.push(
        plain(
            Call::LogOutputId {
                output: text("simple_ffmpeg_output"),
                label: text("Record Output id is "),
            },
        ),
    );
    p.push(print_step("Press enter to stop recording and clean up..."));
    p.push(plain(Call::WaitForEnter));
    p.push(plain(Call::StopOutput { output: text("simple_ffmpeg_output") }));
    p.push(plain(Call::Release { name: text("simple_ffmpeg_output") }));
    p.push(plain(Call::Release { name: text("simple_aac_recording") }));
    p.push(plain(Call::Release { name: text("simple_h264_recording") }));
    p.push(plain(Call::Release { name: text("Audio Capture Source") }));
    p.push(plain(Call::Release { name: text("Screen Capture Source") }));
    if platform == Platform::Windows {
        p.push(plain(Call::UninitWinRt));
    }
    p.push(plain(Call::Shutdown));
    p.push(print_step("OBS shutdown completed"));
    assert(p@ =~= old(p)@ + console_teardown_view(platform));
}

// ---------------------------------------------------------------------------
// Sessions on the libobs-wrapper context.
// ---------------------------------------------------------------------------

/// The name of the recording output of the context sessions.
pub open spec fn output_name() -> Seq<char> {
    "output"@
}

/// Starting the context and creating the recording output that writes to
/// `path`, then listing the video encoders that can be chosen from.
pub open spec fn context_output_view(path: SettingValueView) -> Seq<StepView> {
    seq![
        must(CallView::StartContext),
        must(
            CallView::ContextOutput {
                kind: "ffmpeg_muxer"@,
                name: output_name(),
                settings: Some(file_output_view(path)),
            }),
        just(CallView::ListVideoEncoders),
    ]
}

/// Builds the first part of the logged recording set-up.
pub fn context_output_plan(path: SettingValue) -> (p: Plan)
    ensures
        p@ == context_output_view(path@),
{
    let mut p = Plan::new();
    p.push(must_succeed(Call::StartContext));
    p.push(
        must_succeed(
            Call::ContextOutput {
                kind: text("ffmpeg_muxer"),
                name: text("output"),
                settings: Some(file_output_settings(path)),
            }),
    );
    p.push(plain(Call::ListVideoEncoders));
    assert(p@ =~= context_output_view(path@));
    p
}

/// The video encoder of the context sessions: x264-style constant bitrate
/// settings with no B-frames, the `fast` preset and 10000 kbit/s.
pub open spec fn recording_video_settings_view() -> crate::plan::SettingsView {
    cbr_x264_view(0, Some("fast"@), 10000)
}

/// The audio encoder step of the context sessions at `bitrate`.
pub open spec fn attach_aac_view(bitrate: i64) -> StepView {
    must(
        CallView::AttachAudioEncoder {
            output: output_name(),
            id: "ffmpeg_aac"@,
            name: "audio_encoder"@,
            settings: Some(aac_view(bitrate)),
            mixer: 0,
        })
}

fn attach_aac_step(bitrate: i64) -> (s: Step)
    ensures
        s@ == attach_aac_view(bitrate),
{
    must_succeed(
        Call::AttachAudioEncoder {
            output: text("output"),
            id: text("ffmpeg_aac"),
            name: text("audio_encoder"),
            settings: Some(aac_settings(bitrate)),
            mixer: 0,
        })
}

/// Attaching the encoders of the logged recording: the video encoder is the
/// available encoder at position `choice`.
pub open spec fn chosen_encoders_view(choice: usize) -> Seq<StepView> {
    seq![
        must(
            CallView::AttachVideoEncoder {
                output: output_name(),
                choice: EncoderChoiceView::Available(choice),
                name: "video_encoder"@,
                settings: Some(recording_video_settings_view()),
            }),
        attach_aac_view(160),
    ]
}

/// Builds the second part of the logged recording set-up.
pub fn chosen_encoders_plan(choice: usize) -> (p: Plan)
    ensures
        p@ == chosen_encoders_view(choice),
{
    let mut p = Plan::new();
    p.push(
        must_succeed(
            Call::AttachVideoEncoder {
                output: text("output"),
                choice: EncoderChoice::Available(choice),
                name: text("video_encoder"),
                settings: Some(cbr_x264_settings(0, Some("fast"), 10000)),
            }),
    );
    p.push(attach_aac_step(160));
    assert(p@ =~= chosen_encoders_view(choice));
    p
}

/// After the logged set-up: a scene with a monitor capture is shown and the
/// output records for 15 seconds.
pub open spec fn monitor_scene_view() -> Seq<StepView> {
    seq![
        just(CallView::CreateScene { name: "test_main"@ }),
        just(CallView::ShowScene { scene: "test_main"@, channel: 0 }),
        first_monitor_listing(),
        must(
            CallView::AddSceneSource {
                scene: "test_main"@,
                kind: "monitor_capture"@,
                name: "monitor_test_new"@,
                settings: Some(monitor_source_view()),
            }),
        must(CallView::StartOutput { output: output_name(), label: None }),
        say("Recording started"@),
        just(CallView::Sleep { millis: 15000 }),
        say("Recording stop"@),
        must(CallView::StopOutput { output: output_name() }),
    ]
}

/// Builds the monitor recording that follows the logged set-up.
pub fn monitor_scene_plan() -> (p: Plan)
    ensures
        p@ == monitor_scene_view(),
{
    let mut p = Plan::new();
    p.push(plain(Call::CreateScene { name: text("test_main") }));
    p.push(plain(Call::ShowScene { scene: text("test_main"), channel: 0 }));
    p.push(first_monitor_step());
    p.push(
        must_succeed(
            Call::AddSceneSource {
                scene: text("test_main"),
                kind: text("monitor_capture"),
                name: text("monitor_test_new"),
                settings: Some(monitor_source_settings()),
            }),
    );
    p.push(must_succeed(Call::StartOutput { output: text("output"), label: None }));
    p.push(print_step("Recording started"));
    p.push(plain(Call::Sleep { millis: 15000 }));
    p.push(print_step("Recording stop"));
    p.push(must_succeed(Call::StopOutput { output: text("output") }));
    assert(p@ =~= monitor_scene_view());
    p
}

/// The application context: the recording output with x264 and AAC
/// encoders, a scene with a Windows Graphics Capture of the first monitor,
/// and the default audio output on channel 1.
pub open spec fn main_context_view() -> Seq<StepView> {
    seq![
        must(CallView::StartContext),
        must(
            CallView::ContextOutput {
                kind: "ffmpeg_muxer"@,
                name: output_name(),
                settings: Some(file_output_view(SettingValueView::ExePath("monitor_capture.mp4"@))),
            }),
        just(CallView::ListVideoEncoders),
        must(
            CallView::AttachVideoEncoder {
                output: output_name(),
                choice: EncoderChoiceView::Named("obs_x264"@),
                name: "video_encoder"@,
                settings: Some(recording_video_settings_view()),
            }),
        attach_aac_view(160),
        just(CallView::CreateScene { name: "test_main"@ }),
        just(CallView::ShowScene { scene: "test_main"@, channel: 0 }),
        first_monitor_listing(),
        just(CallView::BuildMonitorCapture { name: "monitor_test_new"@, monitor: 0 }),
        must_index(
            CallView::AddMonitorCapture {
                scene: "test_main"@,
                name: "monitor_test_new"@,
                monitor: 0,
                graphics_capture: true,
            },
            0,
        ),
        just(
            CallView::CreateSource {
                source_type: SourceKindView::Id("wasapi_output_capture"@),
                name: "Audio Capture Source"@,
                settings: Some(default_audio_device_view()),
            },
        ),
        just(CallView::SetOutputSource { channel: 1, source: "Audio Capture Source"@ }),
    ]
}

/// Builds the plan of the application context.
pub fn main_context_plan() -> (p: Plan)
    ensures
        p@ == main_context_view(),
{
    let mut p = Plan::new();
    p.push(must_succeed(Call::StartContext));
    p.push(
        must_succeed(
            Call::ContextOutput {
                kind: text("ffmpeg_muxer"),
                name: text("output"),
                settings: Some(file_output_settings(SettingValue::ExePath(text("monitor_capture.mp4")))),
            }),
    );
    p.push(plain(Call::ListVideoEncoders));
    p.push(
        must_succeed(
            Call::AttachVideoEncoder {
                output: text("output"),
                choice: EncoderChoice::Named(text("obs_x264")),
                name: text("video_encoder"),
                settings: Some(cbr_x264_settings(0, Some("fast"), 10000)),
            }),
    );
    p.push(attach_aac_step(160));
    p.push(plain(Call::CreateScene { name: text("test_main") }));
    p.push(plain(Call::ShowScene { scene: text("test_main"), channel: 0 }));
    p.push(first_monitor_step());
    p.push(plain(Call::BuildMonitorCapture { name: text("monitor_test_new"), monitor: 0 }));
    p.push(
        must_index_step(
            Call::AddMonitorCapture {
                scene: text("test_main"),
                name: text("monitor_test_new"),
                monitor: 0,
                graphics_capture: true,
            },
            0,
        ),
    );
    p.push(
        plain(
            Call::CreateSource {
                source_type: SourceKind::Id(text("wasapi_output_capture")),
                name: text("Audio Capture Source"),
                settings: Some(default_audio_device_settings()),
            },
        ),
    );
    p.push(plain(Call::SetOutputSource { channel: 1, source: text("Audio Capture Source") }));
    assert(p@ =~= main_context_view());
    p
}

/// A ten-second recording of the first monitor to `recording.mp4` with x264
/// (two B-frames, 1000 kbit/s) and AAC at 100 kbit/s.
pub open spec fn quick_recording_view() -> Seq<StepView> {
    seq![
        must(CallView::StartContext),
        must(CallView::ResetContextVideo),
        must(
            CallView::ContextOutput {
                kind: "ffmpeg_muxer"@,
                name: output_name(),
                settings: Some(file_output_view(SettingValueView::ExePath("recording.mp4"@))),
            }),
        must(
            CallView::AttachVideoEncoder {
                output: output_name(),
                choice: EncoderChoiceView::Named("obs_x264"@),
                name: "video_encoder"@,
                settings: Some(cbr_x264_view(2, None, 1000)),
            }),
        attach_aac_view(100),
        just(CallView::CreateScene { name: "main"@ }),
        must_index(
            CallView::AddMonitorCapture {
                scene: "main"@,
                name: "monitor_test"@,
                monitor: 0,
                graphics_capture: false,
            },
            0,
        ),
        just(CallView::ShowScene { scene: "main"@, channel: 0 }),
        must(CallView::StartOutput { output: output_name(), label: None }),
        say("recording for 10 seconds..."@),
        just(CallView::Sleep { millis: 10000 }),
        must(CallView::StopOutput { output: output_name() }),
    ]
}

/// Builds the plan of the ten-second recording.
pub fn quick_recording_plan() -> (p: Plan)
    ensures
        p@ == quick_recording_view(),
{
    let mut p = Plan::new();
    p.push(must_succeed(Call::StartContext));
    p.push(must_succeed(Call::ResetContextVideo));
    p.push(
        must_succeed(
            Call::ContextOutput {
                kind: text("ffmpeg_muxer"),
                name: text("output"),
                settings: Some(file_output_settings(SettingValue::ExePath(text("recording.mp4")))),
            }),
    );
    p.push(
        must_succeed(
            Call::AttachVideoEncoder {
                output: text("output"),
                choice: EncoderChoice::Named(text("obs_x264")),
                name: text("video_encoder"),
                settings: Some(cbr_x264_settings(2, None, 1000)),
            }),
    );
    p.push(attach_aac_step(100));
    p.push(plain(Call::CreateScene { name: text("main") }));
    p.push(
        must_index_step(
            Call::AddMonitorCapture {
                scene: text("main"),
                name: text("monitor_test"),
                monitor: 0,
                graphics_capture: false,
            },
            0,
        ),
    );
    p.push(plain(Call::ShowScene { scene: text("main"), channel: 0 }));
    p.push(must_succeed(Call::StartOutput { output: text("output"), label: None }));
    p.push(print_step("recording for 10 seconds..."));
    p.push(plain(Call::Sleep { millis: 10000 }));
    p.push(must_succeed(Call::StopOutput { output: text("output") }));
    assert(p@ =~= quick_recording_view());
    p
}

/// After the logged set-up: a scene with a capture of the window with OBS id
/// `window` (the id is printed first) is shown and the output starts.
pub open spec fn window_capture_view(window: Seq<char>) -> Seq<StepView> {
    seq![
        just(CallView::CreateScene { name: "main"@ }),
        just(CallView::ShowScene { scene: "main"@, channel: 0 }),
        say("IDIDDDIDI: "@ + window),
        must(
            CallView::AddWindowCapture { scene: "main"@, name: "test_capture"@, window }),
        must(CallView::StartOutput { output: output_name(), label: None }),
        say("Recording started"@),
    ]
}

/// Builds the start of the window recording.
pub fn window_capture_plan(window: &str) -> (p: Plan)
    ensures
        p@ == window_capture_view(window@),
{
    let mut p = Plan::new();
    p.push(plain(Call::CreateScene { name: text("main") }));
    p.push(plain(Call::ShowScene { scene: text("main"), channel: 0 }));
    let mut line = text("IDIDDDIDI: ");
    line.append(window);
    p.push(plain(Call::Print { line }));
    p.push(
        must_succeed(
            Call::AddWindowCapture { scene: text("main"), name: text("test_capture"), window: text(window) }),
    );
    p.push(must_succeed(Call::StartOutput { output: text("output"), label: None }));
    p.push(print_step("Recording started"));
    assert(p@ =~= window_capture_view(window@));
    p
}

/// The raw monitor recording gets past its set-up (module loading and
/// everything after it, the output start included) only when libobs was not
/// initialized before, started up, and both the video reset (code 0) and the
/// audio reset succeeded.
pub proof fn law_monitor_recording_needs_a_working_setup(
    outcomes: Seq<Outcome>,
    fuel: nat,
    k: usize,
)
    requires
        outcomes.len() == monitor_recording_view().len(),
        7 <= k,
        run_from(plan_checks(monitor_recording_view()), outcomes, RunState::Ready, fuel)
            == RunState::Awaiting(k),
    ensures
        outcomes[0] != Outcome::Flag(true),
        outcomes[2] != Outcome::Flag(false),
        forall|c: i64| outcomes[5] == Outcome::Code(c) ==> c == 0,
        outcomes[6] != Outcome::Flag(false),
{
    let plan = monitor_recording_view();
    let checks = plan_checks(plan);
    law_reached_states_are_consistent(checks, outcomes, RunState::Ready, fuel);
    assert(consistent(checks, outcomes, RunState::Awaiting(k)));
    assert(checks[0] == plan[0].check);
    assert(checks[2] == plan[2].check);
    assert(checks[5] == plan[5].check);
    assert(checks[6] == plan[6].check);
    assert(!fails(checks[0], outcomes[0]));
    assert(!fails(checks[2], outcomes[2]));
    assert(!fails(checks[5], outcomes[5]));
    assert(!fails(checks[6], outcomes[6]));
}

/// Where the console recording starts libobs up.
pub open spec fn console_startup_index(platform: Platform) -> int {
    if platform == Platform::Windows {
        9
    } else {
        10
    }
}

/// Where the console recording resets the video.
pub open spec fn console_video_reset_index(platform: Platform) -> int {
    console_startup_index(platform) + 13
}

proof fn lemma_console_setup(platform: Platform)
    ensures
        console_setup_view(platform).len() == 26,
        console_setup_view(platform)[1] == guarded(
            CallView::QueryInitialized,
            Check::StopIfTrue,
            FailureReportView::Panic("error: obs already initialized"@),
        ),
        console_setup_view(platform)[console_startup_index(platform)] == guarded(
            CallView::Startup { locale: "en-US"@ },
            Check::StopIfFalse,
            FailureReportView::Panic("error on libobs startup"@),
        ),
        console_setup_view(platform)[console_startup_index(platform) + 2] == just(
            CallView::CreateScene { name: "MAIN"@ },
        ),
        console_setup_view(platform)[console_video_reset_index(platform)] == guarded(
            CallView::ResetVideo { video: VideoSetup::Custom(console_video_mode(platform)) },
            Check::StopIfNonZero,
            FailureReportView::Panic("error on libobs reset video"@),
        ),
        forall|t: int|
            0 <= t < 26 ==> used_names(#[trigger] console_setup_view(platform)[t].call)
                == Seq::<Seq<char>>::empty() && created_raw_object(
                console_setup_view(platform)[t].call,
            ) is None,
{
    let start = console_startup_view(platform);
    let reset = console_reset_view(platform);
    let setup = console_setup_view(platform);
    let n = start.len() as int;
    assert(n == console_startup_index(platform) + 2);
    assert(reset.len() == 26 - n);
    assert(setup[1] == start[1]);
    assert(setup[n - 2] == start[n - 2]);
    assert(setup[n] == reset[0]);
    assert(setup[n + 11] == reset[11]);
    assert forall|t: int| 0 <= t < 26 implies used_names(#[trigger] setup[t].call)
        == Seq::<Seq<char>>::empty() && created_raw_object(setup[t].call) is None by {
        if t < n {
            assert(setup[t] == start[t]);
        } else {
            assert(setup[t] == reset[t - n]);
        }
    }
}

/// The console recording gets past its video reset only when libobs was not
/// initialized before, started up, and the video reset returned code 0.
pub proof fn law_console_recording_needs_a_working_setup(
    platform: Platform,
    outcomes: Seq<Outcome>,
    fuel: nat,
    k: usize,
)
    requires
        outcomes.len() == console_recording_view(platform).len(),
        console_video_reset_index(platform) < k,
        run_from(plan_checks(console_recording_view(platform)), outcomes, RunState::Ready, fuel)
            == RunState::Awaiting(k),
    ensures
        console_recording_view(platform)[1].call == CallView::QueryInitialized,
        console_recording_view(platform)[console_startup_index(platform)].call
            == (CallView::Startup { locale: "en-US"@ }),
        console_recording_view(platform)[console_video_reset_index(platform)].call
            == (CallView::ResetVideo { video: VideoSetup::Custom(console_video_mode(platform)) }),
        outcomes[1] != Outcome::Flag(true),
        outcomes[console_startup_index(platform)] != Outcome::Flag(false),
        forall|c: i64|
            outcomes[console_video_reset_index(platform)] == Outcome::Code(c) ==> c == 0,
{
    let plan = console_recording_view(platform);
    let checks = plan_checks(plan);
    let setup = console_setup_view(platform);
    let st = console_startup_index(platform);
    let rv = console_video_reset_index(platform);
    lemma_console_setup(platform);
    assert(plan[1] == setup[1]);
    assert(plan[st] == setup[st]);
    assert(plan[rv] == setup[rv]);
    law_reached_states_are_consistent(checks, outcomes, RunState::Ready, fuel);
    assert(consistent(checks, outcomes, RunState::Awaiting(k)));
    assert(checks[1] == plan[1].check);
    assert(checks[st] == plan[st].check);
    assert(checks[rv] == plan[rv].check);
    assert(!fails(checks[1], outcomes[1]));
    assert(!fails(checks[st], outcomes[st]));
    assert(!fails(checks[rv], outcomes[rv]));
}

/// Every object the raw monitor recording acts on was created earlier in it.
pub proof fn law_monitor_recording_uses_only_created_objects()
    ensures
        uses_only_created(monitor_recording_view()),
{
    let plan = monitor_recording_view();
    assert forall|i: int, m: int|
        #![trigger used_names(plan[i].call)[m]]
        0 <= i < plan.len() && 0 <= m < used_names(plan[i].call).len() implies exists|j: int|
        0 <= j < i && #[trigger] created_name(plan[j].call) == Some(used_names(plan[i].call)[m]) by {
        assert(created_name(plan[8].call) == Some("Screen capture source"@));
        assert(created_name(plan[10].call) == Some("simple_h264_recording"@));
        assert(created_name(plan[12].call) == Some("Audio Capture Source"@));
        assert(created_name(plan[14].call) == Some("simple_ffmpeg_output"@));
        assert(created_name(plan[16].call) == Some("replay_buffer_output"@));
    }
}

/// Every object the console recording acts on was created earlier in it.
pub proof fn law_console_recording_uses_only_created_objects(platform: Platform)
    ensures
        uses_only_created(console_recording_view(platform)),
{
    let plan = console_recording_view(platform);
    let setup = console_setup_view(platform);
    let capture = console_capture_view(platform);
    let teardown = console_teardown_view(platform);
    assert(plan == setup + capture + teardown);
    lemma_console_setup(platform);
    let main = console_startup_index(platform) + 2;
    assert forall|i: int, m: int|
        #![trigger used_names(plan[i].call)[m]]
        0 <= i < plan.len() && 0 <= m < used_names(plan[i].call).len() implies exists|j: int|
        0 <= j < i && #[trigger] created_name(plan[j].call) == Some(used_names(plan[i].call)[m]) by {
        let s = setup.len() as int;
        let c = s + capture.len();
        assert(plan[main] == setup[main]);
        assert(created_name(plan[main].call) == Some("MAIN"@));
        assert(plan[s + 7] == capture[7]);
        assert(plan[s + 8] == capture[8]);
        assert(plan[s + 9] == capture[9]);
        assert(plan[s + 15] == capture[15]);
        assert(plan[s + 16] == capture[16]);
        assert(created_name(plan[s + 7].call) == Some("simple_h264_recording"@));
        assert(created_name(plan[s + 8].call) == Some("simple_aac_recording"@));
        assert(created_name(plan[s + 9].call) == Some("Screen Capture Source"@));
        if platform == Platform::Windows {
            assert(created_name(plan[s + 15].call) == Some("Audio Capture Source"@));
            assert(created_name(plan[s + 16].call) == Some("simple_ffmpeg_output"@));
        } else {
            assert(created_name(plan[s + 15].call) == Some("simple_ffmpeg_output"@));
            assert(created_name(plan[s + 16].call) == Some("Audio Capture Source"@));
        }
        if i >= c {
            assert(plan[i] == teardown[i - c]);
        } else if i >= s {
            assert(plan[i] == capture[i - s]);
        } else {
            assert(plan[i] == setup[i]);
        }
    }
}

/// The logged recording set-up followed by the monitor recording acts only on
/// objects created earlier in it.
pub proof fn law_logged_monitor_session_uses_only_created_objects(
    path: SettingValueView,
    choice: usize,
)
    ensures
        uses_only_created(
            context_output_view(path) + chosen_encoders_view(choice) + monitor_scene_view(),
        ),
{
    let a = context_output_view(path);
    let b = chosen_encoders_view(choice);
    let c = monitor_scene_view();
    let plan = a + b + c;
    assert forall|i: int, m: int|
        #![trigger used_names(plan[i].call)[m]]
        0 <= i < plan.len() && 0 <= m < used_names(plan[i].call).len() implies exists|j: int|
        0 <= j < i && #[trigger] created_name(plan[j].call) == Some(used_names(plan[i].call)[m]) by {
        assert(plan[1] == a[1]);
        assert(created_name(plan[1].call) == Some("output"@));
        assert(plan[5] == c[0]);
        assert(created_name(plan[5].call) == Some("test_main"@));
        if i >= 5 {
            assert(plan[i] == c[i - 5]);
        } else if i >= 3 {
            assert(plan[i] == b[i - 3]);
        } else {
            assert(plan[i] == a[i]);
        }
    }
}

/// Every object the application context acts on was created earlier in it.
pub proof fn law_main_context_uses_only_created_objects()
    ensures
        uses_only_created(main_context_view()),
{
    let plan = main_context_view();
    assert forall|i: int, m: int|
        #![trigger used_names(plan[i].call)[m]]
        0 <= i < plan.len() && 0 <= m < used_names(plan[i].call).len() implies exists|j: int|
        0 <= j < i && #[trigger] created_name(plan[j].call) == Some(used_names(plan[i].call)[m]) by {
        assert(created_name(plan[1].call) == Some("output"@));
        assert(created_name(plan[5].call) == Some("test_main"@));
        assert(created_name(plan[10].call) == Some("Audio Capture Source"@));
    }
}

/// Every object the ten-second recording acts on was created earlier in it.
pub proof fn law_quick_recording_uses_only_created_objects()
    ensures
        uses_only_created(quick_recording_view()),
{
    let plan = quick_recording_view();
    assert forall|i: int, m: int|
        #![trigger used_names(plan[i].call)[m]]
        0 <= i < plan.len() && 0 <= m < used_names(plan[i].call).len() implies exists|j: int|
        0 <= j < i && #[trigger] created_name(plan[j].call) == Some(used_names(plan[i].call)[m]) by {
        assert(created_name(plan[2].call) == Some("output"@));
        assert(created_name(plan[5].call) == Some("main"@));
    }
}

/// The console recording releases every source, encoder and output it
/// creates, after creating it.
pub proof fn law_console_recording_releases_what_it_creates(platform: Platform)
    ensures
        releases_created_objects(console_recording_view(platform)),
{
    let plan = console_recording_view(platform);
    let setup = console_setup_view(platform);
    let capture = console_capture_view(platform);
    let teardown = console_teardown_view(platform);
    assert(plan == setup + capture + teardown);
    lemma_console_setup(platform);
    let c = (setup.len() + capture.len()) as int;
    assert forall|j: int|
        #![trigger created_raw_object(plan[j].call)]
        0 <= j < plan.len() && created_raw_object(plan[j].call) is Some implies exists|k: int|
        j < k < plan.len() && #[trigger] plan[k].call == CallView::Release {
            name: created_raw_object(plan[j].call)->0,
        } by {
        let s = setup.len() as int;
        assert(plan[c + 9] == teardown[9]);
        assert(plan[c + 10] == teardown[10]);
        assert(plan[c + 11] == teardown[11]);
        assert(plan[c + 12] == teardown[12]);
        assert(plan[c + 13] == teardown[13]);
        assert(plan[c + 9].call == CallView::Release { name: "simple_ffmpeg_output"@ });
        assert(plan[c + 10].call == CallView::Release { name: "simple_aac_recording"@ });
        assert(plan[c + 11].call == CallView::Release { name: "simple_h264_recording"@ });
        assert(plan[c + 12].call == CallView::Release { name: "Audio Capture Source"@ });
        assert(plan[c + 13].call == CallView::Release { name: "Screen Capture Source"@ });
        if j >= c {
            assert(plan[j] == teardown[j - c]);
        } else if j >= s {
            assert(plan[j] == capture[j - s]);
        } else {
            assert(plan[j] == setup[j]);
        }
    }
}

/// When the video reset of the console recording fails with code `c`, the
/// program panics with `error on libobs reset video: c`.
pub proof fn law_console_video_reset_failure_message(
    platform: Platform,
    c: i64,
    detail: Option<Seq<char>>,
)
    requires
        c != 0,
    ensures
        console_recording_view(platform)[console_video_reset_index(platform)].check
            == Check::StopIfNonZero,
        notice_of(
            console_recording_view(platform)[console_video_reset_index(platform)].on_failure,
            Outcome::Code(c),
            detail,
        ) == NoticeView::Panic("error on libobs reset video"@ + ": "@ + decimal_of(c as int)),
{
    let setup = console_setup_view(platform);
    let rv = console_video_reset_index(platform);
    lemma_console_setup(platform);
    assert(console_recording_view(platform)[rv] == setup[rv]);
}

/// When the record output of the console recording does not start, the line
/// `record output error: 'error'` is printed, with the output's last error,
/// and the session goes on.
pub proof fn law_console_output_start_report(platform: Platform, error: Seq<char>)
    ensures
        ({
            let plan = console_recording_view(platform);
            &&& plan[47].call == CallView::StartOutput {
                output: "simple_ffmpeg_output"@,
                label: Some("record output successful start: "@),
            }
            &&& plan[47].check == Check::ReportIfFalse
            &&& notice_of(plan[47].on_failure, Outcome::Flag(false), Some(error)) == NoticeView::Print(
                "record output error"@ + ": "@ + ("'"@ + error + "'"@),
            )
        }),
{
    let plan = console_recording_view(platform);
    let setup = console_setup_view(platform);
    let capture = console_capture_view(platform);
    let teardown = console_teardown_view(platform);
    assert(plan == setup + capture + teardown);
    lemma_console_setup(platform);
    let c = (setup.len() + capture.len()) as int;
    assert(plan[c + 4] == teardown[4]);
    assert(c + 4 == 47);
}

/// When the record output of the raw monitor recording does not start, the
/// line `ERROR OCCURRED: ERROR: error` is printed, with the output's last
/// error, and the session goes on.
pub proof fn law_monitor_output_start_report(error: Seq<char>)
    ensures
        monitor_recording_view()[18].call == (CallView::StartOutput {
            output: "simple_ffmpeg_output"@,
            label: Some("RECORD OUTPUT START: "@),
        }),
        monitor_recording_view()[18].check == Check::ReportIfFalse,
        notice_of(monitor_recording_view()[18].on_failure, Outcome::Flag(false), Some(error))
            == NoticeView::Print("ERROR OCCURRED: ERROR"@ + ": "@ + error),
{
}

/// The monitor recording after the logged set-up ends, as `unwrap` does,
/// when the monitor listing fails or finds no monitor.
pub proof fn law_monitor_scene_needs_a_monitor(count: Option<u64>)
    requires
        count is None || count == Some(0u64),
    ensures
        monitor_scene_view()[2].call == CallView::ListMonitors,
        fails(monitor_scene_view()[2].check, Outcome::Count(count)),
        notice_of(monitor_scene_view()[2].on_failure, Outcome::Count(count), None) == NoticeView::Panic(
            "called `Option::unwrap()` on a `None` value"@,
        ),
{
}

/// The ten-second recording ends, as indexing an empty list does, when no
/// monitor is found: `index out of bounds: the len is 0 but the index is 0`.
pub proof fn law_quick_recording_needs_a_monitor()
    ensures
        quick_recording_view()[6].call == (CallView::AddMonitorCapture {
            scene: "main"@,
            name: "monitor_test"@,
            monitor: 0,
            graphics_capture: false,
        }),
        fails(quick_recording_view()[6].check, Outcome::Count(Some(0u64))),
        notice_of(quick_recording_view()[6].on_failure, Outcome::Count(Some(0u64)), None)
            == NoticeView::Panic("index out of bounds: the len is 0 but the index is 0"@),
{
    reveal_strlit("index out of bounds: the len is ");
    reveal_strlit(" but the index is ");
    reveal_strlit("0");
    reveal_strlit("index out of bounds: the len is 0 but the index is 0");
    assert(decimal_of(0) == "0"@);
    assert(index_message(0, 0) =~= "index out of bounds: the len is 0 but the index is 0"@);
}

/// Every scene that a session shows goes on output channel 0, the video
/// channel: in the recording after the logged set-up, the application
/// context, the ten-second recording and the window recording.
pub proof fn law_scenes_are_shown_on_the_video_channel(window: Seq<char>)
    ensures
        forall|i: int|
            0 <= i < monitor_scene_view().len() ==> (#[trigger] monitor_scene_view()[i].call matches CallView::ShowScene { channel, .. } ==> channel == 0u32),
        forall|i: int|
            0 <= i < main_context_view().len() ==> (#[trigger] main_context_view()[i].call matches CallView::ShowScene { channel, .. } ==> channel == 0u32),
        forall|i: int|
            0 <= i < quick_recording_view().len() ==> (#[trigger] quick_recording_view()[i].call matches CallView::ShowScene { channel, .. } ==> channel == 0u32),
        forall|i: int|
            0 <= i < window_capture_view(window).len() ==> (#[trigger] window_capture_view(window)[i].call matches CallView::ShowScene { channel, .. } ==> channel == 0u32),
{
}

/// The monitor recording after the logged set-up shows its scene
/// `test_main` on channel 0 before it adds the monitor capture to that scene
/// and starts the output.
pub proof fn law_monitor_scene_is_shown_before_the_capture()
    ensures
        monitor_scene_view()[0].call == (CallView::CreateScene { name: "test_main"@ }),
        monitor_scene_view()[1].call == (CallView::ShowScene { scene: "test_main"@, channel: 0 }),
        monitor_scene_view()[3].call matches CallView::AddSceneSource { scene, kind, .. } && scene
            == "test_main"@ && kind == "monitor_capture"@,
        monitor_scene_view()[4].call matches CallView::StartOutput { output, .. } && output
            == "output"@,
{
}

/// The output channels of the raw monitor recording: channel 0 carries only
/// the screen capture and channel 1 only the audio capture, no other channel
/// is set, and both are set before the output starts (step 18).
pub proof fn law_monitor_recording_channels()
    ensures
        forall|i: int|
            0 <= i < monitor_recording_view().len() ==> (
            #[trigger] monitor_recording_view()[i].call matches CallView::SetOutputSource {
                channel,
                source,
            } ==> (channel == 0u32 <==> source == "Screen capture source"@) && (channel == 1u32
                <==> source == "Audio Capture Source"@) && (channel == 0u32 || channel == 1u32)),
        exists|i: int|
            0 <= i < 18 && #[trigger] monitor_recording_view()[i].call == (CallView::SetOutputSource {
                channel: 0,
                source: "Screen capture source"@,
            }),
        exists|i: int|
            0 <= i < 18 && #[trigger] monitor_recording_view()[i].call == (CallView::SetOutputSource {
                channel: 1,
                source: "Audio Capture Source"@,
            }),
        monitor_recording_view()[18].call is StartOutput,
{
    let plan = monitor_recording_view();
    assert forall|i: int|
        0 <= i < plan.len() implies (#[trigger] plan[i].call matches CallView::SetOutputSource {
        channel,
        source,
    } ==> (channel == 0u32 <==> source == "Screen capture source"@) && (channel == 1u32 <==> source
        == "Audio Capture Source"@) && (channel == 0u32 || channel == 1u32)) by {
        reveal_strlit("Screen capture source");
        reveal_strlit("Audio Capture Source");
        assert("Screen capture source"@[0] != "Audio Capture Source"@[0]);
    }
    assert(monitor_recording_view()[9].call == (CallView::SetOutputSource {
        channel: 0,
        source: "Screen capture source"@,
    }));
    assert(monitor_recording_view()[13].call == (CallView::SetOutputSource {
        channel: 1,
        source: "Audio Capture Source"@,
    }));
}

/// The output channels of the console recording, on either platform:
/// channel 0 carries only the screen capture and channel 1 only the audio
/// capture, no other channel is set, and both are set before the output
/// starts (step 47).
pub proof fn law_console_recording_channels(platform: Platform)
    ensures
        forall|i: int|
            0 <= i < console_recording_view(platform).len() ==> (
            #[trigger] console_recording_view(platform)[i].call matches CallView::SetOutputSource {
                channel,
                source,
            } ==> (channel == 0u32 <==> source == "Screen Capture Source"@) && (channel == 1u32
                <==> source == "Audio Capture Source"@) && (channel == 0u32 || channel == 1u32)),
        console_recording_view(platform)[39].call == (CallView::SetOutputSource {
            channel: 0,
            source: "Screen Capture Source"@,
        }),
        console_recording_view(platform)[43].call == (CallView::SetOutputSource {
            channel: 1,
            source: "Audio Capture Source"@,
        }),
        console_recording_view(platform)[47].call is StartOutput,
{
    let plan = console_recording_view(platform);
    let setup = console_setup_view(platform);
    let capture = console_capture_view(platform);
    let teardown = console_teardown_view(platform);
    assert(plan == setup + capture + teardown);
    lemma_console_setup(platform);
    let s = setup.len() as int;
    let c = s + capture.len();
    assert(c == 43);
    assert(plan[39] == capture[13]);
    assert(plan[43] == teardown[0]);
    assert(plan[47] == teardown[4]);
    assert forall|i: int|
        0 <= i < plan.len() implies (#[trigger] plan[i].call matches CallView::SetOutputSource {
        channel,
        source,
    } ==> (channel == 0u32 <==> source == "Screen Capture Source"@) && (channel == 1u32 <==> source
        == "Audio Capture Source"@) && (channel == 0u32 || channel == 1u32)) by {
        reveal_strlit("Screen Capture Source");
        reveal_strlit("Audio Capture Source");
        assert("Screen Capture Source"@[0] != "Audio Capture Source"@[0]);
        if i >= c {
            let t = i - c;
            assert(plan[i] == teardown[t]);
        } else if i >= s {
            let t = i - s;
            assert(plan[i] == capture[t]);
        } else {
            assert(plan[i] == setup[i]);
            assert(used_names(setup[i].call) == Seq::<Seq<char>>::empty());
        }
    }
}

/// The application context puts only the audio capture on an output
/// channel, channel 1; its scene is shown on channel 0.
pub proof fn law_main_context_channels()
    ensures
        forall|i: int|
            0 <= i < main_context_view().len() ==> (
            #[trigger] main_context_view()[i].call matches CallView::SetOutputSource {
                channel,
                source,
            } ==> channel == 1u32 && source == "Audio Capture Source"@),
        main_context_view()[11].call == (CallView::SetOutputSource {
            channel: 1,
            source: "Audio Capture Source"@,
        }),
        main_context_view()[6].call == (CallView::ShowScene { scene: "test_main"@, channel: 0 }),
{
}

/// The window recording adds exactly one source to a scene: the window
/// capture, the first and only source of scene `main`, which is therefore
/// the source at position 0 that the window cycle retargets.
pub proof fn law_window_capture_is_the_only_scene_source(window: Seq<char>)
    ensures
        window_capture_view(window)[3].call == (CallView::AddWindowCapture {
            scene: "main"@,
            name: "test_capture"@,
            window,
        }),
        forall|i: int|
            0 <= i < window_capture_view(window).len() && i != 3 ==> !(
            #[trigger] window_capture_view(window)[i].call is AddWindowCapture) && !(
            window_capture_view(window)[i].call is AddSceneSource) && !(
            window_capture_view(window)[i].call is AddMonitorCapture),
{
}

/// The monitor recording after the logged set-up goes on to add the monitor
/// capture when the listing finds any monitor at all.
pub proof fn law_monitor_scene_goes_on_with_a_monitor(n: u64)
    requires
        n >= 1,
    ensures
        spec_advance(plan_checks(monitor_scene_view()), RunState::Awaiting(2), Outcome::Count(Some(n)))
            == (RunState::Awaiting(3), Directive::Perform(3)),
{
    let checks = plan_checks(monitor_scene_view());
    assert(checks[2] == Check::StopIfEmpty);
    law_listing_with_items_goes_on(checks, 2, n);
}

} // verus!
