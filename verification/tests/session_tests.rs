use obs_capture::plan::{Call, EncoderChoice, FailureReport, GraphicsModule, SourceKind, VideoSetup};
use obs_capture::presets::{
    aac_settings, cbr_x264_settings, crf_x264_settings, default_audio_device_settings,
    file_output_settings, monitor_retarget_settings, monitor_source_settings,
    replay_buffer_settings, CAPTURE_METHOD_WGC,
};
use obs_capture::runner::Check;
use obs_capture::sessions::{
    chosen_encoders_plan, console_recording_plan, context_output_plan, main_context_plan,
    monitor_recording_plan, monitor_scene_plan, quick_recording_plan, window_capture_plan, Platform,
};
use obs_capture::settings::{ObsSettings, SettingValue};

fn int_of(s: &ObsSettings, key: &str) -> Option<i64> {
    match s.get(key) {
        Some(SettingValue::Int(i)) => Some(*i),
        _ => None,
    }
}

fn text_of(s: &ObsSettings, key: &str) -> Option<String> {
    match s.get(key) {
        Some(SettingValue::Text(t)) => Some(t.clone()),
        _ => None,
    }
}

fn bool_of(s: &ObsSettings, key: &str) -> Option<bool> {
    match s.get(key) {
        Some(SettingValue::Bool(b)) => Some(*b),
        _ => None,
    }
}

#[test]
fn encoder_presets() {
    let crf = crf_x264_settings();
    assert_eq!(crf.len(), 5);
    assert_eq!(bool_of(&crf, "use_bufsize"), Some(true));
    assert_eq!(text_of(&crf, "profile"), Some("high".to_string()));
    assert_eq!(text_of(&crf, "preset"), Some("veryfast".to_string()));
    assert_eq!(text_of(&crf, "rate_control"), Some("CRF".to_string()));
    assert_eq!(int_of(&crf, "crf"), Some(20));

    let cbr = cbr_x264_settings(0, Some("fast"), 10000);
    assert_eq!(cbr.len(), 7);
    assert_eq!(int_of(&cbr, "bf"), Some(0));
    assert_eq!(bool_of(&cbr, "psycho_aq"), Some(true));
    assert_eq!(bool_of(&cbr, "lookahead"), Some(true));
    assert_eq!(text_of(&cbr, "preset"), Some("fast".to_string()));
    assert_eq!(text_of(&cbr, "rate_control"), Some("cbr".to_string()));
    assert_eq!(int_of(&cbr, "bitrate"), Some(10000));

    let quick = cbr_x264_settings(2, None, 1000);
    assert_eq!(quick.len(), 6);
    assert!(quick.get("preset").is_none());
    assert_eq!(int_of(&quick, "bf"), Some(2));

    assert_eq!(int_of(&aac_settings(160), "bitrate"), Some(160));
}

#[test]
fn output_and_source_presets() {
    let out = file_output_settings(SettingValue::Text("./record.mp4".to_string()));
    assert_eq!(text_of(&out, "path"), Some("./record.mp4".to_string()));
    let replay = replay_buffer_settings();
    assert!(matches!(replay.get("directory"), Some(SettingValue::ExePath(d)) if d == "./"));
    assert_eq!(text_of(&replay, "format"), Some("%CCYY-%MM-%DD %hh-%mm-%ss".to_string()));
    assert_eq!(text_of(&replay, "extension"), Some("mp4".to_string()));
    assert_eq!(int_of(&replay, "max_time_sec"), Some(15));
    assert_eq!(int_of(&replay, "max_size_mb"), Some(500));
    let monitor = monitor_source_settings();
    assert!(text_of(&monitor, "monitor_id").unwrap().starts_with("\\\\?\\DISPLAY#BOE07F6"));
    assert_eq!(bool_of(&monitor, "cursor"), Some(true));
    assert_eq!(bool_of(&monitor, "capture_layered_windows"), Some(true));
    assert_eq!(bool_of(&monitor, "force_sdr"), Some(false));
    let retarget = monitor_retarget_settings();
    assert_eq!(int_of(&retarget, "method"), Some(CAPTURE_METHOD_WGC));
    assert_eq!(CAPTURE_METHOD_WGC, 2);
    assert_eq!(text_of(&default_audio_device_settings(), "device_id"), Some("default".to_string()));
}

#[test]
fn monitor_recording_plan_shape() {
    let plan = monitor_recording_plan();
    assert_eq!(plan.steps.len(), 23);
    assert!(matches!(plan.steps[0].call, Call::QueryInitialized));
    assert!(plan.steps[0].check == Check::StopIfTrue);
    assert!(matches!(&plan.steps[0].on_failure, FailureReport::Print(m) if m == "Already initialized, can't do it again"));
    assert!(matches!(&plan.steps[1].call, Call::LogVersion { label } if label == "OBS VERSION: "));
    assert!(matches!(&plan.steps[2].call, Call::Startup { locale } if locale == "en-US"));
    assert!(matches!(plan.steps[5].call, Call::ResetVideo { video: VideoSetup::WrapperDefault }));
    assert!(plan.steps[5].check == Check::StopIfNonZero);
    assert!(matches!(&plan.steps[6].call, Call::ResetAudio { audio, label: None } if audio.samples_per_sec == 44100 && audio.buffering.is_none()));
    assert!(matches!(plan.steps[7].call, Call::LoadModules));
    assert!(matches!(&plan.steps[16].call, Call::CreateOutput { kind, .. } if kind == "replay_buffer"));
    assert!(matches!(&plan.steps[18].call, Call::StartOutput { output, label: Some(l) } if output == "simple_ffmpeg_output" && l == "RECORD OUTPUT START: "));
    assert!(plan.steps[18].check == Check::ReportIfFalse);
    assert!(matches!(&plan.steps[18].on_failure, FailureReport::PrintWithDetail { prefix, quoted: false } if prefix == "ERROR OCCURRED: ERROR"));
    assert!(matches!(plan.steps[19].call, Call::Sleep { millis: 10000 }));
    assert!(matches!(&plan.steps[20].call, Call::LogOutputId { output, label } if output == "simple_ffmpeg_output" && label == "ID: "));
    assert!(matches!(plan.steps[22].call, Call::Shutdown));
}

fn printed_lines(plan: &obs_capture::plan::Plan) -> Vec<String> {
    plan.steps
        .iter()
        .filter_map(|s| match &s.call {
            Call::Print { line } => Some(line.clone()),
            _ => None,
        })
        .collect()
}

#[test]
fn console_recording_plan_on_windows() {
    let plan = console_recording_plan(Platform::Windows);
    assert_eq!(plan.steps.len(), 60);
    assert!(matches!(&plan.steps[0].call, Call::Print { line } if line == "Starting OBS initialization process"));
    assert!(matches!(plan.steps[1].call, Call::QueryInitialized));
    assert!(matches!(&plan.steps[1].on_failure, FailureReport::Panic(m) if m == "error: obs already initialized"));
    assert!(matches!(plan.steps[4].call, Call::InstallLogHandler));
    assert!(matches!(&plan.steps[7].call, Call::LogVersion { label } if label == "libobs version: "));
    assert!(matches!(&plan.steps[9].call, Call::Startup { locale } if locale == "en-US"));
    assert!(matches!(&plan.steps[11].call, Call::CreateScene { name } if name == "MAIN"));
    assert!(matches!(&plan.steps[19].call, Call::ResetAudio { label: Some(l), .. } if l == "Audio reset result: "));
    match &plan.steps[22].call {
        Call::ResetVideo { video: VideoSetup::Custom(mode) } => {
            assert!(mode.graphics == GraphicsModule::Direct3D11);
            assert_eq!((mode.base_width, mode.base_height, mode.fps_num, mode.fps_den), (1920, 1080, 60, 1));
        }
        _ => panic!("step 22 resets the video"),
    }
    assert!(matches!(plan.steps[25].call, Call::InitWinRt));
    assert!(matches!(plan.steps[27].call, Call::LoadAllModules));
    assert!(matches!(plan.steps[29].call, Call::LogLoadedModules));
    assert!(matches!(plan.steps[31].call, Call::PostLoadModules));
    assert!(matches!(&plan.steps[35].call, Call::CreateSource { source_type: SourceKind::LatestOf(k), .. } if k == "monitor_capture"));
    assert!(plan.steps[37].check == Check::StopIfFalse);
    assert!(matches!(plan.steps[37].on_failure, FailureReport::Silent));
    assert!(matches!(&plan.steps[41].call, Call::CreateSource { source_type: SourceKind::Id(k), .. } if k == "wasapi_output_capture"));
    assert!(matches!(&plan.steps[42].call, Call::CreateOutput { kind, .. } if kind == "ffmpeg_muxer"));
    assert!(matches!(&plan.steps[47].call, Call::StartOutput { label: Some(l), .. } if l == "record output successful start: "));
    assert!(matches!(&plan.steps[47].on_failure, FailureReport::PrintWithDetail { prefix, quoted: true } if prefix == "record output error"));
    assert!(matches!(&plan.steps[48].call, Call::LogOutputId { label, .. } if label == "Record Output id is "));
    assert!(matches!(plan.steps[50].call, Call::WaitForEnter));
    assert!(matches!(plan.steps[57].call, Call::UninitWinRt));
    assert!(matches!(plan.steps[58].call, Call::Shutdown));
    assert_eq!(
        printed_lines(&plan),
        vec![
            "Starting OBS initialization process",
            "OBS not yet initialized, continuing",
            "Setting log handler on Windows",
            "Log handler set successfully",
            "Retrieving libobs version string...",
            "Starting OBS with locale 'en-US'",
            "OBS startup successful",
            "Data path added successfully",
            "Adding module path",
            "Module paths added successfully",
            "Configuring audio settings",
            "Resetting audio system",
            "Configuring video settings",
            "Resetting video system",
            "Video reset successful",
            "Loading all modules",
            "Logging loaded modules",
            "Post-loading modules",
            "Module loading complete",
            "Press enter to stop recording and clean up...",
            "OBS shutdown completed",
        ]
    );
}

#[test]
fn console_recording_plan_on_linux() {
    let plan = console_recording_plan(Platform::Linux);
    assert_eq!(plan.steps.len(), 59);
    assert!(matches!(&plan.steps[3].call, Call::Print { line } if line == "Setting NIX platform to X11_EGL"));
    assert!(matches!(&plan.steps[4].call, Call::Print { line } if line == "Opening X display"));
    assert!(matches!(plan.steps[5].call, Call::UseX11Display));
    assert!(matches!(&plan.steps[6].call, Call::Print { line } if line == "NIX platform display set"));
    assert!(matches!(&plan.steps[10].call, Call::Startup { .. }));
    match &plan.steps[23].call {
        Call::ResetVideo { video: VideoSetup::Custom(mode) } => assert!(mode.graphics == GraphicsModule::OpenGl),
        _ => panic!("step 23 resets the video"),
    }
    assert!(matches!(&plan.steps[25].call, Call::SetMonitoringDevice { .. }));
    assert!(matches!(plan.steps[27].call, Call::LoadAllModules));
    assert!(matches!(&plan.steps[35].call, Call::CreateSource { source_type: SourceKind::Id(k), .. } if k == "xshm_input"));
    assert!(matches!(&plan.steps[41].call, Call::CreateOutput { .. }));
    assert!(matches!(&plan.steps[42].call, Call::CreateSource { source_type: SourceKind::Id(k), .. } if k == "pulse_output_capture"));
    assert!(matches!(&plan.steps[47].call, Call::StartOutput { .. }));
    assert!(matches!(plan.steps[57].call, Call::Shutdown));
    assert!(matches!(&plan.steps[58].call, Call::Print { line } if line == "OBS shutdown completed"));
}

#[test]
fn context_plans() {
    let start = context_output_plan(SettingValue::Text("/tmp/out.mp4".to_string()));
    assert_eq!(start.steps.len(), 3);
    assert!(matches!(start.steps[0].call, Call::StartContext));
    match &start.steps[1].call {
        Call::ContextOutput { kind, name, settings: Some(s) } => {
            assert_eq!(kind, "ffmpeg_muxer");
            assert_eq!(name, "output");
            assert_eq!(text_of(s, "path"), Some("/tmp/out.mp4".to_string()));
        }
        _ => panic!("step 1 creates the output"),
    }
    let enc = chosen_encoders_plan(4);
    assert!(matches!(&enc.steps[0].call, Call::AttachVideoEncoder { choice: EncoderChoice::Available(4), name, .. } if name == "video_encoder"));

    let scene = monitor_scene_plan();
    assert_eq!(scene.steps.len(), 9);
    assert!(matches!(&scene.steps[5].call, Call::Print { line } if line == "Recording started"));
    assert!(matches!(scene.steps[6].call, Call::Sleep { millis: 15000 }));
    assert!(matches!(&scene.steps[7].call, Call::Print { line } if line == "Recording stop"));
    assert!(scene.steps[2].check == Check::StopIfEmpty);
    assert!(matches!(scene.steps[4].on_failure, FailureReport::Unwrap));

    let main = main_context_plan();
    assert_eq!(main.steps.len(), 12);
    assert!(matches!(&main.steps[3].call, Call::AttachVideoEncoder { choice: EncoderChoice::Named(n), .. } if n == "obs_x264"));
    assert!(matches!(main.steps[7].call, Call::ListMonitors));
    assert!(main.steps[7].check == Check::StopIfEmpty);
    assert!(matches!(&main.steps[8].call, Call::BuildMonitorCapture { name, monitor: 0 } if name == "monitor_test_new"));
    assert!(matches!(&main.steps[9].call, Call::AddMonitorCapture { monitor: 0, graphics_capture: true, .. }));
    assert!(main.steps[9].check == Check::StopUnlessTrue);
    assert!(matches!(main.steps[9].on_failure, FailureReport::IndexOrUnwrap { index: 0 }));
    assert!(matches!(&main.steps[11].call, Call::SetOutputSource { channel: 1, .. }));

    let quick = quick_recording_plan();
    assert_eq!(quick.steps.len(), 12);
    assert!(matches!(quick.steps[1].call, Call::ResetContextVideo));
    assert!(matches!(&quick.steps[6].call, Call::AddMonitorCapture { monitor: 0, graphics_capture: false, .. }));
    assert!(quick.steps[6].check == Check::StopUnlessTrue);
    assert!(matches!(&quick.steps[9].call, Call::Print { line } if line == "recording for 10 seconds..."));
    assert!(matches!(quick.steps[10].call, Call::Sleep { millis: 10000 }));

    let window = window_capture_plan("Untitled - Notepad:Notepad:notepad.exe");
    assert_eq!(window.steps.len(), 6);
    assert!(matches!(&window.steps[2].call, Call::Print { line } if line == "IDIDDDIDI: Untitled - Notepad:Notepad:notepad.exe"));
    assert!(matches!(&window.steps[3].call, Call::AddWindowCapture { window, name, .. } if window == "Untitled - Notepad:Notepad:notepad.exe" && name == "test_capture"));
    assert!(matches!(&window.steps[5].call, Call::Print { line } if line == "Recording started"));
}
