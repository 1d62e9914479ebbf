//! The vocabulary of session plans: the libobs calls a session can make, with
//! every parameter as a plain value.
//!
//! Objects that a plan creates (scenes, sources, encoders, outputs) are named
//! when they are created, and later calls refer to them by that name.
use vstd::prelude::*;
use crate::runner::Check;
use crate::settings::{ObsSettings, SettingValueView};

verus! {

/// The view of a settings object: its key/value map.
pub type SettingsView = Map<Seq<char>, SettingValueView>;

/// The graphics back end that renders the video.
#[derive(Clone, Copy, PartialEq, Eq, Structural)]
pub enum GraphicsModule {
    /// `libobs-d3d11`
    Direct3D11,
    /// `libobs-opengl`
    OpenGl,
}

/// A video mode for `obs_reset_video`: NV12 output, default colour space and
/// range, bilinear scaling.
#[derive(Clone, Copy, PartialEq, Eq, Structural)]
pub struct VideoMode {
    pub graphics: GraphicsModule,
    pub fps_num: u32,
    pub fps_den: u32,
    pub base_width: u32,
    pub base_height: u32,
    pub output_width: u32,
    pub output_height: u32,
    pub adapter: u32,
    pub gpu_conversion: bool,
}

/// The video settings a reset asks for.
#[derive(Clone, Copy, PartialEq, Eq, Structural)]
pub enum VideoSetup {
    /// libobs-wrapper's `ObsVideoInfo::default()`.
    WrapperDefault,
    /// An explicit mode.
    Custom(VideoMode),
}

/// Audio buffering for `obs_reset_audio2`.
#[derive(Clone, Copy, PartialEq, Eq, Structural)]
pub struct AudioBuffering {
    pub max_buffering_ms: u32,
    pub fixed_buffering: bool,
}

/// Audio settings for a reset, always with stereo speakers.  With buffering
/// given, `obs_reset_audio2` is used; without, `obs_reset_audio`.
#[derive(Clone, Copy, PartialEq, Eq, Structural)]
pub struct AudioSetup {
    pub samples_per_sec: u32,
    pub buffering: Option<AudioBuffering>,
}

/// How a raw source's type is named.
pub enum SourceKind {
    /// This exact source id.
    Id(String),
    /// The latest versioned id of this input type (`obs_get_latest_input_type_id`).
    LatestOf(String),
}

pub enum SourceKindView {
    Id(Seq<char>),
    LatestOf(Seq<char>),
}

impl View for SourceKind {
    type V = SourceKindView;

    open spec fn view(&self) -> SourceKindView {
        match self {
            SourceKind::Id(s) => SourceKindView::Id(s@),
            SourceKind::LatestOf(s) => SourceKindView::LatestOf(s@),
        }
    }
}

/// Which encoder a context-level video encoder uses.
pub enum EncoderChoice {
    /// The encoder with this id.
    Named(String),
    /// The encoder at this position in the list of available video encoders
    /// that the application queried last.
    Available(usize),
}

pub enum EncoderChoiceView {
    Named(Seq<char>),
    Available(usize),
}

impl View for EncoderChoice {
    type V = EncoderChoiceView;

    open spec fn view(&self) -> EncoderChoiceView {
        match self {
            EncoderChoice::Named(s) => EncoderChoiceView::Named(s@),
            EncoderChoice::Available(i) => EncoderChoiceView::Available(*i),
        }
    }
}

/// The view of optional settings.
pub open spec fn opt_view(s: Option<ObsSettings>) -> Option<SettingsView> {
    match s {
        Some(x) => Some(x@),
        None => None,
    }
}

/// The view of an optional string.
pub open spec fn opt_text(s: Option<String>) -> Option<Seq<char>> {
    match s {
        Some(x) => Some(x@),
        None => None,
    }
}

/// One libobs call.  Calls that create an object name it; later calls name
/// the object they act on.
pub enum Call {
    // ----- process level (raw libobs) -----
    /// `obs_initialized()`; outcome: `Flag`.
    QueryInitialized,
    /// Install the console log handler (`base_set_log_handler`).
    InstallLogHandler,
    /// Select the X11/EGL platform and hand libobs an open X display.
    UseX11Display,
    /// Print libobs's version string after `label`.
    LogVersion { label: String },
    /// `obs_startup(locale)`; outcome: `Flag`.
    Startup { locale: String },
    /// `obs_add_data_path`, with a path relative to the executable's directory.
    AddDataPath { path: String },
    /// `obs_add_module_path`, with paths relative to the executable's directory.
    AddModulePath { binaries: String, data: String },
    /// `obs_reset_video`; outcome: `Code`.
    ResetVideo { video: VideoSetup },
    /// `obs_reset_audio` / `obs_reset_audio2`; outcome: `Flag`.  With a
    /// label, the label and the result are printed.
    ResetAudio { audio: AudioSetup, label: Option<String> },
    /// `obs_set_audio_monitoring_device(name, id)`.
    SetMonitoringDevice { name: String, id: String },
    /// `RoInitialize(RO_INIT_SINGLETHREADED)`.
    InitWinRt,
    /// `RoUninitialize()`.
    UninitWinRt,
    /// Load, log and post-load all modules, with no line printed between.
    LoadModules,
    /// `obs_load_all_modules`.
    LoadAllModules,
    /// `obs_log_loaded_modules`.
    LogLoadedModules,
    /// `obs_post_load_modules`.
    PostLoadModules,
    /// Create a scene (`obs_scene_create`, or the context's `scene`).
    CreateScene { name: String },
    /// `obs_source_create`.
    CreateSource { source_type: SourceKind, name: String, settings: Option<ObsSettings> },
    /// Add a source to a scene inside `obs_scene_atomic_update`, with the given visibility.
    AddToSceneAtomic { scene: String, source: String, visible: bool },
    /// Write `changes` into a source's current settings, print them as JSON and
    /// apply them; outcome: `Flag` (whether the source had settings).
    UpdateSourceSettings { source: String, changes: ObsSettings },
    /// `obs_scene_add`.
    SceneAdd { scene: String, source: String },
    /// `obs_set_output_source(channel, source)`.
    SetOutputSource { channel: u32, source: String },
    /// `obs_video_encoder_create`.
    CreateVideoEncoder { id: String, name: String, settings: Option<ObsSettings> },
    /// `obs_audio_encoder_create`.
    CreateAudioEncoder { id: String, name: String, settings: Option<ObsSettings>, mixer: usize },
    /// `obs_encoder_set_video(encoder, obs_get_video())`.
    EncoderUseVideo { encoder: String },
    /// `obs_encoder_set_audio(encoder, obs_get_audio())`.
    EncoderUseAudio { encoder: String },
    /// `obs_output_create`.
    CreateOutput { kind: String, name: String, settings: Option<ObsSettings> },
    /// `obs_output_set_video_encoder`.
    OutputUseVideoEncoder { output: String, encoder: String },
    /// `obs_output_set_audio_encoder`.
    OutputUseAudioEncoder { output: String, encoder: String, track: usize },
    /// Start an output; outcome: `Flag`.  With a label, the label and the
    /// result are printed.
    StartOutput { output: String, label: Option<String> },
    /// Print an output's id after `label`.
    LogOutputId { output: String, label: String },
    /// Stop an output; outcome: `Flag`.
    StopOutput { output: String },
    /// Release a raw object.
    Release { name: String },
    /// Wait until a line is read from standard input.
    WaitForEnter,
    /// Wait this many milliseconds.
    Sleep { millis: u64 },
    /// `obs_shutdown`.
    Shutdown,
    /// Print a line.
    Print { line: String },
    // ----- libobs-wrapper context -----
    /// `ObsContext::new(StartupInfo::default())`; outcome: `Flag`.
    StartContext,
    /// Reset the context's video to `ObsVideoInfo::default()`; outcome: `Flag`.
    ResetContextVideo,
    /// Print the available video encoders.
    ListVideoEncoders,
    /// Create an output in the context; outcome: `Flag`.
    ContextOutput { kind: String, name: String, settings: Option<ObsSettings> },
    /// Attach a video encoder to an output; outcome: `Flag`.
    AttachVideoEncoder { output: String, choice: EncoderChoice, name: String, settings: Option<ObsSettings> },
    /// Attach an audio encoder to an output; outcome: `Flag`.
    AttachAudioEncoder { output: String, id: String, name: String, settings: Option<ObsSettings>, mixer: usize },
    /// Make a scene the one shown on an output channel.
    ShowScene { scene: String, channel: u32 },
    /// Query and print the monitors; outcome: `Count` (how many there are).
    ListMonitors,
    /// Build (and drop at once) a monitor capture source of the monitor at
    /// this position, without adding it to a scene.
    BuildMonitorCapture { name: String, monitor: usize },
    /// Add a source to a scene; outcome: `Flag`.
    AddSceneSource { scene: String, kind: String, name: String, settings: Option<ObsSettings> },
    /// Add a monitor capture of the monitor at this position to a scene,
    /// optionally with Windows Graphics Capture; outcome: `Flag`, or the
    /// `Count` of listed monitors when there is none at that position.
    AddMonitorCapture { scene: String, name: String, monitor: usize, graphics_capture: bool },
    /// Add a capture of the window with this OBS id to a scene; outcome: `Flag`.
    AddWindowCapture { scene: String, name: String, window: String },
    /// Point the source at this position in a scene at the window with this
    /// OBS id, printing `Setting to` and the id as `Debug` writes it;
    /// outcome: `Flag`.
    RetargetWindowCapture { scene: String, source_index: usize, window: String },
}

/// The view of a [`Call`].
pub enum CallView {
    QueryInitialized,
    InstallLogHandler,
    UseX11Display,
    LogVersion { label: Seq<char> },
    Startup { locale: Seq<char> },
    AddDataPath { path: Seq<char> },
    AddModulePath { binaries: Seq<char>, data: Seq<char> },
    ResetVideo { video: VideoSetup },
    ResetAudio { audio: AudioSetup, label: Option<Seq<char>> },
    SetMonitoringDevice { name: Seq<char>, id: Seq<char> },
    InitWinRt,
    UninitWinRt,
    LoadModules,
    LoadAllModules,
    LogLoadedModules,
    PostLoadModules,
    CreateScene { name: Seq<char> },
    CreateSource { source_type: SourceKindView, name: Seq<char>, settings: Option<SettingsView> },
    AddToSceneAtomic { scene: Seq<char>, source: Seq<char>, visible: bool },
    UpdateSourceSettings { source: Seq<char>, changes: SettingsView },
    SceneAdd { scene: Seq<char>, source: Seq<char> },
    SetOutputSource { channel: u32, source: Seq<char> },
    CreateVideoEncoder { id: Seq<char>, name: Seq<char>, settings: Option<SettingsView> },
    CreateAudioEncoder { id: Seq<char>, name: Seq<char>, settings: Option<SettingsView>, mixer: usize },
    EncoderUseVideo { encoder: Seq<char> },
    EncoderUseAudio { encoder: Seq<char> },
    CreateOutput { kind: Seq<char>, name: Seq<char>, settings: Option<SettingsView> },
    OutputUseVideoEncoder { output: Seq<char>, encoder: Seq<char> },
    OutputUseAudioEncoder { output: Seq<char>, encoder: Seq<char>, track: usize },
    StartOutput { output: Seq<char>, label: Option<Seq<char>> },
    LogOutputId { output: Seq<char>, label: Seq<char> },
    StopOutput { output: Seq<char> },
    Release { name: Seq<char> },
    WaitForEnter,
    Sleep { millis: u64 },
    Shutdown,
    Print { line: Seq<char> },
    StartContext,
    ResetContextVideo,
    ListVideoEncoders,
    ContextOutput { kind: Seq<char>, name: Seq<char>, settings: Option<SettingsView> },
    AttachVideoEncoder { output: Seq<char>, choice: EncoderChoiceView, name: Seq<char>, settings: Option<SettingsView> },
    AttachAudioEncoder { output: Seq<char>, id: Seq<char>, name: Seq<char>, settings: Option<SettingsView>, mixer: usize },
    ShowScene { scene: Seq<char>, channel: u32 },
    ListMonitors,
    BuildMonitorCapture { name: Seq<char>, monitor: usize },
    AddSceneSource { scene: Seq<char>, kind: Seq<char>, name: Seq<char>, settings: Option<SettingsView> },
    AddMonitorCapture { scene: Seq<char>, name: Seq<char>, monitor: usize, graphics_capture: bool },
    AddWindowCapture { scene: Seq<char>, name: Seq<char>, window: Seq<char> },
    RetargetWindowCapture { scene: Seq<char>, source_index: usize, window: Seq<char> },
}

impl View for Call {
    type V = CallView;

    open spec fn view(&self) -> CallView {
        match self {
            Call::QueryInitialized => CallView::QueryInitialized,
            Call::InstallLogHandler => CallView::InstallLogHandler,
            Call::UseX11Display => CallView::UseX11Display,
            Call::LogVersion { label } => CallView::LogVersion { label: label@ },
            Call::Startup { locale } => CallView::Startup { locale: locale@ },
            Call::AddDataPath { path } => CallView::AddDataPath { path: path@ },
            Call::AddModulePath { binaries, data } => CallView::AddModulePath {
                binaries: binaries@,
                data: data@,
            },
            Call::ResetVideo { video } => CallView::ResetVideo { video: *video },
            Call::ResetAudio { audio, label } => CallView::ResetAudio {
                audio: *audio,
                label: opt_text(*label),
            },
            Call::SetMonitoringDevice { name, id } => CallView::SetMonitoringDevice {
                name: name@,
                id: id@,
            },
            Call::InitWinRt => CallView::InitWinRt,
            Call::UninitWinRt => CallView::UninitWinRt,
            Call::LoadModules => CallView::LoadModules,
            Call::LoadAllModules => CallView::LoadAllModules,
            Call::LogLoadedModules => CallView::LogLoadedModules,
            Call::PostLoadModules => CallView::PostLoadModules,
            Call::CreateScene { name } => CallView::CreateScene { name: name@ },
            Call::CreateSource { source_type, name, settings } => CallView::CreateSource {
                source_type: source_type@,
                name: name@,
                settings: opt_view(*settings),
            },
            Call::AddToSceneAtomic { scene, source, visible } => CallView::AddToSceneAtomic {
                scene: scene@,
                source: source@,
                visible: *visible,
            },
            Call::UpdateSourceSettings { source, changes } => CallView::UpdateSourceSettings {
                source: source@,
                changes: changes@,
            },
            Call::SceneAdd { scene, source } => CallView::SceneAdd {
                scene: scene@,
                source: source@,
            },
            Call::SetOutputSource { channel, source } => CallView::SetOutputSource {
                channel: *channel,
                source: source@,
            },
            Call::CreateVideoEncoder { id, name, settings } => CallView::CreateVideoEncoder {
                id: id@,
                name: name@,
                settings: opt_view(*settings),
            },
            Call::CreateAudioEncoder { id, name, settings, mixer } => CallView::CreateAudioEncoder {
                id: id@,
                name: name@,
                settings: opt_view(*settings),
                mixer: *mixer,
            },
            Call::EncoderUseVideo { encoder } => CallView::EncoderUseVideo { encoder: encoder@ },
            Call::EncoderUseAudio { encoder } => CallView::EncoderUseAudio { encoder: encoder@ },
            Call::CreateOutput { kind, name, settings } => CallView::CreateOutput {
                kind: kind@,
                name: name@,
                settings: opt_view(*settings),
            },
            Call::OutputUseVideoEncoder { output, encoder } => CallView::OutputUseVideoEncoder {
                output: output@,
                encoder: encoder@,
            },
            Call::OutputUseAudioEncoder { output, encoder, track } => CallView::OutputUseAudioEncoder {
                output: output@,
                encoder: encoder@,
                track: *track,
            },
            Call::StartOutput { output, label } => CallView::StartOutput {
                output: output@,
                label: opt_text(*label),
            },
            Call::LogOutputId { output, label } => CallView::LogOutputId {
                output: output@,
                label: label@,
            },
            Call::StopOutput { output } => CallView::StopOutput { output: output@ },
            Call::Release { name } => CallView::Release { name: name@ },
            Call::WaitForEnter => CallView::WaitForEnter,
            Call::Sleep { millis } => CallView::Sleep { millis: *millis },
            Call::Shutdown => CallView::Shutdown,
            Call::Print { line } => CallView::Print { line: line@ },
            Call::StartContext => CallView::StartContext,
            Call::ResetContextVideo => CallView::ResetContextVideo,
            Call::ListVideoEncoders => CallView::ListVideoEncoders,
            Call::ContextOutput { kind, name, settings } => CallView::ContextOutput {
                kind: kind@,
                name: name@,
                settings: opt_view(*settings),
            },
            Call::AttachVideoEncoder { output, choice, name, settings } => CallView::AttachVideoEncoder {
                output: output@,
                choice: choice@,
                name: name@,
                settings: opt_view(*settings),
            },
            Call::AttachAudioEncoder { output, id, name, settings, mixer } => CallView::AttachAudioEncoder {
                output: output@,
                id: id@,
                name: name@,
                settings: opt_view(*settings),
                mixer: *mixer,
            },
            Call::ShowScene { scene, channel } => CallView::ShowScene { scene: scene@, channel: *channel },
            Call::ListMonitors => CallView::ListMonitors,
            Call::BuildMonitorCapture { name, monitor } => CallView::BuildMonitorCapture {
                name: name@,
                monitor: *monitor,
            },
            Call::AddSceneSource { scene, kind, name, settings } => CallView::AddSceneSource {
                scene: scene@,
                kind: kind@,
                name: name@,
                settings: opt_view(*settings),
            },
            Call::AddMonitorCapture { scene, name, monitor, graphics_capture } => CallView::AddMonitorCapture {
                scene: scene@,
                name: name@,
                monitor: *monitor,
                graphics_capture: *graphics_capture,
            },
            Call::AddWindowCapture { scene, name, window } => CallView::AddWindowCapture {
                scene: scene@,
                name: name@,
                window: window@,
            },
            Call::RetargetWindowCapture { scene, source_index, window } => CallView::RetargetWindowCapture {
                scene: scene@,
                source_index: *source_index,
                window: window@,
            },
        }
    }
}

/// How a failed check is made known.
pub enum FailureReport {
    /// Nothing is printed.
    Silent,
    /// The message is printed and the session returns.
    Print(String),
    /// The program panics with the message; a failing status code is
    /// appended to it (`message: code`).
    Panic(String),
    /// The prefix and the error that the call left behind are printed,
    /// `prefix: error`, with the error in single quotes when `quoted`.
    PrintWithDetail { prefix: String, quoted: bool },
    /// The program panics as `unwrap` does on what the call returned: on an
    /// error, with the error's text; on a missing value, with the message of
    /// `Option::unwrap`.
    Unwrap,
    /// Like `Unwrap`, but a list that is too short to hold position `index`
    /// makes the program panic as indexing does.
    IndexOrUnwrap { index: usize },
}

pub enum FailureReportView {
    Silent,
    Print(Seq<char>),
    Panic(Seq<char>),
    PrintWithDetail { prefix: Seq<char>, quoted: bool },
    Unwrap,
    IndexOrUnwrap { index: usize },
}

impl View for FailureReport {
    type V = FailureReportView;

    open spec fn view(&self) -> FailureReportView {
        match self {
            FailureReport::Silent => FailureReportView::Silent,
            FailureReport::Print(s) => FailureReportView::Print(s@),
            FailureReport::Panic(s) => FailureReportView::Panic(s@),
            FailureReport::PrintWithDetail { prefix, quoted } => FailureReportView::PrintWithDetail {
                prefix: prefix@,
                quoted: *quoted,
            },
            FailureReport::Unwrap => FailureReportView::Unwrap,
            FailureReport::IndexOrUnwrap { index } => FailureReportView::IndexOrUnwrap {
                index: *index,
            },
        }
    }
}

/// One step of a plan: a call, the check on its outcome, and how a failed
/// check is made known.
pub struct Step {
    pub call: Call,
    pub check: Check,
    pub on_failure: FailureReport,
}

pub struct StepView {
    pub call: CallView,
    pub check: Check,
    pub on_failure: FailureReportView,
}

impl View for Step {
    type V = StepView;

    open spec fn view(&self) -> StepView {
        StepView { call: self.call@, check: self.check, on_failure: self.on_failure@ }
    }
}

/// A session plan: the steps in the order they are performed.
pub struct Plan {
    pub steps: Vec<Step>,
}

impl View for Plan {
    type V = Seq<StepView>;

    open spec fn view(&self) -> Seq<StepView> {
        self.steps@.map_values(|s: Step| s@)
    }
}

/// The checks of a plan's steps, in order.
pub open spec fn plan_checks(plan: Seq<StepView>) -> Seq<Check> {
    plan.map_values(|s: StepView| s.check)
}

impl Plan {
    /// An empty plan.
    pub fn new() -> (p: Plan)
        ensures
            p@ == Seq::<StepView>::empty(),
    {
        let p = Plan { steps: Vec::new() };
        assert(p@ =~= Seq::<StepView>::empty());
        p
    }

    /// Appends a step.
    pub fn push(&mut self, step: Step)
        ensures
            final(self)@ == old(self)@.push(step@),
    {
        let ghost before = self.steps@;
        self.steps.push(step);
        assert(self@ =~= old(self)@.push(step@)) by {
            assert(self.steps@ == before.push(step));
        }
    }

    /// The checks of the steps, in order, for the driver.
    pub fn checks(&self) -> (r: Vec<Check>)
        ensures
            r@ == plan_checks(self@),
    {
        let mut r: Vec<Check> = Vec::new();
        let mut i: usize = 0;
        while i < self.steps.len()
            invariant
                i <= self.steps@.len(),
                r@ == plan_checks(self@).take(i as int),
            decreases self.steps@.len() - i,
        {
            r.push(self.steps[i].check);
            i = i + 1;
            assert(r@ =~= plan_checks(self@).take(i as int));
        }
        assert(plan_checks(self@).take(i as int) =~= plan_checks(self@));
        r
    }
}

} // verus!
