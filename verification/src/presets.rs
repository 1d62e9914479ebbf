//! The settings that the recording sessions give their encoders, outputs and
//! sources.
use vstd::prelude::*;
use crate::plan::SettingsView;
use crate::settings::{ObsSettings, SettingValue, SettingValueView};

verus! {

/// The display that the monitor captures are pointed at.
pub open spec fn capture_monitor_id() -> Seq<char> {
    "\\\\?\\DISPLAY#BOE07F6#5&74e87ec&0&UID256#{e6f07b5f-ee97-4a90-b076-33f57bf4eaa7}"@
}

/// x264 in constant-bitrate mode with the given B-frame count, optional preset
/// and bitrate (kbit/s).
pub open spec fn cbr_x264_view(b_frames: i64, preset: Option<Seq<char>>, bitrate: i64) -> SettingsView {
    let head = Map::empty().insert("bf"@, SettingValueView::Int(b_frames)).insert(
        "psycho_aq"@,
        SettingValueView::Bool(true),
    ).insert("lookahead"@, SettingValueView::Bool(true)).insert(
        "profile"@,
        SettingValueView::Text("high"@),
    );
    let with_preset = match preset {
        Some(p) => head.insert("preset"@, SettingValueView::Text(p)),
        None => head,
    };
    with_preset.insert("rate_control"@, SettingValueView::Text("cbr"@)).insert(
        "bitrate"@,
        SettingValueView::Int(bitrate),
    )
}

/// Settings for an x264 encoder in constant-bitrate mode.
pub fn cbr_x264_settings(b_frames: i64, preset: Option<&str>, bitrate: i64) -> (s: ObsSettings)
    ensures
        s@ == cbr_x264_view(
            b_frames,
            match preset {
                Some(p) => Some(p@),
                None => None,
            },
            bitrate,
        ),
{
    let mut s = ObsSettings::new();
    s.set_int("bf", b_frames);
    s.set_bool("psycho_aq", true);
    s.set_bool("lookahead", true);
    s.set_string("profile", "high");
    match preset {
        Some(p) => s.set_string("preset", p),
        None => {},
    }
    s.set_string("rate_control", "cbr");
    s.set_int("bitrate", bitrate);
    s
}

/// x264 in constant-rate-factor mode: buffer size in use, high profile,
/// `veryfast` preset, CRF 20.
pub open spec fn crf_x264_view() -> SettingsView {
    Map::empty().insert("use_bufsize"@, SettingValueView::Bool(true)).insert(
        "profile"@,
        SettingValueView::Text("high"@),
    ).insert("preset"@, SettingValueView::Text("veryfast"@)).insert(
        "rate_control"@,
        SettingValueView::Text("CRF"@),
    ).insert("crf"@, SettingValueView::Int(20))
}

/// Settings for an x264 encoder in constant-rate-factor mode.
pub fn crf_x264_settings() -> (s: ObsSettings)
    ensures
        s@ == crf_x264_view(),
{
    let mut s = ObsSettings::new();
    s.set_bool("use_bufsize", true);
    s.set_string("profile", "high");
    s.set_string("preset", "veryfast");
    s.set_string("rate_control", "CRF");
    s.set_int("crf", 20);
    s
}

/// An AAC encoder at the given bitrate (kbit/s).
pub open spec fn aac_view(bitrate: i64) -> SettingsView {
    Map::empty().insert("bitrate"@, SettingValueView::Int(bitrate))
}

/// Settings for an AAC encoder.
pub fn aac_settings(bitrate: i64) -> (s: ObsSettings)
    ensures
        s@ == aac_view(bitrate),
{
    let mut s = ObsSettings::new();
    s.set_int("bitrate", bitrate);
    s
}

/// A file output writing to `path`.
pub open spec fn file_output_view(path: SettingValueView) -> SettingsView {
    Map::empty().insert("path"@, path)
}

/// Settings for an output that records to the file at `path`.
pub fn file_output_settings(path: SettingValue) -> (s: ObsSettings)
    ensures
        s@ == file_output_view(path@),
{
    let mut s = ObsSettings::new();
    s.set("path", path);
    s
}

/// A replay buffer next to the executable: file names by date and time, MP4,
/// at most 15 seconds and 500 MB.
pub open spec fn replay_buffer_view() -> SettingsView {
    Map::empty().insert("directory"@, SettingValueView::ExePath("./"@)).insert(
        "format"@,
        SettingValueView::Text("%CCYY-%MM-%DD %hh-%mm-%ss"@),
    ).insert("extension"@, SettingValueView::Text("mp4"@)).insert(
        "max_time_sec"@,
        SettingValueView::Int(15),
    ).insert("max_size_mb"@, SettingValueView::Int(500))
}

/// Settings for the replay buffer output.
pub fn replay_buffer_settings() -> (s: ObsSettings)
    ensures
        s@ == replay_buffer_view(),
{
    let mut s = ObsSettings::new();
    s.set_exe_path("directory", "./");
    s.set_string("format", "%CCYY-%MM-%DD %hh-%mm-%ss");
    s.set_string("extension", "mp4");
    s.set_int("max_time_sec", 15);
    s.set_int("max_size_mb", 500);
    s
}

/// A monitor capture of the capture monitor, with the cursor and layered
/// windows, without forcing SDR.
pub open spec fn monitor_source_view() -> SettingsView {
    Map::empty().insert("monitor_id"@, SettingValueView::Text(capture_monitor_id())).insert(
        "cursor"@,
        SettingValueView::Bool(true),
    ).insert("capture_layered_windows"@, SettingValueView::Bool(true)).insert(
        "force_sdr"@,
        SettingValueView::Bool(false),
    )
}

/// Settings for a monitor capture source.
pub fn monitor_source_settings() -> (s: ObsSettings)
    ensures
        s@ == monitor_source_view(),
{
    let mut s = ObsSettings::new();
    s.set_string(
        "monitor_id",
        "\\\\?\\DISPLAY#BOE07F6#5&74e87ec&0&UID256#{e6f07b5f-ee97-4a90-b076-33f57bf4eaa7}",
    );
    s.set_bool("cursor", true);
    s.set_bool("capture_layered_windows", true);
    s.set_bool("force_sdr", false);
    s
}

/// libobs's `METHOD_WGC` capture method (Windows Graphics Capture).
pub const CAPTURE_METHOD_WGC: i64 = 2;

/// The changes that point a screen capture at the capture monitor with
/// Windows Graphics Capture.
pub open spec fn monitor_retarget_view() -> SettingsView {
    Map::empty().insert("monitor_id"@, SettingValueView::Text(capture_monitor_id())).insert(
        "method"@,
        SettingValueView::Int(CAPTURE_METHOD_WGC),
    )
}

/// Settings changes for the screen capture source.
pub fn monitor_retarget_settings() -> (s: ObsSettings)
    ensures
        s@ == monitor_retarget_view(),
{
    let mut s = ObsSettings::new();
    s.set_string(
        "monitor_id",
        "\\\\?\\DISPLAY#BOE07F6#5&74e87ec&0&UID256#{e6f07b5f-ee97-4a90-b076-33f57bf4eaa7}",
    );
    s.set_int("method", CAPTURE_METHOD_WGC);
    s
}

/// An audio capture of the default device.
pub open spec fn default_audio_device_view() -> SettingsView {
    Map::empty().insert("device_id"@, SettingValueView::Text("default"@))
}

/// Settings for an audio capture of the default device.
pub fn default_audio_device_settings() -> (s: ObsSettings)
    ensures
        s@ == default_audio_device_view(),
{
    let mut s = ObsSettings::new();
    s.set_string("device_id", "default");
    s
}

} // verus!
