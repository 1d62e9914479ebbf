use obs_capture::encoders::{amf_texture_encoder, first_amf_encoder, logged_encoders_plan};
use obs_capture::plan::{Call, EncoderChoice};
use obs_capture::window_select::{
    after_notepad_search, code_ids_by_lowercase, code_window_ids, contains_text,
    first_notepad_in_lowercase, first_notepad_window, window_cycle_plan,
    NotepadDecision,
};

fn strings(v: &[&str]) -> Vec<String> {
    v.iter().map(|s| s.to_string()).collect()
}

#[test]
fn text_containment() {
    assert!(contains_text("notepad", "notepad"));
    assert!(contains_text("xnotepadx", "notepad"));
    assert!(!contains_text("note", "notepad"));
    assert!(contains_text("anything", ""));
    assert!(contains_text("", ""));
    assert!(!contains_text("Notepad", "notepad"));
}

#[test]
fn notepad_window_is_found_case_insensitively() {
    let classes = vec![None, Some("Chrome_WidgetWin_1".to_string()), Some("NOTEPAD".to_string()), Some("Notepad".to_string())];
    assert_eq!(first_notepad_window(&classes), Some(2));
}

#[test]
fn no_notepad_window() {
    let classes = vec![None, Some("CabinetWClass".to_string())];
    assert_eq!(first_notepad_window(&classes), None);
    assert_eq!(first_notepad_window(&Vec::new()), None);
}

#[test]
fn notepad_search_decisions() {
    assert!(after_notepad_search(Some(3), false) == NotepadDecision::Use(3));
    assert!(after_notepad_search(Some(0), true) == NotepadDecision::Use(0));
    assert!(after_notepad_search(None, false) == NotepadDecision::LaunchAndRetry);
    assert!(after_notepad_search(None, true) == NotepadDecision::GiveUp);
}

#[test]
fn code_windows_keep_their_order() {
    let ids = strings(&["main.rs - Visual Studio Code:Chrome_WidgetWin_1:Code.exe", "Untitled - Notepad:Notepad:notepad.exe", "CODE review:x:y.exe", "Terminal:t:t.exe"]);
    let kept = code_window_ids(&ids);
    assert_eq!(kept, vec![ids[0].clone(), ids[2].clone()]);
}

#[test]
fn window_cycle_visits_at_most_five_windows() {
    let ids = strings(&["a", "b", "c", "d", "e", "f", "g"]);
    let plan = window_cycle_plan(&ids);
    assert_eq!(plan.steps.len(), 17);
    let visited: Vec<String> = plan
        .steps
        .iter()
        .filter_map(|s| match &s.call {
            Call::RetargetWindowCapture { window, .. } => Some(window.clone()),
            _ => None,
        })
        .collect();
    assert_eq!(visited, strings(&["a", "b", "c", "d", "e"]));
    assert!(matches!(&plan.steps[1].call, Call::Print { line } if line == "Recording for 0 seconds"));
    assert!(matches!(&plan.steps[2].call, Call::Sleep { millis: 5000 }));
    assert!(matches!(&plan.steps[13].call, Call::Print { line } if line == "Recording for 4 seconds"));
    assert!(matches!(&plan.steps[15].call, Call::Print { line } if line == "Recording stop"));
    assert!(matches!(&plan.steps[16].call, Call::StopOutput { output } if output == "output"));
}

#[test]
fn window_cycle_with_two_windows_and_none() {
    let plan = window_cycle_plan(&strings(&["a", "b"]));
    assert_eq!(plan.steps.len(), 8);
    let plan = window_cycle_plan(&Vec::new());
    assert_eq!(plan.steps.len(), 2);
}

#[test]
fn first_amd_texture_encoder_is_chosen() {
    let ids = strings(&["obs_x264", "ffmpeg_nvenc", "av1_texture_amf", "h264_texture_amf"]);
    assert_eq!(first_amf_encoder(&ids), Some(2));
    assert!(amf_texture_encoder(&"h264_texture_amf".to_string()));
    assert!(!amf_texture_encoder(&"h265_texture_amf".to_string()));
}

#[test]
fn no_amd_texture_encoder() {
    let ids = strings(&["obs_x264", "h265_texture_amf"]);
    assert_eq!(first_amf_encoder(&ids), None);
    assert!(logged_encoders_plan(&ids).is_none());
}

#[test]
fn logged_encoder_plan_uses_the_chosen_encoder() {
    let ids = strings(&["obs_x264", "h264_texture_amf"]);
    let plan = logged_encoders_plan(&ids).unwrap();
    assert_eq!(plan.steps.len(), 2);
    assert!(matches!(&plan.steps[0].call, Call::AttachVideoEncoder { choice: EncoderChoice::Available(1), .. }));
    assert!(matches!(&plan.steps[1].call, Call::AttachAudioEncoder { id, mixer: 0, .. } if id == "ffmpeg_aac"));
}

#[test]
fn lowercase_matching_on_given_forms() {
    let lower = vec![None, Some("cabinetwclass".to_string()), Some("notepad".to_string())];
    assert_eq!(first_notepad_in_lowercase(&lower), Some(2));
    let upper_only = vec![Some("NOTEPAD".to_string())];
    assert_eq!(first_notepad_in_lowercase(&upper_only), None);
    let ids = strings(&["A - Code", "Notes", "vscode"]);
    let lowered = strings(&["a - code", "notes", "vscode"]);
    assert_eq!(code_ids_by_lowercase(&ids, &lowered), strings(&["A - Code", "vscode"]));
}
