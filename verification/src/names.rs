//! Which named objects the calls of a plan create and which they use, and the
//! property that a plan only uses objects created earlier in it.
use vstd::prelude::*;
use crate::plan::{CallView, StepView};

verus! {

/// The name of the object a call creates, if it creates one.
pub open spec fn created_name(c: CallView) -> Option<Seq<char>> {
    match c {
        CallView::CreateScene { name } => Some(name),
        CallView::CreateSource { name, .. } => Some(name),
        CallView::CreateVideoEncoder { name, .. } => Some(name),
        CallView::CreateAudioEncoder { name, .. } => Some(name),
        CallView::CreateOutput { name, .. } => Some(name),
        CallView::ContextOutput { name, .. } => Some(name),
        _ => None,
    }
}

/// The names of the objects a call acts on.
pub open spec fn used_names(c: CallView) -> Seq<Seq<char>> {
    match c {
        CallView::AddToSceneAtomic { scene, source, .. } => seq![scene, source],
        CallView::UpdateSourceSettings { source, .. } => seq![source],
        CallView::SceneAdd { scene, source } => seq![scene, source],
        CallView::SetOutputSource { source, .. } => seq![source],
        CallView::EncoderUseVideo { encoder } => seq![encoder],
        CallView::EncoderUseAudio { encoder } => seq![encoder],
        CallView::OutputUseVideoEncoder { output, encoder } => seq![output, encoder],
        CallView::OutputUseAudioEncoder { output, encoder, .. } => seq![output, encoder],
        CallView::StartOutput { output, .. } => seq![output],
        CallView::LogOutputId { output, .. } => seq![output],
        CallView::StopOutput { output } => seq![output],
        CallView::Release { name } => seq![name],
        CallView::AttachVideoEncoder { output, .. } => seq![output],
        CallView::AttachAudioEncoder { output, .. } => seq![output],
        CallView::ShowScene { scene, .. } => seq![scene],
        CallView::AddSceneSource { scene, .. } => seq![scene],
        CallView::AddMonitorCapture { scene, .. } => seq![scene],
        CallView::AddWindowCapture { scene, .. } => seq![scene],
        CallView::RetargetWindowCapture { scene, .. } => seq![scene],
        _ => Seq::empty(),
    }
}

/// Every object that a step of the plan acts on was created by an earlier step.
pub open spec fn uses_only_created(plan: Seq<StepView>) -> bool {
    forall|i: int, m: int|
        #![trigger used_names(plan[i].call)[m]]
        0 <= i < plan.len() && 0 <= m < used_names(plan[i].call).len() ==> exists|j: int|
            0 <= j < i && #[trigger] created_name(plan[j].call) == Some(
                used_names(plan[i].call)[m],
            )
}

/// The name of the raw source, encoder or output a call creates, if any.
pub open spec fn created_raw_object(c: CallView) -> Option<Seq<char>> {
    match c {
        CallView::CreateSource { name, .. } => Some(name),
        CallView::CreateVideoEncoder { name, .. } => Some(name),
        CallView::CreateAudioEncoder { name, .. } => Some(name),
        CallView::CreateOutput { name, .. } => Some(name),
        _ => None,
    }
}

/// Every raw source, encoder and output the plan creates is released by a
/// later step.
pub open spec fn releases_created_objects(plan: Seq<StepView>) -> bool {
    forall|j: int|
        #![trigger created_raw_object(plan[j].call)]
        0 <= j < plan.len() && created_raw_object(plan[j].call) is Some ==> exists|k: int|
            j < k < plan.len() && #[trigger] plan[k].call == CallView::Release {
                name: created_raw_object(plan[j].call)->0,
            }
}

} // verus!
