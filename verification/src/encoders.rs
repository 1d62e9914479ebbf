//! Choosing the hardware video encoder of the logged recording set-up.
use vstd::prelude::*;
use crate::plan::Plan;
use crate::sessions::{chosen_encoders_plan, chosen_encoders_view};
use crate::window_select::string_views;

verus! {

/// The encoder id is one of AMD's texture encoders (`h264_texture_amf` or
/// `av1_texture_amf`).
pub open spec fn is_amf_texture_encoder(id: Seq<char>) -> bool {
    id == "h264_texture_amf"@ || id == "av1_texture_amf"@
}

/// Whether the encoder id is one of AMD's texture encoders.
pub fn amf_texture_encoder(id: &String) -> (r: bool)
    ensures
        r == is_amf_texture_encoder(id@),
{
    let h264 = String::from_str("h264_texture_amf");
    let av1 = String::from_str("av1_texture_amf");
    *id == h264 || *id == av1
}

/// The position of the first AMD texture encoder among the available video
/// encoders (given by id, in the order libobs lists them).
pub fn first_amf_encoder(ids: &Vec<String>) -> (r: Option<usize>)
    ensures
        match r {
            Some(i) => i < ids@.len() && is_amf_texture_encoder(string_views(ids@)[i as int])
                && forall|j: int| 0 <= j < i ==> !is_amf_texture_encoder(string_views(ids@)[j]),
            None => forall|j: int|
                0 <= j < ids@.len() ==> !is_amf_texture_encoder(string_views(ids@)[j]),
        },
{
    let mut i: usize = 0;
    while i < ids.len()
        invariant
            i <= ids@.len(),
            forall|j: int| 0 <= j < i ==> !is_amf_texture_encoder(string_views(ids@)[j]),
        decreases ids@.len() - i,
    {
        if amf_texture_encoder(&ids[i]) {
            return Some(i);
        }
        i = i + 1;
    }
    None
}

/// The encoder set-up of the logged recording for the available encoders
/// `ids`: the encoders attached with the first AMD texture encoder, or
/// nothing when none is available.
pub fn logged_encoders_plan(ids: &Vec<String>) -> (r: Option<Plan>)
    ensures
        match r {
            Some(p) => exists|i: usize|
                i < ids@.len() && is_amf_texture_encoder(string_views(ids@)[i as int])
                    && (forall|j: int| 0 <= j < i ==> !is_amf_texture_encoder(string_views(ids@)[j]))
                    && p@ == chosen_encoders_view(i),
            None => forall|j: int|
                0 <= j < ids@.len() ==> !is_amf_texture_encoder(string_views(ids@)[j]),
        },
{
    match first_amf_encoder(ids) {
        Some(i) => Some(chosen_encoders_plan(i)),
        None => None,
    }
}

} // verus!
