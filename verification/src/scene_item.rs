//! Setting up a scene item after a source was added to a scene.
use vstd::prelude::*;

verus! {

/// What the caller supplied for the new scene item.
#[derive(Clone, Copy, PartialEq, Eq, Structural)]
pub struct ItemOptions {
    pub transform: bool,
    pub crop: bool,
    pub blend_method: bool,
    pub blend_mode: bool,
    pub visible: bool,
}

/// One operation on the new scene item.
#[derive(Clone, Copy, PartialEq, Eq, Structural)]
pub enum ItemOp {
    /// `obs_sceneitem_set_info2` with the supplied transform.
    SetTransform,
    /// `obs_sceneitem_set_crop` with the supplied crop.
    SetCrop,
    /// `obs_sceneitem_set_blending_method` with the supplied method.
    SetBlendMethod,
    /// `obs_sceneitem_set_blending_mode` with the supplied mode.
    SetBlendMode,
    /// `obs_sceneitem_set_visible`.
    SetVisible(bool),
    /// Hand the scene item back to the caller.
    RecordItem,
}

/// The operations on the item that adding a source produced: nothing when no
/// item was produced; otherwise each supplied property in a fixed order, then
/// the visibility, then the item is handed back.
pub open spec fn item_ops_of(item_added: bool, opts: ItemOptions) -> Seq<ItemOp> {
    if !item_added {
        Seq::empty()
    } else {
        (if opts.transform { seq![ItemOp::SetTransform] } else { Seq::empty() }) + (if opts.crop {
            seq![ItemOp::SetCrop]
        } else {
            Seq::empty()
        }) + (if opts.blend_method {
            seq![ItemOp::SetBlendMethod]
        } else {
            Seq::empty()
        }) + (if opts.blend_mode {
            seq![ItemOp::SetBlendMode]
        } else {
            Seq::empty()
        }) + seq![ItemOp::SetVisible(opts.visible), ItemOp::RecordItem]
    }
}

/// The operations to perform on the scene item, in order.
pub fn item_ops(item_added: bool, opts: ItemOptions) -> (r: Vec<ItemOp>)
    ensures
        r@ == item_ops_of(item_added, opts),
{
    let mut r: Vec<ItemOp> = Vec::new();
    if !item_added {
        assert(r@ =~= item_ops_of(item_added, opts));
        return r;
    }
    if opts.transform {
        r.push(ItemOp::SetTransform);
    }
    if opts.crop {
        r.push(ItemOp::SetCrop);
    }
    if opts.blend_method {
        r.push(ItemOp::SetBlendMethod);
    }
    if opts.blend_mode {
        r.push(ItemOp::SetBlendMode);
    }
    r.push(ItemOp::SetVisible(opts.visible));
    r.push(ItemOp::RecordItem);
    assert(r@ =~= item_ops_of(item_added, opts));
    r
}

} // verus!
