//! One layout pass: the calls that turn the styled document into a display
//! list, in their order.

pub mod node;

use vstd::prelude::*;
use crate::options::{DebugOptions, WindowSize};
use crate::style::Stylist;
use crate::transaction::PipelineId;

verus! {

/// One call into the layout engine that a layout pass asks for.
#[derive(Clone, Copy, Debug, PartialEq, Eq, Structural)]
pub enum LayoutStep {
    /// Construct the box tree from the root element.
    ConstructBoxTree,
    /// Lay the box tree out against a viewport of this size: the fragment
    /// tree.
    Layout(WindowSize),
    /// Compute the scrollable overflow of the fragment tree.
    CalculateScrollableOverflow,
    /// Write the fragment tree to the log.
    PrintFragmentTree,
    /// Build the stacking-context tree of the fragment tree.
    BuildStackingContextTree { viewport_size: WindowSize, pipeline_id: PipelineId, first_reflow: bool },
    /// Forget the hit-test information of an earlier display list.
    ClearHitTestInfo,
    /// Begin the display list of this pipeline.
    BeginDisplayList(PipelineId),
    /// Write the serialized display list to the log.
    DumpDisplayList,
    AddSpatialNodes,
    AddClips,
    BuildCanvasBackground,
    BuildDisplayList,
    PaintInspectorHighlight,
    /// End the display list: it is complete.
    EndDisplayList,
}

/// What a layout pass settled.
pub struct LayoutOutput {
    /// Whether the engine updated the box tree in place; otherwise the
    /// tree is constructed anew.
    pub box_tree_updated: bool,
    /// The pipeline that the display list belongs to.
    pub pipeline_id: PipelineId,
    /// The calls that are to be made after the update of the box tree, in
    /// order.
    pub steps: Vec<LayoutStep>,
}

/// The calls that build the box tree, once the engine has replied whether
/// it could update the tree in place.
pub open spec fn spec_box_tree_steps(updated: bool) -> Seq<LayoutStep> {
    if updated {
        Seq::empty()
    } else {
        seq![LayoutStep::ConstructBoxTree]
    }
}

/// The calls that derive the fragment tree.
pub open spec fn spec_fragment_tree_steps(viewport_size: WindowSize, dump_flow_tree: bool) -> Seq<
    LayoutStep,
> {
    let laid_out = seq![LayoutStep::Layout(viewport_size), LayoutStep::CalculateScrollableOverflow];
    if dump_flow_tree {
        laid_out.push(LayoutStep::PrintFragmentTree)
    } else {
        laid_out
    }
}

/// The calls that derive the display list.
pub open spec fn spec_display_list_steps(
    viewport_size: WindowSize,
    pipeline_id: PipelineId,
    dump_display_list: bool,
) -> Seq<LayoutStep> {
    let begun = seq![
        LayoutStep::BuildStackingContextTree { viewport_size, pipeline_id, first_reflow: true },
        LayoutStep::ClearHitTestInfo,
        LayoutStep::BeginDisplayList(pipeline_id),
    ];
    let dumped = if dump_display_list {
        begun.push(LayoutStep::DumpDisplayList)
    } else {
        begun
    };
    dumped + seq![
        LayoutStep::AddSpatialNodes,
        LayoutStep::AddClips,
        LayoutStep::BuildCanvasBackground,
        LayoutStep::BuildDisplayList,
        LayoutStep::PaintInspectorHighlight,
        LayoutStep::EndDisplayList,
    ]
}

/// The calls of a layout pass after the update of the box tree. `updated`
/// is the engine's reply to the request to update the tree in place.
pub open spec fn spec_layout_steps(
    updated: bool,
    viewport_size: WindowSize,
    pipeline_id: PipelineId,
    debug_options: DebugOptions,
) -> Seq<LayoutStep> {
    spec_box_tree_steps(updated) + spec_fragment_tree_steps(viewport_size, debug_options.dump_flow_tree)
        + spec_display_list_steps(viewport_size, pipeline_id, debug_options.dump_display_list)
}

/// One layout pass over the styled document. The engine is asked, through
/// `update_box_tree`, to update the box tree in place from the dirty root.
/// What remains to be done is returned, in order: where the engine
/// replied that it could not update the tree, the tree is constructed from
/// the root element; the fragment tree is laid out against the viewport of
/// the stylist's device; the display list of the fixed pipeline is built
/// from the stacking-context tree. The debug options add their dumps.
pub fn layout_and_build_display_list<U>(
    stylist: &Stylist,
    debug_options: &DebugOptions,
    update_box_tree: U,
) -> (output: LayoutOutput)
    where U: FnOnce() -> bool
    requires
        call_requires(update_box_tree, ()),
    ensures
        call_ensures(update_box_tree, (), output.box_tree_updated),
        output.pipeline_id == PipelineId(u32::MAX, u32::MAX),
        output.steps@ == spec_layout_steps(
            output.box_tree_updated,
            stylist.device.viewport_size,
            output.pipeline_id,
            *debug_options,
        ),
{
    let viewport_size = stylist.device().viewport_size;
    let pipeline_id = PipelineId::dummy();
    let mut steps: Vec<LayoutStep> = Vec::new();

    let box_tree_updated = update_box_tree();
    if !box_tree_updated {
        steps.push(LayoutStep::ConstructBoxTree);
    }
    assert(steps@ =~= spec_box_tree_steps(box_tree_updated));

    let ghost built = steps@;
    steps.push(LayoutStep::Layout(viewport_size));
    steps.push(LayoutStep::CalculateScrollableOverflow);
    if debug_options.dump_flow_tree {
        steps.push(LayoutStep::PrintFragmentTree);
    }
    assert(steps@ =~= built + spec_fragment_tree_steps(viewport_size, debug_options.dump_flow_tree));

    let ghost laid_out = steps@;
    steps.push(LayoutStep::BuildStackingContextTree { viewport_size, pipeline_id, first_reflow: true });
    steps.push(LayoutStep::ClearHitTestInfo);
    steps.push(LayoutStep::BeginDisplayList(pipeline_id));
    if debug_options.dump_display_list {
        steps.push(LayoutStep::DumpDisplayList);
    }
    steps.push(LayoutStep::AddSpatialNodes);
    steps.push(LayoutStep::AddClips);
    steps.push(LayoutStep::BuildCanvasBackground);
    steps.push(LayoutStep::BuildDisplayList);
    steps.push(LayoutStep::PaintInspectorHighlight);
    steps.push(LayoutStep::EndDisplayList);
    assert(steps@ =~= laid_out + spec_display_list_steps(
        viewport_size,
        pipeline_id,
        debug_options.dump_display_list,
    ));

    LayoutOutput { box_tree_updated, pipeline_id, steps }
}

} // verus!
