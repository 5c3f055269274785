//! The payload that the production stage hands to the compositor stage:
//! one frame's worth of paint updates.

use vstd::prelude::*;

verus! {

/// The version counter of frames. Later frames have larger epochs.
#[derive(Clone, Copy, Debug, PartialEq, Eq, Structural)]
pub struct Epoch(pub u32);

/// The identifier that groups the display content of one surface.
#[derive(Clone, Copy, Debug, PartialEq, Eq, Structural)]
pub struct PipelineId(pub u32, pub u32);

impl PipelineId {
    /// The fixed identifier that the harness registers its one document
    /// under.
    pub fn dummy() -> (id: Self)
        ensures
            id == PipelineId(u32::MAX, u32::MAX),
    {
        PipelineId(u32::MAX, u32::MAX)
    }
}

/// A display list as it travels: tagged with its epoch and its pipeline.
pub struct DisplayListUpdate<D> {
    pub epoch: Epoch,
    pub pipeline_id: PipelineId,
    pub display_list: D,
}

/// One frame update. The display list itself, of type `D`, is opaque to
/// this library.
pub struct Transaction<D> {
    pub display_list: Option<DisplayListUpdate<D>>,
    pub root_pipeline: Option<PipelineId>,
    pub generate_frame: bool,
}

impl<D> Transaction<D> {
    /// A transaction that changes nothing.
    pub fn new() -> (transaction: Self)
        ensures
            transaction.display_list is None,
            transaction.root_pipeline is None,
            !transaction.generate_frame,
    {
        Transaction { display_list: None, root_pipeline: None, generate_frame: false }
    }

    /// Replaces the display list of `pipeline_id`.
    pub fn set_display_list(&mut self, epoch: Epoch, pipeline_id: PipelineId, display_list: D)
        ensures
            final(self).display_list == Some(DisplayListUpdate { epoch, pipeline_id, display_list }),
            final(self).root_pipeline == old(self).root_pipeline,
            final(self).generate_frame == old(self).generate_frame,
    {
        self.display_list = Some(DisplayListUpdate { epoch, pipeline_id, display_list });
    }

    /// Makes `pipeline_id` the root of what the surface shows.
    pub fn set_root_pipeline(&mut self, pipeline_id: PipelineId)
        ensures
            final(self).root_pipeline == Some(pipeline_id),
            final(self).display_list == old(self).display_list,
            final(self).generate_frame == old(self).generate_frame,
    {
        self.root_pipeline = Some(pipeline_id);
    }

    /// Asks for a new frame once the transaction is applied.
    pub fn generate_frame(&mut self)
        ensures
            final(self).generate_frame,
            final(self).display_list == old(self).display_list,
            final(self).root_pipeline == old(self).root_pipeline,
    {
        self.generate_frame = true;
    }

    /// The epoch of the display list that the transaction carries.
    pub open spec fn spec_epoch(&self) -> Option<Epoch> {
        match self.display_list {
            Some(update) => Some(update.epoch),
            None => None,
        }
    }

    pub fn epoch(&self) -> (epoch: Option<Epoch>)
        ensures
            epoch == self.spec_epoch(),
    {
        match &self.display_list {
            Some(update) => Some(update.epoch),
            None => None,
        }
    }
}

/// The frame update of one production cycle.
pub open spec fn spec_frame<D>(epoch: Epoch, pipeline_id: PipelineId, display_list: D) -> Transaction<D> {
    Transaction {
        display_list: Some(DisplayListUpdate { epoch, pipeline_id, display_list }),
        root_pipeline: Some(pipeline_id),
        generate_frame: true,
    }
}

/// Wraps a display list into the frame update of one production cycle:
/// it replaces the display list of the pipeline, makes the pipeline the
/// root, and asks for a new frame.
pub fn frame<D>(epoch: Epoch, pipeline_id: PipelineId, display_list: D) -> (transaction: Transaction<D>)
    ensures
        transaction == spec_frame(epoch, pipeline_id, display_list),
{
    let mut transaction = Transaction::new();
    transaction.set_display_list(epoch, pipeline_id, display_list);
    transaction.set_root_pipeline(pipeline_id);
    transaction.generate_frame();
    transaction
}

} // verus!
