//! One-way boot progression of the descriptor-table subsystem. Transitions
//! only ever move forward; there is no runtime rollback.

use vstd::prelude::*;

verus! {

/// How far boot has progressed.
#[derive(Clone, Copy, Debug, PartialEq, Eq, Structural)]
pub enum BootStage {
    Uninitialized,
    SegmentsLoaded,
    VectorsLoaded,
    ControllerRemapped,
    InterruptsEnabled,
}

/// Position of a stage in the fixed boot order.
pub open spec fn stage_index(s: BootStage) -> int {
    match s {
        BootStage::Uninitialized => 0,
        BootStage::SegmentsLoaded => 1,
        BootStage::VectorsLoaded => 2,
        BootStage::ControllerRemapped => 3,
        BootStage::InterruptsEnabled => 4,
    }
}

/// Tracks the boot progression; each step may be taken exactly once, in
/// order, so the ensures of every transition advances the stage by one.
pub struct BootSequence {
    pub stage: BootStage,
}

impl BootSequence {
    pub fn new() -> (b: BootSequence)
        ensures
            b.stage == BootStage::Uninitialized,
    {
        BootSequence { stage: BootStage::Uninitialized }
    }

    pub fn current_stage(&self) -> (s: BootStage)
        ensures
            s == self.stage,
    {
        self.stage
    }

    /// Record that the segment descriptors have been loaded.
    pub fn segments_loaded(&mut self)
        requires
            old(self).stage == BootStage::Uninitialized,
        ensures
            final(self).stage == BootStage::SegmentsLoaded,
            stage_index(final(self).stage) == stage_index(old(self).stage) + 1,
    {
        self.stage = BootStage::SegmentsLoaded;
    }

    /// Record that the interrupt-vector table has been loaded.
    pub fn vectors_loaded(&mut self)
        requires
            old(self).stage == BootStage::SegmentsLoaded,
        ensures
            final(self).stage == BootStage::VectorsLoaded,
            stage_index(final(self).stage) == stage_index(old(self).stage) + 1,
    {
        self.stage = BootStage::VectorsLoaded;
    }

    /// Record that both interrupt-controller chips have been reprogrammed.
    pub fn controller_remapped(&mut self)
        requires
            old(self).stage == BootStage::VectorsLoaded,
        ensures
            final(self).stage == BootStage::ControllerRemapped,
            stage_index(final(self).stage) == stage_index(old(self).stage) + 1,
    {
        self.stage = BootStage::ControllerRemapped;
    }

    /// Record that interrupts have been globally enabled.
    pub fn interrupts_enabled(&mut self)
        requires
            old(self).stage == BootStage::ControllerRemapped,
        ensures
            final(self).stage == BootStage::InterruptsEnabled,
            stage_index(final(self).stage) == stage_index(old(self).stage) + 1,
    {
        self.stage = BootStage::InterruptsEnabled;
    }
}

} // verus!
