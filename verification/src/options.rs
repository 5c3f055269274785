//! What the harness is configured with at construction: the size of its
//! window and its debug toggles.

use vstd::prelude::*;

verus! {

/// A size in physical pixels: of the window, and of the viewport that the
/// document is laid out against.
#[derive(Clone, Copy, Debug, PartialEq, Eq, Structural)]
pub struct WindowSize {
    pub width: u32,
    pub height: u32,
}

impl WindowSize {
    pub fn new(width: u32, height: u32) -> (size: Self)
        ensures
            size == (WindowSize { width, height }),
    {
        WindowSize { width, height }
    }
}

impl Default for WindowSize {
    /// The size that the harness opens its window with.
    fn default() -> (size: Self)
        ensures
            size == (WindowSize { width: 800, height: 600 }),
    {
        WindowSize { width: 800, height: 600 }
    }
}

/// The debug toggles. They are set at construction and never change.
#[derive(Clone, Copy, Debug, PartialEq, Eq, Structural)]
pub struct DebugOptions {
    /// Write the serialized display list to the log.
    pub dump_display_list: bool,
    /// Write the stacking-context tree to the log.
    pub dump_stacking_context_tree: bool,
    /// Write the fragment tree to the log.
    pub dump_flow_tree: bool,
}

impl DebugOptions {
    /// Every dump switched on.
    pub fn all() -> (options: Self)
        ensures
            options == (DebugOptions {
                dump_display_list: true,
                dump_stacking_context_tree: true,
                dump_flow_tree: true,
            }),
    {
        DebugOptions { dump_display_list: true, dump_stacking_context_tree: true, dump_flow_tree: true }
    }
}

impl Default for DebugOptions {
    /// Every dump switched off.
    fn default() -> (options: Self)
        ensures
            options == (DebugOptions {
                dump_display_list: false,
                dump_stacking_context_tree: false,
                dump_flow_tree: false,
            }),
    {
        DebugOptions {
            dump_display_list: false,
            dump_stacking_context_tree: false,
            dump_flow_tree: false,
        }
    }
}

} // verus!
