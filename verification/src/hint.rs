//! How snap hints look.
use vstd::prelude::*;

verus! {

/// Snap hint types for different operations.
#[derive(Debug, Clone, Copy, PartialEq, Eq, Structural)]
pub enum SnapHintType {
    /// Highlight showing the new size during column resize.
    ColumnResize,
    /// Highlight showing where a window will be placed during move.
    MoveTarget,
    /// Highlight showing which column will receive focus.
    FocusTarget,
}

/// Configuration for snap hint visual feedback.
///
/// Colors are in the `0x00BBGGRR` format: `0x00FF0000` is blue, `0x0000FF00` is
/// green and `0x000000FF` is red.
#[derive(Debug)]
pub struct SnapHintConfig {
    /// Whether visual hints are enabled. Where they are not, no overlay is to be
    /// shown, whatever the other settings are.
    pub enabled: bool,
    /// Color for column resize hints.
    pub resize_color: u32,
    /// Color for move target hints.
    pub move_color: u32,
    /// Color for focus target hints.
    pub focus_color: u32,
    /// How long hints are displayed in milliseconds, before they hide by
    /// themselves.
    pub duration_ms: u32,
}

impl Clone for SnapHintConfig {
    fn clone(&self) -> (c: SnapHintConfig)
        ensures
            c == *self,
    {
        SnapHintConfig {
            enabled: self.enabled,
            resize_color: self.resize_color,
            move_color: self.move_color,
            focus_color: self.focus_color,
            duration_ms: self.duration_ms,
        }
    }
}

impl Default for SnapHintConfig {
    /// Hints in blue, green and orange, shown for 200 milliseconds.
    fn default() -> (c: SnapHintConfig)
        ensures
            c == (SnapHintConfig {
                enabled: true,
                resize_color: 0x00FF_8040,
                move_color: 0x0040_FF40,
                focus_color: 0x0040_80FF,
                duration_ms: 200,
            }),
    {
        SnapHintConfig {
            enabled: true,
            resize_color: 0x00FF_8040,
            move_color: 0x0040_FF40,
            focus_color: 0x0040_80FF,
            duration_ms: 200,
        }
    }
}

} // verus!
