//! Camera data types.
use vstd::prelude::*;

verus! {

/// Type of frame to capture.
#[derive(Debug, Clone, Copy, PartialEq, Eq)]
pub enum FrameType {
    Light,
    Bias,
    Dark,
    Flat,
}

impl FrameType {
    pub open spec fn spec_text(self) -> &'static str {
        match self {
            FrameType::Light => "FRAME_LIGHT",
            FrameType::Bias => "FRAME_BIAS",
            FrameType::Dark => "FRAME_DARK",
            FrameType::Flat => "FRAME_FLAT",
        }
    }

    /// The INDIGO item name of the frame type.
    pub fn text(&self) -> (r: &'static str)
        ensures
            r == self.spec_text(),
    {
        match self {
            FrameType::Light => "FRAME_LIGHT",
            FrameType::Bias => "FRAME_BIAS",
            FrameType::Dark => "FRAME_DARK",
            FrameType::Flat => "FRAME_FLAT",
        }
    }
}

/// Binning mode of a camera.
#[derive(Debug, Clone, Copy, PartialEq, Eq)]
pub struct BinningMode {
    /// Horizontal binning
    pub x: u32,
    /// Vertical binning
    pub y: u32,
}

impl BinningMode {
    pub fn new(x: u32, y: u32) -> (r: BinningMode)
        ensures
            r.x == x,
            r.y == y,
    {
        BinningMode { x, y }
    }

    /// The same binning on both axes.
    pub fn symmetric(n: u32) -> (r: BinningMode)
        ensures
            r.x == n,
            r.y == n,
    {
        BinningMode { x: n, y: n }
    }
}

impl Default for BinningMode {
    /// No binning: one pixel per pixel on both axes.
    fn default() -> (r: BinningMode)
        ensures
            r.x == 1,
            r.y == 1,
    {
        BinningMode { x: 1, y: 1 }
    }
}

} // verus!
