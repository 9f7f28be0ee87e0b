//! The drawing-context configuration bundle: a plain record of drawing
//! attributes plus a bitmask saying which of them are set and should be
//! applied when a context is created. Unset fields carry the native
//! defaults. The bundle is pure data and owns no handle.

use vstd::prelude::*;

verus! {

/// The attribute record a drawing context is created from. Every field is
/// a plain value; which fields the native side reads is decided by the
/// applicability bitmask in [`GCV`], not by the record itself.
#[derive(Clone, Copy, PartialEq, Eq, Structural, Debug)]
pub struct GcValues {
    pub function: i32,
    pub plane_mask: u64,
    pub foreground: u64,
    pub background: u64,
    pub line_width: i32,
    pub line_style: i32,
    pub cap_style: i32,
    pub join_style: i32,
    pub fill_style: i32,
    pub fill_rule: i32,
    pub arc_mode: i32,
    pub tile: u64,
    pub stipple: u64,
    pub ts_x_origin: i32,
    pub ts_y_origin: i32,
    pub font: u64,
    pub subwindow_mode: i32,
    pub graphics_exposures: i32,
    pub clip_x_origin: i32,
    pub clip_y_origin: i32,
    pub clip_mask: u64,
    pub dash_offset: i32,
    pub dashes: i8,
}

impl GcValues {
    /// The record with every attribute zero except the line width.
    pub open spec fn spec_default_values() -> GcValues {
        GcValues {
            function: 0,
            plane_mask: 0,
            foreground: 0,
            background: 0,
            line_width: 10,
            line_style: 0,
            cap_style: 0,
            join_style: 0,
            fill_style: 0,
            fill_rule: 0,
            arc_mode: 0,
            tile: 0,
            stipple: 0,
            ts_x_origin: 0,
            ts_y_origin: 0,
            font: 0,
            subwindow_mode: 0,
            graphics_exposures: 0,
            clip_x_origin: 0,
            clip_y_origin: 0,
            clip_mask: 0,
            dash_offset: 0,
            dashes: 0,
        }
    }
}

/// A configuration bundle: the attribute record together with the bitmask
/// of fields that are set. With a zero bitmask the native side ignores the
/// record entirely and uses its own defaults, which is how the bundle is
/// built here; the record still carries the values a caller would enable
/// bits for. The bundle is immutable once handed to a context-creation
/// call; it is `Copy`, so each call works on its own copy and no aliasing
/// can arise.
#[derive(Clone, Copy, PartialEq, Eq, Structural, Debug)]
pub struct GCV {
    flags: u64,
    values: GcValues,
}

impl GCV {
    /// The default bundle: no attribute marked as set, a line width of 10
    /// in the record, everything else zero.
    pub fn new() -> (r: GCV)
        ensures
            r.spec_flags() == 0,
            r.spec_values() == GcValues::spec_default_values(),
    {
        GCV { flags: 0, values: GcValues {
            function: 0,
            plane_mask: 0,
            foreground: 0,
            background: 0,
            line_width: 10,
            line_style: 0,
            cap_style: 0,
            join_style: 0,
            fill_style: 0,
            fill_rule: 0,
            arc_mode: 0,
            tile: 0,
            stipple: 0,
            ts_x_origin: 0,
            ts_y_origin: 0,
            font: 0,
            subwindow_mode: 0,
            graphics_exposures: 0,
            clip_x_origin: 0,
            clip_y_origin: 0,
            clip_mask: 0,
            dash_offset: 0,
            dashes: 0,
        } }
    }

    /// The applicability bitmask.
    pub closed spec fn spec_flags(&self) -> u64 {
        self.flags
    }

    /// The attribute record.
    pub closed spec fn spec_values(&self) -> GcValues {
        self.values
    }

    /// The applicability bitmask: which attribute fields are set.
    pub fn flags(&self) -> (r: u64)
        ensures
            r == self.spec_flags(),
    {
        self.flags
    }

    /// The attribute record.
    pub fn values(&self) -> (r: GcValues)
        ensures
            r == self.spec_values(),
    {
        self.values
    }
}

} // verus!
