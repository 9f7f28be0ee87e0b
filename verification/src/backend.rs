//! The boundary to the native windowing protocol.
//!
//! The library never performs a native call itself. Instead it is generic
//! over [`Backend`], whose contract is a growing trace of [`Call`] records:
//! each method appends exactly one record describing the request it carried
//! out, together with the handle or event the native side handed back.
//! Everything the library proves about resource lifetimes is stated over
//! that trace.

use vstd::prelude::*;

verus! {

/// Event-class bit: key presses are delivered.
pub const KEY_PRESS_MASK: i64 = 0x0001;
/// Event-class bit: key releases are delivered.
pub const KEY_RELEASE_MASK: i64 = 0x0002;
/// Event-class bit: button presses are delivered.
pub const BUTTON_PRESS_MASK: i64 = 0x0004;
/// Event-class bit: exposure notifications are delivered.
pub const EXPOSURE_MASK: i64 = 0x8000;

/// Type tag carried by a key-press event record.
pub const KEY_PRESS: i32 = 2;
/// Type tag carried by a key-release event record.
pub const KEY_RELEASE: i32 = 3;
/// Type tag carried by a button-press event record.
pub const BUTTON_PRESS: i32 = 4;
/// Type tag carried by an exposure event record.
pub const EXPOSE: i32 = 12;

/// One event record as the native side delivers it: a type tag and the
/// key code slot. The key code is well-defined to read only under the
/// key-press and key-release tags; [`crate::event::Event`] enforces that.
#[derive(Clone, Copy, PartialEq, Eq, Structural, Debug)]
pub struct RawEvent {
    /// The record's type tag (one of the tag constants, or anything else
    /// for event kinds this library does not decode).
    pub event_type: i32,
    /// The key code slot, meaningful only under a key tag.
    pub keycode: u32,
}

/// One native request, recorded with its inputs and, for allocating or
/// receiving requests, with what the native side returned. A returned
/// handle of `0` means the allocation failed.
#[derive(Clone, Copy, PartialEq, Eq, Structural, Debug)]
pub enum Call {
    /// Open a session; `result` is the session handle, `0` on failure.
    OpenDisplay { result: u64 },
    /// Close a session handle.
    CloseDisplay { display: u64 },
    /// Query the root window of a session; `result` is its handle.
    DefaultRootWindow { display: u64, result: u64 },
    /// Create a child window; `result` is its handle, `0` on failure.
    CreateWindow {
        display: u64,
        parent: u64,
        x: i32,
        y: i32,
        width: u32,
        height: u32,
        border_width: u32,
        border: u64,
        background: u64,
        result: u64,
    },
    /// Set a window's border color.
    SetWindowBorder { display: u64, window: u64, color: u64 },
    /// Set a window's background color.
    SetWindowBackground { display: u64, window: u64, color: u64 },
    /// Clear a window to its background.
    ClearWindow { display: u64, window: u64 },
    /// Raise and show a window.
    MapRaised { display: u64, window: u64 },
    /// Hide a window.
    UnmapWindow { display: u64, window: u64 },
    /// Destroy a window handle.
    DestroyWindow { display: u64, window: u64 },
    /// Create a drawing context against a window from an applicability
    /// bitmask; `result` is its handle, `0` on failure.
    CreateGc { display: u64, window: u64, flags: u64, result: u64 },
    /// Release a drawing-context handle.
    FreeGc { display: u64, gc: u64 },
    /// Draw a line between two points using a context on a window.
    DrawLine { display: u64, window: u64, gc: u64, x1: i32, y1: i32, x2: i32, y2: i32 },
    /// Select which event classes are delivered for a window.
    SelectInput { display: u64, window: u64, mask: i64 },
    /// Block until one event is delivered; `delivered` is that record.
    NextEvent { display: u64, delivered: RawEvent },
    /// Block until all queued requests are processed.
    Sync { display: u64 },
    /// Push queued requests without blocking.
    Flush { display: u64 },
}

/// Does this request allocate a handle that a later request must release?
/// A query that returned a null handle allocated nothing.
pub open spec fn is_allocation(c: Call) -> bool {
    match c {
        Call::OpenDisplay { result } => result != 0,
        Call::CreateWindow { result, .. } => result != 0,
        Call::CreateGc { result, .. } => result != 0,
        _ => false,
    }
}

/// Does this request release an allocated handle?
pub open spec fn is_release(c: Call) -> bool {
    match c {
        Call::CloseDisplay { .. } => true,
        Call::DestroyWindow { .. } => true,
        Call::FreeGc { .. } => true,
        _ => false,
    }
}

/// How many requests in `t` allocated a handle.
pub open spec fn allocation_count(t: Seq<Call>) -> int
    decreases t.len(),
{
    if t.len() == 0 {
        0
    } else {
        allocation_count(t.drop_last()) + if is_allocation(t.last()) {
            1int
        } else {
            0int
        }
    }
}

/// How many requests in `t` released a handle.
pub open spec fn release_count(t: Seq<Call>) -> int
    decreases t.len(),
{
    if t.len() == 0 {
        0
    } else {
        release_count(t.drop_last()) + if is_release(t.last()) {
            1int
        } else {
            0int
        }
    }
}

/// A trace is balanced when it released as many handles as it allocated:
/// nothing it acquired is still outstanding.
pub open spec fn balanced(t: Seq<Call>) -> bool {
    allocation_count(t) == release_count(t)
}

/// One request appended to a trace raises each count by one exactly when
/// the request is of that kind.
pub proof fn lemma_count_push(t: Seq<Call>, c: Call)
    ensures
        allocation_count(t.push(c)) == allocation_count(t) + if is_allocation(c) {
            1int
        } else {
            0int
        },
        release_count(t.push(c)) == release_count(t) + if is_release(c) {
            1int
        } else {
            0int
        },
{
    assert(t.push(c).drop_last() =~= t);
}

/// The counts of a concatenation are the sums of the counts.
pub proof fn lemma_count_concat(a: Seq<Call>, b: Seq<Call>)
    ensures
        allocation_count(a + b) == allocation_count(a) + allocation_count(b),
        release_count(a + b) == release_count(a) + release_count(b),
    decreases b.len(),
{
    if b.len() == 0 {
        assert(a + b =~= a);
    } else {
        assert((a + b).drop_last() =~= a + b.drop_last());
        lemma_count_concat(a, b.drop_last());
    }
}

/// A trace in which no request allocates or releases leaves both counts at
/// zero.
pub proof fn lemma_counts_inert(t: Seq<Call>)
    requires
        forall|i: int| 0 <= i < t.len() ==> !is_allocation(#[trigger] t[i]) && !is_release(t[i]),
    ensures
        allocation_count(t) == 0,
        release_count(t) == 0,
    decreases t.len(),
{
    if t.len() > 0 {
        lemma_counts_inert(t.drop_last());
    }
}

/// Each count is bounded by the trace's length, and never negative.
pub proof fn lemma_count_bounds(t: Seq<Call>)
    ensures
        0 <= allocation_count(t) <= t.len(),
        0 <= release_count(t) <= t.len(),
    decreases t.len(),
{
    if t.len() > 0 {
        lemma_count_bounds(t.drop_last());
    }
}

/// The event-class mask in force for window `w` on session `d` after the
/// requests in `t`: the mask of the latest input selection for that pair,
/// each selection replacing the one before it, and no classes before the
/// first.
pub open spec fn effective_input_mask(t: Seq<Call>, d: u64, w: u64) -> i64
    decreases t.len(),
{
    if t.len() == 0 {
        0
    } else {
        match t.last() {
            Call::SelectInput { display, window, mask } => if display == d && window == w {
                mask
            } else {
                effective_input_mask(t.drop_last(), d, w)
            },
            _ => effective_input_mask(t.drop_last(), d, w),
        }
    }
}

/// Selecting the same event classes again does not change the mask in
/// force: whatever trace came before, a repeated selection for the same
/// window leaves exactly the mask one selection leaves.
pub proof fn lemma_select_input_idempotent(t: Seq<Call>, d: u64, w: u64, mask: i64)
    ensures
        ({
            let once = t.push((Call::SelectInput { display: d, window: w, mask }));
            let twice = once.push((Call::SelectInput { display: d, window: w, mask }));
            effective_input_mask(twice, d, w) == effective_input_mask(once, d, w)
        }),
{
}

/// The native windowing protocol, specified only at its boundary: each
/// method performs one request and appends the matching [`Call`] record to
/// the trace `calls()`. Nothing is promised about the handles the native
/// side chooses beyond what the record itself carries, so every caller must
/// cope with any returned value (in particular with `0`, failure).
pub trait Backend: Sized {
    /// The trace of every request carried out so far, oldest first. The
    /// default leaves the trace unspecified, for backends outside the
    /// verified world; a backend that wants anything proved about it says
    /// what its trace is.
    open spec fn calls(&self) -> Seq<Call> {
        arbitrary()
    }

    /// Open a session, optionally naming which display to reach.
    fn open_display(&mut self, path: Option<&str>) -> (r: u64)
        ensures
            final(self).calls() == old(self).calls().push((Call::OpenDisplay { result: r })),
    ;

    /// Close a session handle.
    fn close_display(&mut self, display: u64)
        ensures
            final(self).calls() == old(self).calls().push((Call::CloseDisplay { display })),
    ;

    /// Query the root window of a session.
    fn default_root_window(&mut self, display: u64) -> (r: u64)
        ensures
            final(self).calls() == old(self).calls().push(
                (Call::DefaultRootWindow { display, result: r }),
            ),
    ;

    /// Create a child window with the given geometry and colors.
    fn create_simple_window(
        &mut self,
        display: u64,
        parent: u64,
        x: i32,
        y: i32,
        width: u32,
        height: u32,
        border_width: u32,
        border: u64,
        background: u64,
    ) -> (r: u64)
        ensures
            final(self).calls() == old(self).calls().push(
                (Call::CreateWindow {
                    display,
                    parent,
                    x,
                    y,
                    width,
                    height,
                    border_width,
                    border,
                    background,
                    result: r,
                }),
            ),
    ;

    /// Set a window's border color.
    fn set_window_border(&mut self, display: u64, window: u64, color: u64)
        ensures
            final(self).calls() == old(self).calls().push(
                (Call::SetWindowBorder { display, window, color }),
            ),
    ;

    /// Set a window's background color.
    fn set_window_background(&mut self, display: u64, window: u64, color: u64)
        ensures
            final(self).calls() == old(self).calls().push(
                (Call::SetWindowBackground { display, window, color }),
            ),
    ;

    /// Clear a window to its background.
    fn clear_window(&mut self, display: u64, window: u64)
        ensures
            final(self).calls() == old(self).calls().push(
                (Call::ClearWindow { display, window }),
            ),
    ;

    /// Raise and show a window.
    fn map_raised(&mut self, display: u64, window: u64)
        ensures
            final(self).calls() == old(self).calls().push((Call::MapRaised { display, window })),
    ;

    /// Hide a window.
    fn unmap_window(&mut self, display: u64, window: u64)
        ensures
            final(self).calls() == old(self).calls().push(
                (Call::UnmapWindow { display, window }),
            ),
    ;

    /// Destroy a window handle.
    fn destroy_window(&mut self, display: u64, window: u64)
        ensures
            final(self).calls() == old(self).calls().push(
                (Call::DestroyWindow { display, window }),
            ),
    ;

    /// Create a drawing context against a window. Only the applicability
    /// bitmask takes part in the recorded request; the attribute values it
    /// selects are configuration data the native side copies.
    fn create_gc(&mut self, display: u64, window: u64, flags: u64) -> (r: u64)
        ensures
            final(self).calls() == old(self).calls().push(
                (Call::CreateGc { display, window, flags, result: r }),
            ),
    ;

    /// Release a drawing-context handle.
    fn free_gc(&mut self, display: u64, gc: u64)
        ensures
            final(self).calls() == old(self).calls().push((Call::FreeGc { display, gc })),
    ;

    /// Draw a line between two points using a context on a window.
    fn draw_line(&mut self, display: u64, window: u64, gc: u64, x1: i32, y1: i32, x2: i32, y2: i32)
        ensures
            final(self).calls() == old(self).calls().push(
                (Call::DrawLine { display, window, gc, x1, y1, x2, y2 }),
            ),
    ;

    /// Select which event classes are delivered for a window. A later call
    /// replaces the earlier mask; see [`effective_input_mask`].
    fn select_input(&mut self, display: u64, window: u64, mask: i64)
        ensures
            final(self).calls() == old(self).calls().push(
                (Call::SelectInput { display, window, mask }),
            ),
    ;

    /// Block until one event is delivered and return its record.
    fn next_event(&mut self, display: u64) -> (r: RawEvent)
        ensures
            final(self).calls() == old(self).calls().push(
                (Call::NextEvent { display, delivered: r }),
            ),
    ;

    /// Block until all queued requests are processed.
    fn sync(&mut self, display: u64)
        ensures
            final(self).calls() == old(self).calls().push((Call::Sync { display })),
    ;

    /// Push queued requests without blocking.
    fn flush(&mut self, display: u64)
        ensures
            final(self).calls() == old(self).calls().push((Call::Flush { display })),
    ;
}

} // verus!
