//! Drawable primitives: the [`Shape`] capability and the [`Line`] variant.
//!
//! A shape owns its own drawing context and remembers its geometry;
//! drawing is a repeatable request that never fails at this layer and
//! changes nothing in the shape, so repainting once per loop iteration is
//! safe.

use vstd::prelude::*;

use crate::Error;
use crate::backend::Backend;
use crate::backend::Call;
use crate::config::GCV;
use crate::display::Display;
use crate::window::DrawContext;
use crate::window::Window;
use crate::window::gc_create_call;

verus! {

/// The drawing capability: issuing a shape's requests against the backend.
/// `draw_calls` names exactly the requests one `draw` appends, so every
/// implementation says what it paints, and repeating `draw` appends the
/// same requests again — its visible effect is idempotent.
pub trait Shape: Sized {
    /// The requests one `draw` issues, in order.
    spec fn draw_calls(&self) -> Seq<Call>;

    /// Issue the shape's drawing requests. A side effect only: the shape
    /// is unchanged and the call cannot fail at this layer.
    fn draw<B: Backend>(&self, backend: &mut B)
        ensures
            final(backend).calls() == old(backend).calls() + self.draw_calls(),
    ;
}

/// A straight line between two points, owning the drawing context it is
/// painted with. Geometry is fixed at construction; drawing repeats freely.
pub struct Line {
    x1: i32,
    y1: i32,
    x2: i32,
    y2: i32,
    gc: DrawContext,
    display: u64,
    window: u64,
}

impl Line {
    /// The owned drawing context was created on the line's own session.
    #[verifier::type_invariant]
    pub closed spec fn wf(self) -> bool {
        self.gc.display_id() == self.display
    }

    /// First endpoint, horizontal.
    pub closed spec fn x1(&self) -> i32 {
        self.x1
    }

    /// First endpoint, vertical.
    pub closed spec fn y1(&self) -> i32 {
        self.y1
    }

    /// Second endpoint, horizontal.
    pub closed spec fn x2(&self) -> i32 {
        self.x2
    }

    /// Second endpoint, vertical.
    pub closed spec fn y2(&self) -> i32 {
        self.y2
    }

    /// The handle of the owned drawing context.
    pub closed spec fn gc_id(&self) -> u64 {
        self.gc.id()
    }

    /// The handle of the session the line was created on.
    pub closed spec fn display_id(&self) -> u64 {
        self.display
    }

    /// The handle of the window the line is painted on.
    pub closed spec fn window_id(&self) -> u64 {
        self.window
    }

    /// Create a line between `(x1, y1)` and `(x2, y2)` on `window`,
    /// creating the drawing context it owns from `gcv`. Fails with
    /// [`Error::DrawContextCreationFailed`] exactly when the context
    /// allocation fails, and allocates nothing else, so the failing path
    /// leaves no handle behind.
    pub fn new<B: Backend>(
        backend: &mut B,
        display: &Display,
        window: &Window,
        x1: i32,
        y1: i32,
        x2: i32,
        y2: i32,
        gcv: &GCV,
    ) -> (r: Result<Line, Error>)
        ensures
            match r {
                Ok(l) => {
                    &&& l.x1() == x1 && l.y1() == y1 && l.x2() == x2 && l.y2() == y2
                    &&& l.display_id() == display.id()
                    &&& l.window_id() == window.id()
                    &&& l.gc_id() != 0
                    &&& final(backend).calls() == old(backend).calls().push(
                        gc_create_call(display.id(), window.id(), gcv.spec_flags(), l.gc_id()),
                    )
                },
                Err(e) => {
                    &&& e == Error::DrawContextCreationFailed
                    &&& final(backend).calls() == old(backend).calls().push(
                        gc_create_call(display.id(), window.id(), gcv.spec_flags(), 0),
                    )
                },
            },
    {
        let gc = match DrawContext::create(backend, display, window, gcv) {
            Ok(gc) => gc,
            Err(e) => {
                return Err(e);
            },
        };
        Ok(Line {
            x1,
            y1,
            x2,
            y2,
            gc,
            display: display.id_value(),
            window: window.id_value(),
        })
    }

    /// Release the owned drawing context. Consumes the line, so the
    /// context is freed exactly once; taking the session by reference
    /// keeps the free before the session's close.
    pub fn release<B: Backend>(self, display: &Display, backend: &mut B)
        requires
            display.id() == self.display_id(),
        ensures
            final(backend).calls() == old(backend).calls().push(
                (Call::FreeGc { display: self.display_id(), gc: self.gc_id() }),
            ),
    {
        proof {
            use_type_invariant(&self);
        }
        self.gc.release(display, backend);
    }
}

impl Shape for Line {
    /// One line-draw request with the owned context, the owning window and
    /// the stored endpoints.
    open spec fn draw_calls(&self) -> Seq<Call> {
        seq![
            Call::DrawLine {
                display: self.display_id(),
                window: self.window_id(),
                gc: self.gc_id(),
                x1: self.x1(),
                y1: self.y1(),
                x2: self.x2(),
                y2: self.y2(),
            },
        ]
    }

    fn draw<B: Backend>(&self, backend: &mut B)
        ensures
            final(backend).calls() == old(backend).calls() + self.draw_calls(),
    {
        let ghost t0 = backend.calls();
        backend.draw_line(self.display, self.window, self.gc.id_value(), self.x1, self.y1, self.x2, self.y2);
        proof {
            assert(backend.calls() =~= t0 + self.draw_calls());
        }
    }
}

} // verus!
