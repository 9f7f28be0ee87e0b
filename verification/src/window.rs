//! Windows and the drawing contexts bound to them.
//!
//! A [`Window`] owns its native window handle and, optionally, one
//! [`DrawContext`] created as part of its construction. Construction is
//! all-or-nothing: if the drawing context cannot be allocated, the already
//! created window is unmapped and destroyed before the error is returned,
//! so a failed construction leaks nothing. Release consumes the value and
//! frees the owned context first, then unmaps, then destroys the window —
//! the exact reverse of acquisition.

use vstd::prelude::*;

use crate::Error;
use crate::backend::Backend;
use crate::backend::Call;
use crate::backend::allocation_count;
use crate::backend::lemma_count_concat;
use crate::backend::lemma_count_push;
use crate::backend::release_count;
use crate::config::GCV;
use crate::display::Display;

verus! {

/// Horizontal position of a newly created window.
pub const SURFACE_X: i32 = 0;

/// Vertical position of a newly created window.
pub const SURFACE_Y: i32 = 0;

/// Width of a newly created window.
pub const SURFACE_WIDTH: u32 = 200;

/// Height of a newly created window.
pub const SURFACE_HEIGHT: u32 = 100;

/// Border width of a newly created window.
pub const SURFACE_BORDER_WIDTH: u32 = 0;

/// Border color applied to a newly created window.
pub const BORDER_COLOR: u64 = 0x00ff0000;

/// Background color applied to a newly created window.
pub const BACKGROUND_COLOR: u64 = 0x0000ff00;

/// The requests that allocate a window: the root-window query, then the
/// creation of a child of that root with the fixed default geometry.
/// `root` is the handle the query returned and `w` the handle the creation
/// returned (`0` on failure).
pub open spec fn surface_alloc_calls(d: u64, root: u64, w: u64) -> Seq<Call> {
    seq![
        Call::DefaultRootWindow { display: d, result: root },
        Call::CreateWindow {
            display: d,
            parent: root,
            x: SURFACE_X,
            y: SURFACE_Y,
            width: SURFACE_WIDTH,
            height: SURFACE_HEIGHT,
            border_width: SURFACE_BORDER_WIDTH,
            border: 0,
            background: 0,
            result: w,
        },
    ]
}

/// The requests that decorate a freshly created window: border color,
/// background color, and a clear.
pub open spec fn surface_decor_calls(d: u64, w: u64) -> Seq<Call> {
    seq![
        Call::SetWindowBorder { display: d, window: w, color: BORDER_COLOR },
        Call::SetWindowBackground { display: d, window: w, color: BACKGROUND_COLOR },
        Call::ClearWindow { display: d, window: w },
    ]
}

/// The request that creates a drawing context against window `w` from the
/// applicability bitmask `flags`; `g` is the returned handle (`0` on
/// failure).
pub open spec fn gc_create_call(d: u64, w: u64, flags: u64, g: u64) -> Call {
    Call::CreateGc { display: d, window: w, flags, result: g }
}

/// The requests that release a window handle: unmap, then destroy.
pub open spec fn surface_teardown_calls(d: u64, w: u64) -> Seq<Call> {
    seq![
        Call::UnmapWindow { display: d, window: w },
        Call::DestroyWindow { display: d, window: w },
    ]
}

/// Holds when `post` extends `pre` with exactly the successful creation of
/// window `w` on session `d` without a drawing context: allocation under
/// some root, then decoration.
pub open spec fn window_created_trace(pre: Seq<Call>, post: Seq<Call>, d: u64, w: u64) -> bool {
    exists|root: u64|
        post == pre + #[trigger] surface_alloc_calls(d, root, w) + surface_decor_calls(d, w)
}

/// Holds when `post` extends `pre` with exactly the successful creation of
/// window `w` on session `d` together with a drawing context `g` created
/// from the bitmask `flags`.
pub open spec fn window_with_context_trace(
    pre: Seq<Call>,
    post: Seq<Call>,
    d: u64,
    w: u64,
    flags: u64,
    g: u64,
) -> bool {
    exists|root: u64|
        post == pre + #[trigger] surface_alloc_calls(d, root, w) + surface_decor_calls(d, w)
            + seq![gc_create_call(d, w, flags, g)]
}

/// Holds when `post` extends `pre` with exactly a window allocation on
/// session `d` that the native side refused: the creation request returned
/// a null handle and nothing further was asked.
pub open spec fn window_alloc_failed_trace(pre: Seq<Call>, post: Seq<Call>, d: u64) -> bool {
    exists|root: u64| post == pre + #[trigger] surface_alloc_calls(d, root, 0)
}

/// Holds when `post` extends `pre` with exactly a window creation on
/// session `d` whose drawing-context step failed: some window `w` was
/// created and decorated, the context request from bitmask `flags`
/// returned a null handle, and `w` was then unmapped and destroyed — the
/// window allocated on this failing path is released before it ends.
pub open spec fn window_ctx_failed_trace(
    pre: Seq<Call>,
    post: Seq<Call>,
    d: u64,
    flags: u64,
) -> bool {
    exists|root: u64, w: u64|
        w != 0 && post == pre + #[trigger] surface_alloc_calls(d, root, w)
            + surface_decor_calls(d, w) + seq![gc_create_call(d, w, flags, 0)]
            + surface_teardown_calls(d, w)
}

/// The counts of the window-allocation segment: one allocation when the
/// creation succeeded, none otherwise; no release either way.
pub proof fn lemma_counts_surface_alloc(d: u64, root: u64, w: u64)
    ensures
        allocation_count(surface_alloc_calls(d, root, w)) == if w != 0 {
            1int
        } else {
            0int
        },
        release_count(surface_alloc_calls(d, root, w)) == 0,
{
    let q = Call::DefaultRootWindow { display: d, result: root };
    let s = surface_alloc_calls(d, root, w);
    assert(s =~= Seq::<Call>::empty().push(q).push(s.last()));
    lemma_count_push(Seq::<Call>::empty().push(q), s.last());
    lemma_count_push(Seq::<Call>::empty(), q);
}

/// The decoration segment neither allocates nor releases.
pub proof fn lemma_counts_surface_decor(d: u64, w: u64)
    ensures
        allocation_count(surface_decor_calls(d, w)) == 0,
        release_count(surface_decor_calls(d, w)) == 0,
{
    let s = surface_decor_calls(d, w);
    assert(s =~= Seq::<Call>::empty().push(s[0]).push(s[1]).push(s[2]));
    lemma_count_push(Seq::<Call>::empty().push(s[0]).push(s[1]), s[2]);
    lemma_count_push(Seq::<Call>::empty().push(s[0]), s[1]);
    lemma_count_push(Seq::<Call>::empty(), s[0]);
}

/// The teardown segment releases exactly one handle — the window's — and
/// allocates nothing.
pub proof fn lemma_counts_surface_teardown(d: u64, w: u64)
    ensures
        allocation_count(surface_teardown_calls(d, w)) == 0,
        release_count(surface_teardown_calls(d, w)) == 1,
{
    let s = surface_teardown_calls(d, w);
    assert(s =~= Seq::<Call>::empty().push(s[0]).push(s[1]));
    lemma_count_push(Seq::<Call>::empty().push(s[0]), s[1]);
    lemma_count_push(Seq::<Call>::empty(), s[0]);
}

/// A window construction whose drawing-context step failed allocates
/// exactly one handle — the window — and releases exactly one before the
/// error returns: the window is destroyed once, and nothing stays
/// outstanding. The `Unmap` request on that path is no release; only the
/// `DestroyWindow` counts.
pub proof fn lemma_failed_construction_leaks_nothing(
    pre: Seq<Call>,
    post: Seq<Call>,
    d: u64,
    flags: u64,
)
    requires
        window_ctx_failed_trace(pre, post, d, flags),
    ensures
        allocation_count(post) == allocation_count(pre) + 1,
        release_count(post) == release_count(pre) + 1,
{
    let (root, w) = choose|root: u64, w: u64|
        w != 0 && post == pre + #[trigger] surface_alloc_calls(d, root, w)
            + surface_decor_calls(d, w) + seq![gc_create_call(d, w, flags, 0)]
            + surface_teardown_calls(d, w);
    let a = surface_alloc_calls(d, root, w);
    let dec = surface_decor_calls(d, w);
    let gc = seq![gc_create_call(d, w, flags, 0)];
    let td = surface_teardown_calls(d, w);
    lemma_counts_surface_alloc(d, root, w);
    lemma_counts_surface_decor(d, w);
    lemma_counts_surface_teardown(d, w);
    assert(gc =~= Seq::<Call>::empty().push(gc_create_call(d, w, flags, 0)));
    lemma_count_push(Seq::<Call>::empty(), gc_create_call(d, w, flags, 0));
    lemma_count_concat(pre, a);
    lemma_count_concat(pre + a, dec);
    lemma_count_concat(pre + a + dec, gc);
    lemma_count_concat(pre + a + dec + gc, td);
}

/// An allocated drawing context, scoped to the session it was created on.
/// It owns the native context handle; the handle cannot be copied out, and
/// the only release path consumes the value, so it is freed exactly once.
pub struct DrawContext {
    gc: u64,
    display: u64,
}

impl DrawContext {
    /// An allocated context always holds a non-null handle.
    #[verifier::type_invariant]
    pub closed spec fn wf(self) -> bool {
        self.gc != 0
    }

    /// The native drawing-context handle.
    pub closed spec fn id(&self) -> u64 {
        self.gc
    }

    /// The handle of the session this context was created on.
    pub closed spec fn display_id(&self) -> u64 {
        self.display
    }

    /// The native context handle, as a value. The context keeps ownership;
    /// the handle is only good for naming the context in requests.
    pub(crate) fn id_value(&self) -> (r: u64)
        ensures
            r == self.id(),
    {
        self.gc
    }

    /// Create a drawing context against `window` from the bundle's
    /// applicability bitmask. Fails with
    /// [`Error::DrawContextCreationFailed`] exactly when the native side
    /// hands back a null handle.
    pub fn create<B: Backend>(
        backend: &mut B,
        display: &Display,
        window: &Window,
        config: &GCV,
    ) -> (r: Result<DrawContext, Error>)
        ensures
            match r {
                Ok(c) => {
                    &&& c.id() != 0
                    &&& c.display_id() == display.id()
                    &&& final(backend).calls() == old(backend).calls().push(
                        gc_create_call(display.id(), window.id(), config.spec_flags(), c.id()),
                    )
                },
                Err(e) => {
                    &&& e == Error::DrawContextCreationFailed
                    &&& final(backend).calls() == old(backend).calls().push(
                        gc_create_call(display.id(), window.id(), config.spec_flags(), 0),
                    )
                },
            },
    {
        DrawContext::create_raw(backend, display.id_value(), window.id_value(), config)
    }

    /// Create a drawing context against the window handle `window`.
    fn create_raw<B: Backend>(
        backend: &mut B,
        display: u64,
        window: u64,
        config: &GCV,
    ) -> (r: Result<DrawContext, Error>)
        ensures
            match r {
                Ok(c) => {
                    &&& c.id() != 0
                    &&& c.display_id() == display
                    &&& final(backend).calls() == old(backend).calls().push(
                        gc_create_call(display, window, config.spec_flags(), c.id()),
                    )
                },
                Err(e) => {
                    &&& e == Error::DrawContextCreationFailed
                    &&& final(backend).calls() == old(backend).calls().push(
                        gc_create_call(display, window, config.spec_flags(), 0),
                    )
                },
            },
    {
        let gc = backend.create_gc(display, window, config.flags());
        if gc == 0 {
            Err(Error::DrawContextCreationFailed)
        } else {
            Ok(DrawContext { gc, display })
        }
    }

    /// Release the context handle. Consumes the value, so the handle is
    /// freed exactly once; taking the session by reference keeps the free
    /// before the session's close.
    pub fn release<B: Backend>(self, display: &Display, backend: &mut B)
        requires
            display.id() == self.display_id(),
        ensures
            final(backend).calls() == old(backend).calls().push(
                (Call::FreeGc { display: self.display_id(), gc: self.id() }),
            ),
    {
        backend.free_gc(self.display, self.gc);
    }
}

/// An allocated window, scoped to the session it was created on, owning
/// its native window handle and at most one drawing context created with
/// it. The handle cannot be copied out, and the only release path consumes
/// the value, so the window is destroyed exactly once.
pub struct Window {
    window: u64,
    display: u64,
    context: Option<DrawContext>,
}

impl Window {
    /// An allocated window holds a non-null handle, and its owned context,
    /// if any, was created on the same session.
    #[verifier::type_invariant]
    pub closed spec fn wf(self) -> bool {
        &&& self.window != 0
        &&& match self.context {
            Some(c) => c.display_id() == self.display,
            None => true,
        }
    }

    /// The native window handle.
    pub closed spec fn id(&self) -> u64 {
        self.window
    }

    /// The handle of the session this window was created on.
    pub closed spec fn display_id(&self) -> u64 {
        self.display
    }

    /// The handle of the drawing context this window owns, if any.
    pub closed spec fn context_id(&self) -> Option<u64> {
        match self.context {
            Some(c) => Some(c.id()),
            None => None,
        }
    }

    /// The native window handle, as a value. The window keeps ownership;
    /// the handle is only good for naming the window in requests.
    pub(crate) fn id_value(&self) -> (r: u64)
        ensures
            r == self.id(),
    {
        self.window
    }

    /// The requests this window's release performs: free the owned
    /// drawing context if there is one, then unmap, then destroy.
    pub open spec fn destroy_calls(self) -> Seq<Call> {
        let tail = surface_teardown_calls(self.display_id(), self.id());
        match self.context_id() {
            Some(g) => seq![Call::FreeGc { display: self.display_id(), gc: g }] + tail,
            None => tail,
        }
    }

    /// Create a window on `display` with the fixed default geometry, apply
    /// the default border and background colors and a clear, and, when a
    /// configuration bundle is given, create a drawing context owned by the
    /// window. Construction is all-or-nothing: when the context allocation
    /// fails, the window that was already created is unmapped and destroyed
    /// before [`Error::DrawContextCreationFailed`] is returned, so the
    /// failing path leaves no allocated handle behind.
    pub fn new<B: Backend>(
        backend: &mut B,
        display: &Display,
        config: Option<&GCV>,
    ) -> (r: Result<Window, Error>)
        ensures
            match r {
                Ok(win) => {
                    &&& win.id() != 0
                    &&& win.display_id() == display.id()
                    &&& match config {
                        None => win.context_id() is None && window_created_trace(
                            old(backend).calls(),
                            final(backend).calls(),
                            display.id(),
                            win.id(),
                        ),
                        Some(c) => win.context_id() matches Some(g) && g != 0
                            && window_with_context_trace(
                            old(backend).calls(),
                            final(backend).calls(),
                            display.id(),
                            win.id(),
                            c.spec_flags(),
                            g,
                        ),
                    }
                },
                Err(e) => {
                    &&& (e == Error::SurfaceCreationFailed ==> window_alloc_failed_trace(
                        old(backend).calls(),
                        final(backend).calls(),
                        display.id(),
                    ))
                    &&& (e == Error::DrawContextCreationFailed ==> (match config {
                        Some(c) => window_ctx_failed_trace(
                            old(backend).calls(),
                            final(backend).calls(),
                            display.id(),
                            c.spec_flags(),
                        ),
                        None => false,
                    }))
                    &&& (e == Error::SurfaceCreationFailed || e == Error::DrawContextCreationFailed)
                },
            },
    {
        let ghost t0 = backend.calls();
        let d = display.id_value();
        let root = backend.default_root_window(d);
        let window = backend.create_simple_window(
            d,
            root,
            SURFACE_X,
            SURFACE_Y,
            SURFACE_WIDTH,
            SURFACE_HEIGHT,
            SURFACE_BORDER_WIDTH,
            0,
            0,
        );
        if window == 0 {
            proof {
                assert(backend.calls() =~= t0 + surface_alloc_calls(d, root, 0));
                assert(window_alloc_failed_trace(t0, backend.calls(), d));
            }
            return Err(Error::SurfaceCreationFailed);
        }
        backend.set_window_border(d, window, BORDER_COLOR);
        backend.set_window_background(d, window, BACKGROUND_COLOR);
        backend.clear_window(d, window);
        proof {
            assert(backend.calls() =~= t0 + surface_alloc_calls(d, root, window)
                + surface_decor_calls(d, window));
        }
        match config {
            None => {
                proof {
                    assert(window_created_trace(t0, backend.calls(), d, window));
                }
                Ok(Window { window, display: d, context: None })
            },
            Some(gcv) => {
                match DrawContext::create_raw(backend, d, window, gcv) {
                    Ok(ctx) => {
                        proof {
                            assert(backend.calls() =~= t0 + surface_alloc_calls(d, root, window)
                                + surface_decor_calls(d, window)
                                + seq![gc_create_call(d, window, gcv.spec_flags(), ctx.id())]);
                            assert(window_with_context_trace(
                                t0,
                                backend.calls(),
                                d,
                                window,
                                gcv.spec_flags(),
                                ctx.id(),
                            ));
                        }
                        Ok(Window { window, display: d, context: Some(ctx) })
                    },
                    Err(_) => {
                        backend.unmap_window(d, window);
                        backend.destroy_window(d, window);
                        proof {
                            assert(backend.calls() =~= t0 + surface_alloc_calls(d, root, window)
                                + surface_decor_calls(d, window)
                                + seq![gc_create_call(d, window, gcv.spec_flags(), 0)]
                                + surface_teardown_calls(d, window));
                            assert(window_ctx_failed_trace(
                                t0,
                                backend.calls(),
                                d,
                                gcv.spec_flags(),
                            ));
                        }
                        Err(Error::DrawContextCreationFailed)
                    },
                }
            },
        }
    }

    /// Ask the native side to raise and show the window. Advisory: it does
    /// not block for completion, and repeating it re-issues the same
    /// request.
    pub fn map<B: Backend>(&self, backend: &mut B)
        ensures
            final(backend).calls() == old(backend).calls().push(
                (Call::MapRaised { display: self.display_id(), window: self.id() }),
            ),
    {
        backend.map_raised(self.display, self.window);
    }

    /// Release the window. Consumes the value, so the handle is destroyed
    /// exactly once; the owned drawing context, if any, is freed first,
    /// then the window is unmapped and destroyed. Taking the session by
    /// reference keeps all of it before the session's close.
    pub fn destroy<B: Backend>(self, display: &Display, backend: &mut B)
        requires
            display.id() == self.display_id(),
        ensures
            final(backend).calls() == old(backend).calls() + self.destroy_calls(),
    {
        let ghost t0 = backend.calls();
        let ghost me = self;
        let Window { window, display: d, context } = self;
        match context {
            Some(ctx) => {
                backend.free_gc(d, ctx.gc);
            },
            None => {},
        }
        backend.unmap_window(d, window);
        backend.destroy_window(d, window);
        proof {
            assert(backend.calls() =~= t0 + me.destroy_calls());
        }
    }
}

} // verus!

