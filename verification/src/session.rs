//! A whole session, composed from the library's parts: open the
//! connection, create the window, create a line with its own drawing
//! context, paint, select input, dispatch events until the loop state says
//! stop, and release everything in the reverse of acquisition order. The
//! module also states the lifetime law the composition obeys: destruction
//! order is the exact reverse of construction order, and no path —
//! success or failure — leaves a handle outstanding.

use vstd::prelude::*;

use crate::Error;
use crate::backend::Backend;
use crate::backend::Call;
use crate::backend::allocation_count;
use crate::backend::is_allocation;
use crate::backend::is_release;
use crate::backend::lemma_count_concat;
use crate::backend::lemma_count_push;
use crate::backend::lemma_counts_inert;
use crate::backend::release_count;
use crate::config::GCV;
use crate::display::Display;
use crate::event::EventHandler;
use crate::event::LoopState;
use crate::shape::Line;
use crate::shape::Shape;
use crate::window::Window;
use crate::window::gc_create_call;
use crate::window::lemma_counts_surface_alloc;
use crate::window::lemma_counts_surface_decor;
use crate::window::lemma_counts_surface_teardown;
use crate::window::surface_alloc_calls;
use crate::window::surface_decor_calls;
use crate::window::surface_teardown_calls;

verus! {

/// The construction half of a full chain: open the connection (handle
/// `d`), allocate and decorate the window (handle `w` under root `root`),
/// and create a drawing context (handle `g`) from the bitmask `flags`.
pub open spec fn chain_construction_calls(
    d: u64,
    root: u64,
    w: u64,
    flags: u64,
    g: u64,
) -> Seq<Call> {
    seq![Call::OpenDisplay { result: d }] + surface_alloc_calls(d, root, w) + surface_decor_calls(
        d,
        w,
    ) + seq![gc_create_call(d, w, flags, g)]
}

/// The teardown half of a full chain, in the reverse of construction
/// order: free the drawing context, unmap and destroy the window, close
/// the connection.
pub open spec fn chain_teardown_calls(d: u64, w: u64, g: u64) -> Seq<Call> {
    seq![Call::FreeGc { display: d, gc: g }] + surface_teardown_calls(d, w) + seq![
        Call::CloseDisplay { display: d },
    ]
}

/// Destruction order is the exact reverse of construction order, for every
/// chain of one connection, one window and one drawing context and
/// whatever the application did in between (as long as it neither
/// allocated nor released): the connection is acquired first and released
/// last, the context acquired last and released first, the window between
/// the two both times; no other request in the whole extension allocates
/// or releases a handle; and each of the three acquisitions is matched by
/// exactly one release.
pub proof fn lemma_destruction_reverses_construction(
    pre: Seq<Call>,
    mid: Seq<Call>,
    d: u64,
    root: u64,
    w: u64,
    flags: u64,
    g: u64,
)
    requires
        d != 0,
        w != 0,
        g != 0,
        forall|i: int|
            0 <= i < mid.len() ==> !is_allocation(#[trigger] mid[i]) && !is_release(mid[i]),
    ensures
        ({
            let t = pre + chain_construction_calls(d, root, w, flags, g) + mid
                + chain_teardown_calls(d, w, g);
            let open_at = pre.len() as int;
            let create_window_at = pre.len() + 2int;
            let create_gc_at = pre.len() + 6int;
            let free_gc_at = pre.len() + 7int + mid.len();
            let destroy_window_at = free_gc_at + 2int;
            let close_at = free_gc_at + 3int;
            &&& t[open_at] == (Call::OpenDisplay { result: d })
            &&& t[create_window_at] matches Call::CreateWindow { result, .. } && result == w
            &&& t[create_gc_at] == gc_create_call(d, w, flags, g)
            &&& t[free_gc_at] == (Call::FreeGc { display: d, gc: g })
            &&& t[destroy_window_at] == (Call::DestroyWindow { display: d, window: w })
            &&& t[close_at] == (Call::CloseDisplay { display: d })
            &&& forall|i: int|
                pre.len() <= i < t.len() && is_allocation(#[trigger] t[i]) ==> i == open_at || i
                    == create_window_at || i == create_gc_at
            &&& forall|i: int|
                pre.len() <= i < t.len() && is_release(#[trigger] t[i]) ==> i == free_gc_at || i
                    == destroy_window_at || i == close_at
            &&& allocation_count(t) == allocation_count(pre) + 3
            &&& release_count(t) == release_count(pre) + 3
        }),
{
    let cons = chain_construction_calls(d, root, w, flags, g);
    let td = chain_teardown_calls(d, w, g);
    let t = pre + cons + mid + td;
    assert(cons =~= seq![
        Call::OpenDisplay { result: d },
        Call::DefaultRootWindow { display: d, result: root },
        Call::CreateWindow {
            display: d,
            parent: root,
            x: crate::window::SURFACE_X,
            y: crate::window::SURFACE_Y,
            width: crate::window::SURFACE_WIDTH,
            height: crate::window::SURFACE_HEIGHT,
            border_width: crate::window::SURFACE_BORDER_WIDTH,
            border: 0,
            background: 0,
            result: w,
        },
        Call::SetWindowBorder { display: d, window: w, color: crate::window::BORDER_COLOR },
        Call::SetWindowBackground {
            display: d,
            window: w,
            color: crate::window::BACKGROUND_COLOR,
        },
        Call::ClearWindow { display: d, window: w },
        Call::CreateGc { display: d, window: w, flags, result: g },
    ]);
    assert(td =~= seq![
        Call::FreeGc { display: d, gc: g },
        Call::UnmapWindow { display: d, window: w },
        Call::DestroyWindow { display: d, window: w },
        Call::CloseDisplay { display: d },
    ]);
    assert(t.len() == pre.len() + 7 + mid.len() + 4);
    let base = pre.len() as int;
    let rel = pre.len() + 7 + mid.len();
    assert forall|i: int| base <= i < t.len() implies t[i] == if i < base + 7 {
        cons[i - base]
    } else if i < rel {
        mid[i - base - 7]
    } else {
        td[i - rel]
    } by {
        assert(t[i] == ((pre + cons + mid) + td)[i]);
    }
    assert forall|i: int|
        base <= i < t.len() && is_allocation(#[trigger] t[i]) implies i == base || i == base + 2
        || i == base + 6 by {
        if base + 7 <= i < rel {
            assert(!is_allocation(mid[i - base - 7]));
        }
    }
    assert forall|i: int|
        base <= i < t.len() && is_release(#[trigger] t[i]) implies i == rel || i == rel + 2 || i
        == rel + 3 by {
        if base + 7 <= i < rel {
            assert(!is_release(mid[i - base - 7]));
        }
    }
    let s_open = seq![Call::OpenDisplay { result: d }];
    let s_gc = seq![gc_create_call(d, w, flags, g)];
    let s_free = seq![Call::FreeGc { display: d, gc: g }];
    let s_close = seq![Call::CloseDisplay { display: d }];
    assert(s_open =~= Seq::<Call>::empty().push(s_open[0]));
    assert(s_gc =~= Seq::<Call>::empty().push(s_gc[0]));
    assert(s_free =~= Seq::<Call>::empty().push(s_free[0]));
    assert(s_close =~= Seq::<Call>::empty().push(s_close[0]));
    lemma_count_push(Seq::<Call>::empty(), s_open[0]);
    lemma_count_push(Seq::<Call>::empty(), s_gc[0]);
    lemma_count_push(Seq::<Call>::empty(), s_free[0]);
    lemma_count_push(Seq::<Call>::empty(), s_close[0]);
    lemma_counts_surface_alloc(d, root, w);
    lemma_counts_surface_decor(d, w);
    lemma_counts_surface_teardown(d, w);
    lemma_counts_inert(mid);
    lemma_count_concat(s_open, surface_alloc_calls(d, root, w));
    lemma_count_concat(s_open + surface_alloc_calls(d, root, w), surface_decor_calls(d, w));
    lemma_count_concat(
        s_open + surface_alloc_calls(d, root, w) + surface_decor_calls(d, w),
        s_gc,
    );
    lemma_count_concat(s_free, surface_teardown_calls(d, w));
    lemma_count_concat(s_free + surface_teardown_calls(d, w), s_close);
    lemma_count_concat(pre, cons);
    lemma_count_concat(pre + cons, mid);
    lemma_count_concat(pre + cons + mid, td);
}

} // verus!

verus! {

/// One whole session against any backend: open the connection, create the
/// window, map it, create a line with its own drawing context, paint it,
/// push and settle the queued requests, select the input classes, then
/// receive and dispatch events — repainting after each — until the loop
/// state says stop — or the given budget of receives is spent, since a
/// session that some backend never feeds again must still reach its
/// teardown — and finally release the line's context, the window and the
/// connection, in exactly the reverse of acquisition order.
///
/// Every path balances its books: the function releases exactly as many
/// handles as it allocated, on success and on every construction failure.
/// When the connection cannot be opened, the failed opening is the only
/// request made — nothing else is asked of the native side.
pub fn run<B: Backend>(
    backend: &mut B,
    path: Option<&str>,
    max_events: usize,
) -> (r: Result<(), Error>)
    ensures
        allocation_count(final(backend).calls()) - release_count(final(backend).calls())
            == allocation_count(old(backend).calls()) - release_count(old(backend).calls()),
        (match r {
            Ok(_) => ({
                let t = final(backend).calls();
                &&& allocation_count(t) == allocation_count(old(backend).calls()) + 3
                &&& release_count(t) == release_count(old(backend).calls()) + 3
                &&& t.len() >= 4
                &&& exists|dd: u64, ww: u64, gg: u64|
                    t.skip(t.len() - 4) == #[trigger] chain_teardown_calls(dd, ww, gg)
            }),
            Err(e) => {
                &&& (e == Error::ConnectionFailed ==> final(backend).calls()
                    == old(backend).calls().push((Call::OpenDisplay { result: 0 })))
                &&& (e == Error::SurfaceCreationFailed ==> allocation_count(final(backend).calls())
                    == allocation_count(old(backend).calls()) + 1)
                &&& (e == Error::DrawContextCreationFailed ==> allocation_count(
                    final(backend).calls(),
                ) == allocation_count(old(backend).calls()) + 2)
            },
        }),
{
    let ghost t0 = backend.calls();
    let display = match Display::new(backend, path) {
        Ok(d) => d,
        Err(e) => {
            proof {
                lemma_count_push(t0, Call::OpenDisplay { result: 0 });
            }
            return Err(e);
        },
    };
    let ghost d = display.id();
    let ghost t1 = t0.push(Call::OpenDisplay { result: d });
    proof {
        lemma_count_push(t0, Call::OpenDisplay { result: d });
    }
    let window = match Window::new(backend, &display, None) {
        Ok(w) => w,
        Err(e) => {
            proof {
                let root = choose|root: u64|
                    backend.calls() == t1 + #[trigger] surface_alloc_calls(d, root, 0);
                lemma_counts_surface_alloc(d, root, 0);
                lemma_count_concat(t1, surface_alloc_calls(d, root, 0));
            }
            let ghost t2 = backend.calls();
            display.close(backend);
            proof {
                lemma_count_push(t2, Call::CloseDisplay { display: d });
            }
            return Err(e);
        },
    };
    let ghost w = window.id();
    proof {
        let root = choose|root: u64|
            backend.calls() == t1 + #[trigger] surface_alloc_calls(d, root, w)
                + surface_decor_calls(d, w);
        lemma_counts_surface_alloc(d, root, w);
        lemma_counts_surface_decor(d, w);
        lemma_count_concat(t1, surface_alloc_calls(d, root, w));
        lemma_count_concat(t1 + surface_alloc_calls(d, root, w), surface_decor_calls(d, w));
    }
    let ghost t2 = backend.calls();
    window.map(backend);
    proof {
        let c = backend.calls().last();
        lemma_count_push(t2, c);
    }
    let gcv = GCV::new();
    let ghost t3 = backend.calls();
    let line = match Line::new(backend, &display, &window, 5, 5, 100, 100, &gcv) {
        Ok(l) => l,
        Err(e) => {
            proof {
                lemma_count_push(t3, gc_create_call(d, w, gcv.spec_flags(), 0));
            }
            let ghost t4 = backend.calls();
            let ghost win_snap = window;
            window.destroy(&display, backend);
            proof {
                assert(win_snap.destroy_calls() == surface_teardown_calls(d, w));
                lemma_counts_surface_teardown(d, w);
                lemma_count_concat(t4, win_snap.destroy_calls());
            }
            let ghost t5 = backend.calls();
            display.close(backend);
            proof {
                lemma_count_push(t5, Call::CloseDisplay { display: d });
            }
            return Err(e);
        },
    };
    let ghost g = line.gc_id();
    proof {
        lemma_count_push(t3, gc_create_call(d, w, gcv.spec_flags(), g));
    }
    let ghost t4 = backend.calls();
    line.draw(backend);
    proof {
        let dc = line.draw_calls();
        assert(forall|i: int|
            0 <= i < dc.len() ==> !is_allocation(#[trigger] dc[i]) && !is_release(dc[i]));
        lemma_counts_inert(dc);
        lemma_count_concat(t4, dc);
    }
    let ghost t5 = backend.calls();
    display.flush(backend);
    proof {
        let c = backend.calls().last();
        lemma_count_push(t5, c);
    }
    let ghost t6 = backend.calls();
    display.sync(backend);
    proof {
        let c = backend.calls().last();
        lemma_count_push(t6, c);
    }
    let mut handler = EventHandler::new(&display, &window);
    let ghost t7 = backend.calls();
    handler.select_input(backend);
    proof {
        let c = backend.calls().last();
        lemma_count_push(t7, c);
    }
    let mut state = LoopState::new();
    let mut remaining = max_events;
    while state.running && remaining > 0
        invariant
            allocation_count(backend.calls()) == allocation_count(t0) + 3,
            release_count(backend.calls()) == release_count(t0),
            display.id() == d,
            window.display_id() == d,
            window.id() == w,
            window.context_id() is None,
            line.display_id() == d,
            line.gc_id() == g,
        decreases remaining,
    {
        remaining = remaining - 1;
        let ghost tl = backend.calls();
        let _event = handler.next(backend, &mut state);
        proof {
            let c = backend.calls().last();
            lemma_count_push(tl, c);
        }
        let ghost tm = backend.calls();
        line.draw(backend);
        proof {
            let dc = line.draw_calls();
            assert(forall|i: int|
                0 <= i < dc.len() ==> !is_allocation(#[trigger] dc[i]) && !is_release(dc[i]));
            lemma_counts_inert(dc);
            lemma_count_concat(tm, dc);
        }
    }
    let ghost t8 = backend.calls();
    line.release(&display, backend);
    proof {
        lemma_count_push(t8, Call::FreeGc { display: d, gc: g });
    }
    let ghost t9 = backend.calls();
    let ghost win_snap = window;
    window.destroy(&display, backend);
    proof {
        assert(win_snap.destroy_calls() == surface_teardown_calls(d, w));
        lemma_counts_surface_teardown(d, w);
        lemma_count_concat(t9, win_snap.destroy_calls());
    }
    let ghost t10 = backend.calls();
    display.close(backend);
    proof {
        lemma_count_push(t10, Call::CloseDisplay { display: d });
        let t = backend.calls();
        assert(t =~= t8 + chain_teardown_calls(d, w, g));
        assert(t.skip(t.len() - 4) =~= chain_teardown_calls(d, w, g));
    }
    Ok(())
}

} // verus!
