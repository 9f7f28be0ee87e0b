//! An instrumented in-memory backend: it records every request in order,
//! hands out fresh non-null handles (or null ones where a failure was
//! arranged), and delivers events from a queue. It implements the same
//! boundary as the real protocol, so everything proved against
//! [`Backend`] holds of it, and tests can read back the recorded trace
//! and the allocation and release counters.

use vstd::prelude::*;

use crate::backend::Backend;
use crate::backend::Call;
use crate::backend::RawEvent;
use crate::backend::allocation_count;
use crate::backend::is_allocation;
use crate::backend::is_release;
use crate::backend::lemma_count_bounds;
use crate::backend::release_count;

verus! {

/// The recording backend. Each request appends one [`Call`]; allocating
/// requests return `1, 2, 3, …` unless the matching failure switch is on,
/// in which case they return the null handle; receiving returns the queued
/// events in order, then a zero record.
pub struct FakeBackend {
    log: Vec<Call>,
    next_handle: u64,
    fail_open: bool,
    fail_create_window: bool,
    fail_create_gc: bool,
    pending: Vec<RawEvent>,
}

impl FakeBackend {
    /// A fresh backend on which every request succeeds and no event is
    /// queued yet.
    pub fn new() -> (r: FakeBackend)
        ensures
            r.calls() == Seq::<Call>::empty(),
    {
        FakeBackend {
            log: Vec::new(),
            next_handle: 1,
            fail_open: false,
            fail_create_window: false,
            fail_create_gc: false,
            pending: Vec::new(),
        }
    }

    /// A fresh backend whose chosen allocating requests fail: session
    /// opening, window creation, drawing-context creation.
    pub fn with_failures(
        fail_open: bool,
        fail_create_window: bool,
        fail_create_gc: bool,
    ) -> (r: FakeBackend)
        ensures
            r.calls() == Seq::<Call>::empty(),
    {
        FakeBackend {
            log: Vec::new(),
            next_handle: 1,
            fail_open,
            fail_create_window,
            fail_create_gc,
            pending: Vec::new(),
        }
    }

    /// Queue one event for a later receive. Queuing is no request: the
    /// trace is unchanged.
    pub fn queue_event(&mut self, raw: RawEvent)
        ensures
            final(self).calls() == old(self).calls(),
    {
        self.pending.push(raw);
    }

    /// The recorded trace, for reading back what was asked.
    pub fn log(&self) -> (r: &Vec<Call>)
        ensures
            r@ == self.calls(),
    {
        &self.log
    }

    /// A fresh non-null handle.
    fn fresh_handle(&mut self) -> (h: u64)
        ensures
            final(self).calls() == old(self).calls(),
            h != 0,
    {
        if self.next_handle == 0 {
            self.next_handle = 1;
        }
        let h = self.next_handle;
        if h == u64::MAX {
            self.next_handle = 1;
        } else {
            self.next_handle = h + 1;
        }
        h
    }

    /// How many recorded requests allocated a handle.
    pub fn allocations(&self) -> (n: u64)
        ensures
            n as int == allocation_count(self.calls()),
    {
        let mut n: u64 = 0;
        let mut i: usize = 0;
        while i < self.log.len()
            invariant
                i <= self.log.len(),
                n <= i,
                n as int == allocation_count(self.log@.take(i as int)),
            decreases self.log.len() - i,
        {
            let counted = match self.log[i] {
                Call::OpenDisplay { result } => result != 0,
                Call::CreateWindow { result, .. } => result != 0,
                Call::CreateGc { result, .. } => result != 0,
                _ => false,
            };
            proof {
                assert(self.log@.take(i as int + 1).drop_last() =~= self.log@.take(i as int));
                assert(self.log@.take(i as int + 1).last() == self.log@[i as int]);
                assert(counted == is_allocation(self.log@[i as int]));
            }
            if counted {
                n = n + 1;
            }
            i = i + 1;
        }
        proof {
            assert(self.log@.take(self.log.len() as int) =~= self.log@);
        }
        n
    }

    /// How many recorded requests released a handle.
    pub fn releases(&self) -> (n: u64)
        ensures
            n as int == release_count(self.calls()),
    {
        let mut n: u64 = 0;
        let mut i: usize = 0;
        while i < self.log.len()
            invariant
                i <= self.log.len(),
                n <= i,
                n as int == release_count(self.log@.take(i as int)),
            decreases self.log.len() - i,
        {
            let counted = match self.log[i] {
                Call::CloseDisplay { .. } => true,
                Call::DestroyWindow { .. } => true,
                Call::FreeGc { .. } => true,
                _ => false,
            };
            proof {
                assert(self.log@.take(i as int + 1).drop_last() =~= self.log@.take(i as int));
                assert(self.log@.take(i as int + 1).last() == self.log@[i as int]);
                assert(counted == is_release(self.log@[i as int]));
            }
            if counted {
                n = n + 1;
            }
            i = i + 1;
        }
        proof {
            assert(self.log@.take(self.log.len() as int) =~= self.log@);
        }
        n
    }

    /// How many allocated handles no request has released yet. Zero means
    /// the recorded trace leaked nothing.
    pub fn outstanding(&self) -> (n: u64)
        requires
            release_count(self.calls()) <= allocation_count(self.calls()),
        ensures
            n as int == allocation_count(self.calls()) - release_count(self.calls()),
    {
        proof {
            lemma_count_bounds(self.calls());
        }
        let a = self.allocations();
        let r = self.releases();
        a - r
    }
}

impl Backend for FakeBackend {
    closed spec fn calls(&self) -> Seq<Call> {
        self.log@
    }

    fn open_display(&mut self, path: Option<&str>) -> (r: u64) {
        let result = if self.fail_open {
            0
        } else {
            self.fresh_handle()
        };
        self.log.push(Call::OpenDisplay { result });
        result
    }

    fn close_display(&mut self, display: u64) {
        self.log.push(Call::CloseDisplay { display });
    }

    fn default_root_window(&mut self, display: u64) -> (r: u64) {
        let result = self.fresh_handle();
        self.log.push(Call::DefaultRootWindow { display, result });
        result
    }

    fn create_simple_window(
        &mut self,
        display: u64,
        parent: u64,
        x: i32,
        y: i32,
        width: u32,
        height: u32,
        border_width: u32,
        border: u64,
        background: u64,
    ) -> (r: u64) {
        let result = if self.fail_create_window {
            0
        } else {
            self.fresh_handle()
        };
        self.log.push(Call::CreateWindow {
            display,
            parent,
            x,
            y,
            width,
            height,
            border_width,
            border,
            background,
            result,
        });
        result
    }

    fn set_window_border(&mut self, display: u64, window: u64, color: u64) {
        self.log.push(Call::SetWindowBorder { display, window, color });
    }

    fn set_window_background(&mut self, display: u64, window: u64, color: u64) {
        self.log.push(Call::SetWindowBackground { display, window, color });
    }

    fn clear_window(&mut self, display: u64, window: u64) {
        self.log.push(Call::ClearWindow { display, window });
    }

    fn map_raised(&mut self, display: u64, window: u64) {
        self.log.push(Call::MapRaised { display, window });
    }

    fn unmap_window(&mut self, display: u64, window: u64) {
        self.log.push(Call::UnmapWindow { display, window });
    }

    fn destroy_window(&mut self, display: u64, window: u64) {
        self.log.push(Call::DestroyWindow { display, window });
    }

    fn create_gc(&mut self, display: u64, window: u64, flags: u64) -> (r: u64) {
        let result = if self.fail_create_gc {
            0
        } else {
            self.fresh_handle()
        };
        self.log.push(Call::CreateGc { display, window, flags, result });
        result
    }

    fn free_gc(&mut self, display: u64, gc: u64) {
        self.log.push(Call::FreeGc { display, gc });
    }

    fn draw_line(
        &mut self,
        display: u64,
        window: u64,
        gc: u64,
        x1: i32,
        y1: i32,
        x2: i32,
        y2: i32,
    ) {
        self.log.push(Call::DrawLine { display, window, gc, x1, y1, x2, y2 });
    }

    fn select_input(&mut self, display: u64, window: u64, mask: i64) {
        self.log.push(Call::SelectInput { display, window, mask });
    }

    fn next_event(&mut self, display: u64) -> (r: RawEvent) {
        let delivered = if self.pending.len() > 0 {
            self.pending.remove(0)
        } else {
            RawEvent { event_type: 0, keycode: 0 }
        };
        self.log.push(Call::NextEvent { display, delivered });
        delivered
    }

    fn sync(&mut self, display: u64) {
        self.log.push(Call::Sync { display });
    }

    fn flush(&mut self, display: u64) {
        self.log.push(Call::Flush { display });
    }
}

} // verus!
