//! The live color pair shared between the input-collection task and the
//! render loop.
//!
//! `ColorState` is the plain value: the current foreground and background
//! colors and a cooperative shutdown flag. Writes replace the pair as one
//! unit, so no reader can see a foreground from one write next to a
//! background from another. `SharedColorState` wraps a `ColorState` in a
//! verified reader/writer lock, giving any number of concurrent readers
//! non-blocking snapshots and the single writer atomic full-pair
//! replacement.

use vstd::prelude::*;

verus! {

use crate::contrast::Color;
use vstd::rwlock::RwLock;

/// The current color pair and the shutdown flag.
#[derive(Clone, Copy, PartialEq, Eq, Debug)]
pub struct ColorState {
    /// The foreground color.
    pub fg: Color,
    /// The background color.
    pub bg: Color,
    /// Whether the input-collection task has been asked to stop.
    pub shutdown: bool,
}

/// The state after a full-pair write: both colors replaced as one unit,
/// the shutdown flag untouched.
pub open spec fn written(s: ColorState, fg: Color, bg: Color) -> ColorState {
    ColorState { fg, bg, shutdown: s.shutdown }
}

/// The pair a reader observes in a state.
pub open spec fn pair_of(s: ColorState) -> (Color, Color) {
    (s.fg, s.bg)
}

/// After a write of `(fg, bg)` completes, a subsequent read observes
/// exactly `(fg, bg)`, never a mix with an earlier pair.
pub proof fn lemma_write_then_read(s: ColorState, fg: Color, bg: Color)
    ensures
        pair_of(written(s, fg, bg)) == (fg, bg),
{
}

impl Default for ColorState {
    /// The documented initial state: cyan on black, not shut down.
    fn default() -> (s: Self)
        ensures
            s.fg == ((0u8, 255u8, 255u8)),
            s.bg == ((0u8, 0u8, 0u8)),
            !s.shutdown,
    {
        ColorState { fg: (0, 255, 255), bg: (0, 0, 0), shutdown: false }
    }
}

impl ColorState {
    /// A snapshot of the current pair.
    pub fn read(&self) -> (pair: (Color, Color))
        ensures
            pair == pair_of(*self),
    {
        (self.fg, self.bg)
    }

    /// Replaces both colors as one unit; the shutdown flag is untouched.
    pub fn write(&mut self, fg: Color, bg: Color)
        ensures
            *final(self) == written(*old(self), fg, bg),
    {
        self.fg = fg;
        self.bg = bg;
    }

    /// Raises the cooperative shutdown flag; the pair is untouched.
    pub fn request_shutdown(&mut self)
        ensures
            final(self).fg == old(self).fg,
            final(self).bg == old(self).bg,
            final(self).shutdown,
    {
        self.shutdown = true;
    }

    /// Whether shutdown has been requested.
    pub fn is_shutdown_requested(&self) -> (b: bool)
        ensures
            b == self.shutdown,
    {
        self.shutdown
    }
}

/// A concurrency-safe holder of the live `ColorState`: one writer task,
/// any number of readers, no torn pairs. Atomicity comes from the verified
/// reader/writer lock; which committed state a reader sees depends on the
/// real-time interleaving, so the methods promise nothing about the values
/// themselves.
pub struct SharedColorState {
    lock: RwLock<ColorState, spec_fn(ColorState) -> bool>,
}

impl SharedColorState {
    /// Every state may be stored in the lock.
    #[verifier::type_invariant]
    spec fn wf(&self) -> bool {
        forall|s: ColorState| #[trigger] self.lock.inv(s)
    }

    /// A new holder with the given initial state.
    pub fn new(initial: ColorState) -> Self {
        let lock = RwLock::<ColorState, spec_fn(ColorState) -> bool>::new(
            initial,
            Ghost(|s: ColorState| true),
        );
        SharedColorState { lock }
    }

    /// A snapshot of the latest fully committed pair; never blocks on
    /// other readers.
    pub fn read(&self) -> (Color, Color) {
        let handle = self.lock.acquire_read();
        let state = *handle.borrow();
        handle.release_read();
        state.read()
    }

    /// Atomically replaces both colors as one unit; the shutdown flag is
    /// untouched.
    pub fn write(&self, fg: Color, bg: Color) {
        proof {
            use_type_invariant(self);
        }
        let (mut state, handle) = self.lock.acquire_write();
        state.write(fg, bg);
        handle.release_write(state);
    }

    /// Raises the cooperative shutdown flag; the pair is untouched.
    pub fn request_shutdown(&self) {
        proof {
            use_type_invariant(self);
        }
        let (mut state, handle) = self.lock.acquire_write();
        state.request_shutdown();
        handle.release_write(state);
    }

    /// Whether shutdown has been requested.
    pub fn is_shutdown_requested(&self) -> bool {
        let handle = self.lock.acquire_read();
        let state = *handle.borrow();
        handle.release_read();
        state.is_shutdown_requested()
    }
}

} // verus!
