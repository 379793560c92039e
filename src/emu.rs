//! The emulator shell: it owns a cartridge and decides, one step at a time,
//! what its run loop does next. The caller performs the waiting.
use vstd::prelude::*;
use crate::cart::{Cart, CartError};

verus! {

/// Milliseconds to wait per step while paused.
pub const PAUSE_DELAY_MS: u64 = 10;

/// What the run loop does after a step.
#[derive(Debug, Clone, Copy, PartialEq, Eq, Structural)]
pub enum Step {
    /// Paused: sleep this many milliseconds, then step again.
    Wait(u64),
    /// Running: one tick was counted.
    Ticked,
    /// Not running: leave the loop.
    Stopped,
}

/// The emulator state: run and pause flags, a tick counter and the cartridge.
pub struct Emulator {
    pub paused: bool,
    pub running: bool,
    pub ticks: u64,
    pub cart: Cart,
}

impl Emulator {
    /// A stopped, unpaused emulator at tick zero with an empty cartridge.
    pub fn new() -> (r: Emulator)
        ensures
            !r.paused,
            !r.running,
            r.ticks == 0,
            r.cart@.filename == "empty"@,
            r.cart@.data == Seq::<u8>::empty(),
    {
        Emulator { paused: false, running: false, ticks: 0, cart: Cart::new() }
    }

    /// Loads the image read from `filename` (or the read's error) into the
    /// cartridge. On success the emulator runs, unpaused, from tick zero; on
    /// an error nothing changes.
    pub fn start(&mut self, filename: String, contents: Result<Vec<u8>, CartError>) -> (r: Result<
        (),
        CartError,
    >)
        ensures
            match contents {
                Ok(data) => {
                    &&& r is Ok
                    &&& final(self).running
                    &&& !final(self).paused
                    &&& final(self).ticks == 0
                    &&& final(self).cart@.filename == filename@
                    &&& final(self).cart@.data == data@
                },
                Err(e) => r == Err::<(), CartError>(e) && *final(self) == *old(self),
            },
    {
        match self.cart.load_cart(filename, contents) {
            Ok(()) => {
                self.running = true;
                self.paused = false;
                self.ticks = 0;
                Ok(())
            },
            Err(e) => Err(e),
        }
    }

    /// One turn of the run loop: stop when not running, wait while paused,
    /// else count a tick (wrapping at the counter's limit).
    pub fn step(&mut self) -> (r: Step)
        ensures
            !old(self).running ==> r == Step::Stopped && *final(self) == *old(self),
            old(self).running && old(self).paused ==> r == Step::Wait(PAUSE_DELAY_MS)
                && *final(self) == *old(self),
            old(self).running && !old(self).paused ==> r == Step::Ticked && final(self).ticks
                == old(self).ticks.wrapping_add(1) && final(self).running && !final(self).paused
                && final(self).cart == old(self).cart,
    {
        if !self.running {
            Step::Stopped
        } else if self.paused {
            Step::Wait(PAUSE_DELAY_MS)
        } else {
            self.ticks = self.ticks.wrapping_add(1);
            Step::Ticked
        }
    }
}

} // verus!
