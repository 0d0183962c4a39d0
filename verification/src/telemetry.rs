//! Telemetry loop coordinator: the per-cycle policy that ties the
//! sensor layer, the fusion capability and the modem engine together.
//! A failed sensor update skips the whole cycle; a failed transmission
//! is reported and the loop goes on.  No retries anywhere: retry policy
//! belongs to the caller.

use vstd::prelude::*;

verus! {

use crate::gy87::Gy87Error;
use crate::gy87::MovementData;
use crate::wifi::WifiError;

/// Owns the cycle timing: the timestamp of the last successful sensor
/// update, in microseconds.
pub struct Coordinator {
    prev_micros: u64,
}

impl Coordinator {
    /// Timestamp of the last successful update, in microseconds.
    pub closed spec fn spec_prev_micros(&self) -> u64 {
        self.prev_micros
    }

    /// Starts the loop: the first cycle's elapsed time is measured from
    /// `now_micros`.
    pub fn new(now_micros: u64) -> (r: Coordinator)
        ensures
            r.spec_prev_micros() == now_micros,
    {
        Coordinator { prev_micros: now_micros }
    }

    /// Microseconds elapsed since the last successful cycle; the fusion
    /// step turns this into its dt seconds.
    pub fn elapsed_micros(&self, now_micros: u64) -> (r: u64)
        requires
            now_micros >= self.spec_prev_micros(),
        ensures
            r == now_micros - self.spec_prev_micros(),
    {
        now_micros - self.prev_micros
    }

    /// One cycle's transmission decision.  On a failed update the cycle
    /// is skipped entirely: nothing is handed out to transmit and the
    /// timestamp is retained unchanged, so elapsed time for the next
    /// successful fuse grows across skipped cycles.  On success the
    /// timestamp advances to `now_micros` and the serialized 48-byte
    /// record is handed out.
    pub fn on_cycle(&mut self, now_micros: u64, update: Result<MovementData, Gy87Error>) -> (r:
        Option<Vec<u8>>)
        ensures
            update is Err ==> r is None && final(self).spec_prev_micros() == old(
                self,
            ).spec_prev_micros(),
            update matches Ok(d) ==> final(self).spec_prev_micros() == now_micros && (r matches Some(
                p,
            ) && p@ == d.spec_serialize()),
    {
        match update {
            Ok(d) => {
                self.prev_micros = now_micros;
                Some(d.serialize())
            },
            Err(e) => None,
        }
    }

    /// A transmit failure is reported to the observability sink — the
    /// value handed back — and the loop continues: non-fatal, no retry,
    /// no backoff.
    pub fn on_transmit(&self, res: Result<(), WifiError>) -> (r: Option<WifiError>)
        ensures
            res matches Err(e) ==> r == Some(e),
            res is Ok ==> r is None,
    {
        match res {
            Ok(u) => None,
            Err(e) => Some(e),
        }
    }
}

} // verus!
