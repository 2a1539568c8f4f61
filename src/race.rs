//! The race between the two sources of a fetch: the disk shadow copy and the
//! network. The first source to produce a payload wins; later reports are
//! ignored; when every source that takes part has failed, the fetch fails.

use bytes::Bytes;
use vstd::prelude::*;

use crate::payload::{bytes_view, opt_bytes_view};

verus! {

/// Where a payload came from.
#[derive(Clone, Copy, PartialEq, Eq, Structural, Debug)]
pub enum Source {
    Disk,
    Network,
}

/// How a race ended.
pub enum Outcome {
    /// `source` produced `payload` first.
    Resolved { source: Source, payload: Bytes },
    /// Every source that took part failed.
    Failed,
}

/// An outcome with its payload as bytes.
pub enum OutcomeView {
    Resolved { source: Source, payload: Seq<u8> },
    Failed,
}

impl View for Outcome {
    type V = OutcomeView;

    open spec fn view(&self) -> OutcomeView {
        match self {
            Outcome::Resolved { source, payload } => OutcomeView::Resolved {
                source: *source,
                payload: bytes_view(*payload),
            },
            Outcome::Failed => OutcomeView::Failed,
        }
    }
}

/// The outcome that an optional outcome holds, as bytes.
pub open spec fn opt_outcome_view(o: Option<Outcome>) -> Option<OutcomeView> {
    match o {
        Some(x) => Some(x@),
        None => None,
    }
}

/// The state of a race: which sources may still report, and whether it has ended.
pub struct RaceView {
    pub disk_pending: bool,
    pub network_pending: bool,
    pub settled: bool,
}

/// The state at the start of a race; the disk takes part only where a
/// shadow copy can exist.
pub open spec fn race_start(with_disk: bool) -> RaceView {
    RaceView { disk_pending: with_disk, network_pending: true, settled: false }
}

/// Whether `source` has yet to report.
pub open spec fn pending(r: RaceView, source: Source) -> bool {
    match source {
        Source::Disk => r.disk_pending,
        Source::Network => r.network_pending,
    }
}

/// `r` with `source` marked as having reported.
pub open spec fn reported(r: RaceView, source: Source) -> RaceView {
    match source {
        Source::Disk => RaceView { disk_pending: false, ..r },
        Source::Network => RaceView { network_pending: false, ..r },
    }
}

/// One report of `source`, with its payload or `None` for a failure: the next
/// state, and the outcome where this report ends the race.
pub open spec fn report_step(r: RaceView, source: Source, payload: Option<Seq<u8>>) -> (
    RaceView,
    Option<OutcomeView>,
) {
    if r.settled || !pending(r, source) {
        (r, None)
    } else {
        let next = reported(r, source);
        match payload {
            Some(p) => (
                RaceView { settled: true, ..next },
                Some(OutcomeView::Resolved { source, payload: p }),
            ),
            None => if !next.disk_pending && !next.network_pending {
                (RaceView { settled: true, ..next }, Some(OutcomeView::Failed))
            } else {
                (next, None)
            },
        }
    }
}

/// A race in progress.
pub struct Race {
    disk_pending: bool,
    network_pending: bool,
    settled: bool,
}

impl View for Race {
    type V = RaceView;

    closed spec fn view(&self) -> RaceView {
        RaceView {
            disk_pending: self.disk_pending,
            network_pending: self.network_pending,
            settled: self.settled,
        }
    }
}

impl Race {
    /// A race between the network and, where `with_disk` holds, the disk.
    pub fn new(with_disk: bool) -> (r: Race)
        ensures
            r@ == race_start(with_disk),
    {
        Race { disk_pending: with_disk, network_pending: true, settled: false }
    }

    /// Whether the race has ended.
    pub fn is_settled(&self) -> (r: bool)
        ensures
            r == self@.settled,
    {
        self.settled
    }

    /// Records that `source` finished with `payload` (`None`: it failed), and
    /// returns the outcome where this ends the race.
    pub fn report(&mut self, source: Source, payload: Option<Bytes>) -> (r: Option<Outcome>)
        ensures
            (final(self)@, opt_outcome_view(r)) == report_step(old(self)@, source, opt_bytes_view(payload)),
    {
        let is_pending = match source {
            Source::Disk => self.disk_pending,
            Source::Network => self.network_pending,
        };
        if self.settled || !is_pending {
            return None;
        }
        match source {
            Source::Disk => self.disk_pending = false,
            Source::Network => self.network_pending = false,
        }
        match payload {
            Some(p) => {
                self.settled = true;
                Some(Outcome::Resolved { source, payload: p })
            },
            None => {
                if !self.disk_pending && !self.network_pending {
                    self.settled = true;
                    Some(Outcome::Failed)
                } else {
                    None
                }
            },
        }
    }
}

} // verus!
