use vstd::prelude::*;

use crate::errors::SorterError;
use crate::events::{EventExtractor, Projector};
use crate::trace::Trace;
use crate::views::DerivedViews;

verus! {

/// The interaction mode of the threshold state machine.
#[derive(Clone, Copy, Debug, PartialEq, Eq, Structural)]
pub enum Mode {
    /// Inspecting the trace; no threshold interaction.
    Viewing,
    /// A primary click on the trace sets the threshold.
    Setting,
    /// The threshold is locked and the derived views are populated.
    Locked,
}

/// One discrete input event, sampled once per frame by the rendering
/// layer and handed to the state machine.
#[derive(Clone, Copy, Debug, PartialEq, Eq, Structural)]
pub enum InputEvent {
    /// The key that toggles between viewing and setting.
    ToggleKey,
    /// The key that locks the current threshold.
    LockKey,
    /// The key that clears a locked threshold.
    ResetKey,
    /// A primary click at the given trace coordinates.
    PrimaryClick { time: i64, voltage: i64 },
}

/// What one toggle-key event does to the mode: viewing and setting
/// alternate, a locked machine ignores it.
pub open spec fn spec_toggle(m: Mode) -> Mode {
    match m {
        Mode::Viewing => Mode::Setting,
        Mode::Setting => Mode::Viewing,
        Mode::Locked => Mode::Locked,
    }
}

/// The mode reached from `m` after `n` toggle-key events.
pub open spec fn spec_mode_after_toggles(m: Mode, n: nat) -> Mode
    decreases n,
{
    if n == 0 {
        m
    } else {
        spec_toggle(spec_mode_after_toggles(m, (n - 1) as nat))
    }
}

/// Law: starting from `Viewing`, toggle-key events alternate the mode
/// between `Viewing` and `Setting` deterministically — an even number
/// of toggles ends in `Viewing`, an odd number in `Setting`.
pub proof fn lemma_toggle_alternation(n: nat)
    ensures
        spec_mode_after_toggles(Mode::Viewing, n) == if n % 2 == 0 {
            Mode::Viewing
        } else {
            Mode::Setting
        },
    decreases n,
{
    if n > 0 {
        lemma_toggle_alternation((n - 1) as nat);
    }
}

/// The threshold-interaction state machine, together with the derived
/// views it owns: the mode, the current threshold (a fixed-point
/// voltage), and the derived-view cache.
pub struct SpikeSorter {
    mode: Mode,
    threshold: Option<i64>,
    views: DerivedViews,
}

impl SpikeSorter {
    /// The current mode.
    pub closed spec fn spec_mode(&self) -> Mode {
        self.mode
    }

    /// The current threshold, absent until set by a click.
    pub closed spec fn spec_threshold(&self) -> Option<i64> {
        self.threshold
    }

    /// The derived-view cache.
    pub closed spec fn spec_views(&self) -> DerivedViews {
        self.views
    }

    /// The machine's invariant: a locked machine has a threshold and a
    /// populated, consistent cache; an unlocked one has an empty cache.
    pub open spec fn wf(&self) -> bool {
        &&& self.spec_views().wf()
        &&& self.spec_mode() is Locked ==> self.spec_threshold() is Some
        &&& self.spec_mode() is Locked ==> !self.spec_views().spec_is_empty()
        &&& !(self.spec_mode() is Locked) ==> self.spec_views().spec_is_empty()
    }

    /// A fresh machine: viewing, no threshold, empty cache.
    pub fn new() -> (r: SpikeSorter)
        ensures
            r.wf(),
            r.spec_mode() is Viewing,
            r.spec_threshold() is None,
            r.spec_views().spec_is_empty(),
    {
        SpikeSorter { mode: Mode::Viewing, threshold: None, views: DerivedViews::empty() }
    }

    /// The current mode.
    pub fn mode(&self) -> (r: Mode)
        ensures
            r == self.spec_mode(),
    {
        self.mode
    }

    /// The current threshold.
    pub fn threshold(&self) -> (r: Option<i64>)
        ensures
            r == self.spec_threshold(),
    {
        self.threshold
    }

    /// The derived-view cache, for the rendering layer to read.
    pub fn views(&self) -> (r: &DerivedViews)
        ensures
            *r == self.spec_views(),
    {
        &self.views
    }

    /// Processes one input event.
    ///
    /// - toggle-key: `Viewing` and `Setting` alternate; `Locked`
    ///   ignores it.
    /// - primary click: while `Setting`, the click's voltage becomes
    ///   the threshold; in any other mode the click is ignored.
    /// - lock-key: with no threshold set, or while already `Locked`, a
    ///   silent no-op. Otherwise the derived views are recomputed from
    ///   the trace and threshold; on success the machine moves to
    ///   `Locked` with the fresh cache, and on failure it is left
    ///   exactly as it was and the error is reported.
    /// - reset-key: while `Locked`, returns to `Viewing`, clears the
    ///   threshold and empties the cache; otherwise ignored.
    pub fn step<E: EventExtractor, P: Projector>(
        &mut self,
        trace: &Trace,
        event: &InputEvent,
        extractor: &E,
        projector: &P,
        window: usize,
        num_bins: usize,
    ) -> (r: Result<(), SorterError>)
        requires
            old(self).wf(),
            window >= 1,
        ensures
            final(self).wf(),
            event is ToggleKey ==> {
                &&& r is Ok
                &&& final(self).spec_mode() == spec_toggle(old(self).spec_mode())
                &&& final(self).spec_threshold() == old(self).spec_threshold()
                &&& final(self).spec_views() == old(self).spec_views()
            },
            event matches InputEvent::PrimaryClick { time, voltage } ==> (old(self).spec_mode()
                is Setting ==> {
                &&& r is Ok
                &&& final(self).spec_mode() == old(self).spec_mode()
                &&& final(self).spec_threshold() == Some(*voltage)
                &&& final(self).spec_views() == old(self).spec_views()
            }),
            event matches InputEvent::PrimaryClick { .. } && !(old(self).spec_mode() is Setting)
                ==> r is Ok && *final(self) == *old(self),
            event is ResetKey && old(self).spec_mode() is Locked ==> {
                &&& r is Ok
                &&& final(self).spec_mode() is Viewing
                &&& final(self).spec_threshold() is None
                &&& final(self).spec_views().spec_is_empty()
            },
            event is ResetKey && !(old(self).spec_mode() is Locked) ==> r is Ok && *final(self)
                == *old(self),
            event is LockKey && old(self).spec_threshold() is None ==> r is Ok && *final(self)
                == *old(self),
            event is LockKey && old(self).spec_mode() is Locked ==> r is Ok && *final(self)
                == *old(self),
            event is LockKey && !(old(self).spec_mode() is Locked) && old(self).spec_threshold()
                is Some ==> {
                &&& final(self).spec_threshold() == old(self).spec_threshold()
                &&& (r is Ok ==> {
                    &&& final(self).spec_mode() is Locked
                    &&& final(self).spec_views().wf()
                    &&& !final(self).spec_views().spec_is_empty()
                    &&& final(self).spec_views().spec_histogram() is Some
                    &&& final(self).spec_views().spec_spikes().len() >= 2
                    &&& final(self).spec_views().spec_features().len()
                        == final(self).spec_views().spec_spikes().len()
                    &&& forall|i: int|
                        0 <= i < final(self).spec_views().spec_features().len()
                            ==> #[trigger] final(self).spec_views().spec_features()[i]
                            == projector.spec_project(final(self).spec_views().spec_spikes()[i])
                })
                &&& (r matches Err(e) ==> *final(self) == *old(self) && (e
                    == SorterError::InvalidInput || e == SorterError::ExtractionFailure))
            },
    {
        match *event {
            InputEvent::ToggleKey => {
                match self.mode {
                    Mode::Viewing => {
                        self.mode = Mode::Setting;
                    },
                    Mode::Setting => {
                        self.mode = Mode::Viewing;
                    },
                    Mode::Locked => {},
                }
                Ok(())
            },
            InputEvent::PrimaryClick { time: _, voltage } => {
                match self.mode {
                    Mode::Setting => {
                        self.threshold = Some(voltage);
                    },
                    _ => {},
                }
                Ok(())
            },
            InputEvent::ResetKey => {
                match self.mode {
                    Mode::Locked => {
                        self.mode = Mode::Viewing;
                        self.threshold = None;
                        self.views = DerivedViews::empty();
                    },
                    _ => {},
                }
                Ok(())
            },
            InputEvent::LockKey => {
                match self.mode {
                    Mode::Locked => Ok(()),
                    _ => {
                        match self.threshold {
                            None => Ok(()),
                            Some(th) => {
                                match extractor.extract(trace, th, window) {
                                    Err(_) => Err(SorterError::ExtractionFailure),
                                    Ok(events) => {
                                        match DerivedViews::from_events(
                                            events,
                                            projector,
                                            num_bins,
                                        ) {
                                            Err(e) => Err(e),
                                            Ok(v) => {
                                                self.views = v;
                                                self.mode = Mode::Locked;
                                                Ok(())
                                            },
                                        }
                                    },
                                }
                            },
                        }
                    },
                }
            },
        }
    }
}

} // verus!
