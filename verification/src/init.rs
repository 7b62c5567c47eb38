//! Start-up and shutdown: whether telemetry is exported, and the order in
//! which the backends are flushed when the process ends.

use vstd::prelude::*;
use vstd::string::*;

verus! {

/// The lower-case form of a text, as `str::to_lowercase` gives it.
pub uninterp spec fn lowercase(text: Seq<char>) -> Seq<char>;

/// `str::to_lowercase`: the lower-case form of `text`. It goes by the
/// Unicode tables alone, so the same text always gives the same result.
#[verifier::external_body]
fn to_lowercase(text: &str) -> (lower: String)
    ensures
        lower@ == lowercase(text@),
{
    text.to_lowercase()
}

/// The text `false`, the one setting that switches the export off.
pub open spec fn off_text() -> Seq<char> {
    seq!['f', 'a', 'l', 's', 'e']
}

/// Whether a setting, already in lower case, leaves the export on: it does
/// unless it is exactly `false`. No setting leaves it on.
pub open spec fn export_on(lowered: Option<Seq<char>>) -> bool {
    match lowered {
        Some(text) => text != off_text(),
        None => true,
    }
}

/// Decides from a setting in lower case whether telemetry is exported.
pub fn export_flag(lowered: Option<&str>) -> (enabled: bool)
    ensures
        enabled == export_on(
            match lowered {
                Some(text) => Some(text@),
                None => None,
            },
        ),
{
    match lowered {
        Some(text) => {
            proof {
                reveal_strlit("false");
            }
            let off = String::from_str("false");
            assert(off@ =~= off_text());
            let given = String::from_str(text);
            !(given == off)
        },
        None => true,
    }
}

/// Decides from the export setting, as the environment gives it, whether
/// telemetry is exported over the network: always, unless the setting is
/// `false` in any mix of upper and lower case.
pub fn export_enabled(setting: Option<&str>) -> (enabled: bool)
    ensures
        enabled == export_on(
            match setting {
                Some(text) => Some(lowercase(text@)),
                None => None,
            },
        ),
{
    match setting {
        Some(text) => {
            let lowered = to_lowercase(text);
            export_flag(Some(lowered.as_str()))
        },
        None => export_flag(None),
    }
}

/// One of the three telemetry backends.
#[derive(Clone, Copy, Debug, PartialEq, Eq, Structural)]
pub enum Backend {
    Logs,
    Metrics,
    Traces,
}

/// The order in which the backends are flushed at shutdown.
pub open spec fn flush_order() -> Seq<Backend> {
    seq![Backend::Logs, Backend::Metrics, Backend::Traces]
}

/// What the handle is, as a plain value.
pub struct OtexView {
    /// Whether telemetry goes to the network exporter.
    pub export_enabled: bool,
    /// How many backends shutdown has handed out so far.
    pub handed_out: nat,
    /// The backend handed out last, while its outcome is still awaited.
    pub pending: Option<Backend>,
    /// The backends whose flush was reported as failed, in order.
    pub failed: Seq<Backend>,
}

impl OtexView {
    /// The handle as `init` makes it.
    pub open spec fn fresh(export_enabled: bool) -> OtexView {
        OtexView { export_enabled, handed_out: 0, pending: None, failed: Seq::empty() }
    }

    /// The backend that the next step of shutdown hands out: the next in the
    /// flush order, whatever became of those before it, and none once all
    /// three were handed out.
    pub open spec fn next_action(self) -> Option<Backend> {
        if self.handed_out < 3 {
            Some(flush_order()[self.handed_out as int])
        } else {
            None
        }
    }

    /// The failures after `outcome` was reported for the pending backend. A
    /// failure is noted; it stops nothing.
    pub open spec fn failed_after(self, outcome: Option<bool>) -> Seq<Backend> {
        if self.pending is Some && outcome == Some(false) {
            self.failed.push(self.pending->0)
        } else {
            self.failed
        }
    }

    /// The handle after one step of shutdown that was told `outcome`.
    pub open spec fn step(self, outcome: Option<bool>) -> OtexView {
        OtexView {
            export_enabled: self.export_enabled,
            handed_out: if self.handed_out < 3 {
                self.handed_out + 1
            } else {
                self.handed_out
            },
            pending: self.next_action(),
            failed: self.failed_after(outcome),
        }
    }

    /// Whether shutdown has run to its end: every backend was handed out and
    /// answered.
    pub open spec fn is_shut_down(self) -> bool {
        self.handed_out >= 3 && self.pending is None
    }
}

/// The handle that `init` returns. It knows whether telemetry is exported and
/// leads the caller through shutdown.
#[derive(Debug)]
pub struct Otex {
    export_enabled: bool,
    handed_out: u8,
    pending: Option<Backend>,
    failed: Vec<Backend>,
}

impl View for Otex {
    type V = OtexView;

    closed spec fn view(&self) -> OtexView {
        OtexView {
            export_enabled: self.export_enabled,
            handed_out: self.handed_out as nat,
            pending: self.pending,
            failed: self.failed@,
        }
    }
}

impl Otex {
    pub fn export_enabled(&self) -> (enabled: bool)
        ensures
            enabled == self@.export_enabled,
    {
        self.export_enabled
    }

    /// The backends whose flush failed, in the order in which that was
    /// reported.
    pub fn failed(&self) -> (failed: &[Backend])
        ensures
            failed@ == self@.failed,
    {
        self.failed.as_slice()
    }

    /// Whether shutdown has run to its end.
    pub fn is_shut_down(&self) -> (done: bool)
        ensures
            done == self@.is_shut_down(),
    {
        self.handed_out >= 3 && self.pending.is_none()
    }

    /// One step of shutdown. `outcome` says how the flush of the backend that
    /// the step before handed out went (`None` on the first step). The result
    /// is the backend to flush next: logs, then metrics, then traces, each
    /// exactly once and whatever the outcomes were; then `None`. Once the
    /// end is reached a further call changes nothing and returns `None`.
    pub fn shutdown(&mut self, outcome: Option<bool>) -> (action: Option<Backend>)
        ensures
            final(self)@ == old(self)@.step(outcome),
            action == old(self)@.next_action(),
    {
        match (self.pending, outcome) {
            (Some(backend), Some(false)) => {
                self.failed.push(backend);
            },
            _ => {},
        }
        let action = if self.handed_out == 0 {
            Some(Backend::Logs)
        } else if self.handed_out == 1 {
            Some(Backend::Metrics)
        } else if self.handed_out == 2 {
            Some(Backend::Traces)
        } else {
            None
        };
        if self.handed_out < 3 {
            self.handed_out = self.handed_out + 1;
        }
        self.pending = action;
        action
    }
}

/// Starts telemetry: decides from the export setting whether telemetry is
/// exported, and returns the handle, with nothing flushed yet.
pub fn init(export_setting: Option<&str>) -> (otex: Otex)
    ensures
        otex@ == OtexView::fresh(
            export_on(
                match export_setting {
                    Some(text) => Some(lowercase(text@)),
                    None => None,
                },
            ),
        ),
{
    Otex {
        export_enabled: export_enabled(export_setting),
        handed_out: 0,
        pending: None,
        failed: Vec::new(),
    }
}

/// Shutdown asks for every flush: from a fresh handle the steps hand out
/// logs, then metrics, then traces, whatever the outcomes reported in between
/// are, and after the answer to the last one the handle is shut down.
pub proof fn lemma_shutdown_asks_every_backend(
    export_enabled: bool,
    logs: Option<bool>,
    metrics: Option<bool>,
    traces: Option<bool>,
)
    ensures
        ({
            let start = OtexView::fresh(export_enabled);
            let first = start.step(None);
            let second = first.step(logs);
            let third = second.step(metrics);
            let last = third.step(traces);
            &&& start.next_action() == Some(Backend::Logs)
            &&& first.next_action() == Some(Backend::Metrics)
            &&& second.next_action() == Some(Backend::Traces)
            &&& third.next_action() == None::<Backend>
            &&& last.is_shut_down()
        }),
{
}

/// Shutdown twice: on a handle that is shut down a further step hands out
/// nothing and changes nothing, whatever it is told.
pub proof fn lemma_shutdown_again_changes_nothing(handle: OtexView, outcome: Option<bool>)
    requires
        handle.is_shut_down(),
    ensures
        handle.next_action() == None::<Backend>,
        handle.step(outcome) == handle,
{
}

} // verus!
