//! The bootstrap sequencer: drives the fixed attach order, fail-fast.

use vstd::prelude::*;
use crate::plugin::{
    PluginKind, plugin_order, plugin_count, plugin_at, lemma_order_no_repeats,
    lemma_logging_iff_debug,
};

verus! {

/// Why bootstrap stopped: the plugin whose attach call failed, and the
/// message that the attach call reported.
#[derive(Debug, Clone, PartialEq, Eq)]
pub struct InitError {
    /// The plugin whose attach call failed.
    pub plugin: PluginKind,
    /// The message reported by the failed attach call.
    pub cause: String,
}

/// Tracks one run of the bootstrap sequence: which plugins have been
/// attached so far, in order, and whether an attach call has failed.
///
/// The caller asks [`Sequencer::next_plugin`] which plugin to attach,
/// performs the attach call, and reports the outcome with
/// [`Sequencer::record_success`] or [`Sequencer::record_failure`].
/// A sequencer is single-use: once the schedule is exhausted or a
/// failure is recorded, no further outcome can be recorded.
pub struct Sequencer {
    /// Whether the debug configuration is active, fixed at construction.
    pub debug_enabled: bool,
    /// The plugins attached so far, a prefix of the fixed order.
    pub attached: Vec<PluginKind>,
    /// The failure that ended the run, if one has been recorded.
    pub failure: Option<InitError>,
}

impl Sequencer {
    /// The full attach order this run follows.
    pub open spec fn schedule(self) -> Seq<PluginKind> {
        plugin_order(self.debug_enabled)
    }

    /// Well-formedness: the attached plugins are a prefix of the
    /// schedule, and a recorded failure names the plugin that was next.
    pub open spec fn wf(self) -> bool {
        &&& self.attached@.len() <= self.schedule().len()
        &&& self.attached@ == self.schedule().take(self.attached@.len() as int)
        &&& (self.failure matches Some(e) ==> {
            &&& self.attached@.len() < self.schedule().len()
            &&& e.plugin == self.schedule()[self.attached@.len() as int]
        })
    }

    /// Still running: no failure yet and plugins remain to attach.
    pub open spec fn is_pending(self) -> bool {
        self.failure is None && self.attached@.len() < self.schedule().len()
    }

    /// Every plugin of the schedule was attached.
    pub open spec fn is_complete(self) -> bool {
        self.failure is None && self.attached@.len() == self.schedule().len()
    }

    /// An attach call failed and the run stopped.
    pub open spec fn has_failed(self) -> bool {
        self.failure is Some
    }

    /// Start a run of the bootstrap sequence.
    pub fn new(debug_enabled: bool) -> (s: Sequencer)
        ensures
            s.wf(),
            s.debug_enabled == debug_enabled,
            s.attached@ == Seq::<PluginKind>::empty(),
            s.failure is None,
    {
        let s = Sequencer { debug_enabled, attached: Vec::new(), failure: None };
        proof {
            assert(s.attached@ =~= s.schedule().take(0));
        }
        s
    }

    /// The plugin to attach next, or nothing when the run is over.
    pub fn next_plugin(&self) -> (r: Option<PluginKind>)
        requires
            self.wf(),
        ensures
            r is Some <==> self.is_pending(),
            self.is_pending() ==> r == Some(self.schedule()[self.attached@.len() as int]),
    {
        if self.failure.is_some() {
            None
        } else {
            let n = plugin_count(self.debug_enabled);
            if self.attached.len() < n {
                Some(plugin_at(self.debug_enabled, self.attached.len()))
            } else {
                None
            }
        }
    }

    /// Record that the pending plugin's attach call succeeded.
    pub fn record_success(&mut self)
        requires
            old(self).wf(),
            old(self).is_pending(),
        ensures
            final(self).wf(),
            final(self).debug_enabled == old(self).debug_enabled,
            final(self).failure is None,
            final(self).attached@ == old(self).attached@.push(
                old(self).schedule()[old(self).attached@.len() as int],
            ),
    {
        let k = plugin_at(self.debug_enabled, self.attached.len());
        self.attached.push(k);
        proof {
            let l = old(self).attached@.len() as int;
            assert(self.schedule().take(l + 1) =~= self.schedule().take(l).push(
                self.schedule()[l],
            ));
        }
    }

    /// Record that the pending plugin's attach call failed, with the
    /// message it reported; the run stops here.
    pub fn record_failure(&mut self, cause: String)
        requires
            old(self).wf(),
            old(self).is_pending(),
        ensures
            final(self).wf(),
            final(self).has_failed(),
            final(self).debug_enabled == old(self).debug_enabled,
            final(self).attached@ == old(self).attached@,
            final(self).failure == Some(
                InitError {
                    plugin: old(self).schedule()[old(self).attached@.len() as int],
                    cause: cause,
                },
            ),
    {
        let k = plugin_at(self.debug_enabled, self.attached.len());
        self.failure = Some(InitError { plugin: k, cause });
    }

    /// Whether the run is still waiting for an attach outcome.
    pub fn pending(&self) -> (r: bool)
        requires
            self.wf(),
        ensures
            r == self.is_pending(),
    {
        match self.next_plugin() {
            Some(_) => true,
            None => false,
        }
    }

    /// Whether an attach call failed and stopped the run.
    pub fn failed(&self) -> (r: bool)
        ensures
            r == self.has_failed(),
    {
        self.failure.is_some()
    }

    /// The plugins attached so far, in attach order.
    pub fn attached_list(&self) -> (r: &Vec<PluginKind>)
        ensures
            r@ == self.attached@,
    {
        &self.attached
    }

    /// Finish the run: the attached plugins on success, the failure
    /// otherwise.
    pub fn into_outcome(self) -> (r: Result<Vec<PluginKind>, InitError>)
        requires
            self.wf(),
            !self.is_pending(),
        ensures
            r is Ok <==> self.is_complete(),
            self.is_complete() ==> (r matches Ok(v) && v@ == self.schedule()),
            self.has_failed() ==> Some(r->Err_0) == self.failure,
    {
        proof {
            if self.failure is None {
                assert(self.schedule().take(self.schedule().len() as int) =~= self.schedule());
            }
        }
        let Sequencer { attached, failure, .. } = self;
        match failure {
            Some(e) => Err(e),
            None => Ok(attached),
        }
    }
}

/// Result of a full bootstrap run: which plugins were attached, in
/// order, and the overall outcome.
pub struct InitReport {
    /// The plugins attached before the run ended, in attach order.
    pub attached: Vec<PluginKind>,
    /// Success, or the failure that aborted the sequence.
    pub outcome: Result<(), InitError>,
}

/// The position of the first failing attach outcome, or the number of
/// outcomes when every attach succeeds.
pub open spec fn first_failure(outcomes: Seq<Result<(), String>>) -> int
    decreases outcomes.len(),
{
    if outcomes.len() == 0 {
        0
    } else if outcomes[0] is Err {
        0
    } else {
        1 + first_failure(outcomes.drop_first())
    }
}

/// The plugins a bootstrap run attaches, given the attach outcomes:
/// the prefix of the fixed order up to the first failure.
pub open spec fn attached_plugins(debug_enabled: bool, outcomes: Seq<Result<(), String>>) -> Seq<
    PluginKind,
> {
    plugin_order(debug_enabled).take(first_failure(outcomes))
}

/// Everything before the first failure succeeds, and the first failure,
/// when there is one, is indeed a failure.
pub proof fn lemma_first_failure_bounds(outcomes: Seq<Result<(), String>>)
    ensures
        0 <= first_failure(outcomes) <= outcomes.len(),
        forall|i: int| 0 <= i < first_failure(outcomes) ==> outcomes[i] is Ok,
        first_failure(outcomes) < outcomes.len() ==> outcomes[first_failure(outcomes)] is Err,
    decreases outcomes.len(),
{
    if outcomes.len() > 0 && outcomes[0] is Ok {
        lemma_first_failure_bounds(outcomes.drop_first());
        assert forall|i: int| 0 <= i < first_failure(outcomes) implies outcomes[i] is Ok by {
            if i > 0 {
                assert(outcomes.drop_first()[i - 1] is Ok);
            }
        }
    }
}

/// `first_failure` is the unique position with failing outcome and
/// succeeding predecessors.
pub proof fn lemma_first_failure_is(outcomes: Seq<Result<(), String>>, j: int)
    requires
        0 <= j <= outcomes.len(),
        forall|i: int| 0 <= i < j ==> outcomes[i] is Ok,
        j < outcomes.len() ==> outcomes[j] is Err,
    ensures
        first_failure(outcomes) == j,
    decreases j,
{
    if j == 0 {
    } else {
        assert(outcomes[0] is Ok);
        let rest = outcomes.drop_first();
        assert forall|i: int| 0 <= i < j - 1 implies rest[i] is Ok by {
            assert(outcomes[i + 1] is Ok);
        }
        if j - 1 < rest.len() {
            assert(rest[j - 1] == outcomes[j]);
        }
        lemma_first_failure_is(rest, j - 1);
    }
}

/// Drive the whole bootstrap sequence against the given attach
/// outcomes, one per plugin of the fixed order: attach the plugins in
/// order, stop at the first failing outcome, and report which plugins
/// were attached together with the overall result.
pub fn initialize(debug_enabled: bool, outcomes: &Vec<Result<(), String>>) -> (r: InitReport)
    requires
        outcomes@.len() == plugin_order(debug_enabled).len(),
    ensures
        r.attached@ == attached_plugins(debug_enabled, outcomes@),
        r.outcome is Ok <==> first_failure(outcomes@) == outcomes@.len(),
        r.outcome matches Err(e) ==> {
            &&& e.plugin == plugin_order(debug_enabled)[first_failure(outcomes@)]
            &&& e.cause@ == outcomes@[first_failure(outcomes@)]->Err_0@
        },
{
    let mut seqr = Sequencer::new(debug_enabled);
    let n = plugin_count(debug_enabled);
    let mut j: usize = 0;
    while j < n
        invariant
            seqr.wf(),
            seqr.debug_enabled == debug_enabled,
            seqr.failure is None,
            j == seqr.attached@.len(),
            j <= n,
            n == plugin_order(debug_enabled).len(),
            outcomes@.len() == n,
            seqr.attached@ == plugin_order(debug_enabled).take(j as int),
            forall|i: int| 0 <= i < j ==> outcomes@[i] is Ok,
        decreases n - j,
    {
        match &outcomes[j] {
            Ok(_) => {
                seqr.record_success();
                proof {
                    let l = j as int;
                    assert(plugin_order(debug_enabled).take(l + 1) =~= plugin_order(
                        debug_enabled,
                    ).take(l).push(plugin_order(debug_enabled)[l]));
                }
                j = j + 1;
            },
            Err(m) => {
                proof {
                    lemma_first_failure_is(outcomes@, j as int);
                }
                seqr.record_failure(m.clone());
                let Sequencer { attached, failure, .. } = seqr;
                let e = failure.unwrap();
                return InitReport { attached, outcome: Err(e) };
            },
        }
    }
    proof {
        lemma_first_failure_is(outcomes@, n as int);
        assert(plugin_order(debug_enabled).take(n as int) =~= plugin_order(debug_enabled));
    }
    InitReport { attached: seqr.attached, outcome: Ok(()) }
}

/// When every attach outcome is a success, bootstrap succeeds, attaches
/// exactly the plugins of the fixed order, attaches no plugin twice,
/// and attaches logging precisely when the debug flag is set.
pub proof fn lemma_all_success(debug_enabled: bool, outcomes: Seq<Result<(), String>>)
    requires
        outcomes.len() == plugin_order(debug_enabled).len(),
        forall|i: int| 0 <= i < outcomes.len() ==> outcomes[i] is Ok,
    ensures
        first_failure(outcomes) == outcomes.len(),
        attached_plugins(debug_enabled, outcomes) == plugin_order(debug_enabled),
        forall|i: int, j: int|
            0 <= i < j < attached_plugins(debug_enabled, outcomes).len() ==> attached_plugins(
                debug_enabled,
                outcomes,
            )[i] != attached_plugins(debug_enabled, outcomes)[j],
        attached_plugins(debug_enabled, outcomes).contains(PluginKind::Logging) <==> debug_enabled,
{
    lemma_first_failure_is(outcomes, outcomes.len() as int);
    assert(plugin_order(debug_enabled).take(outcomes.len() as int) =~= plugin_order(debug_enabled));
    lemma_order_no_repeats(debug_enabled);
    lemma_logging_iff_debug(debug_enabled);
}

/// When the attach outcome at one position fails and every earlier one
/// succeeds, bootstrap attaches exactly the plugins before that
/// position, the failure names the plugin at that position, and no
/// later plugin is ever attached.
pub proof fn lemma_failure_stops_sequence(
    debug_enabled: bool,
    outcomes: Seq<Result<(), String>>,
    j: int,
)
    requires
        outcomes.len() == plugin_order(debug_enabled).len(),
        0 <= j < outcomes.len(),
        outcomes[j] is Err,
        forall|i: int| 0 <= i < j ==> outcomes[i] is Ok,
    ensures
        first_failure(outcomes) == j,
        attached_plugins(debug_enabled, outcomes) == plugin_order(debug_enabled).take(j),
        forall|i: int|
            j <= i < plugin_order(debug_enabled).len() ==> !attached_plugins(
                debug_enabled,
                outcomes,
            ).contains(plugin_order(debug_enabled)[i]),
{
    lemma_first_failure_is(outcomes, j);
    lemma_order_no_repeats(debug_enabled);
    let order = plugin_order(debug_enabled);
    assert forall|i: int| j <= i < order.len() implies !order.take(j).contains(order[i]) by {
        if order.take(j).contains(order[i]) {
            let k = choose|k: int| 0 <= k < j && order.take(j)[k] == order[i];
            assert(order[k] == order[i]);
            assert(k < i);
        }
    }
}

/// When the debug flag is clear, the logging plugin is not part of the
/// schedule and is never attached, whatever the attach outcomes are.
pub proof fn lemma_release_never_logs(outcomes: Seq<Result<(), String>>)
    requires
        outcomes.len() == plugin_order(false).len(),
    ensures
        !plugin_order(false).contains(PluginKind::Logging),
        !attached_plugins(false, outcomes).contains(PluginKind::Logging),
{
    lemma_logging_iff_debug(false);
    lemma_first_failure_bounds(outcomes);
    let order = plugin_order(false);
    let attached = attached_plugins(false, outcomes);
    if attached.contains(PluginKind::Logging) {
        let k = choose|k: int|
            0 <= k < attached.len() && attached[k] == PluginKind::Logging;
        assert(order[k] == PluginKind::Logging);
        assert(order.contains(PluginKind::Logging));
    }
}

} // verus!
