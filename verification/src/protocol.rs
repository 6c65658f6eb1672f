//! The commit-then-confirm-then-register protocol as a state machine.
//!
//! One registration run walks: submit the name commitment, poll the node
//! until the commitment transaction confirms, submit the identity
//! registration.  The node is eventually consistent, so two transient
//! conditions are retried: a lookup that succeeds with no confirmations yet
//! (polled again after a coarse pause) and a lookup the node's wallet cannot
//! see yet (polled again after a fine pause, at most [`RETRY_CAP`] times).
//!
//! The machine itself performs no remote call and never sleeps.  The caller
//! performs whatever [`ProtocolAction`] the machine hands out, feeds the
//! outcome back in, and stops when told to; [`Orchestrator`] keeps the state
//! and the values collected along the way.

use vstd::prelude::*;

use crate::builder::Identity;
use crate::errors::ErrorKind;
use crate::errors::ErrorKindV;
use crate::errors::IdentityError;

verus! {

/// How often a lookup may find the commitment transaction not yet visible to
/// the node's wallet before the run fails with a timeout.
pub const RETRY_CAP: u32 = 20000;

/// The pause, in milliseconds, before polling again when the transaction is
/// known but not yet confirmed.
pub const COARSE_POLL_MILLIS: u64 = 3000;

/// The pause, in milliseconds, before polling again while the transaction is
/// not yet visible to the node's wallet.
pub const FINE_POLL_MILLIS: u64 = 100;

/// One outcome of asking the node about the commitment transaction.
#[derive(Debug, PartialEq, Eq)]
pub enum LookupOutcome {
    /// The lookup succeeded; the transaction has this many confirmations
    /// (zero or less means not confirmed yet).
    Info { confirmations: i32 },
    /// The lookup failed only because the transaction is not yet visible to
    /// the node's wallet; worth retrying shortly.
    NotYetVisible,
    /// The lookup failed for any other reason; the payload is the message.
    Failure(String),
}

/// The mathematical value of a [`LookupOutcome`].
pub enum LookupOutcomeV {
    Info { confirmations: i32 },
    NotYetVisible,
    Failure(Seq<char>),
}

impl View for LookupOutcome {
    type V = LookupOutcomeV;

    open spec fn view(&self) -> LookupOutcomeV {
        match self {
            LookupOutcome::Info { confirmations } => LookupOutcomeV::Info {
                confirmations: *confirmations,
            },
            LookupOutcome::NotYetVisible => LookupOutcomeV::NotYetVisible,
            LookupOutcome::Failure(m) => LookupOutcomeV::Failure(m@),
        }
    }
}

/// One event the protocol reacts to: the outcome of a remote call the caller
/// performed.
pub enum ProtocolEventV {
    /// `registernamecommitment` succeeded.
    CommitmentAccepted,
    /// `registernamecommitment` failed; the payload is the message.
    CommitmentRejected(Seq<char>),
    /// One confirmation lookup finished.
    Lookup(LookupOutcomeV),
    /// `registeridentity` succeeded.
    RegistrationAccepted,
    /// `registeridentity` failed; the payload is the message.
    RegistrationRejected(Seq<char>),
}

/// What the caller must do next.
#[derive(Debug, Clone, Copy, PartialEq, Eq, Structural)]
pub enum ProtocolAction {
    /// Call `registernamecommitment`.
    SubmitCommitment,
    /// Ask the node about the commitment transaction now.
    QueryConfirmation,
    /// Pause [`COARSE_POLL_MILLIS`], then ask again.
    SleepCoarseThenQuery,
    /// Pause [`FINE_POLL_MILLIS`], then ask again.
    SleepFineThenQuery,
    /// Call `registeridentity`.
    SubmitRegistration,
    /// The run reached a terminal state; stop.
    Stop,
}

/// Where a registration run stands.
pub enum ProtocolStateV {
    /// No commitment has been submitted yet.
    Init,
    /// The commitment is submitted; waiting for a confirmation.  `retries`
    /// counts the lookups that found the transaction not yet visible.
    AwaitingConfirmation { retries: u32 },
    /// The commitment transaction has at least one confirmation.
    CommitmentConfirmed,
    /// The identity registration was accepted: terminal success.
    Done,
    /// Terminal failure.
    Failed(ErrorKindV),
}

/// The call a run standing in this state is waiting on.
pub open spec fn pending_action(s: ProtocolStateV) -> ProtocolAction {
    match s {
        ProtocolStateV::Init => ProtocolAction::SubmitCommitment,
        ProtocolStateV::AwaitingConfirmation { .. } => ProtocolAction::QueryConfirmation,
        ProtocolStateV::CommitmentConfirmed => ProtocolAction::SubmitRegistration,
        ProtocolStateV::Done => ProtocolAction::Stop,
        ProtocolStateV::Failed(..) => ProtocolAction::Stop,
    }
}

/// One transition: the state an event moves the run to, and what the caller
/// must do next.  An event that does not belong to the state changes nothing;
/// the action then merely repeats what the state was already waiting on.
pub open spec fn spec_advance(s: ProtocolStateV, e: ProtocolEventV) -> (ProtocolStateV,
    ProtocolAction,
) {
    match (s, e) {
        (ProtocolStateV::Init, ProtocolEventV::CommitmentAccepted) => (
            ProtocolStateV::AwaitingConfirmation { retries: 0 },
            ProtocolAction::QueryConfirmation,
        ),
        (ProtocolStateV::Init, ProtocolEventV::CommitmentRejected(m)) => (
            ProtocolStateV::Failed(ErrorKindV::VrscRpcError(m)),
            ProtocolAction::Stop,
        ),
        (ProtocolStateV::AwaitingConfirmation { retries }, ProtocolEventV::Lookup(o)) => match o {
            LookupOutcomeV::Info { confirmations } => if confirmations > 0 {
                (ProtocolStateV::CommitmentConfirmed, ProtocolAction::SubmitRegistration)
            } else {
                (s, ProtocolAction::SleepCoarseThenQuery)
            },
            LookupOutcomeV::NotYetVisible => if retries >= RETRY_CAP {
                (ProtocolStateV::Failed(ErrorKindV::Timeout), ProtocolAction::Stop)
            } else {
                (
                    ProtocolStateV::AwaitingConfirmation { retries: (retries + 1) as u32 },
                    ProtocolAction::SleepFineThenQuery,
                )
            },
            LookupOutcomeV::Failure(m) => (
                ProtocolStateV::Failed(ErrorKindV::VrscRpcError(m)),
                ProtocolAction::Stop,
            ),
        },
        (ProtocolStateV::CommitmentConfirmed, ProtocolEventV::RegistrationAccepted) => (
            ProtocolStateV::Done,
            ProtocolAction::Stop,
        ),
        (ProtocolStateV::CommitmentConfirmed, ProtocolEventV::RegistrationRejected(m)) => (
            ProtocolStateV::Failed(ErrorKindV::VrscRpcError(m)),
            ProtocolAction::Stop,
        ),
        _ => (s, pending_action(s)),
    }
}

/// The state a run reaches from `s` after reacting to `events`, in order.
pub open spec fn run_from(s: ProtocolStateV, events: Seq<ProtocolEventV>) -> ProtocolStateV
    decreases events.len(),
{
    if events.len() == 0 {
        s
    } else {
        run_from(spec_advance(s, events[0]).0, events.drop_first())
    }
}

/// How often a run from `s` through `events` asks the caller to submit the
/// identity registration.
pub open spec fn registration_submissions(s: ProtocolStateV, events: Seq<ProtocolEventV>) -> nat
    decreases events.len(),
{
    if events.len() == 0 {
        0
    } else {
        (if spec_advance(s, events[0]).1 == ProtocolAction::SubmitRegistration {
            1nat
        } else {
            0nat
        }) + registration_submissions(spec_advance(s, events[0]).0, events.drop_first())
    }
}

/// Reacting to one event sequence and then another is reacting to their
/// concatenation, and the registration requests add up.
pub proof fn lemma_run_concat(s: ProtocolStateV, a: Seq<ProtocolEventV>, b: Seq<ProtocolEventV>)
    ensures
        run_from(s, a + b) == run_from(run_from(s, a), b),
        registration_submissions(s, a + b) == registration_submissions(s, a)
            + registration_submissions(run_from(s, a), b),
    decreases a.len(),
{
    if a.len() == 0 {
        assert(a + b =~= b);
    } else {
        assert((a + b)[0] == a[0]);
        assert((a + b).drop_first() =~= a.drop_first() + b);
        lemma_run_concat(spec_advance(s, a[0]).0, a.drop_first(), b);
    }
}

/// A run that reached a terminal state stays there, whatever else comes in,
/// and never asks for the registration again.
pub proof fn lemma_terminal_absorbs(s: ProtocolStateV, events: Seq<ProtocolEventV>)
    requires
        s is Done || s is Failed,
    ensures
        run_from(s, events) == s,
        registration_submissions(s, events) == 0,
    decreases events.len(),
{
    if events.len() > 0 {
        lemma_terminal_absorbs(s, events.drop_first());
    }
}

/// A node that keeps answering "no confirmations yet" never moves the run
/// forward: it waits, with the retry budget untouched, for as long as the
/// caller keeps polling, and the registration is never requested.  Only the
/// caller's own cancellation ends such a run, as the timeout error.
pub proof fn lemma_unconfirmed_waits_forever(retries: u32, events: Seq<ProtocolEventV>)
    requires
        forall|i: int|
            0 <= i < events.len() ==> ((#[trigger] events[i]) matches ProtocolEventV::Lookup(
                LookupOutcomeV::Info { confirmations },
            ) && confirmations <= 0),
    ensures
        run_from((ProtocolStateV::AwaitingConfirmation { retries }), events) == (
        ProtocolStateV::AwaitingConfirmation { retries }),
        registration_submissions((ProtocolStateV::AwaitingConfirmation { retries }), events) == 0,
    decreases events.len(),
{
    if events.len() > 0 {
        assert(events[0] matches ProtocolEventV::Lookup(LookupOutcomeV::Info { confirmations })
            && confirmations <= 0);
        assert forall|i: int|
            0 <= i < events.drop_first().len() implies ((#[trigger] events.drop_first()[i])
            matches ProtocolEventV::Lookup(LookupOutcomeV::Info { confirmations })
            && confirmations <= 0) by {
            assert(events.drop_first()[i] == events[i + 1]);
        }
        lemma_unconfirmed_waits_forever(retries, events.drop_first());
    }
}

/// Each lookup that finds the commitment not yet visible spends one retry;
/// within the budget the run just keeps waiting, and the registration is
/// never requested.
pub proof fn lemma_transients_accumulate(r0: u32, events: Seq<ProtocolEventV>)
    requires
        forall|i: int|
            0 <= i < events.len() ==> events[i] == ProtocolEventV::Lookup(
                LookupOutcomeV::NotYetVisible,
            ),
        r0 + events.len() <= RETRY_CAP,
    ensures
        run_from((ProtocolStateV::AwaitingConfirmation { retries: r0 }), events) == (
        ProtocolStateV::AwaitingConfirmation { retries: (r0 + events.len()) as u32 }),
        registration_submissions((ProtocolStateV::AwaitingConfirmation { retries: r0 }), events)
            == 0,
    decreases events.len(),
{
    if events.len() > 0 {
        assert(events[0] == ProtocolEventV::Lookup(LookupOutcomeV::NotYetVisible));
        assert forall|i: int|
            0 <= i < events.drop_first().len() implies events.drop_first()[i]
            == ProtocolEventV::Lookup(LookupOutcomeV::NotYetVisible) by {
            assert(events.drop_first()[i] == events[i + 1]);
        }
        lemma_transients_accumulate((r0 + 1) as u32, events.drop_first());
    }
}

/// A commitment that stays invisible for `n` lookups within the retry budget
/// and then reports a confirmation ends the wait confirmed, with the
/// registration requested exactly once, after exactly those `n + 1` lookups.
pub proof fn lemma_transients_then_confirmed(events: Seq<ProtocolEventV>, n: int, c: i32)
    requires
        0 <= n <= RETRY_CAP,
        events.len() == n + 1,
        forall|i: int|
            0 <= i < n ==> events[i] == ProtocolEventV::Lookup(LookupOutcomeV::NotYetVisible),
        events[n] == ProtocolEventV::Lookup(LookupOutcomeV::Info { confirmations: c }),
        c > 0,
    ensures
        run_from((ProtocolStateV::AwaitingConfirmation { retries: 0 }), events)
            == ProtocolStateV::CommitmentConfirmed,
        registration_submissions((ProtocolStateV::AwaitingConfirmation { retries: 0 }), events)
            == 1,
{
    let head = events.take(n);
    let tail = events.skip(n);
    assert(events =~= head + tail);
    assert forall|i: int|
        0 <= i < head.len() implies head[i] == ProtocolEventV::Lookup(
        LookupOutcomeV::NotYetVisible,
    ) by {
        assert(head[i] == events[i]);
    }
    lemma_transients_accumulate(0, head);
    let s0 = ProtocolStateV::AwaitingConfirmation { retries: 0 };
    let s1 = ProtocolStateV::AwaitingConfirmation { retries: n as u32 };
    assert(run_from(s0, head) == s1);
    assert(tail[0] == events[n]);
    let step = spec_advance(s1, tail[0]);
    assert(step.0 == ProtocolStateV::CommitmentConfirmed);
    assert(step.1 == ProtocolAction::SubmitRegistration);
    assert(tail.drop_first() =~= Seq::<ProtocolEventV>::empty());
    assert(run_from(step.0, tail.drop_first()) == step.0);
    assert(tail.len() == 1);
    assert(run_from(s1, tail) == ProtocolStateV::CommitmentConfirmed);
    assert(registration_submissions(step.0, tail.drop_first()) == 0);
    assert(registration_submissions(s1, tail) == 1);
    lemma_run_concat(s0, head, tail);
    assert(run_from(s0, events) == run_from(s0, head + tail));
    assert(registration_submissions(s0, events) == registration_submissions(s0, head + tail));
}

/// A commitment that stays invisible past the retry budget times the run
/// out: once more than `RETRY_CAP` lookups have failed that way, the run is
/// failed with the distinct timeout error and the registration was never
/// requested.
pub proof fn lemma_transient_flood_times_out(events: Seq<ProtocolEventV>)
    requires
        forall|i: int|
            0 <= i < events.len() ==> events[i] == ProtocolEventV::Lookup(
                LookupOutcomeV::NotYetVisible,
            ),
        events.len() > RETRY_CAP,
    ensures
        run_from((ProtocolStateV::AwaitingConfirmation { retries: 0 }), events)
            == ProtocolStateV::Failed(ErrorKindV::Timeout),
        registration_submissions((ProtocolStateV::AwaitingConfirmation { retries: 0 }), events)
            == 0,
{
    let cap = RETRY_CAP as int;
    let head = events.take(cap);
    let rest = events.skip(cap);
    assert(events =~= head + rest);
    assert forall|i: int|
        0 <= i < head.len() implies head[i] == ProtocolEventV::Lookup(
        LookupOutcomeV::NotYetVisible,
    ) by {
        assert(head[i] == events[i]);
    }
    lemma_transients_accumulate(0, head);
    assert(rest[0] == events[cap]);
    assert forall|i: int|
        0 <= i < rest.drop_first().len() implies rest.drop_first()[i] == ProtocolEventV::Lookup(
        LookupOutcomeV::NotYetVisible,
    ) by {
        assert(rest.drop_first()[i] == events[cap + i + 1]);
    }
    lemma_terminal_absorbs(ProtocolStateV::Failed(ErrorKindV::Timeout), rest.drop_first());
    lemma_run_concat(ProtocolStateV::AwaitingConfirmation { retries: 0 }, head, rest);
}

/// The full happy path: the commitment is accepted, `n` lookups find it not
/// yet visible, the next finds it confirmed, and the registration is
/// accepted.  The run ends done, having requested the registration exactly
/// once.
pub proof fn lemma_full_run_succeeds(events: Seq<ProtocolEventV>, n: int, c: i32)
    requires
        0 <= n <= RETRY_CAP,
        events.len() == n + 3,
        events[0] == ProtocolEventV::CommitmentAccepted,
        forall|i: int|
            1 <= i <= n ==> events[i] == ProtocolEventV::Lookup(LookupOutcomeV::NotYetVisible),
        events[n + 1] == ProtocolEventV::Lookup(LookupOutcomeV::Info { confirmations: c }),
        c > 0,
        events[n + 2] == ProtocolEventV::RegistrationAccepted,
    ensures
        run_from(ProtocolStateV::Init, events) == ProtocolStateV::Done,
        registration_submissions(ProtocolStateV::Init, events) == 1,
{
    let first = events.take(1);
    let lookups = events.subrange(1, n + 2);
    let last = events.skip(n + 2);
    assert(events =~= first + (lookups + last));
    assert(first[0] == events[0]);
    assert(first.drop_first() =~= Seq::<ProtocolEventV>::empty());
    assert forall|i: int|
        0 <= i < n implies lookups[i] == ProtocolEventV::Lookup(LookupOutcomeV::NotYetVisible) by {
        assert(lookups[i] == events[i + 1]);
    }
    assert(lookups[n] == events[n + 1]);
    lemma_transients_then_confirmed(lookups, n, c);
    let s0 = ProtocolStateV::Init;
    let s1 = ProtocolStateV::AwaitingConfirmation { retries: 0 };
    let step0 = spec_advance(s0, first[0]);
    assert(step0.0 == s1);
    assert(step0.1 == ProtocolAction::QueryConfirmation);
    assert(first.len() == 1);
    assert(run_from(s1, first.drop_first()) == s1);
    assert(registration_submissions(s1, first.drop_first()) == 0);
    assert(run_from(s0, first) == s1);
    assert(registration_submissions(s0, first) == 0);
    assert(last[0] == events[n + 2]);
    assert(last.len() == 1);
    assert(last.drop_first() =~= Seq::<ProtocolEventV>::empty());
    let step2 = spec_advance(ProtocolStateV::CommitmentConfirmed, last[0]);
    assert(step2.0 == ProtocolStateV::Done);
    assert(step2.1 == ProtocolAction::Stop);
    assert(run_from(step2.0, last.drop_first()) == step2.0);
    assert(registration_submissions(step2.0, last.drop_first()) == 0);
    assert(run_from(ProtocolStateV::CommitmentConfirmed, last) == ProtocolStateV::Done);
    assert(registration_submissions(ProtocolStateV::CommitmentConfirmed, last) == 0);
    lemma_run_concat(s1, lookups, last);
    assert(run_from(s1, lookups + last) == ProtocolStateV::Done);
    assert(registration_submissions(s1, lookups + last) == 1);
    lemma_run_concat(s0, first, lookups + last);
    assert(run_from(s0, events) == run_from(s0, first + (lookups + last)));
    assert(registration_submissions(s0, events) == registration_submissions(
        s0,
        first + (lookups + last),
    ));
}

/// The pattern occurs in `s` starting at position `i`.
pub open spec fn matches_at(s: Seq<char>, p: Seq<char>, i: int) -> bool {
    0 <= i && i + p.len() <= s.len() && s.subrange(i, i + p.len()) == p
}

/// The pattern occurs somewhere in `s`.
pub open spec fn has_substring(s: Seq<char>, p: Seq<char>) -> bool {
    exists|i: int| matches_at(s, p, i)
}

/// The message fragment by which the node reports that a transaction is not
/// yet visible to its wallet.
pub open spec fn transient_marker() -> Seq<char> {
    "non-wallet transaction"@
}

/// Whether the pattern occurs in `s` starting at position `i`.
fn match_at_index(s: &str, pat: &str, i: usize) -> (r: bool)
    requires
        i + pat@.len() <= s@.len(),
        s@.len() <= usize::MAX,
    ensures
        r == matches_at(s@, pat@, i as int),
{
    let m = pat.unicode_len();
    let mut j: usize = 0;
    while j < m
        invariant
            j <= m,
            m == pat@.len(),
            i + m <= s@.len(),
            s@.len() <= usize::MAX,
            forall|k: int| 0 <= k < j ==> s@[i + k] == pat@[k],
        decreases m - j,
    {
        if s.get_char(i + j) != pat.get_char(j) {
            proof {
                assert(s@.subrange(i as int, i + m)[j as int] == s@[i + j]);
                assert(s@.subrange(i as int, i + m) != pat@);
            }
            return false;
        }
        j += 1;
    }
    proof {
        assert(s@.subrange(i as int, i + m) =~= pat@);
    }
    true
}

/// Whether the pattern occurs anywhere in `s`.
fn str_contains(s: &str, pat: &str) -> (r: bool)
    ensures
        r == has_substring(s@, pat@),
{
    let n = s.unicode_len();
    let m = pat.unicode_len();
    if m > n {
        return false;
    }
    if m == 0 {
        proof {
            assert(s@.subrange(0, 0) =~= pat@);
            assert(matches_at(s@, pat@, 0));
        }
        return true;
    }
    let mut i: usize = 0;
    while i <= n - m
        invariant
            0 < m <= n,
            n == s@.len(),
            m == pat@.len(),
            i <= n - m + 1,
            forall|k: int| 0 <= k < i ==> !matches_at(s@, pat@, k),
        decreases n - m + 1 - i,
    {
        if match_at_index(s, pat, i) {
            return true;
        }
        i += 1;
    }
    false
}

/// Sorts a failed lookup by its message: the node's "non-wallet transaction"
/// complaint is the transient not-yet-visible condition; anything else is a
/// definitive failure and keeps its message.
pub fn classify_lookup_error(message: String) -> (r: LookupOutcome)
    ensures
        has_substring(message@, transient_marker()) ==> r@ == LookupOutcomeV::NotYetVisible,
        !has_substring(message@, transient_marker()) ==> r@ == LookupOutcomeV::Failure(message@),
{
    if str_contains(message.as_str(), "non-wallet transaction") {
        LookupOutcome::NotYetVisible
    } else {
        LookupOutcome::Failure(message)
    }
}

/// Where a run stands, with the failure it may have ended in.
enum ProtocolState {
    Init,
    AwaitingConfirmation { retries: u32 },
    CommitmentConfirmed,
    Done,
    Failed(ErrorKind),
}

impl View for ProtocolState {
    type V = ProtocolStateV;

    closed spec fn view(&self) -> ProtocolStateV {
        match self {
            ProtocolState::Init => ProtocolStateV::Init,
            ProtocolState::AwaitingConfirmation { retries } => ProtocolStateV::AwaitingConfirmation {
                retries: *retries,
            },
            ProtocolState::CommitmentConfirmed => ProtocolStateV::CommitmentConfirmed,
            ProtocolState::Done => ProtocolStateV::Done,
            ProtocolState::Failed(k) => ProtocolStateV::Failed(k@),
        }
    }
}

/// The event an answer to `registernamecommitment` stands for.
pub open spec fn commitment_event(
    result: Result<vrsc_rpc::json::identity::NameCommitment, String>,
) -> ProtocolEventV {
    match result {
        Ok(_) => ProtocolEventV::CommitmentAccepted,
        Err(m) => ProtocolEventV::CommitmentRejected(m@),
    }
}

/// The event an answer to `registeridentity` stands for.
pub open spec fn registration_event(result: Result<vrsc_rpc::bitcoin::Txid, String>) -> ProtocolEventV {
    match result {
        Ok(_) => ProtocolEventV::RegistrationAccepted,
        Err(m) => ProtocolEventV::RegistrationRejected(m@),
    }
}

/// Drives one registration run.  The caller performs each remote call the
/// returned action names, feeds the answer back through the matching `on_`
/// method, and calls [`Orchestrator::finish`] once told to stop.
pub struct Orchestrator {
    state: ProtocolState,
    commitment: Option<vrsc_rpc::json::identity::NameCommitment>,
    registration_txid: Option<vrsc_rpc::bitcoin::Txid>,
}

impl View for Orchestrator {
    type V = ProtocolStateV;

    closed spec fn view(&self) -> ProtocolStateV {
        self.state@
    }
}

impl Orchestrator {
    /// The name commitment collected so far, if any.
    pub closed spec fn commitment_opt(self) -> Option<vrsc_rpc::json::identity::NameCommitment> {
        self.commitment
    }

    /// The registration transaction id collected so far, if any.
    pub closed spec fn txid_opt(self) -> Option<vrsc_rpc::bitcoin::Txid> {
        self.registration_txid
    }

    /// Once the commitment is submitted the orchestrator holds it, and once
    /// the run is done it holds the registration transaction id too.
    pub closed spec fn wf(self) -> bool {
        &&& (self@ matches ProtocolStateV::AwaitingConfirmation { .. }
            || self@ is CommitmentConfirmed || self@ is Done ==> self.commitment is Some)
        &&& (self@ is Done ==> self.registration_txid is Some)
    }

    /// A run that has not started: nothing submitted, nothing collected.
    pub fn new() -> (r: Self)
        ensures
            r@ == ProtocolStateV::Init,
            r.wf(),
            r.commitment_opt() is None,
            r.txid_opt() is None,
    {
        Orchestrator { state: ProtocolState::Init, commitment: None, registration_txid: None }
    }

    /// The call this run is waiting on.
    pub fn next_action(&self) -> (a: ProtocolAction)
        ensures
            a == pending_action(self@),
    {
        match &self.state {
            ProtocolState::Init => ProtocolAction::SubmitCommitment,
            ProtocolState::AwaitingConfirmation { .. } => ProtocolAction::QueryConfirmation,
            ProtocolState::CommitmentConfirmed => ProtocolAction::SubmitRegistration,
            ProtocolState::Done => ProtocolAction::Stop,
            ProtocolState::Failed(_) => ProtocolAction::Stop,
        }
    }

    /// Feeds in the answer to `registernamecommitment`.  On success the run
    /// keeps the commitment and moves on to the confirmation wait; on failure
    /// it ends immediately, with no retry.
    pub fn on_commitment_result(
        &mut self,
        result: Result<vrsc_rpc::json::identity::NameCommitment, String>,
    ) -> (a: ProtocolAction)
        requires
            old(self).wf(),
        ensures
            final(self).wf(),
            final(self)@ == spec_advance(old(self)@, commitment_event(result)).0,
            a == spec_advance(old(self)@, commitment_event(result)).1,
            old(self)@ is Init ==> (result matches Ok(c) ==> final(self).commitment_opt() == Some(
                c,
            )),
            !(old(self)@ is Init && result is Ok) ==> final(self).commitment_opt() == old(
                self,
            ).commitment_opt(),
            final(self).txid_opt() == old(self).txid_opt(),
    {
        let at_start = matches!(self.state, ProtocolState::Init);
        if at_start {
            match result {
                Ok(c) => {
                    self.commitment = Some(c);
                    self.state = ProtocolState::AwaitingConfirmation { retries: 0 };
                    ProtocolAction::QueryConfirmation
                },
                Err(m) => {
                    self.state = ProtocolState::Failed(ErrorKind::VrscRpcError(m));
                    ProtocolAction::Stop
                },
            }
        } else {
            self.next_action()
        }
    }

    /// Feeds in one lookup outcome.  No confirmations yet: poll again after
    /// the coarse pause.  Not yet visible: poll again after the fine pause,
    /// unless the retry budget is spent, which ends the run in a timeout.
    /// Confirmed: move on to the registration.  Anything else ends the run.
    pub fn on_lookup(&mut self, outcome: LookupOutcome) -> (a: ProtocolAction)
        requires
            old(self).wf(),
        ensures
            final(self).wf(),
            final(self)@ == spec_advance(old(self)@, ProtocolEventV::Lookup(outcome@)).0,
            a == spec_advance(old(self)@, ProtocolEventV::Lookup(outcome@)).1,
            final(self).commitment_opt() == old(self).commitment_opt(),
            final(self).txid_opt() == old(self).txid_opt(),
    {
        let retries_opt: Option<u32> = match &self.state {
            ProtocolState::AwaitingConfirmation { retries } => Some(*retries),
            _ => None,
        };
        match retries_opt {
            Some(retries) => match outcome {
                LookupOutcome::Info { confirmations } => {
                    if confirmations > 0 {
                        self.state = ProtocolState::CommitmentConfirmed;
                        ProtocolAction::SubmitRegistration
                    } else {
                        ProtocolAction::SleepCoarseThenQuery
                    }
                },
                LookupOutcome::NotYetVisible => {
                    if retries >= RETRY_CAP {
                        self.state = ProtocolState::Failed(ErrorKind::Timeout);
                        ProtocolAction::Stop
                    } else {
                        self.state = ProtocolState::AwaitingConfirmation { retries: retries + 1 };
                        ProtocolAction::SleepFineThenQuery
                    }
                },
                LookupOutcome::Failure(m) => {
                    self.state = ProtocolState::Failed(ErrorKind::VrscRpcError(m));
                    ProtocolAction::Stop
                },
            },
            None => self.next_action(),
        }
    }

    /// Feeds in the answer to `registeridentity`.  Success ends the run done;
    /// failure ends it immediately, with no retry.
    pub fn on_registration_result(
        &mut self,
        result: Result<vrsc_rpc::bitcoin::Txid, String>,
    ) -> (a: ProtocolAction)
        requires
            old(self).wf(),
        ensures
            final(self).wf(),
            final(self)@ == spec_advance(old(self)@, registration_event(result)).0,
            a == spec_advance(old(self)@, registration_event(result)).1,
            final(self).commitment_opt() == old(self).commitment_opt(),
            old(self)@ is CommitmentConfirmed ==> (result matches Ok(t) ==> final(self).txid_opt()
                == Some(t)),
            !(old(self)@ is CommitmentConfirmed && result is Ok) ==> final(self).txid_opt() == old(
                self,
            ).txid_opt(),
    {
        let confirmed = matches!(self.state, ProtocolState::CommitmentConfirmed);
        if confirmed {
            match result {
                Ok(t) => {
                    self.registration_txid = Some(t);
                    self.state = ProtocolState::Done;
                    ProtocolAction::Stop
                },
                Err(m) => {
                    self.state = ProtocolState::Failed(ErrorKind::VrscRpcError(m));
                    ProtocolAction::Stop
                },
            }
        } else {
            self.next_action()
        }
    }

    /// Ends the run.  Done yields the identity record, made of exactly the
    /// commitment and the registration transaction id collected along the
    /// way; a failed run yields its failure.  A run abandoned anywhere else
    /// was cancelled while waiting, which surfaces as the timeout error.
    pub fn finish(self) -> (r: Result<Identity, IdentityError>)
        requires
            self.wf(),
        ensures
            r is Ok <==> self@ is Done,
            self@ is Done ==> (r matches Ok(id) && Some(id.name_commitment)
                == self.commitment_opt() && Some(id.registration_txid) == self.txid_opt()),
            self@ matches ProtocolStateV::Failed(k) ==> (r matches Err(e) && e.kind@ == k),
            !(self@ is Done || self@ is Failed) ==> (r matches Err(e) && e.kind
                == ErrorKind::Timeout),
    {
        match self.state {
            ProtocolState::Done => {
                match (self.commitment, self.registration_txid) {
                    (Some(c), Some(t)) => Ok(
                        Identity { name_commitment: c, registration_txid: t },
                    ),
                    _ => vstd::pervasive::unreached(),
                }
            },
            ProtocolState::Failed(k) => Err(IdentityError { kind: k }),
            _ => Err(IdentityError { kind: ErrorKind::Timeout }),
        }
    }
}

} // verus!
