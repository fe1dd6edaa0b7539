use vstd::prelude::*;

use crate::error::Error;
use crate::refspec::{is_valid_refspec, valid_refspec};
use crate::status::{
    collect, collected, reports_model, statuses_model, PushStatus, PushStatusModel,
    RawStatusReport, ReportModel,
};
use crate::tips::{
    build_tip_updates, lemma_tip_plan_attribution, message_model, resolved_message,
    signature_model, spec_default_reflog_message, tip_plan, tips_model, Signature, SignatureModel,
    TipUpdate, TipUpdateModel,
};

verus! {

/// The stage a push session has reached.
#[derive(Clone, Copy, Debug, PartialEq, Eq, Structural)]
pub enum State {
    /// Freshly created; refspecs may still be queued.
    Open,
    /// The transfer completed; statuses and tip updates may be queried.
    Executed,
    /// The transfer failed; only release remains legal.
    Failed,
    /// The session's resources were released.
    Released,
}

/// What the transport collaborator reports back from the one blocking
/// transfer: either completion, together with the per-reference reports the
/// remote sent, or the class of failure that ended the attempt.
pub enum TransferOutcome {
    /// The transfer ran to completion; per-reference acceptance is in the
    /// reports, not in this variant.
    Completed { reports: Vec<RawStatusReport> },
    /// The remote could not be reached.
    NetworkFailure,
    /// The remote refused the credentials.
    AuthenticationFailure,
    /// The peer violated the protocol.
    ProtocolFailure,
}

/// Mathematical value of a transfer outcome.
#[verifier::ext_equal]
pub enum TransferOutcomeModel {
    Completed { reports: Seq<ReportModel> },
    NetworkFailure,
    AuthenticationFailure,
    ProtocolFailure,
}

impl View for TransferOutcome {
    type V = TransferOutcomeModel;

    open spec fn view(&self) -> TransferOutcomeModel {
        match self {
            TransferOutcome::Completed { reports } => TransferOutcomeModel::Completed {
                reports: reports_model(reports@),
            },
            TransferOutcome::NetworkFailure => TransferOutcomeModel::NetworkFailure,
            TransferOutcome::AuthenticationFailure => TransferOutcomeModel::AuthenticationFailure,
            TransferOutcome::ProtocolFailure => TransferOutcomeModel::ProtocolFailure,
        }
    }
}

/// Mathematical value of a push session.
#[verifier::ext_equal]
pub struct PushModel {
    /// The stage the session has reached.
    pub state: State,
    /// The refspecs queued so far, in insertion order.
    pub refspecs: Seq<Seq<char>>,
    /// The raw per-reference reports retained from a completed transfer.
    pub reports: Seq<ReportModel>,
}

/// The model of a fresh session: open, nothing queued, nothing reported.
pub open spec fn initial_push() -> PushModel {
    PushModel { state: State::Open, refspecs: Seq::empty(), reports: Seq::empty() }
}

/// What queueing a refspec does to a session: while `Open`, a syntactically
/// acceptable refspec is appended and anything else is rejected with
/// `InvalidArgument`; outside `Open` the call fails with `InvalidState` and
/// the session is untouched.
pub open spec fn add_refspec_step(m: PushModel, refspec: Seq<char>) -> (PushModel, Result<
    (),
    Error,
>) {
    if m.state != State::Open {
        (m, Err(Error::InvalidState))
    } else if !valid_refspec(refspec) {
        (m, Err(Error::InvalidArgument))
    } else {
        (
            PushModel { state: m.state, refspecs: m.refspecs.push(refspec), reports: m.reports },
            Ok(()),
        )
    }
}

/// What the transfer does to a session: only an `Open` session may execute;
/// completion retains the remote's reports and moves to `Executed` (the call
/// succeeds even when individual references were rejected), while a transport
/// failure moves to `Failed` and surfaces the corresponding error.
pub open spec fn finish_step(m: PushModel, outcome: TransferOutcomeModel) -> (PushModel, Result<
    (),
    Error,
>) {
    if m.state != State::Open {
        (m, Err(Error::InvalidState))
    } else {
        match outcome {
            TransferOutcomeModel::Completed { reports } => (
                PushModel { state: State::Executed, refspecs: m.refspecs, reports },
                Ok(()),
            ),
            TransferOutcomeModel::NetworkFailure => (
                PushModel { state: State::Failed, refspecs: m.refspecs, reports: m.reports },
                Err(Error::NetworkError),
            ),
            TransferOutcomeModel::AuthenticationFailure => (
                PushModel { state: State::Failed, refspecs: m.refspecs, reports: m.reports },
                Err(Error::AuthenticationError),
            ),
            TransferOutcomeModel::ProtocolFailure => (
                PushModel { state: State::Failed, refspecs: m.refspecs, reports: m.reports },
                Err(Error::ProtocolError),
            ),
        }
    }
}

/// What a status query returns: only after a completed transfer, one fresh
/// collection pass over the retained reports; otherwise `InvalidState`. The
/// session itself never changes.
pub open spec fn statuses_step(m: PushModel) -> (PushModel, Result<Seq<PushStatusModel>, Error>) {
    if m.state == State::Executed {
        (m, Ok(collected(m.reports)))
    } else {
        (m, Err(Error::InvalidState))
    }
}

/// What a tip update returns: only after a completed transfer, the plan of
/// one update per accepted reference, attributed to the given identity and
/// reflog message or the defaults; otherwise `InvalidState`. The session
/// itself never changes.
pub open spec fn update_tips_step(
    m: PushModel,
    signature: Option<SignatureModel>,
    reflog_message: Option<Seq<char>>,
) -> (PushModel, Result<Seq<TipUpdateModel>, Error>) {
    if m.state == State::Executed {
        (m, Ok(tip_plan(collected(m.reports), signature, resolved_message(reflog_message))))
    } else {
        (m, Err(Error::InvalidState))
    }
}

/// What releasing does to a session: from any stage it reaches `Released`
/// with all retained data gone.
pub open spec fn release_step(m: PushModel) -> PushModel {
    PushModel { state: State::Released, refspecs: Seq::empty(), reports: Seq::empty() }
}

/// A structure to represent a pending push operation to a remote.
///
/// The session is created open, accumulates refspecs, records the outcome of
/// the one blocking transfer, and afterwards answers status and tip-update
/// queries; releasing it is legal at any stage and idempotent.
pub struct Push {
    state: State,
    refspecs: Vec<String>,
    reports: Vec<RawStatusReport>,
}

/// The models of the queued refspec strings.
pub open spec fn refspecs_model(refspecs: Seq<String>) -> Seq<Seq<char>> {
    refspecs.map_values(|s: String| s@)
}

impl View for Push {
    type V = PushModel;

    closed spec fn view(&self) -> PushModel {
        PushModel {
            state: self.state,
            refspecs: refspecs_model(self.refspecs@),
            reports: reports_model(self.reports@),
        }
    }
}

/// Model of a status-query result.
pub open spec fn statuses_result_model(r: Result<Vec<PushStatus>, Error>) -> Result<
    Seq<PushStatusModel>,
    Error,
> {
    match r {
        Ok(v) => Ok(statuses_model(v@)),
        Err(e) => Err(e),
    }
}

/// Model of a tip-update result.
pub open spec fn tips_result_model(r: Result<Vec<TipUpdate>, Error>) -> Result<
    Seq<TipUpdateModel>,
    Error,
> {
    match r {
        Ok(v) => Ok(tips_model(v@)),
        Err(e) => Err(e),
    }
}

impl Push {
    /// A fresh session, open and with nothing queued.
    pub fn new() -> (p: Push)
        ensures
            p@ == initial_push(),
    {
        let p = Push { state: State::Open, refspecs: Vec::new(), reports: Vec::new() };
        proof {
            assert(p@ =~~= initial_push());
        }
        p
    }

    /// The stage the session has reached.
    pub fn state(&self) -> (s: State)
        ensures
            s == self@.state,
    {
        self.state
    }

    /// The refspecs queued so far, in insertion order.
    pub fn refspecs(&self) -> (r: &Vec<String>)
        ensures
            refspecs_model(r@) == self@.refspecs,
    {
        &self.refspecs
    }

    /// Add a refspec to be pushed.
    pub fn add_refspec(&mut self, refspec: &str) -> (r: Result<(), Error>)
        ensures
            final(self)@ == add_refspec_step(old(self)@, refspec@).0,
            r == add_refspec_step(old(self)@, refspec@).1,
    {
        match self.state {
            State::Open => {
                if is_valid_refspec(refspec) {
                    self.refspecs.push(refspec.to_owned());
                    proof {
                        assert(self@ =~~= add_refspec_step(old(self)@, refspec@).0);
                    }
                    Ok(())
                } else {
                    Err(Error::InvalidArgument)
                }
            },
            _ => Err(Error::InvalidState),
        }
    }

    /// Conclude the transfer of all queued refspecs: the transport
    /// collaborator performs the blocking network exchange and hands its
    /// outcome here. Completion counts as success even when the remote
    /// rejected individual references — per-reference acceptance is read
    /// from `statuses` afterwards.
    pub fn finish(&mut self, outcome: TransferOutcome) -> (r: Result<(), Error>)
        ensures
            final(self)@ == finish_step(old(self)@, outcome@).0,
            r == finish_step(old(self)@, outcome@).1,
    {
        let ghost om = outcome@;
        match self.state {
            State::Open => match outcome {
                TransferOutcome::Completed { reports } => {
                    self.state = State::Executed;
                    self.reports = reports;
                    proof {
                        assert(self@ =~~= finish_step(old(self)@, om).0);
                    }
                    Ok(())
                },
                TransferOutcome::NetworkFailure => {
                    self.state = State::Failed;
                    proof {
                        assert(self@ =~~= finish_step(old(self)@, om).0);
                    }
                    Err(Error::NetworkError)
                },
                TransferOutcome::AuthenticationFailure => {
                    self.state = State::Failed;
                    proof {
                        assert(self@ =~~= finish_step(old(self)@, om).0);
                    }
                    Err(Error::AuthenticationError)
                },
                TransferOutcome::ProtocolFailure => {
                    self.state = State::Failed;
                    proof {
                        assert(self@ =~~= finish_step(old(self)@, om).0);
                    }
                    Err(Error::ProtocolError)
                },
            },
            _ => Err(Error::InvalidState),
        }
    }

    /// Return each status entry the remote reported, in the order the remote
    /// reported them: one fresh collection pass over the retained reports.
    pub fn statuses(&mut self) -> (r: Result<Vec<PushStatus>, Error>)
        ensures
            *final(self) == *old(self),
            statuses_result_model(r) == statuses_step(old(self)@).1,
    {
        match self.state {
            State::Executed => Ok(collect(&self.reports)),
            _ => Err(Error::InvalidState),
        }
    }

    /// Plan the moves of the local tracking references after a completed
    /// transfer: one update per reference the remote accepted, attributed to
    /// the given identity and reflog message or to the defaults. The
    /// reference store applies the plan outside this session.
    pub fn update_tips(
        &mut self,
        signature: Option<&Signature>,
        reflog_message: Option<&str>,
    ) -> (r: Result<Vec<TipUpdate>, Error>)
        ensures
            *final(self) == *old(self),
            tips_result_model(r) == update_tips_step(
                old(self)@,
                signature_model(signature),
                message_model(reflog_message),
            ).1,
    {
        match self.state {
            State::Executed => {
                let entries = collect(&self.reports);
                Ok(build_tip_updates(&entries, signature, reflog_message))
            },
            _ => Err(Error::InvalidState),
        }
    }

    /// Release the session's resources. Legal at any stage, including on a
    /// session that never executed or whose transfer failed, and idempotent:
    /// releasing again changes nothing.
    pub fn release(&mut self)
        ensures
            final(self)@ == release_step(old(self)@),
    {
        self.state = State::Released;
        self.refspecs = Vec::new();
        self.reports = Vec::new();
        proof {
            assert(self@ =~~= release_step(old(self)@));
        }
    }
}

/// The model a batch of queued refspecs leaves behind: each one applied in
/// turn to the session.
pub open spec fn add_all(m: PushModel, refspecs: Seq<Seq<char>>) -> PushModel
    decreases refspecs.len(),
{
    if refspecs.len() == 0 {
        m
    } else {
        add_all(add_refspec_step(m, refspecs[0]).0, refspecs.drop_first())
    }
}

/// Refspecs queued while the session is `Open` are retained in insertion
/// order for submission at transfer time: a batch of acceptable refspecs is
/// appended exactly, in order, and the session stays `Open` with its reports
/// untouched.
pub proof fn lemma_refspecs_retained_in_order(m: PushModel, refspecs: Seq<Seq<char>>)
    requires
        m.state == State::Open,
        forall|i: int| 0 <= i < refspecs.len() ==> valid_refspec(#[trigger] refspecs[i]),
    ensures
        add_all(m, refspecs).state == State::Open,
        add_all(m, refspecs).refspecs == m.refspecs + refspecs,
        add_all(m, refspecs).reports == m.reports,
    decreases refspecs.len(),
{
    if refspecs.len() == 0 {
        assert(m.refspecs + refspecs =~= m.refspecs);
    } else {
        let m1 = add_refspec_step(m, refspecs[0]).0;
        assert(forall|i: int|
            0 <= i < refspecs.drop_first().len() ==> valid_refspec(
                #[trigger] refspecs.drop_first()[i],
            ));
        lemma_refspecs_retained_in_order(m1, refspecs.drop_first());
        assert(m.refspecs.push(refspecs[0]) + refspecs.drop_first() =~= m.refspecs + refspecs);
    }
}

/// Querying statuses or planning tip updates before the transfer has executed
/// fails with `InvalidState`, and nothing of the session changes: the queries
/// never partially succeed.
pub proof fn lemma_queries_before_execute_fail(
    m: PushModel,
    signature: Option<SignatureModel>,
    reflog_message: Option<Seq<char>>,
)
    requires
        m.state == State::Open,
    ensures
        statuses_step(m).0 == m,
        statuses_step(m).1 == Err::<Seq<PushStatusModel>, Error>(Error::InvalidState),
        update_tips_step(m, signature, reflog_message).0 == m,
        update_tips_step(m, signature, reflog_message).1 == Err::<Seq<TipUpdateModel>, Error>(
            Error::InvalidState,
        ),
{
}

/// Releasing is idempotent: releasing an already-released session changes
/// nothing, so any number of releases leaves exactly what one release leaves.
pub proof fn lemma_release_idempotent(m: PushModel)
    ensures
        release_step(release_step(m)) == release_step(m),
        release_step(m).state == State::Released,
{
    assert(release_step(release_step(m)) =~~= release_step(m));
}

/// Collecting statuses twice after one completed transfer yields the same
/// entries both times: a collection pass is a fresh pass over the same
/// retained reports and leaves the session unchanged.
pub proof fn lemma_statuses_idempotent(m: PushModel)
    ensures
        statuses_step(m).0 == m,
        statuses_step(statuses_step(m).0).1 == statuses_step(m).1,
{
}

/// With no signature and no reflog message, planning tip updates after a
/// completed transfer succeeds, and every planned update carries the default
/// identity and the default reflog message.
pub proof fn lemma_update_tips_defaults(m: PushModel)
    requires
        m.state == State::Executed,
    ensures
        update_tips_step(m, None, None).1 matches Ok(plan) && forall|i: int|
            0 <= i < plan.len() ==> (#[trigger] plan[i]).signature is None && plan[i].message
                == spec_default_reflog_message(),
{
    lemma_tip_plan_attribution(
        collected(m.reports),
        None,
        resolved_message(None),
    );
}

} // verus!
