use vstd::prelude::*;

use crate::error::Error;
use crate::status::{statuses_model, PushStatus, PushStatusModel};

verus! {

/// The identity a tip update is recorded under; stands for the signing
/// identity the surrounding layer resolved.
#[derive(Debug, PartialEq, Eq)]
pub struct Signature {
    /// The name of the identity.
    pub name: String,
    /// The e-mail address of the identity.
    pub email: String,
}

/// Mathematical value of a signature.
#[verifier::ext_equal]
pub struct SignatureModel {
    pub name: Seq<char>,
    pub email: Seq<char>,
}

impl View for Signature {
    type V = SignatureModel;

    open spec fn view(&self) -> SignatureModel {
        SignatureModel { name: self.name@, email: self.email@ }
    }
}

impl Signature {
    /// A signature from its two parts.
    pub fn new(name: String, email: String) -> (s: Signature)
        ensures
            s@ == (SignatureModel { name: name@, email: email@ }),
    {
        Signature { name, email }
    }
}

impl Clone for Signature {
    fn clone(&self) -> (r: Signature)
        ensures
            r == *self,
    {
        Signature { name: self.name.clone(), email: self.email.clone() }
    }
}

/// One planned move of a local tracking reference, ready for the reference
/// store to apply: which reference, under which identity (`None` meaning the
/// store's default identity), with which reflog message.
#[derive(Debug, PartialEq, Eq)]
pub struct TipUpdate {
    /// The local tracking reference to move.
    pub reference: String,
    /// The identity the reflog entry is attributed to.
    pub signature: Option<Signature>,
    /// The reflog message to record.
    pub message: String,
}

/// Mathematical value of a planned tip update.
#[verifier::ext_equal]
pub struct TipUpdateModel {
    pub reference: Seq<char>,
    pub signature: Option<SignatureModel>,
    pub message: Seq<char>,
}

impl View for TipUpdate {
    type V = TipUpdateModel;

    open spec fn view(&self) -> TipUpdateModel {
        TipUpdateModel {
            reference: self.reference@,
            signature: match self.signature {
                Option::Some(s) => Option::Some(s@),
                Option::None => Option::None,
            },
            message: self.message@,
        }
    }
}

/// The models of a sequence of planned tip updates.
pub open spec fn tips_model(plan: Seq<TipUpdate>) -> Seq<TipUpdateModel> {
    plan.map_values(|t: TipUpdate| t@)
}

/// Model of an optional borrowed signature argument.
pub open spec fn signature_model(signature: Option<&Signature>) -> Option<SignatureModel> {
    match signature {
        Option::Some(s) => Option::Some(s@),
        Option::None => Option::None,
    }
}

/// Model of an optional borrowed message argument.
pub open spec fn message_model(message: Option<&str>) -> Option<Seq<char>> {
    match message {
        Option::Some(m) => Option::Some(m@),
        Option::None => Option::None,
    }
}

/// The reflog message recorded when the caller supplies none.
pub open spec fn spec_default_reflog_message() -> Seq<char> {
    "update by push"@
}

/// The reflog message recorded when the caller supplies none.
pub fn default_reflog_message() -> (s: String)
    ensures
        s@ == spec_default_reflog_message(),
{
    "update by push".to_owned()
}

/// The reflog message a tip update records: the caller's, or the default.
pub open spec fn resolved_message(message: Option<Seq<char>>) -> Seq<char> {
    match message {
        Option::Some(m) => m,
        Option::None => spec_default_reflog_message(),
    }
}

/// The updates that tip updating plans: one per reference the remote
/// accepted (its status entry carries no message), in report order, each
/// attributed to the given identity and reflog message.
pub open spec fn tip_plan(
    entries: Seq<PushStatusModel>,
    signature: Option<SignatureModel>,
    message: Seq<char>,
) -> Seq<TipUpdateModel>
    decreases entries.len(),
{
    if entries.len() == 0 {
        Seq::empty()
    } else {
        let rest = tip_plan(entries.drop_first(), signature, message);
        if entries[0].message is None {
            seq![
                TipUpdateModel { reference: entries[0].reference, signature: signature, message: message },
            ] + rest
        } else {
            rest
        }
    }
}

/// Every update in a plan is attributed to the identity and message the plan
/// was built with.
pub proof fn lemma_tip_plan_attribution(
    entries: Seq<PushStatusModel>,
    signature: Option<SignatureModel>,
    message: Seq<char>,
)
    ensures
        forall|i: int|
            0 <= i < tip_plan(entries, signature, message).len() ==> {
                let update = #[trigger] tip_plan(entries, signature, message)[i];
                update.signature == signature && update.message == message
            },
    decreases entries.len(),
{
    if entries.len() > 0 {
        lemma_tip_plan_attribution(entries.drop_first(), signature, message);
    }
}

/// Build the tip-update plan from collected status entries: the accepted
/// references in report order, under the given identity and message or the
/// defaults.
pub fn build_tip_updates(
    entries: &Vec<PushStatus>,
    signature: Option<&Signature>,
    reflog_message: Option<&str>,
) -> (plan: Vec<TipUpdate>)
    ensures
        tips_model(plan@) == tip_plan(
            statuses_model(entries@),
            signature_model(signature),
            resolved_message(message_model(reflog_message)),
        ),
{
    let message: String = match reflog_message {
        Some(m) => m.to_owned(),
        None => default_reflog_message(),
    };
    let ghost em = statuses_model(entries@);
    let ghost sm = signature_model(signature);
    let ghost mm = resolved_message(message_model(reflog_message));
    let mut plan: Vec<TipUpdate> = Vec::new();
    let mut i: usize = 0;
    proof {
        assert(em.skip(0) =~= em);
        assert(tips_model(plan@) =~= Seq::<TipUpdateModel>::empty());
        assert(tips_model(plan@) + tip_plan(em, sm, mm) =~= tip_plan(em, sm, mm));
    }
    while i < entries.len()
        invariant
            0 <= i <= entries.len(),
            em == statuses_model(entries@),
            sm == signature_model(signature),
            mm == message@,
            tips_model(plan@) + tip_plan(em.skip(i as int), sm, mm) == tip_plan(em, sm, mm),
        decreases entries.len() - i,
    {
        proof {
            assert(em.skip(i as int)[0] == em[i as int]);
            assert(em[i as int] == entries@[i as int]@);
        }
        let entry = &entries[i];
        if entry.message.is_none() {
            let attributed: Option<Signature> = match signature {
                Some(s) => Some(s.clone()),
                None => None,
            };
            let ghost prior = tips_model(plan@);
            let ghost update_model = TipUpdateModel {
                reference: em[i as int].reference,
                signature: sm,
                message: mm,
            };
            plan.push(
                TipUpdate {
                    reference: entry.reference.clone(),
                    signature: attributed,
                    message: message.clone(),
                },
            );
            proof {
                assert(tip_plan(em.skip(i as int), sm, mm) == seq![update_model] + tip_plan(
                    em.skip(i as int).drop_first(),
                    sm,
                    mm,
                ));
                assert(em.skip(i as int).drop_first() =~= em.skip(i as int + 1));
                assert(tips_model(plan@) =~= prior.push(update_model));
                assert(tips_model(plan@) + tip_plan(em.skip(i as int + 1), sm, mm) =~= prior
                    + (seq![update_model] + tip_plan(em.skip(i as int + 1), sm, mm)));
            }
        } else {
            proof {
                assert(tip_plan(em.skip(i as int), sm, mm) == tip_plan(
                    em.skip(i as int).drop_first(),
                    sm,
                    mm,
                ));
                assert(em.skip(i as int).drop_first() =~= em.skip(i as int + 1));
            }
        }
        i += 1;
    }
    proof {
        assert(em.skip(i as int) =~= Seq::<PushStatusModel>::empty());
        assert(tips_model(plan@) + tip_plan(em.skip(i as int), sm, mm) =~= tips_model(plan@));
    }
    plan
}

/// How many of the per-reference write outcomes succeeded.
pub open spec fn count_applied(results: Seq<bool>) -> int
    decreases results.len(),
{
    if results.len() == 0 {
        0
    } else {
        (if results[0] {
            1int
        } else {
            0int
        }) + count_applied(results.drop_first())
    }
}

/// The overall outcome of applying a tip-update plan, folded from the
/// per-reference write results: success only when every tracking reference
/// was written; otherwise `ReferenceUpdateError` reporting how many writes
/// were applied, which distinguishes partial application from total failure.
pub open spec fn write_outcome_spec(results: Seq<bool>) -> Result<(), Error> {
    if forall|i: int| 0 <= i < results.len() ==> results[i] {
        Ok(())
    } else {
        Err(Error::ReferenceUpdateError { applied: count_applied(results) as usize })
    }
}

/// Fold the reference store's per-reference write results into the outcome of
/// a tip update. Writes already applied are never rolled back, so a failure
/// reports how many references had been moved.
pub fn write_outcome(results: &Vec<bool>) -> (r: Result<(), Error>)
    ensures
        r == write_outcome_spec(results@),
{
    let ghost rs = results@;
    let mut applied: usize = 0;
    let mut all_ok = true;
    let mut i: usize = 0;
    proof {
        assert(rs.skip(0) =~= rs);
    }
    while i < results.len()
        invariant
            0 <= i <= results.len(),
            rs == results@,
            applied <= i,
            applied + count_applied(rs.skip(i as int)) == count_applied(rs),
            all_ok <==> (forall|k: int| 0 <= k < i ==> rs[k]),
        decreases results.len() - i,
    {
        proof {
            assert(rs.skip(i as int)[0] == rs[i as int]);
            assert(rs.skip(i as int).drop_first() =~= rs.skip(i as int + 1));
        }
        if results[i] {
            applied += 1;
        } else {
            all_ok = false;
        }
        i += 1;
    }
    proof {
        assert(rs.skip(i as int) =~= Seq::<bool>::empty());
    }
    if all_ok {
        Ok(())
    } else {
        Err(Error::ReferenceUpdateError { applied })
    }
}

} // verus!
