use vstd::prelude::*;
use vstd::utf8::{decode_utf8, valid_utf8};

use crate::error::Error;

verus! {

/// One raw per-reference report handed across the callback boundary by the
/// transport: the reference name and, for a rejected update, the remote's
/// reason — both still undecoded bytes.
#[derive(Clone, Debug, PartialEq, Eq)]
pub struct RawStatusReport {
    /// The remote reference the report is about, as raw bytes.
    pub reference: Vec<u8>,
    /// `None` when the update was accepted; otherwise the raw bytes of the
    /// remote's rejection reason.
    pub message: Option<Vec<u8>>,
}

/// Mathematical value of a raw status report.
#[verifier::ext_equal]
pub struct ReportModel {
    pub reference: Seq<u8>,
    pub message: Option<Seq<u8>>,
}

impl View for RawStatusReport {
    type V = ReportModel;

    open spec fn view(&self) -> ReportModel {
        ReportModel {
            reference: self.reference@,
            message: match self.message {
                Option::Some(m) => Option::Some(m@),
                Option::None => Option::None,
            },
        }
    }
}

/// A status representing the result of updating a remote reference.
#[derive(Clone, Debug, PartialEq, Eq)]
pub struct PushStatus {
    /// The reference that was updated as part of a push.
    pub reference: String,
    /// If `None`, the reference was updated successfully, otherwise a message
    /// explaining why it could not be updated is provided.
    pub message: Option<String>,
}

/// Mathematical value of a status entry.
#[verifier::ext_equal]
pub struct PushStatusModel {
    pub reference: Seq<char>,
    pub message: Option<Seq<char>>,
}

impl View for PushStatus {
    type V = PushStatusModel;

    open spec fn view(&self) -> PushStatusModel {
        PushStatusModel {
            reference: self.reference@,
            message: match self.message {
                Option::Some(m) => Option::Some(m@),
                Option::None => Option::None,
            },
        }
    }
}

/// The models of a sequence of raw reports.
pub open spec fn reports_model(reports: Seq<RawStatusReport>) -> Seq<ReportModel> {
    reports.map_values(|r: RawStatusReport| r@)
}

/// The models of a sequence of status entries.
pub open spec fn statuses_model(entries: Seq<PushStatus>) -> Seq<PushStatusModel> {
    entries.map_values(|s: PushStatus| s@)
}

/// Relies on `core::str::from_utf8`: it succeeds exactly on valid UTF-8 and
/// then yields the characters the bytes encode, as `vstd::utf8` models them.
#[verifier::external_body]
fn decode_bytes(bytes: &Vec<u8>) -> (r: Option<String>)
    ensures
        r is Some <==> valid_utf8(bytes@),
        r matches Some(s) ==> s@ == decode_utf8(bytes@),
{
    match core::str::from_utf8(bytes.as_slice()) {
        Ok(s) => Some(s.to_owned()),
        Err(_) => None,
    }
}

/// Decode one field of a raw status report as UTF-8 text.
pub fn decode_status_text(bytes: &Vec<u8>) -> (r: Result<String, Error>)
    ensures
        valid_utf8(bytes@) ==> (r matches Ok(s) && s@ == decode_utf8(bytes@)),
        !valid_utf8(bytes@) ==> r == Err::<String, Error>(Error::EncodingError),
{
    match decode_bytes(bytes) {
        Some(s) => Ok(s),
        None => Err(Error::EncodingError),
    }
}

/// The entries one collection pass produces from the raw reports: reports are
/// decoded in the order the remote sent them, and the first field that is not
/// valid UTF-8 ends the pass early — the unreadable entry and everything
/// after it are omitted.
pub open spec fn collected(reports: Seq<ReportModel>) -> Seq<PushStatusModel>
    decreases reports.len(),
{
    if reports.len() == 0 {
        Seq::empty()
    } else if !valid_utf8(reports[0].reference) {
        Seq::empty()
    } else {
        match reports[0].message {
            Option::None => seq![
                PushStatusModel {
                    reference: decode_utf8(reports[0].reference),
                    message: Option::None,
                },
            ] + collected(reports.drop_first()),
            Option::Some(raw_message) => {
                if !valid_utf8(raw_message) {
                    Seq::empty()
                } else {
                    seq![
                        PushStatusModel {
                            reference: decode_utf8(reports[0].reference),
                            message: Option::Some(decode_utf8(raw_message)),
                        },
                    ] + collected(reports.drop_first())
                }
            },
        }
    }
}

/// When every reported field decodes, a collection pass is complete and
/// order-preserving: it produces exactly one entry per report the remote
/// sent, in report order, each carrying the decoded reference and the
/// decoded message.
pub proof fn lemma_collected_all_decodable(reports: Seq<ReportModel>)
    requires
        forall|i: int| 0 <= i < reports.len() ==> valid_utf8((#[trigger] reports[i]).reference),
        forall|i: int|
            0 <= i < reports.len() ==> ((#[trigger] reports[i]).message matches Some(m)
                ==> valid_utf8(m)),
    ensures
        collected(reports).len() == reports.len(),
        forall|i: int|
            0 <= i < reports.len() ==> (#[trigger] collected(reports)[i]).reference == decode_utf8(
                reports[i].reference,
            ),
        forall|i: int|
            0 <= i < reports.len() ==> (#[trigger] collected(reports)[i]).message == (
            match reports[i].message {
                Option::Some(m) => Option::Some(decode_utf8(m)),
                Option::None => Option::None::<Seq<char>>,
            }),
    decreases reports.len(),
{
    if reports.len() > 0 {
        let rest = reports.drop_first();
        assert(forall|i: int|
            0 <= i < rest.len() ==> valid_utf8((#[trigger] rest[i]).reference)) by {
            assert(forall|i: int| 0 <= i < rest.len() ==> rest[i] == reports[i + 1]);
        }
        assert(forall|i: int|
            0 <= i < rest.len() ==> ((#[trigger] rest[i]).message matches Some(m) ==> valid_utf8(
                m,
            ))) by {
            assert(forall|i: int| 0 <= i < rest.len() ==> rest[i] == reports[i + 1]);
        }
        lemma_collected_all_decodable(rest);
        assert(forall|i: int|
            1 <= i < reports.len() ==> #[trigger] collected(reports)[i] == collected(rest)[i - 1]);
    }
}

/// One collection pass: drain the raw reports into owned status entries,
/// truncating at the first field that does not decode.
pub fn collect(reports: &Vec<RawStatusReport>) -> (out: Vec<PushStatus>)
    ensures
        statuses_model(out@) == collected(reports_model(reports@)),
{
    let ghost rm = reports_model(reports@);
    let mut out: Vec<PushStatus> = Vec::new();
    let mut i: usize = 0;
    proof {
        assert(rm.skip(0) =~= rm);
        assert(statuses_model(out@) =~= Seq::<PushStatusModel>::empty());
        assert(statuses_model(out@) + collected(rm.skip(0)) =~= collected(rm));
    }
    while i < reports.len()
        invariant
            0 <= i <= reports.len(),
            rm == reports_model(reports@),
            statuses_model(out@) + collected(rm.skip(i as int)) == collected(rm),
        decreases reports.len() - i,
    {
        proof {
            assert(rm.skip(i as int)[0] == rm[i as int]);
            assert(rm[i as int] == reports@[i as int]@);
        }
        let report = &reports[i];
        let reference = match decode_bytes(&report.reference) {
            Some(s) => s,
            None => {
                proof {
                    assert(collected(rm.skip(i as int)) =~= Seq::<PushStatusModel>::empty());
                    assert(statuses_model(out@) + collected(rm.skip(i as int)) =~= statuses_model(out@));
                }
                return out;
            },
        };
        let message: Option<String> = match &report.message {
            Some(raw_message) => match decode_bytes(raw_message) {
                Some(m) => Some(m),
                None => {
                    proof {
                        assert(collected(rm.skip(i as int)) =~= Seq::<PushStatusModel>::empty());
                        assert(statuses_model(out@) + collected(rm.skip(i as int)) =~= statuses_model(out@));
                    }
                    return out;
                },
            },
            None => None,
        };
        let ghost prior = statuses_model(out@);
        let ghost entry_model = PushStatusModel {
            reference: decode_utf8(rm[i as int].reference),
            message: match rm[i as int].message {
                Option::Some(raw_message) => Option::Some(decode_utf8(raw_message)),
                Option::None => Option::None,
            },
        };
        out.push(PushStatus { reference, message });
        proof {
            assert(collected(rm.skip(i as int)) == seq![entry_model] + collected(
                rm.skip(i as int).drop_first(),
            ));
            assert(rm.skip(i as int).drop_first() =~= rm.skip(i as int + 1));
            assert(statuses_model(out@) =~= prior.push(entry_model));
            assert(statuses_model(out@) + collected(rm.skip(i as int + 1)) =~= prior + (seq![
                entry_model,
            ] + collected(rm.skip(i as int + 1))));
        }
        i += 1;
    }
    proof {
        assert(rm.skip(i as int) =~= Seq::<ReportModel>::empty());
        assert(statuses_model(out@) + collected(rm.skip(i as int)) =~= statuses_model(out@));
    }
    out
}

} // verus!
