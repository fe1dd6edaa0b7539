//! A verified push-transport session core.
//!
//! The library sequences one attempt to transfer reference updates to a
//! remote repository: a [`Push`] session accumulates refspecs while open,
//! records the outcome of the single blocking transfer, and afterwards
//! answers two queries — the per-reference statuses the remote reported
//! ([`Push::statuses`]) and the plan for moving local tracking references
//! ([`Push::update_tips`]). The network transfer itself and the writes to
//! the local reference store are performed by outside collaborators; they
//! hand their results to the session as plain values, and everything the
//! session decides about them is verified.

mod error;
mod refspec;
mod session;
mod status;
mod tips;

pub use error::Error;
pub use refspec::is_valid_refspec;
pub use refspec::valid_refspec;
pub use session::add_all;
pub use session::add_refspec_step;
pub use session::finish_step;
pub use session::initial_push;
pub use session::lemma_queries_before_execute_fail;
pub use session::lemma_refspecs_retained_in_order;
pub use session::lemma_release_idempotent;
pub use session::lemma_statuses_idempotent;
pub use session::lemma_update_tips_defaults;
pub use session::refspecs_model;
pub use session::release_step;
pub use session::statuses_result_model;
pub use session::statuses_step;
pub use session::tips_result_model;
pub use session::update_tips_step;
pub use session::Push;
pub use session::PushModel;
pub use session::State;
pub use session::TransferOutcome;
pub use session::TransferOutcomeModel;
pub use status::collect;
pub use status::collected;
pub use status::decode_status_text;
pub use status::lemma_collected_all_decodable;
pub use status::reports_model;
pub use status::statuses_model;
pub use status::PushStatus;
pub use status::PushStatusModel;
pub use status::RawStatusReport;
pub use status::ReportModel;
pub use tips::build_tip_updates;
pub use tips::count_applied;
pub use tips::default_reflog_message;
pub use tips::lemma_tip_plan_attribution;
pub use tips::message_model;
pub use tips::resolved_message;
pub use tips::signature_model;
pub use tips::spec_default_reflog_message;
pub use tips::tip_plan;
pub use tips::tips_model;
pub use tips::write_outcome;
pub use tips::write_outcome_spec;
pub use tips::Signature;
pub use tips::SignatureModel;
pub use tips::TipUpdate;
pub use tips::TipUpdateModel;
