//! What the query and configuration surface answers.
//!
//! Listing the devices is a pure projection of two snapshots.  Saving rules goes in
//! three steps, of which the caller performs the middle one: the submission is checked
//! here, the caller writes the accepted rules to the rule file, and the outcome of the
//! write decides here whether the rules in memory change and what the answer is.

use crate::error::ApiError;
use crate::models::{DeviceConfig, DeviceConfigModel, DeviceView, RawDevice};
use crate::response::{ApiResponse, ApiResult, HTTP_INTERNAL_SERVER_ERROR};
use crate::service::{match_raw_to_views, views_for};
use vstd::prelude::*;

verus! {

/// Answers a query for the attached devices: a success whose data are the views of
/// `raw_devices` under `rules`, one per device and in the devices' order.
pub fn list_devices(raw_devices: &[RawDevice], rules: &[DeviceConfig]) -> (r: ApiResult<
    Vec<DeviceView>,
>)
    ensures
        ({
            &&& r matches Ok(resp)
            &&& resp.is_ok()
            &&& resp.data matches Some(views)
            &&& views.deep_view() == views_for(raw_devices.deep_view(), rules.deep_view())
        }),
{
    let views = match_raw_to_views(raw_devices, rules);
    Ok(ApiResponse::success(views))
}

/// How the caller's attempt to persist an accepted rule set ended.
#[derive(Debug, PartialEq, Eq)]
pub enum PersistOutcome {
    /// The rule file now holds the rule set.
    Written,
    /// The rule set could not be put into text; the file was not touched.
    NotSerialized,
    /// Writing the file failed; the string says why.
    NotWritten(String),
}

/// What a [`PersistOutcome`] says, with its string as a sequence of characters.
pub enum PersistOutcomeModel {
    Written,
    NotSerialized,
    NotWritten(Seq<char>),
}

impl View for PersistOutcome {
    type V = PersistOutcomeModel;

    open spec fn view(&self) -> PersistOutcomeModel {
        match self {
            PersistOutcome::Written => PersistOutcomeModel::Written,
            PersistOutcome::NotSerialized => PersistOutcomeModel::NotSerialized,
            PersistOutcome::NotWritten(why) => PersistOutcomeModel::NotWritten(why@),
        }
    }
}

/// A rule set that was accepted and is to be written to the rule file.  It is never
/// empty.
#[derive(Debug)]
pub struct PendingSave {
    rules: Vec<DeviceConfig>,
}

impl View for PendingSave {
    type V = Seq<DeviceConfigModel>;

    closed spec fn view(&self) -> Seq<DeviceConfigModel> {
        self.rules.deep_view()
    }
}

/// The words that a failed write is reported with; the reason follows them.
pub open spec fn write_failed_prefix() -> Seq<char> {
    "写入失败: "@
}

/// The rules in memory after a save has ended in `outcome`: the submitted ones where
/// they were written, the previous ones otherwise.
pub open spec fn rules_after_save(
    previous: Seq<DeviceConfigModel>,
    submitted: Seq<DeviceConfigModel>,
    outcome: PersistOutcomeModel,
) -> Seq<DeviceConfigModel> {
    match outcome {
        PersistOutcomeModel::Written => submitted,
        _ => previous,
    }
}

/// Tells whether `r` is the answer to a save that has ended in `outcome`: the plain
/// success where the rules were written, the failure `Unknown` where they could not be
/// put into text, and a server error with the reason where the write failed.
pub open spec fn answers_save(r: ApiResult<()>, outcome: PersistOutcomeModel) -> bool {
    match outcome {
        PersistOutcomeModel::Written => r matches Ok(resp) && resp.is_ok() && resp.data is None,
        PersistOutcomeModel::NotSerialized => r == Err::<ApiResponse<()>, ApiError>(
            ApiError::Unknown,
        ),
        PersistOutcomeModel::NotWritten(why) => {
            &&& r matches Ok(resp)
            &&& resp.code == 500
            &&& resp.msg@ == write_failed_prefix() + why
            &&& resp.data is None
            &&& resp.http_status == HTTP_INTERNAL_SERVER_ERROR
        },
    }
}

impl PendingSave {
    #[verifier::type_invariant]
    spec fn not_empty(self) -> bool {
        self.rules.len() > 0
    }

    /// The accepted rules, for the caller to write them to the rule file.
    pub fn rules(&self) -> (rules: &Vec<DeviceConfig>)
        ensures
            rules.deep_view() == self@,
            rules.len() > 0,
    {
        proof {
            use_type_invariant(self);
        }
        &self.rules
    }

    /// Ends the save.  Where the rules were written, they replace `store`, the rules
    /// in memory; after any failure `store` keeps its contents.  The result is the
    /// answer to the request.
    pub fn finish(self, store: &mut Vec<DeviceConfig>, outcome: PersistOutcome) -> (r: ApiResult<()>)
        ensures
            final(store).deep_view() == rules_after_save(old(store).deep_view(), self@, outcome@),
            answers_save(r, outcome@),
            outcome is Written ==> final(store).len() > 0,
    {
        proof {
            use_type_invariant(&self);
        }
        match outcome {
            PersistOutcome::Written => {
                *store = self.rules;
                Ok(ApiResponse::ok())
            },
            PersistOutcome::NotSerialized => Err(ApiError::Unknown),
            PersistOutcome::NotWritten(why) => {
                let mut msg = String::from_str("写入失败: ");
                msg.append(why.as_str());
                Ok(ApiResponse::server_error(msg))
            },
        }
    }
}

/// Checks a submitted rule set.  An empty set is rejected with
/// [`ApiError::InvalidParam`]; any other set is accepted and comes back as a
/// [`PendingSave`] that holds exactly the submitted rules.
pub fn save_rules(new_rules: Vec<DeviceConfig>) -> (r: Result<PendingSave, ApiError>)
    ensures
        match r {
            Ok(pending) => new_rules.len() > 0 && pending@ == new_rules.deep_view(),
            Err(e) => new_rules.len() == 0 && e == ApiError::InvalidParam,
        },
{
    if new_rules.is_empty() {
        return Err(ApiError::InvalidParam);
    }
    Ok(PendingSave { rules: new_rules })
}

/// An empty submission is rejected as an invalid parameter.  No [`PendingSave`] comes
/// of it, so there is nothing to write to the rule file and nothing that could replace
/// the rules in memory.
pub proof fn lemma_empty_submission_is_rejected(
    new_rules: Vec<DeviceConfig>,
    r: Result<PendingSave, ApiError>,
)
    requires
        new_rules.len() == 0,
        call_ensures(save_rules, (new_rules,), r),
    ensures
        r matches Err(e) && e == ApiError::InvalidParam,
{
}

} // verus!
