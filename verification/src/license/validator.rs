//! The rules of the license: what a record is worth at an instant, and what
//! each answer of the authority does to it.
//!
//! Every operation that needs the authority comes in two parts. The first
//! says what to ask; the second takes the reply and the instant at which it
//! came, says what the operation returns, and has the host write the record
//! that is to be kept. Between the two the host performs the exchange.

use crate::license::remote::{
    text_member, ActivationReply, ActivationReplyView, Endpoint, EndpointView, Method, RenewalReply,
    RenewalReplyView, RenewalRequest, RenewalRequestView, ValidationReply, ValidationRequest,
    ValidationRequestView, NEW_EXPIRATION_MEMBER, VALIDATION_TIMEOUT_SECS,
};
use crate::license::storage::{
    after_delete, after_save, delete_succeeds, loaded, occupied, persisted, LicenseStorage,
    SlotView,
};
use crate::license::types::{
    result_view, ActivationRequest, ActivationRequestView, LicenseDataView, LicenseError,
    LicenseErrorView, LicenseInfo, LicenseInfoView, LicenseStatus,
};
use crate::time::{parsed_instant, whole_days, Timestamp};
use vstd::prelude::*;
use vstd::string::*;

verus! {

/// A license with this many whole days left, or fewer, is near its expiry.
pub const NEAR_EXPIRATION_DAYS: i64 = 7;

/// What a license that has not expired is worth by its expiry alone: near
/// expiration, with the whole days left, where these are seven or fewer, and
/// valid otherwise.
pub open spec fn expiry_status(expires: int, now: int) -> LicenseStatus {
    let days = whole_days(expires - now);
    if days <= NEAR_EXPIRATION_DAYS {
        LicenseStatus::NearExpiration(days as i64)
    } else {
        LicenseStatus::Valid
    }
}

/// What a record is worth at `now` without word from the authority: expired
/// after its expiry, offline-expired where the last contact lies more whole
/// days back than the record allows, and otherwise as its expiry says.
pub open spec fn offline_status(license: LicenseInfoView, now: int) -> LicenseStatus {
    if license.expires < now {
        LicenseStatus::Expired
    } else if license.last_activation matches Some(last) && whole_days(now - last)
        > license.max_offline_days {
        LicenseStatus::OfflineExpired
    } else {
        expiry_status(license.expires, now)
    }
}

/// A record after a contact with the authority at `now`: the contact and the
/// write are dated `now`, all else stays.
pub open spec fn refreshed(license: LicenseInfoView, now: int) -> LicenseInfoView {
    LicenseInfoView { last_activation: Some(now), cached_at: now, ..license }
}

/// A record after a renewal at `now` that moved its expiry.
pub open spec fn renewed(license: LicenseInfoView, expires: int, now: int) -> LicenseInfoView {
    LicenseInfoView { expires, ..refreshed(license, now) }
}

/// The record made at `now` of the entitlement that the authority granted
/// on a request: it binds the key and the machine code that the request
/// named, whatever key the grant repeats, and holds what was granted for
/// them.
pub open spec fn activated(request: ActivationRequestView, data: LicenseDataView, now: int)
    -> LicenseInfoView {
    LicenseInfoView {
        key: request.key,
        machine_code: request.machine_code,
        expires: data.expires,
        product_id: data.product_id,
        premium: data.premium,
        max_offline_days: data.max_offline_days,
        last_activation: Some(now),
        cached_at: now,
    }
}

/// What an activation returns for each way the call can end: the new record
/// where the authority granted an entitlement, and otherwise the reason.
pub open spec fn activation_outcome(
    request: ActivationRequestView,
    reply: ActivationReplyView,
    now: int,
) -> Result<LicenseInfoView, LicenseErrorView> {
    match reply {
        ActivationReplyView::Unreachable => Err(LicenseErrorView::NetworkError),
        ActivationReplyView::Refused(Some(body)) => Err(LicenseErrorView::ValidationError(body)),
        ActivationReplyView::Refused(None) => Err(
            LicenseErrorView::ValidationError("Erro desconhecido"@),
        ),
        ActivationReplyView::Malformed => Err(
            LicenseErrorView::ValidationError("Resposta inválida do servidor"@),
        ),
        ActivationReplyView::Answer(answer) => match answer.license {
            Some(data) => Ok(activated(request, data, now)),
            None => Err(LicenseErrorView::ValidationError("Dados de licença não recebidos"@)),
        },
    }
}

/// What a renewal returns for each way the call can end: the record with the
/// new expiry where the authority named one that can be read, and otherwise
/// the reason.
pub open spec fn renewal_outcome(license: LicenseInfoView, reply: RenewalReplyView, now: int)
    -> Result<LicenseInfoView, LicenseErrorView> {
    match reply {
        RenewalReplyView::Unreachable => Err(LicenseErrorView::NetworkError),
        RenewalReplyView::Refused(Some(body)) => Err(LicenseErrorView::ValidationError(body)),
        RenewalReplyView::Refused(None) => Err(
            LicenseErrorView::ValidationError("Erro desconhecido"@),
        ),
        RenewalReplyView::Malformed => Err(
            LicenseErrorView::ValidationError("Resposta inválida do servidor"@),
        ),
        RenewalReplyView::Answer(members) => if members.contains_key(NEW_EXPIRATION_MEMBER@) {
            match parsed_instant(members[NEW_EXPIRATION_MEMBER@]) {
                Some(expires) => Ok(renewed(license, expires, now)),
                None => Err(LicenseErrorView::ValidationError("Data de expiração inválida"@)),
            }
        } else {
            Err(LicenseErrorView::ValidationError("Nova data de expiração não recebida"@))
        },
    }
}

/// How a validation begins.
#[derive(Debug, PartialEq, Eq)]
pub enum ValidationStep {
    /// The answer is known without the authority. The host asks nothing.
    Done(Result<LicenseStatus, LicenseError>),
    /// The host is to send `request` to the authority and to conclude the
    /// validation of `license` with the reply.
    Ask { license: LicenseInfo, request: ValidationRequest },
}

/// A first step as plain values.
pub enum ValidationStepView {
    Done(Result<LicenseStatus, LicenseErrorView>),
    Ask { license: LicenseInfoView, request: ValidationRequestView },
}

impl View for ValidationStep {
    type V = ValidationStepView;

    open spec fn view(&self) -> ValidationStepView {
        match self {
            ValidationStep::Done(outcome) => ValidationStepView::Done(result_view(*outcome)),
            ValidationStep::Ask { license, request } => ValidationStepView::Ask {
                license: license@,
                request: request@,
            },
        }
    }
}

/// How a validation ends.
#[derive(Debug, PartialEq, Eq)]
pub struct ValidationOutcome {
    /// What the validation returns.
    pub status: Result<LicenseStatus, LicenseError>,
    /// The record that the host is to persist, where the authority
    /// confirmed; a failure to persist it changes nothing in `status`.
    pub refreshed: Option<LicenseInfo>,
}

/// The end of a validation as plain values.
pub struct ValidationOutcomeView {
    pub status: Result<LicenseStatus, LicenseErrorView>,
    pub refreshed: Option<LicenseInfoView>,
}

impl View for ValidationOutcome {
    type V = ValidationOutcomeView;

    open spec fn view(&self) -> ValidationOutcomeView {
        ValidationOutcomeView {
            status: result_view(self.status),
            refreshed: match self.refreshed {
                Some(license) => Some(license@),
                None => None,
            },
        }
    }
}

/// The first step of a validation at `now` over a slot: the failure to load
/// where no record can be loaded, expired where the record has expired, and
/// otherwise a question to the authority that names the record's key and
/// machine code.
pub open spec fn first_step(slot: SlotView, now: int) -> ValidationStepView {
    match loaded(slot) {
        Err(error) => ValidationStepView::Done(Err(error)),
        Ok(license) => if license.expires < now {
            ValidationStepView::Done(Ok(LicenseStatus::Expired))
        } else {
            ValidationStepView::Ask {
                license,
                request: ValidationRequestView {
                    key: license.key,
                    machine_code: license.machine_code,
                },
            }
        },
    }
}

/// The end of a validation of `license` whose question was answered by
/// `reply` at `now`: where the authority confirmed, the status that the
/// expiry gives and the refreshed record; in every other case the offline
/// status and nothing to persist.
pub open spec fn concluded(license: LicenseInfoView, reply: ValidationReply, now: int)
    -> ValidationOutcomeView {
    if reply is Confirmed {
        ValidationOutcomeView {
            status: Ok(expiry_status(license.expires, now)),
            refreshed: Some(refreshed(license, now)),
        }
    } else {
        ValidationOutcomeView { status: Ok(offline_status(license, now)), refreshed: None }
    }
}

/// A whole activation: what it leaves in the slot and what it returns, given
/// what was asked, how the call ended, at `now`, and whether the medium took
/// the write.
pub open spec fn activation(
    slot: SlotView,
    request: ActivationRequestView,
    reply: ActivationReplyView,
    now: int,
    written: bool,
) -> (SlotView, Result<LicenseInfoView, LicenseErrorView>) {
    persisted(slot, activation_outcome(request, reply, now), written)
}

/// The end of a renewal of `license`, once the authority was asked: what it
/// leaves in the slot and what it returns.
pub open spec fn renewal_end(
    slot: SlotView,
    license: LicenseInfoView,
    reply: RenewalReplyView,
    now: int,
    written: bool,
) -> (SlotView, Result<LicenseInfoView, LicenseErrorView>) {
    persisted(slot, renewal_outcome(license, reply, now), written)
}

/// A whole renewal: what it leaves in the slot and what it returns. The
/// authority is asked only where a record can be loaded.
pub open spec fn renewal(slot: SlotView, reply: RenewalReplyView, now: int, written: bool) -> (
    SlotView,
    Result<LicenseInfoView, LicenseErrorView>,
) {
    match loaded(slot) {
        Ok(license) => renewal_end(slot, license, reply, now, written),
        Err(error) => (slot, Err(error)),
    }
}

/// The end of a validation of `license`, once the authority was asked and
/// replied at `ended`: what it leaves in the slot and what it returns.
/// Whether the refreshed record could be written shows in the slot alone.
pub open spec fn validation_end(
    slot: SlotView,
    license: LicenseInfoView,
    reply: ValidationReply,
    ended: int,
    written: bool,
) -> (SlotView, Result<LicenseStatus, LicenseErrorView>) {
    let end = concluded(license, reply, ended);
    match end.refreshed {
        Some(record) => (after_save(slot, record, written), end.status),
        None => (slot, end.status),
    }
}

/// A whole validation that begins at `begun` and, where the authority is
/// asked, ends with its reply at `ended`: what it leaves in the slot and what
/// it returns.
pub open spec fn validation(
    slot: SlotView,
    begun: int,
    reply: ValidationReply,
    ended: int,
    written: bool,
) -> (SlotView, Result<LicenseStatus, LicenseErrorView>) {
    match first_step(slot, begun) {
        ValidationStepView::Done(outcome) => (slot, outcome),
        ValidationStepView::Ask { license, request } => validation_end(
            slot,
            license,
            reply,
            ended,
            written,
        ),
    }
}

/// Whether `written` is what the host's way of writing, `write`, answers to
/// the record that is to be written; where there is none, nothing is written
/// and `written` is false.
pub open spec fn written_by<W: FnOnce(&LicenseInfo) -> bool>(
    write: W,
    record: Option<LicenseInfo>,
    written: bool,
) -> bool {
    match record {
        Some(record) => write.ensures((&record,), written),
        None => !written,
    }
}

/// Whether `removed` is what the host's way of removing, `remove`, answers;
/// where nothing is stored, nothing is removed and `removed` is false.
pub open spec fn removed_by<R: FnOnce() -> bool>(remove: R, slot: SlotView, removed: bool) -> bool {
    if occupied(slot) {
        remove.ensures((), removed)
    } else {
        !removed
    }
}

/// The record inside a decision to store one.
pub open spec fn record_of(decided: Result<LicenseInfo, LicenseError>) -> Option<LicenseInfo> {
    match decided {
        Ok(record) => Some(record),
        Err(_) => None,
    }
}

/// The rules of the license, for one authority.
#[derive(Debug, PartialEq, Eq)]
pub struct LicenseValidator {
    api_base_url: String,
}

impl LicenseValidator {
    /// The address of the authority, without a path.
    pub closed spec fn base_url(&self) -> Seq<char> {
        self.api_base_url@
    }

    /// A validator for the authority at its standard address.
    pub fn new() -> (validator: Self)
        ensures
            validator.base_url() == "http://localhost:3030"@,
    {
        LicenseValidator { api_base_url: String::from_str("http://localhost:3030") }
    }

    /// Where an activation is sent.
    pub fn activation_endpoint(&self) -> (endpoint: Endpoint)
        ensures
            endpoint@ == (EndpointView {
                method: Method::Post,
                url: self.base_url() + "/api/activate"@,
                timeout_secs: None,
            }),
    {
        Endpoint {
            method: Method::Post,
            url: self.api_base_url.clone().concat("/api/activate"),
            timeout_secs: None,
        }
    }

    /// Where a validation is sent, and how long it may take.
    pub fn validation_endpoint(&self) -> (endpoint: Endpoint)
        ensures
            endpoint@ == (EndpointView {
                method: Method::Post,
                url: self.base_url() + "/api/validate"@,
                timeout_secs: Some(VALIDATION_TIMEOUT_SECS),
            }),
    {
        Endpoint {
            method: Method::Post,
            url: self.api_base_url.clone().concat("/api/validate"),
            timeout_secs: Some(VALIDATION_TIMEOUT_SECS),
        }
    }

    /// Where a renewal is sent.
    pub fn renewal_endpoint(&self) -> (endpoint: Endpoint)
        ensures
            endpoint@ == (EndpointView {
                method: Method::Put,
                url: self.base_url() + "/api/renew-brilliant-pdf"@,
                timeout_secs: None,
            }),
    {
        Endpoint {
            method: Method::Put,
            url: self.api_base_url.clone().concat("/api/renew-brilliant-pdf"),
            timeout_secs: None,
        }
    }

    /// What an activation of `license_key` on the machine with the given
    /// code carries.
    pub fn activation_request(&self, license_key: String, machine_code: &String) -> (request:
        ActivationRequest)
        ensures
            request@ == (ActivationRequestView { key: license_key@, machine_code: machine_code@ }),
    {
        ActivationRequest { key: license_key, machine_code: machine_code.clone() }
    }

    /// Concludes the activation that `request` asked for from the reply to
    /// it, which came at `now`. Returns the record to persist, or the reason
    /// why there is none. The record binds the key and the machine code of
    /// the request. The activation has succeeded once the storage has taken
    /// the record; until then nothing stored has changed.
    pub fn activate_license(&self, request: ActivationRequest, reply: ActivationReply, now: Timestamp)
        -> (outcome: Result<LicenseInfo, LicenseError>)
        ensures
            result_view(outcome) == activation_outcome(request@, reply@, now@),
    {
        match reply {
            ActivationReply::Unreachable => Err(LicenseError::NetworkError),
            ActivationReply::Refused(body) => match body {
                Some(text) => Err(LicenseError::ValidationError(text)),
                None => Err(LicenseError::ValidationError(String::from_str("Erro desconhecido"))),
            },
            ActivationReply::Malformed => Err(
                LicenseError::ValidationError(String::from_str("Resposta inválida do servidor")),
            ),
            ActivationReply::Answer(answer) => match answer.license {
                Some(data) => Ok(
                    LicenseInfo {
                        key: request.key,
                        machine_code: request.machine_code,
                        expires: data.expires,
                        product_id: data.product_id,
                        premium: data.premium,
                        max_offline_days: data.max_offline_days,
                        last_activation: Some(now),
                        cached_at: now,
                    },
                ),
                None => Err(
                    LicenseError::ValidationError(
                        String::from_str("Dados de licença não recebidos"),
                    ),
                ),
            },
        }
    }

    /// A whole activation but for the exchange with the authority: concludes
    /// what `request` asked for from the reply, has the host write the record
    /// where there is one, and follows the write in `storage`. `write` is the
    /// host's way of writing a record to the medium; it says whether the
    /// medium took the record, and is called once where there is a record and
    /// not at all where there is none.
    pub fn complete_activation<W: FnOnce(&LicenseInfo) -> bool>(
        &self,
        storage: &mut LicenseStorage,
        request: ActivationRequest,
        reply: ActivationReply,
        now: Timestamp,
        write: W,
    ) -> (outcome: Result<LicenseInfo, LicenseError>)
        requires
            forall|record: &LicenseInfo| write.requires((record,)),
        ensures
            exists|decided: Result<LicenseInfo, LicenseError>, written: bool|
                {
                    &&& result_view(decided) == activation_outcome(request@, reply@, now@)
                    &&& #[trigger] written_by(write, record_of(decided), written)
                    &&& (final(storage)@, result_view(outcome)) == activation(
                        old(storage)@,
                        request@,
                        reply@,
                        now@,
                        written,
                    )
                },
    {
        let decided = self.activate_license(request, reply, now);
        let ghost kept = decided;
        let written = match &decided {
            Ok(record) => write(record),
            Err(_) => false,
        };
        let outcome = storage.persist(decided, written);
        assert(written_by(write, record_of(kept), written));
        outcome
    }

    /// A whole renewal of `license` from the reply on: concludes it from the
    /// reply, which came at `now`, has the host write the record where there
    /// is one, and follows the write in `storage`. `write` is called once
    /// where there is a record and not at all where there is none.
    pub fn complete_renewal<W: FnOnce(&LicenseInfo) -> bool>(
        &self,
        storage: &mut LicenseStorage,
        license: LicenseInfo,
        reply: RenewalReply,
        now: Timestamp,
        write: W,
    ) -> (outcome: Result<LicenseInfo, LicenseError>)
        requires
            forall|record: &LicenseInfo| write.requires((record,)),
        ensures
            exists|decided: Result<LicenseInfo, LicenseError>, written: bool|
                {
                    &&& result_view(decided) == renewal_outcome(license@, reply@, now@)
                    &&& #[trigger] written_by(write, record_of(decided), written)
                    &&& (final(storage)@, result_view(outcome)) == renewal_end(
                        old(storage)@,
                        license@,
                        reply@,
                        now@,
                        written,
                    )
                },
    {
        let decided = self.renew_license(license, reply, now);
        let ghost kept = decided;
        let written = match &decided {
            Ok(record) => write(record),
            Err(_) => false,
        };
        let outcome = storage.persist(decided, written);
        assert(written_by(write, record_of(kept), written));
        outcome
    }

    /// A whole validation of `license` from the reply on: concludes it from
    /// the reply, which came at `now`, and, where the authority confirmed,
    /// has the host write the refreshed record and follows the write in
    /// `storage`. A write that fails changes nothing in what is returned.
    pub fn complete_validation<W: FnOnce(&LicenseInfo) -> bool>(
        &self,
        storage: &mut LicenseStorage,
        license: &LicenseInfo,
        reply: ValidationReply,
        now: Timestamp,
        write: W,
    ) -> (status: Result<LicenseStatus, LicenseError>)
        requires
            forall|record: &LicenseInfo| write.requires((record,)),
        ensures
            exists|refreshed: Option<LicenseInfo>, written: bool|
                {
                    &&& (match refreshed {
                        Some(record) => Some(record@),
                        None => None,
                    }) == concluded(license@, reply, now@).refreshed
                    &&& #[trigger] written_by(write, refreshed, written)
                    &&& (final(storage)@, result_view(status)) == validation_end(
                        old(storage)@,
                        license@,
                        reply,
                        now@,
                        written,
                    )
                },
    {
        let outcome = self.conclude_validation(license, reply, now);
        let ghost kept = outcome.refreshed;
        let mut written = false;
        if let Some(record) = &outcome.refreshed {
            written = write(record);
            let _ = storage.save_license(record, written);
        }
        assert(written_by(write, kept, written));
        outcome.status
    }

    /// A whole deactivation: has the host remove what the slot holds, where
    /// it holds anything, and follows the removal in `storage`. `remove` is
    /// the host's way of removing what is stored; it says whether it is gone.
    pub fn complete_deactivation<R: FnOnce() -> bool>(
        &self,
        storage: &mut LicenseStorage,
        remove: R,
    ) -> (deleted: Result<(), LicenseError>)
        requires
            remove.requires(()),
        ensures
            exists|removed: bool|
                {
                    &&& #[trigger] removed_by(remove, old(storage)@, removed)
                    &&& final(storage)@ == after_delete(old(storage)@, removed)
                    &&& deleted is Ok <==> delete_succeeds(old(storage)@, removed)
                },
            deleted matches Err(error) ==> error@ == LicenseErrorView::StorageError,
    {
        let removed = if self.is_activated(storage) {
            remove()
        } else {
            false
        };
        let deleted = self.deactivate_license(storage, removed);
        assert(removed_by(remove, old(storage)@, removed));
        deleted
    }

    /// Begins a validation at `now`: loads the record and says whether the
    /// authority is to be asked. It is not asked where no record can be
    /// loaded or where the record has expired.
    pub fn validate_license(&self, storage: &LicenseStorage, now: Timestamp) -> (step:
        ValidationStep)
        ensures
            step@ == first_step(storage@, now@),
    {
        match storage.load_license() {
            Err(error) => ValidationStep::Done(Err(error)),
            Ok(license) => {
                if license.expires.is_before(&now) {
                    ValidationStep::Done(Ok(LicenseStatus::Expired))
                } else {
                    let request = ValidationRequest {
                        key: license.key.clone(),
                        machine_code: license.machine_code.clone(),
                    };
                    ValidationStep::Ask { license, request }
                }
            },
        }
    }

    /// Ends a validation of `license` with the reply to its question, which
    /// came at `now`. A reply other than a confirmation is no failure: the
    /// record is then judged offline.
    pub fn conclude_validation(&self, license: &LicenseInfo, reply: ValidationReply, now: Timestamp)
        -> (outcome: ValidationOutcome)
        ensures
            outcome@ == concluded(license@, reply, now@),
    {
        match self.validate_online(license, reply, now) {
            Ok((status, refreshed)) => ValidationOutcome {
                status: Ok(status),
                refreshed: Some(refreshed),
            },
            Err(_) => ValidationOutcome {
                status: self.validate_offline(license, now),
                refreshed: None,
            },
        }
    }

    /// Judges `license` by the authority's reply, which came at `now`.
    /// Succeeds exactly where the authority confirmed, with the status that
    /// the expiry gives and the refreshed record; fails with `NetworkError`
    /// otherwise.
    pub fn validate_online(&self, license: &LicenseInfo, reply: ValidationReply, now: Timestamp)
        -> (outcome: Result<(LicenseStatus, LicenseInfo), LicenseError>)
        ensures
            outcome is Ok <==> reply is Confirmed,
            outcome matches Ok((status, updated)) ==> status == expiry_status(
                license@.expires,
                now@,
            ) && updated@ == refreshed(license@, now@),
            outcome matches Err(error) ==> error@ == LicenseErrorView::NetworkError,
    {
        match reply {
            ValidationReply::Confirmed => {
                let mut updated = license.clone();
                updated.last_activation = Some(now);
                updated.cached_at = now;
                Ok((expiry_status_at(&license.expires, &now), updated))
            },
            _ => Err(LicenseError::NetworkError),
        }
    }

    /// Judges `license` at `now` by what the record itself says. Never
    /// fails, and changes nothing.
    pub fn validate_offline(&self, license: &LicenseInfo, now: Timestamp) -> (outcome: Result<
        LicenseStatus,
        LicenseError,
    >)
        ensures
            outcome == Ok::<LicenseStatus, LicenseError>(offline_status(license@, now@)),
    {
        if license.expires.is_before(&now) {
            return Ok(LicenseStatus::Expired);
        }
        if let Some(last_activation) = license.last_activation {
            let days_offline = now.whole_days_since(&last_activation);
            if days_offline > license.max_offline_days as i64 {
                return Ok(LicenseStatus::OfflineExpired);
            }
        }
        Ok(expiry_status_at(&license.expires, &now))
    }

    /// Begins a renewal: loads the record and says what to ask the authority
    /// about it. Where no record can be loaded the renewal ends here with
    /// the failure to load, and the authority is not asked.
    pub fn begin_renewal(&self, storage: &LicenseStorage) -> (begun: Result<
        (LicenseInfo, RenewalRequest),
        LicenseError,
    >)
        ensures
            begun is Ok <==> loaded(storage@) is Ok,
            begun matches Ok((license, request)) ==> loaded(storage@) == Ok::<
                LicenseInfoView,
                LicenseErrorView,
            >(license@) && request@ == (RenewalRequestView { key: license@.key }),
            begun matches Err(error) ==> loaded(storage@) == Err::<
                LicenseInfoView,
                LicenseErrorView,
            >(error@),
    {
        match storage.load_license() {
            Ok(license) => {
                let request = self.renewal_request(&license);
                Ok((license, request))
            },
            Err(error) => Err(error),
        }
    }

    /// What a renewal of `license` carries.
    pub fn renewal_request(&self, license: &LicenseInfo) -> (request: RenewalRequest)
        ensures
            request@ == (RenewalRequestView { key: license@.key }),
    {
        RenewalRequest { key: license.key.clone() }
    }

    /// Concludes a renewal of `license` from the reply to its request, which
    /// came at `now`. Returns the record to persist, or the reason why there
    /// is none.
    pub fn renew_license(&self, license: LicenseInfo, reply: RenewalReply, now: Timestamp) -> (outcome:
        Result<LicenseInfo, LicenseError>)
        ensures
            result_view(outcome) == renewal_outcome(license@, reply@, now@),
    {
        match reply {
            RenewalReply::Unreachable => Err(LicenseError::NetworkError),
            RenewalReply::Refused(body) => match body {
                Some(text) => Err(LicenseError::ValidationError(text)),
                None => Err(LicenseError::ValidationError(String::from_str("Erro desconhecido"))),
            },
            RenewalReply::Malformed => Err(
                LicenseError::ValidationError(String::from_str("Resposta inválida do servidor")),
            ),
            RenewalReply::Answer(document) => match text_member(&document, NEW_EXPIRATION_MEMBER) {
                Some(text) => match Timestamp::parse(text.as_str()) {
                    Some(expires) => {
                        let mut updated = license;
                        updated.expires = expires;
                        updated.last_activation = Some(now);
                        updated.cached_at = now;
                        Ok(updated)
                    },
                    None => Err(
                        LicenseError::ValidationError(
                            String::from_str("Data de expiração inválida"),
                        ),
                    ),
                },
                None => Err(
                    LicenseError::ValidationError(
                        String::from_str("Nova data de expiração não recebida"),
                    ),
                ),
            },
        }
    }

    /// The stored record.
    pub fn get_license_info(&self, storage: &LicenseStorage) -> (found: Result<
        LicenseInfo,
        LicenseError,
    >)
        ensures
            result_view(found) == loaded(storage@),
    {
        storage.load_license()
    }

    /// Gives the license up: takes note that the host removed what the slot
    /// held, or could not.
    pub fn deactivate_license(&self, storage: &mut LicenseStorage, removed: bool) -> (deleted:
        Result<(), LicenseError>)
        ensures
            final(storage)@ == after_delete(old(storage)@, removed),
            deleted is Ok <==> delete_succeeds(old(storage)@, removed),
            deleted matches Err(error) ==> error@ == LicenseErrorView::StorageError,
    {
        storage.delete_license(removed)
    }

    /// Whether the product was ever activated on this machine and not given
    /// up since. Looks at the presence of a record alone, not at its expiry.
    pub fn is_activated(&self, storage: &LicenseStorage) -> (activated: bool)
        ensures
            activated == occupied(storage@),
    {
        storage.license_exists()
    }
}

/// The status that the expiry alone gives at `now`.
pub fn expiry_status_at(expires: &Timestamp, now: &Timestamp) -> (status: LicenseStatus)
    ensures
        status == expiry_status(expires@, now@),
{
    let days_until_expiry = expires.whole_days_since(now);
    if days_until_expiry <= NEAR_EXPIRATION_DAYS {
        LicenseStatus::NearExpiration(days_until_expiry)
    } else {
        LicenseStatus::Valid
    }
}

} // verus!
