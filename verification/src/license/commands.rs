//! What the user interface is told: each outcome of the licensing
//! operations as the answer of a command.

use crate::license::storage::{loaded, LicenseStorage, SlotView};
use crate::license::types::{
    error_text, result_view, LicenseError, LicenseErrorView, LicenseInfo, LicenseInfoView,
    LicenseStatus,
};
use crate::license::validator::LicenseValidator;
use crate::text::{decimal, decimal_text};
use crate::time::{instant_text, whole_days, Timestamp};
use vstd::prelude::*;
use vstd::string::*;

verus! {

/// The stored record, made ready for display.
#[derive(Debug, PartialEq, Eq)]
pub struct LicenseInfoResponse {
    pub key: String,
    pub machine_code: String,
    /// The expiry, written out in UTC.
    pub expires: String,
    pub product_id: String,
    pub premium: bool,
    pub max_offline_days: i32,
    /// The last contact with the authority, written out in UTC.
    pub last_activation: Option<String>,
    /// Whole days from the moment of asking to the expiry.
    pub days_until_expiry: i64,
}

/// A displayed record as plain values.
pub struct LicenseInfoResponseView {
    pub key: Seq<char>,
    pub machine_code: Seq<char>,
    pub expires: Seq<char>,
    pub product_id: Seq<char>,
    pub premium: bool,
    pub max_offline_days: int,
    pub last_activation: Option<Seq<char>>,
    pub days_until_expiry: int,
}

impl View for LicenseInfoResponse {
    type V = LicenseInfoResponseView;

    open spec fn view(&self) -> LicenseInfoResponseView {
        LicenseInfoResponseView {
            key: self.key@,
            machine_code: self.machine_code@,
            expires: self.expires@,
            product_id: self.product_id@,
            premium: self.premium,
            max_offline_days: self.max_offline_days as int,
            last_activation: match self.last_activation {
                Some(text) => Some(text@),
                None => None,
            },
            days_until_expiry: self.days_until_expiry as int,
        }
    }
}

/// The status of the license, made ready for display.
#[derive(Debug, PartialEq, Eq)]
pub struct LicenseStatusResponse {
    /// Whether the product may be used.
    pub is_valid: bool,
    /// The status as a word for programs.
    pub status: String,
    /// The status as a sentence for the user.
    pub message: String,
    /// The whole days left, where the license is near its expiry.
    pub days_remaining: Option<i64>,
}

/// A displayed status as plain values.
pub struct LicenseStatusResponseView {
    pub is_valid: bool,
    pub status: Seq<char>,
    pub message: Seq<char>,
    pub days_remaining: Option<i64>,
}

impl View for LicenseStatusResponse {
    type V = LicenseStatusResponseView;

    open spec fn view(&self) -> LicenseStatusResponseView {
        LicenseStatusResponseView {
            is_valid: self.is_valid,
            status: self.status@,
            message: self.message@,
            days_remaining: self.days_remaining,
        }
    }
}

/// How a record is displayed at `now`.
pub open spec fn info_response(license: LicenseInfoView, now: int) -> LicenseInfoResponseView {
    LicenseInfoResponseView {
        key: license.key,
        machine_code: license.machine_code,
        expires: instant_text(license.expires),
        product_id: license.product_id,
        premium: license.premium,
        max_offline_days: license.max_offline_days,
        last_activation: match license.last_activation {
            Some(last) => Some(instant_text(last)),
            None => None,
        },
        days_until_expiry: whole_days(license.expires - now),
    }
}

/// How a status is displayed.
pub open spec fn status_response(status: LicenseStatus) -> LicenseStatusResponseView {
    match status {
        LicenseStatus::Valid => LicenseStatusResponseView {
            is_valid: true,
            status: "valid"@,
            message: "Licença válida"@,
            days_remaining: None,
        },
        LicenseStatus::NearExpiration(days) => LicenseStatusResponseView {
            is_valid: true,
            status: "near_expiration"@,
            message: "Licença expira em "@ + decimal_text(days as int) + " dias"@,
            days_remaining: Some(days),
        },
        LicenseStatus::Expired => LicenseStatusResponseView {
            is_valid: false,
            status: "expired"@,
            message: "Licença expirada"@,
            days_remaining: None,
        },
        LicenseStatus::NotActivated => LicenseStatusResponseView {
            is_valid: false,
            status: "not_activated"@,
            message: "Produto não ativado"@,
            days_remaining: None,
        },
        LicenseStatus::OfflineExpired => LicenseStatusResponseView {
            is_valid: false,
            status: "offline_expired"@,
            message: "Período offline expirado - conecte-se à internet"@,
            days_remaining: None,
        },
    }
}

/// What the command that validates answers for the outcome of a validation:
/// the status for display, where there is one; the status of a product not
/// activated, where the validation failed for want of a record; and the
/// failure in words in every other case.
pub open spec fn validation_answer(outcome: Result<LicenseStatus, LicenseErrorView>) -> Result<
    LicenseStatusResponseView,
    Seq<char>,
> {
    match outcome {
        Ok(status) => Ok(status_response(status)),
        Err(LicenseErrorView::NotActivated) => Ok(status_response(LicenseStatus::NotActivated)),
        Err(error) => Err(error_text(error)),
    }
}

/// What the command that shows the record answers over a slot at `now`.
pub open spec fn info_answer(slot: SlotView, now: int) -> Result<
    LicenseInfoResponseView,
    Seq<char>,
> {
    match loaded(slot) {
        Ok(license) => Ok(info_response(license, now)),
        Err(error) => Err(error_text(error)),
    }
}

/// A status for display.
fn respond(status: LicenseStatus) -> (response: LicenseStatusResponse)
    ensures
        response@ == status_response(status),
{
    match status {
        LicenseStatus::Valid => LicenseStatusResponse {
            is_valid: true,
            status: String::from_str("valid"),
            message: String::from_str("Licença válida"),
            days_remaining: None,
        },
        LicenseStatus::NearExpiration(days) => LicenseStatusResponse {
            is_valid: true,
            status: String::from_str("near_expiration"),
            message: String::from_str("Licença expira em ").concat(decimal(days).as_str()).concat(
                " dias",
            ),
            days_remaining: Some(days),
        },
        LicenseStatus::Expired => LicenseStatusResponse {
            is_valid: false,
            status: String::from_str("expired"),
            message: String::from_str("Licença expirada"),
            days_remaining: None,
        },
        LicenseStatus::NotActivated => LicenseStatusResponse {
            is_valid: false,
            status: String::from_str("not_activated"),
            message: String::from_str("Produto não ativado"),
            days_remaining: None,
        },
        LicenseStatus::OfflineExpired => LicenseStatusResponse {
            is_valid: false,
            status: String::from_str("offline_expired"),
            message: String::from_str("Período offline expirado - conecte-se à internet"),
            days_remaining: None,
        },
    }
}

/// Answers the command that activates, from the outcome of the activation.
pub fn activate_license(outcome: &Result<LicenseInfo, LicenseError>) -> (answer: Result<
    String,
    String,
>)
    ensures
        answer is Ok <==> outcome is Ok,
        answer matches Ok(message) ==> message@ == "Produto ativado com sucesso!"@,
        answer matches Err(reason) ==> outcome matches Err(error) && reason@ == error_text(error@),
{
    match outcome {
        Ok(_) => Ok(String::from_str("Produto ativado com sucesso!")),
        Err(error) => Err(error.to_string()),
    }
}

/// Answers the command that validates, from the outcome of the validation.
pub fn validate_current_license(outcome: &Result<LicenseStatus, LicenseError>) -> (answer: Result<
    LicenseStatusResponse,
    String,
>)
    ensures
        result_view(answer) == validation_answer(result_view(*outcome)),
{
    match outcome {
        Ok(status) => Ok(respond(*status)),
        Err(error) => match error {
            LicenseError::NotActivated => Ok(respond(LicenseStatus::NotActivated)),
            _ => Err(error.to_string()),
        },
    }
}

/// Answers the command that shows the stored record, at `now`.
pub fn get_license_info(storage: &LicenseStorage, now: Timestamp) -> (answer: Result<
    LicenseInfoResponse,
    String,
>)
    ensures
        result_view(answer) == info_answer(storage@, now@),
{
    let validator = LicenseValidator::new();
    match validator.get_license_info(storage) {
        Ok(license) => {
            let days_until_expiry = license.expires.whole_days_since(&now);
            let expires = license.expires.display_utc();
            let last_activation = match license.last_activation {
                Some(last) => Some(last.display_utc()),
                None => None,
            };
            Ok(
                LicenseInfoResponse {
                    key: license.key,
                    machine_code: license.machine_code,
                    expires,
                    product_id: license.product_id,
                    premium: license.premium,
                    max_offline_days: license.max_offline_days,
                    last_activation,
                    days_until_expiry,
                },
            )
        },
        Err(error) => Err(error.to_string()),
    }
}

/// Answers the command that renews, from the outcome of the renewal.
pub fn renew_license(outcome: &Result<LicenseInfo, LicenseError>) -> (answer: Result<
    String,
    String,
>)
    ensures
        answer is Ok <==> outcome is Ok,
        answer matches Ok(message) ==> message@ == "Licença renovada com sucesso!"@,
        answer matches Err(reason) ==> outcome matches Err(error) && reason@ == error_text(error@),
{
    match outcome {
        Ok(_) => Ok(String::from_str("Licença renovada com sucesso!")),
        Err(error) => Err(error.to_string()),
    }
}

/// Answers the command that gives the license up, from the outcome of the
/// deactivation.
pub fn deactivate_license(outcome: &Result<(), LicenseError>) -> (answer: Result<String, String>)
    ensures
        answer is Ok <==> outcome is Ok,
        answer matches Ok(message) ==> message@ == "Produto desativado com sucesso!"@,
        answer matches Err(reason) ==> outcome matches Err(error) && reason@ == error_text(error@),
{
    match outcome {
        Ok(_) => Ok(String::from_str("Produto desativado com sucesso!")),
        Err(error) => Err(error.to_string()),
    }
}

} // verus!
