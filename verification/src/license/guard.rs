//! The flag that says whether the product may be used, and the checks that
//! set it.
//!
//! The guard owns the flag. It is set by the check at startup and by each
//! periodic revalidation, and by nothing else; reading it asks nobody. The
//! host runs the validations and the timer and hands each outcome in.

use crate::license::storage::{occupied, LicenseStorage, SlotView};
use crate::license::types::{error_text, result_view, LicenseError, LicenseErrorView, LicenseStatus};
use crate::license::validator::LicenseValidator;
use crate::text::{decimal, decimal_text};
use vstd::prelude::*;
use vstd::string::*;

verus! {

/// Seconds between two periodic revalidations: one hour.
pub const REVALIDATION_INTERVAL_SECS: u64 = 3600;

/// Whether the outcome of a validation permits use of the product: only a
/// status of valid or near expiration does.
pub open spec fn usable(outcome: Result<LicenseStatus, LicenseErrorView>) -> bool {
    outcome matches Ok(status) && status.permits_use()
}

/// Why the startup check fails on the outcome of a validation, in words for
/// the user; `None` where it does not fail.
pub open spec fn refusal(outcome: Result<LicenseStatus, LicenseErrorView>) -> Option<Seq<char>> {
    match outcome {
        Ok(LicenseStatus::Valid) => None,
        Ok(LicenseStatus::NearExpiration(_)) => None,
        Ok(LicenseStatus::Expired) => Some(
            "Sua licença expirou. Por favor, renove para continuar usando o produto."@,
        ),
        Ok(LicenseStatus::NotActivated) => Some(
            "Produto não está ativado. Por favor, ative o produto para continuar."@,
        ),
        Ok(LicenseStatus::OfflineExpired) => Some(
            "Período offline expirado. Conecte-se à internet para validar sua licença."@,
        ),
        Err(error) => Some("Erro na validação da licença: "@ + error_text(error)),
    }
}

/// What the check at startup returns over a slot and the outcome of a
/// validation: a failure where nothing is stored, else as the outcome says.
pub open spec fn check_result(slot: SlotView, outcome: Result<LicenseStatus, LicenseErrorView>)
    -> Result<(), Seq<char>> {
    if !occupied(slot) {
        Err("Produto não está ativado. Por favor, ative o produto para continuar."@)
    } else {
        match refusal(outcome) {
            Some(reason) => Err(reason),
            None => Ok(()),
        }
    }
}

/// The flag after a check: set exactly where something is stored and the
/// outcome permits use. It is cleared by every other check, whatever it was
/// before.
pub open spec fn flag_after_check(slot: SlotView, outcome: Result<LicenseStatus, LicenseErrorView>)
    -> bool {
    occupied(slot) && usable(outcome)
}

/// The state of the license in words for display.
pub open spec fn validation_message(slot: SlotView, outcome: Result<LicenseStatus, LicenseErrorView>)
    -> Seq<char> {
    if !occupied(slot) {
        "Produto não ativado"@
    } else {
        match outcome {
            Ok(LicenseStatus::Valid) => "Licença válida"@,
            Ok(LicenseStatus::NearExpiration(days)) => "Licença expira em "@ + decimal_text(
                days as int,
            ) + " dias"@,
            Ok(LicenseStatus::Expired) => "Licença expirada"@,
            Ok(LicenseStatus::NotActivated) => "Produto não ativado"@,
            Ok(LicenseStatus::OfflineExpired) => "Período offline expirado"@,
            Err(error) => "Erro: "@ + error_text(error),
        }
    }
}

/// Whether the outcome of a validation permits use of the product.
pub fn permits_use(outcome: &Result<LicenseStatus, LicenseError>) -> (permitted: bool)
    ensures
        permitted == usable(result_view(*outcome)),
{
    match outcome {
        Ok(status) => status.permits_use(),
        Err(_) => false,
    }
}

/// The keeper of the flag that says whether the product may be used.
#[derive(Debug, PartialEq, Eq)]
pub struct LicenseGuard {
    validator: LicenseValidator,
    is_valid: bool,
}

impl LicenseGuard {
    /// Whether the product may be used, as far as the last check found.
    pub closed spec fn spec_can_use_product(&self) -> bool {
        self.is_valid
    }

    /// The rules that this guard checks by.
    pub closed spec fn spec_validator(&self) -> LicenseValidator {
        self.validator
    }

    /// A guard that has checked nothing yet, and so permits nothing.
    pub fn new() -> (guard: Self)
        ensures
            !guard.spec_can_use_product(),
            guard.spec_validator().base_url() == "http://localhost:3030"@,
    {
        LicenseGuard { validator: LicenseValidator::new(), is_valid: false }
    }

    /// The rules that this guard checks by.
    pub fn validator(&self) -> (validator: &LicenseValidator)
        ensures
            *validator == self.spec_validator(),
    {
        &self.validator
    }

    /// The check at startup. Succeeds exactly where `check_license` does,
    /// and then names the seconds after which the host is to revalidate,
    /// again and again, handing each outcome to `revalidate`.
    pub fn start_validation(
        &mut self,
        storage: &LicenseStorage,
        outcome: &Result<LicenseStatus, LicenseError>,
    ) -> (started: Result<u64, String>)
        ensures
            final(self).spec_validator() == old(self).spec_validator(),
            final(self).spec_can_use_product() == flag_after_check(
                storage@,
                result_view(*outcome),
            ),
            final(self).spec_can_use_product() == (check_result(
                storage@,
                result_view(*outcome),
            ) is Ok),
            started is Ok <==> check_result(storage@, result_view(*outcome)) is Ok,
            started matches Ok(period) ==> period == REVALIDATION_INTERVAL_SECS,
            started matches Err(reason) ==> Err::<(), Seq<char>>(reason@) == check_result(
                storage@,
                result_view(*outcome),
            ),
    {
        match self.check_license(storage, outcome) {
            Ok(()) => Ok(REVALIDATION_INTERVAL_SECS),
            Err(reason) => Err(reason),
        }
    }

    /// Sets the flag by the outcome of a validation over the given storage.
    /// Fails, with the reason in words, unless the outcome permits use, and
    /// then clears the flag. Where nothing is stored it fails without a look
    /// at the outcome.
    pub fn check_license(
        &mut self,
        storage: &LicenseStorage,
        outcome: &Result<LicenseStatus, LicenseError>,
    ) -> (checked: Result<(), String>)
        ensures
            final(self).spec_validator() == old(self).spec_validator(),
            final(self).spec_can_use_product() == flag_after_check(
                storage@,
                result_view(*outcome),
            ),
            final(self).spec_can_use_product() == (check_result(
                storage@,
                result_view(*outcome),
            ) is Ok),
            checked is Ok <==> check_result(storage@, result_view(*outcome)) is Ok,
            checked matches Err(reason) ==> Err::<(), Seq<char>>(reason@) == check_result(
                storage@,
                result_view(*outcome),
            ),
    {
        if !self.validator.is_activated(storage) {
            self.is_valid = false;
            return Err(
                String::from_str(
                    "Produto não está ativado. Por favor, ative o produto para continuar.",
                ),
            );
        }
        match outcome {
            Ok(LicenseStatus::Valid) => {
                self.is_valid = true;
                Ok(())
            },
            Ok(LicenseStatus::NearExpiration(_)) => {
                self.is_valid = true;
                Ok(())
            },
            Ok(LicenseStatus::Expired) => {
                self.is_valid = false;
                Err(
                    String::from_str(
                        "Sua licença expirou. Por favor, renove para continuar usando o produto.",
                    ),
                )
            },
            Ok(LicenseStatus::NotActivated) => {
                self.is_valid = false;
                Err(
                    String::from_str(
                        "Produto não está ativado. Por favor, ative o produto para continuar.",
                    ),
                )
            },
            Ok(LicenseStatus::OfflineExpired) => {
                self.is_valid = false;
                Err(
                    String::from_str(
                        "Período offline expirado. Conecte-se à internet para validar sua licença.",
                    ),
                )
            },
            Err(error) => {
                self.is_valid = false;
                Err(
                    String::from_str("Erro na validação da licença: ").concat(
                        error.to_string().as_str(),
                    ),
                )
            },
        }
    }

    /// One periodic revalidation: sets the flag to whether the outcome
    /// permits use. A failure of the validation forbids use.
    pub fn revalidate(&mut self, outcome: &Result<LicenseStatus, LicenseError>) -> (valid: bool)
        ensures
            final(self).spec_validator() == old(self).spec_validator(),
            final(self).spec_can_use_product() == usable(result_view(*outcome)),
            valid == usable(result_view(*outcome)),
    {
        let valid = permits_use(outcome);
        self.is_valid = valid;
        valid
    }

    /// Whether the product may be used, as far as the last check found.
    #[verifier::when_used_as_spec(spec_can_use_product)]
    pub fn can_use_product(&self) -> (usable: bool)
        ensures
            usable == self.spec_can_use_product(),
    {
        self.is_valid
    }

    /// The state of the license in words for display, from the outcome of a
    /// validation over the given storage. Neither reads nor sets the flag.
    pub fn get_validation_message(
        &self,
        storage: &LicenseStorage,
        outcome: &Result<LicenseStatus, LicenseError>,
    ) -> (message: String)
        ensures
            message@ == validation_message(storage@, result_view(*outcome)),
    {
        if !self.validator.is_activated(storage) {
            return String::from_str("Produto não ativado");
        }
        match outcome {
            Ok(LicenseStatus::Valid) => String::from_str("Licença válida"),
            Ok(LicenseStatus::NearExpiration(days)) => {
                let message = String::from_str("Licença expira em ").concat(
                    decimal(*days).as_str(),
                ).concat(" dias");
                message
            },
            Ok(LicenseStatus::Expired) => String::from_str("Licença expirada"),
            Ok(LicenseStatus::NotActivated) => String::from_str("Produto não ativado"),
            Ok(LicenseStatus::OfflineExpired) => String::from_str("Período offline expirado"),
            Err(error) => String::from_str("Erro: ").concat(error.to_string().as_str()),
        }
    }
}

/// What every privileged operation asks before it begins: whether the
/// product was activated on this machine. Passes where it was, whatever has
/// become of the license since.
pub fn check_license_middleware(storage: &LicenseStorage) -> (passed: Result<(), String>)
    ensures
        passed is Ok <==> occupied(storage@),
        passed matches Err(reason) ==> reason@
            == "Produto não ativado. Ative o produto para usar esta funcionalidade."@,
{
    let validator = LicenseValidator::new();
    if !validator.is_activated(storage) {
        return Err(
            String::from_str("Produto não ativado. Ative o produto para usar esta funcionalidade."),
        );
    }
    Ok(())
}

} // verus!
