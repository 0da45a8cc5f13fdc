use brilliant_pdf::license::commands::{
    activate_license, deactivate_license, get_license_info, renew_license,
    validate_current_license, LicenseInfoResponse, LicenseStatusResponse,
};
use brilliant_pdf::license::storage::{LicenseStorage, Slot};
use brilliant_pdf::time::Timestamp;
use brilliant_pdf::license::types::{LicenseError, LicenseInfo, LicenseStatus};

fn moment(secs: i64) -> Timestamp {
    Timestamp::new(secs, 0).unwrap()
}

fn kept(last_activation: Option<Timestamp>) -> LicenseInfo {
    LicenseInfo {
        key: "ABC-123".to_string(),
        machine_code: "MC-00000000000000AA".to_string(),
        expires: moment(1_431_648_000),
        product_id: "brilliant-pdf".to_string(),
        premium: true,
        max_offline_days: 5,
        last_activation,
        cached_at: moment(1_431_000_000),
    }
}

fn shown(is_valid: bool, status: &str, message: &str, days: Option<i64>) -> LicenseStatusResponse {
    LicenseStatusResponse {
        is_valid,
        status: status.to_string(),
        message: message.to_string(),
        days_remaining: days,
    }
}

#[test]
fn status_answers() {
    assert_eq!(
        validate_current_license(&Ok(LicenseStatus::Valid)),
        Ok(shown(true, "valid", "Licença válida", None))
    );
    assert_eq!(
        validate_current_license(&Ok(LicenseStatus::NearExpiration(4))),
        Ok(shown(true, "near_expiration", "Licença expira em 4 dias", Some(4)))
    );
    assert_eq!(
        validate_current_license(&Ok(LicenseStatus::NearExpiration(0))),
        Ok(shown(true, "near_expiration", "Licença expira em 0 dias", Some(0)))
    );
    assert_eq!(
        validate_current_license(&Ok(LicenseStatus::Expired)),
        Ok(shown(false, "expired", "Licença expirada", None))
    );
    assert_eq!(
        validate_current_license(&Ok(LicenseStatus::NotActivated)),
        Ok(shown(false, "not_activated", "Produto não ativado", None))
    );
    assert_eq!(
        validate_current_license(&Ok(LicenseStatus::OfflineExpired)),
        Ok(shown(
            false,
            "offline_expired",
            "Período offline expirado - conecte-se à internet",
            None
        ))
    );
}

#[test]
fn status_answer_for_a_missing_record_is_no_failure() {
    assert_eq!(
        validate_current_license(&Err(LicenseError::NotActivated)),
        Ok(shown(false, "not_activated", "Produto não ativado", None))
    );
}

#[test]
fn status_answer_for_a_failure() {
    assert_eq!(
        validate_current_license(&Err(LicenseError::StorageError)),
        Err("Erro ao acessar dados da licença".to_string())
    );
    assert_eq!(
        validate_current_license(&Err(LicenseError::NetworkError)),
        Err("Erro de conexão com o servidor".to_string())
    );
    assert_eq!(
        validate_current_license(&Err(LicenseError::Expired)),
        Err("Licença expirada".to_string())
    );
    assert_eq!(
        validate_current_license(&Err(LicenseError::ValidationError("x".to_string()))),
        Err("Erro de validação: x".to_string())
    );
}

#[test]
fn info_answer_shows_the_record() {
    let storage = LicenseStorage::new(Slot::Holding(kept(Some(moment(1_431_000_000)))));
    assert_eq!(
        get_license_info(&storage, moment(1_431_648_000 - 3 * 86_400 - 5)),
        Ok(LicenseInfoResponse {
            key: "ABC-123".to_string(),
            machine_code: "MC-00000000000000AA".to_string(),
            expires: "2015-05-15 00:00:00 UTC".to_string(),
            product_id: "brilliant-pdf".to_string(),
            premium: true,
            max_offline_days: 5,
            last_activation: Some("2015-05-07 12:00:00 UTC".to_string()),
            days_until_expiry: 3,
        })
    );
}

#[test]
fn info_answer_after_the_expiry() {
    let storage = LicenseStorage::new(Slot::Holding(kept(None)));
    let answer = get_license_info(&storage, moment(1_431_648_000 + 2 * 86_400 + 1)).unwrap();
    assert_eq!(answer.days_until_expiry, -2);
    assert_eq!(answer.last_activation, None);
    assert_eq!(answer.expires, "2015-05-15 00:00:00 UTC");
}

#[test]
fn info_answer_without_a_record() {
    assert_eq!(
        get_license_info(&LicenseStorage::new(Slot::Empty), moment(0)),
        Err("Produto não foi ativado".to_string())
    );
    assert_eq!(
        get_license_info(&LicenseStorage::new(Slot::Unreadable), moment(0)),
        Err("Erro ao acessar dados da licença".to_string())
    );
    assert_eq!(
        get_license_info(&LicenseStorage::new(Slot::Unavailable), moment(0)),
        Err("Erro ao acessar dados da licença".to_string())
    );
}

#[test]
fn activation_answers() {
    assert_eq!(activate_license(&Ok(kept(None))), Ok("Produto ativado com sucesso!".to_string()));
    assert_eq!(
        activate_license(&Err(LicenseError::NetworkError)),
        Err("Erro de conexão com o servidor".to_string())
    );
    assert_eq!(
        activate_license(&Err(LicenseError::ValidationError("chave usada".to_string()))),
        Err("Erro de validação: chave usada".to_string())
    );
    assert_eq!(
        activate_license(&Err(LicenseError::InvalidKey)),
        Err("Chave de licença inválida".to_string())
    );
}

#[test]
fn renewal_answers() {
    assert_eq!(renew_license(&Ok(kept(None))), Ok("Licença renovada com sucesso!".to_string()));
    assert_eq!(
        renew_license(&Err(LicenseError::NotActivated)),
        Err("Produto não foi ativado".to_string())
    );
    assert_eq!(
        renew_license(&Err(LicenseError::StorageError)),
        Err("Erro ao acessar dados da licença".to_string())
    );
}

#[test]
fn deactivation_answers() {
    assert_eq!(deactivate_license(&Ok(())), Ok("Produto desativado com sucesso!".to_string()));
    assert_eq!(
        deactivate_license(&Err(LicenseError::StorageError)),
        Err("Erro ao acessar dados da licença".to_string())
    );
}
