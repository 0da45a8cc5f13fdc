use brilliant_pdf::time::Timestamp;
use brilliant_pdf::license::types::{
    ActivationRequest, ActivationResponse, LicenseData, LicenseError, LicenseInfo, LicenseStatus,
};

#[test]
fn error_messages() {
    assert_eq!(LicenseError::NotActivated.to_string(), "Produto não foi ativado");
    assert_eq!(LicenseError::Expired.to_string(), "Licença expirada");
    assert_eq!(LicenseError::InvalidKey.to_string(), "Chave de licença inválida");
    assert_eq!(LicenseError::NetworkError.to_string(), "Erro de conexão com o servidor");
    assert_eq!(LicenseError::StorageError.to_string(), "Erro ao acessar dados da licença");
    assert_eq!(
        LicenseError::OfflineExpired.to_string(),
        "Período offline expirado - conecte-se à internet"
    );
}

#[test]
fn validation_error_carries_its_detail() {
    assert_eq!(
        LicenseError::ValidationError("chave desconhecida".to_string()).to_string(),
        "Erro de validação: chave desconhecida"
    );
    assert_eq!(LicenseError::ValidationError(String::new()).to_string(), "Erro de validação: ");
}

#[test]
fn status_permits_use_only_while_valid() {
    assert!(LicenseStatus::Valid.permits_use());
    assert!(LicenseStatus::NearExpiration(7).permits_use());
    assert!(LicenseStatus::NearExpiration(0).permits_use());
    assert!(LicenseStatus::NearExpiration(-1).permits_use());
    assert!(!LicenseStatus::Expired.permits_use());
    assert!(!LicenseStatus::NotActivated.permits_use());
    assert!(!LicenseStatus::OfflineExpired.permits_use());
}

#[test]
fn clones_are_equal_to_what_was_cloned() {
    let at = Timestamp::new(1_700_000_000, 12).unwrap();
    let info = LicenseInfo {
        key: "ABC-123".to_string(),
        machine_code: "MC-0000000000000001".to_string(),
        expires: at,
        product_id: "brilliant-pdf".to_string(),
        premium: false,
        max_offline_days: 3,
        last_activation: None,
        cached_at: at,
    };
    assert_eq!(info.clone(), info);
    let data = LicenseData {
        id: "42".to_string(),
        key: "ABC-123".to_string(),
        expires: at,
        product_id: "brilliant-pdf".to_string(),
        premium: true,
        max_offline_days: 5,
        machine_code: Some("MC-0000000000000001".to_string()),
        last_activation: Some(at),
    };
    assert_eq!(data.clone(), data);
    let response = ActivationResponse { message: "ok".to_string(), license: Some(data) };
    assert_eq!(response.clone(), response);
    let request =
        ActivationRequest { key: "ABC-123".to_string(), machine_code: "MC-1".to_string() };
    assert_eq!(request.clone(), request);
    let error = LicenseError::ValidationError("x".to_string());
    assert_eq!(error.clone(), error);
    assert_eq!(LicenseError::NetworkError.clone(), LicenseError::NetworkError);
}
