//! The license record, what the authority sends, and the outcomes of the
//! operations on them.
//!
//! Every type that owns text has a view in which the text is a `Seq<char>`
//! and every instant an `int` of nanoseconds since the epoch. Contracts are
//! stated over those views.

use crate::time::Timestamp;
use vstd::prelude::*;
use vstd::string::*;

verus! {

/// The instant inside an optional timestamp.
pub open spec fn instant_of(t: Option<Timestamp>) -> Option<int> {
    match t {
        Some(t) => Some(t@),
        None => None,
    }
}

/// The text inside an optional string.
pub open spec fn text_of(t: Option<String>) -> Option<Seq<char>> {
    match t {
        Some(t) => Some(t@),
        None => None,
    }
}

/// A result with both sides replaced by their views.
pub open spec fn result_view<T: View, E: View>(r: Result<T, E>) -> Result<T::V, E::V> {
    match r {
        Ok(t) => Ok(t@),
        Err(e) => Err(e@),
    }
}

/// The one record that a machine keeps of its license.
#[derive(Debug, PartialEq, Eq)]
pub struct LicenseInfo {
    /// The key, as the authority issued it.
    pub key: String,
    /// The fingerprint of the machine at the last activation.
    pub machine_code: String,
    /// The instant after which the license is void.
    pub expires: Timestamp,
    pub product_id: String,
    pub premium: bool,
    /// Days of use that the authority grants without contact.
    pub max_offline_days: i32,
    /// The last successful contact with the authority.
    pub last_activation: Option<Timestamp>,
    /// The last local write; for diagnosis only.
    pub cached_at: Timestamp,
}

/// A license record as plain values.
pub struct LicenseInfoView {
    pub key: Seq<char>,
    pub machine_code: Seq<char>,
    pub expires: int,
    pub product_id: Seq<char>,
    pub premium: bool,
    pub max_offline_days: int,
    pub last_activation: Option<int>,
    pub cached_at: int,
}

impl View for LicenseInfo {
    type V = LicenseInfoView;

    open spec fn view(&self) -> LicenseInfoView {
        LicenseInfoView {
            key: self.key@,
            machine_code: self.machine_code@,
            expires: self.expires@,
            product_id: self.product_id@,
            premium: self.premium,
            max_offline_days: self.max_offline_days as int,
            last_activation: instant_of(self.last_activation),
            cached_at: self.cached_at@,
        }
    }
}

impl Clone for LicenseInfo {
    fn clone(&self) -> (copy: Self)
        ensures
            copy == *self,
    {
        LicenseInfo {
            key: self.key.clone(),
            machine_code: self.machine_code.clone(),
            expires: self.expires,
            product_id: self.product_id.clone(),
            premium: self.premium,
            max_offline_days: self.max_offline_days,
            last_activation: self.last_activation,
            cached_at: self.cached_at,
        }
    }
}

/// What is sent to the authority to bind a key to a machine.
#[derive(Debug, PartialEq, Eq)]
pub struct ActivationRequest {
    pub key: String,
    pub machine_code: String,
}

/// An activation request as plain values.
pub struct ActivationRequestView {
    pub key: Seq<char>,
    pub machine_code: Seq<char>,
}

impl View for ActivationRequest {
    type V = ActivationRequestView;

    open spec fn view(&self) -> ActivationRequestView {
        ActivationRequestView { key: self.key@, machine_code: self.machine_code@ }
    }
}

impl Clone for ActivationRequest {
    fn clone(&self) -> (copy: Self)
        ensures
            copy == *self,
    {
        ActivationRequest { key: self.key.clone(), machine_code: self.machine_code.clone() }
    }
}

/// The entitlement that the authority grants on activation.
#[derive(Debug, PartialEq, Eq)]
pub struct LicenseData {
    pub id: String,
    pub key: String,
    pub expires: Timestamp,
    pub product_id: String,
    pub premium: bool,
    pub max_offline_days: i32,
    pub machine_code: Option<String>,
    pub last_activation: Option<Timestamp>,
}

/// A granted entitlement as plain values.
pub struct LicenseDataView {
    pub id: Seq<char>,
    pub key: Seq<char>,
    pub expires: int,
    pub product_id: Seq<char>,
    pub premium: bool,
    pub max_offline_days: int,
    pub machine_code: Option<Seq<char>>,
    pub last_activation: Option<int>,
}

impl View for LicenseData {
    type V = LicenseDataView;

    open spec fn view(&self) -> LicenseDataView {
        LicenseDataView {
            id: self.id@,
            key: self.key@,
            expires: self.expires@,
            product_id: self.product_id@,
            premium: self.premium,
            max_offline_days: self.max_offline_days as int,
            machine_code: text_of(self.machine_code),
            last_activation: instant_of(self.last_activation),
        }
    }
}

impl Clone for LicenseData {
    fn clone(&self) -> (copy: Self)
        ensures
            copy == *self,
    {
        LicenseData {
            id: self.id.clone(),
            key: self.key.clone(),
            expires: self.expires,
            product_id: self.product_id.clone(),
            premium: self.premium,
            max_offline_days: self.max_offline_days,
            machine_code: match &self.machine_code {
                Some(code) => Some(code.clone()),
                None => None,
            },
            last_activation: self.last_activation,
        }
    }
}

/// The body of the authority's answer to an activation request.
#[derive(Debug, PartialEq, Eq)]
pub struct ActivationResponse {
    pub message: String,
    pub license: Option<LicenseData>,
}

/// An activation answer as plain values.
pub struct ActivationResponseView {
    pub message: Seq<char>,
    pub license: Option<LicenseDataView>,
}

impl View for ActivationResponse {
    type V = ActivationResponseView;

    open spec fn view(&self) -> ActivationResponseView {
        ActivationResponseView {
            message: self.message@,
            license: match self.license {
                Some(data) => Some(data@),
                None => None,
            },
        }
    }
}

impl Clone for ActivationResponse {
    fn clone(&self) -> (copy: Self)
        ensures
            copy == *self,
    {
        ActivationResponse {
            message: self.message.clone(),
            license: match &self.license {
                Some(data) => Some(data.clone()),
                None => None,
            },
        }
    }
}

/// What a license is worth at one instant. Computed, never stored.
#[derive(Clone, Copy, Debug, PartialEq, Eq, Structural)]
pub enum LicenseStatus {
    Valid,
    /// Usable, with this many whole days left.
    NearExpiration(i64),
    Expired,
    NotActivated,
    OfflineExpired,
}

impl View for LicenseStatus {
    type V = LicenseStatus;

    open spec fn view(&self) -> LicenseStatus {
        *self
    }
}

impl LicenseStatus {
    /// Whether the product may be used under this status.
    pub open spec fn spec_permits_use(&self) -> bool {
        *self is Valid || *self is NearExpiration
    }

    /// Whether the product may be used under this status: only while the
    /// license is valid, near its expiry or not.
    #[verifier::when_used_as_spec(spec_permits_use)]
    pub fn permits_use(&self) -> (usable: bool)
        ensures
            usable == self.spec_permits_use(),
    {
        match self {
            LicenseStatus::Valid => true,
            LicenseStatus::NearExpiration(_) => true,
            _ => false,
        }
    }
}

/// Why an operation on the license failed.
#[derive(Debug, PartialEq, Eq)]
pub enum LicenseError {
    NotActivated,
    Expired,
    InvalidKey,
    NetworkError,
    StorageError,
    /// The authority refused, with its reason.
    ValidationError(String),
    OfflineExpired,
}

/// A failure as plain values.
pub enum LicenseErrorView {
    NotActivated,
    Expired,
    InvalidKey,
    NetworkError,
    StorageError,
    ValidationError(Seq<char>),
    OfflineExpired,
}

impl View for LicenseError {
    type V = LicenseErrorView;

    open spec fn view(&self) -> LicenseErrorView {
        match self {
            LicenseError::NotActivated => LicenseErrorView::NotActivated,
            LicenseError::Expired => LicenseErrorView::Expired,
            LicenseError::InvalidKey => LicenseErrorView::InvalidKey,
            LicenseError::NetworkError => LicenseErrorView::NetworkError,
            LicenseError::StorageError => LicenseErrorView::StorageError,
            LicenseError::ValidationError(detail) => LicenseErrorView::ValidationError(detail@),
            LicenseError::OfflineExpired => LicenseErrorView::OfflineExpired,
        }
    }
}

impl Clone for LicenseError {
    fn clone(&self) -> (copy: Self)
        ensures
            copy == *self,
    {
        match self {
            LicenseError::NotActivated => LicenseError::NotActivated,
            LicenseError::Expired => LicenseError::Expired,
            LicenseError::InvalidKey => LicenseError::InvalidKey,
            LicenseError::NetworkError => LicenseError::NetworkError,
            LicenseError::StorageError => LicenseError::StorageError,
            LicenseError::ValidationError(detail) => LicenseError::ValidationError(detail.clone()),
            LicenseError::OfflineExpired => LicenseError::OfflineExpired,
        }
    }
}

/// The sentence shown to the user for a failure.
pub open spec fn error_text(error: LicenseErrorView) -> Seq<char> {
    match error {
        LicenseErrorView::NotActivated => "Produto não foi ativado"@,
        LicenseErrorView::Expired => "Licença expirada"@,
        LicenseErrorView::InvalidKey => "Chave de licença inválida"@,
        LicenseErrorView::NetworkError => "Erro de conexão com o servidor"@,
        LicenseErrorView::StorageError => "Erro ao acessar dados da licença"@,
        LicenseErrorView::ValidationError(detail) => "Erro de validação: "@ + detail,
        LicenseErrorView::OfflineExpired => "Período offline expirado - conecte-se à internet"@,
    }
}

impl LicenseError {
    /// The sentence shown to the user for this failure.
    pub fn to_string(&self) -> (text: String)
        ensures
            text@ == error_text(self@),
    {
        match self {
            LicenseError::NotActivated => String::from_str("Produto não foi ativado"),
            LicenseError::Expired => String::from_str("Licença expirada"),
            LicenseError::InvalidKey => String::from_str("Chave de licença inválida"),
            LicenseError::NetworkError => String::from_str("Erro de conexão com o servidor"),
            LicenseError::StorageError => String::from_str("Erro ao acessar dados da licença"),
            LicenseError::ValidationError(detail) => String::from_str("Erro de validação: ").concat(
                detail.as_str(),
            ),
            LicenseError::OfflineExpired => String::from_str(
                "Período offline expirado - conecte-se à internet",
            ),
        }
    }
}

} // verus!
