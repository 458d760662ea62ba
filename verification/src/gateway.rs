use vstd::prelude::*;
use vstd::string::StringSliceAdditionalSpecFns;

verus! {

/// Why an email address was rejected.
#[derive(Clone, Copy, Debug, PartialEq, Eq, Structural)]
pub enum EmailError {
    /// The address lacks an `@` or a `.`.
    InvalidFormat,
    /// The address is shorter than 5 or longer than 255 bytes.
    InvalidLength,
}

/// True of a byte string the service layer accepts as an email
/// address: it holds an `@` with at least one byte in front of it — the
/// local part must not be empty — and a `.`, and is 5 to 255 bytes
/// long.
pub open spec fn valid_email(s: Seq<u8>) -> bool {
    &&& exists|i: int| 1 <= i < s.len() && s[i] == 64u8
    &&& s.contains(46u8)
    &&& 5 <= s.len() <= 255
}

/// Accepts exactly the addresses `valid_email` describes; a missing
/// mark is reported before a bad length.
pub fn validate_email(email: &str) -> (r: Result<(), EmailError>)
    ensures
        match r {
            Ok(_) => valid_email(email.spec_bytes()),
            Err(e) => {
                &&& !valid_email(email.spec_bytes())
                &&& e == (if !(exists|i: int|
                    1 <= i < email.spec_bytes().len() && email.spec_bytes()[i] == 64u8)
                    || !email.spec_bytes().contains(46u8) {
                    EmailError::InvalidFormat
                } else {
                    EmailError::InvalidLength
                })
            },
        },
{
    let bytes = email.as_bytes();
    let n = bytes.len();
    let mut has_at = false;
    let mut has_dot = false;
    let mut i: usize = 0;
    while i < n
        invariant
            n == bytes@.len(),
            i <= n,
            bytes@ == email.spec_bytes(),
            has_at == exists|j: int| 1 <= j < i && bytes@[j] == 64u8,
            has_dot == exists|j: int| 0 <= j < i && bytes@[j] == 46u8,
        decreases n - i,
    {
        let b = bytes[i];
        if b == 64 && i >= 1 {
            has_at = true;
        }
        if b == 46 {
            has_dot = true;
        }
        i += 1;
    }
    if !has_at || !has_dot {
        return Err(EmailError::InvalidFormat);
    }
    let len = email.len();
    if len < 5 || len > 255 {
        return Err(EmailError::InvalidLength);
    }
    Ok(())
}

/// The claims carried by a session token: the subject's id, their
/// email, and the expiry time in seconds.
#[derive(Debug, PartialEq, Eq)]
pub struct Claims {
    pub sub: String,
    pub email: String,
    pub exp: usize,
}

/// The configuration of the session-token gate of the service layer.
#[derive(Debug, PartialEq, Eq)]
pub struct Auth {
    pub jwt_secret: String,
}

impl Auth {
    pub fn new(jwt_secret: String) -> (r: Self)
        ensures
            r.jwt_secret == jwt_secret,
    {
        Self { jwt_secret }
    }
}

/// The configuration of the administrative gate of the service layer.
#[derive(Debug, PartialEq, Eq)]
pub struct AdminAuth {
    pub admin_api_key: String,
}

impl AdminAuth {
    pub fn new(admin_api_key: String) -> (r: Self)
        ensures
            r.admin_api_key == admin_api_key,
    {
        Self { admin_api_key }
    }
}

/// The account-session service: issues and checks session tokens with
/// the given secret and lifetime.
#[derive(Debug, PartialEq, Eq)]
pub struct AuthService {
    pub jwt_secret: String,
    pub jwt_expiration: i64,
}

impl AuthService {
    pub fn new(jwt_secret: String, jwt_expiration: i64) -> (r: Self)
        ensures
            r.jwt_secret == jwt_secret,
            r.jwt_expiration == jwt_expiration,
    {
        Self { jwt_secret, jwt_expiration }
    }
}

/// The service-layer front of the mint workflow.
#[derive(Debug, PartialEq, Eq)]
pub struct MintService;

impl MintService {
    pub fn new() -> (r: Self) {
        Self
    }
}

/// The service-layer front of the burn workflow.
#[derive(Debug, PartialEq, Eq)]
pub struct BurnService;

impl BurnService {
    pub fn new() -> (r: Self) {
        Self
    }
}

/// The service-layer front of the KYC workflow.
#[derive(Debug, PartialEq, Eq)]
pub struct KYCService;

impl KYCService {
    pub fn new() -> (r: Self) {
        Self
    }
}

/// The service-layer front of the transfer workflow.
#[derive(Debug, PartialEq, Eq)]
pub struct PaymentService;

impl PaymentService {
    pub fn new() -> (r: Self) {
        Self
    }
}

/// The verification status of a KYC submission as the service layer
/// reports it.
#[derive(Clone, Copy, Debug, PartialEq, Eq, Structural)]
pub enum KYCStatus {
    NotSubmitted,
    Pending,
    Verified,
    Rejected,
}

/// The status of a payment as the service layer reports it.
#[derive(Clone, Copy, Debug, PartialEq, Eq, Structural)]
pub enum TransactionStatus {
    Pending,
    Confirmed,
    Failed,
}

/// What kind of monetary operation an audit entry records.
#[derive(Clone, Copy, Debug, PartialEq, Eq, Structural)]
pub enum TransactionType {
    Mint,
    Burn,
    Transfer,
}

/// A request payload asking to submit KYC documents.
#[derive(Debug, PartialEq, Eq)]
pub struct SubmitKYCRequest {
    pub wallet_address: Option<String>,
    pub document_hash: String,
    pub full_name: String,
    pub date_of_birth: String,
    pub country: String,
}

/// A request payload asking to open a mint request.
#[derive(Debug, PartialEq, Eq)]
pub struct CreateMintRequest {
    pub wallet_address: Option<String>,
    pub amount: String,
    pub bank_reference: String,
}

/// A request payload asking to open a burn request.
#[derive(Debug, PartialEq, Eq)]
pub struct CreateBurnRequest {
    pub wallet_address: Option<String>,
    pub amount: String,
    pub bank_account: String,
}

/// A request payload asking to send a payment.
#[derive(Debug, PartialEq, Eq)]
pub struct SendPaymentRequest {
    pub from_address: String,
    pub to_address: String,
    pub amount: String,
}

} // verus!
