use velopay::gateway::{
    AdminAuth, Auth, AuthService, BurnService, EmailError, KYCService, MintService,
    PaymentService, validate_email,
};

#[test]
fn test_validate_email() {
    assert!(validate_email("user@example.com").is_ok());
    assert!(validate_email("invalid").is_err());
    assert!(validate_email("@example.com").is_err());
}

#[test]
fn email_error_kinds() {
    assert_eq!(validate_email("invalid"), Err(EmailError::InvalidFormat));
    assert_eq!(validate_email("no-dot@host"), Err(EmailError::InvalidFormat));
    assert_eq!(validate_email("a@b."), Err(EmailError::InvalidLength));
    let local = "x".repeat(250);
    let long = format!("{local}@ab.de");
    assert_eq!(validate_email(&long), Err(EmailError::InvalidLength));
    assert_eq!(validate_email("a@b.c"), Ok(()));
}

#[test]
fn service_constructors() {
    let auth = Auth::new(String::from("token-signing-secret"));
    assert_eq!(auth.jwt_secret, "token-signing-secret");
    let admin = AdminAuth::new(String::from("key"));
    assert_eq!(admin.admin_api_key, "key");
    let svc = AuthService::new(String::from("s"), 3600);
    assert_eq!(svc.jwt_expiration, 3600);
    let _ = MintService::new();
    let _ = BurnService::new();
    let _ = KYCService::new();
    let _ = PaymentService::new();
}
