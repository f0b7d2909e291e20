use ssg_mng::error::AppError;
use ssg_mng::member::{
    authorize_token, check_signup, signin_gate, signout_member, validate_account, validate_password, Claims,
    MemberEntity, MemberSigninResponseDto, MemberSignupRequestDto, MemberSignupResponseDto, ValidationFailure,
};

fn member() -> MemberEntity {
    MemberEntity {
        account: "alice1".to_string(),
        password: "hash".to_string(),
        email: Some("a@example.com".to_string()),
        jti: None,
        failed_attempts: 0,
        last_failed_at: None,
        last_signin_at: None,
        updated_at: 1_000,
    }
}

#[test]
fn lockout_grows_with_failures() {
    let mut m = member();
    m.signin_failed(2_000);
    m.signin_failed(2_000);
    m.signin_failed(2_000);
    assert_eq!(m.failed_attempts, 3);
    assert_eq!(m.last_failed_at, Some(2_000));
    assert!(m.is_locked(3, 60, 2_179));
    assert!(!m.is_locked(3, 60, 2_180));
    assert!(!m.is_locked(4, 60, 2_001));
    assert!(!member().is_locked(0, 60, 0));
    m.signup_success("jti-1", 3_000);
    assert_eq!(m.failed_attempts, 0);
    assert_eq!(m.jti, Some("jti-1".to_string()));
    assert_eq!(m.last_signin_at, Some(3_000));
    assert!(!m.is_locked(1, 60, 3_000));
}

#[test]
fn extreme_lock_values_do_not_overflow() {
    let mut m = member();
    m.failed_attempts = i64::MAX;
    m.last_failed_at = Some(i64::MAX);
    assert!(m.is_locked(1, i64::MAX, i64::MAX));
    assert!(!m.is_locked(1, i64::MIN, i64::MIN));
}

#[test]
fn record_settles_after_interval() {
    let m = member();
    assert!(!m.is_busy(5, 1_004));
    assert!(m.is_busy(5, 1_005));
}

#[test]
fn signin_gate_order() {
    assert_eq!(signin_gate(&None, 0, 1, 3, 60), Err(AppError::Unauthorized()));
    assert_eq!(signin_gate(&Some(member()), 1_000, 1, 3, 60), Err(AppError::ServerBusy()));
    let mut locked = member();
    locked.failed_attempts = 3;
    locked.last_failed_at = Some(1_000);
    assert_eq!(signin_gate(&Some(locked), 1_010, 1, 3, 60), Err(AppError::AccountLocked()));
    assert_eq!(signin_gate(&Some(member()), 1_010, 1, 3, 60), Ok(()));
}

#[test]
fn signup_rules() {
    let dto = MemberSignupRequestDto {
        account: "alice1".to_string(),
        password: "Passw0rd!".to_string(),
        confirm_password: "Passw0rd!".to_string(),
        email: None,
    };
    assert_eq!(check_signup(false, &dto, false), Err(AppError::Forbidden()));
    assert_eq!(
        check_signup(true, &dto, true),
        Err(AppError::DataConflict("The account 'alice1' is already registered.".to_string()))
    );
    assert_eq!(check_signup(true, &dto, false), Ok(()));
    let mut bad = dto.clone();
    bad.confirm_password = "other".to_string();
    assert!(matches!(check_signup(true, &bad, false), Err(AppError::BadRequest(_))));
    let resp = MemberSignupResponseDto::from(member());
    assert_eq!(resp.account, "alice1");
}

#[test]
fn token_must_be_current() {
    let mut m = member();
    assert_eq!(authorize_token(&Some(m.clone()), &"j".to_string()), Err(AppError::Unauthorized()));
    m.jti = Some("j".to_string());
    assert_eq!(authorize_token(&Some(m.clone()), &"j".to_string()), Ok(()));
    assert_eq!(authorize_token(&Some(m), &"k".to_string()), Err(AppError::Unauthorized()));
    assert_eq!(authorize_token(&None, &"j".to_string()), Err(AppError::Unauthorized()));
}

#[test]
fn signout_revokes_token() {
    let mut m = member();
    assert_eq!(signout_member(&mut m, 5_000, 1), Ok(false));
    m.jti = Some("j".to_string());
    assert_eq!(signout_member(&mut m, 1_000, 1), Err(AppError::ServerBusy()));
    assert_eq!(signout_member(&mut m, 5_000, 1), Ok(true));
    assert_eq!(m.jti, None);
    assert_eq!(m.updated_at, 5_000);
}

#[test]
fn claims_expire_after_duration() {
    let c = Claims::new("alice1", "ssg", 86_400, 1_000, "id".to_string());
    assert_eq!((c.sub.as_str(), c.iss.as_str(), c.iat, c.exp, c.jti.as_str()), ("alice1", "ssg", 1_000, 87_400, "id"));
    let r = MemberSigninResponseDto::new(member(), "tok".to_string());
    assert_eq!(r.token, "tok");
}

#[test]
fn account_names() {
    assert_eq!(validate_account("abc"), Err(ValidationFailure::AccountLength));
    assert_eq!(validate_account(&"a".repeat(33)), Err(ValidationFailure::AccountLength));
    assert_eq!(validate_account("alice smith"), Err(ValidationFailure::AccountCharset));
    assert_eq!(validate_account("al...ce"), Err(ValidationFailure::AccountConsecutiveSymbols));
    assert_eq!(validate_account("al._ce-1"), Ok(()));
    assert_eq!(ValidationFailure::AccountCharset.code(), "account_charset");
}

#[test]
fn passwords() {
    assert_eq!(validate_password("Ab1!"), Err(ValidationFailure::PasswordLength));
    assert_eq!(validate_password("Pässw0rd!"), Err(ValidationFailure::PasswordAsciiOnly));
    assert_eq!(validate_password("password1!"), Err(ValidationFailure::PasswordComplexity));
    assert_eq!(validate_password("Password!!"), Err(ValidationFailure::PasswordComplexity));
    assert_eq!(validate_password("Passw0rd/"), Ok(()));
}

#[test]
fn signup_request_becomes_member() {
    let dto = MemberSignupRequestDto {
        account: "alice1".to_string(),
        password: "Passw0rd!".to_string(),
        confirm_password: "Passw0rd!".to_string(),
        email: Some("a@example.com".to_string()),
    };
    let m = dto.to_member_entity("hashed".to_string(), 77);
    assert_eq!(m.account, "alice1");
    assert_eq!(m.password, "hashed");
    assert_eq!(m.email, Some("a@example.com".to_string()));
    assert_eq!((m.failed_attempts, m.updated_at, m.jti.clone()), (0, 77, None));
}
