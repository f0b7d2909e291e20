//! Members, their sign-in lockout rules, and the checks on accounts and
//! passwords. Times are seconds since the Unix epoch (UTC).
use vstd::prelude::*;
use crate::error::AppError;
use vstd::std_specs::iter::IteratorSpec;

verus! {

broadcast use vstd::string::axiom_spec_iter, vstd::string::next_postcondition;

#[derive(Clone, Debug, PartialEq, Eq)]
pub struct MemberEntity {
    pub account: String,
    /// Password hash.
    pub password: String,
    pub email: Option<String>,
    /// Id of the member's current token; none when signed out.
    pub jti: Option<String>,
    pub failed_attempts: i64,
    pub last_failed_at: Option<i64>,
    pub last_signin_at: Option<i64>,
    pub updated_at: i64,
}

/// The member is locked out: it has failed at least `lock_threshold` times
/// and `lock_seconds` per failure have not passed since the last failure.
pub open spec fn locked(m: MemberEntity, lock_threshold: i64, lock_seconds: i64, now: i64) -> bool {
    match m.last_failed_at {
        Some(last) => m.failed_attempts >= lock_threshold && now < last + lock_seconds * m.failed_attempts,
        None => false,
    }
}

/// At least `interval` seconds have passed since the member record changed.
pub open spec fn settled(m: MemberEntity, interval: i64, now: i64) -> bool {
    now >= m.updated_at + interval
}

impl MemberEntity {
    /// Records a failed sign-in at `now`; the current token is revoked.
    pub fn signin_failed(&mut self, now: i64)
        requires
            old(self).failed_attempts < i64::MAX,
        ensures
            *final(self) == (MemberEntity {
                failed_attempts: (old(self).failed_attempts + 1) as i64,
                jti: None,
                last_failed_at: Some(now),
                updated_at: now,
                ..*old(self)
            }),
    {
        self.failed_attempts = self.failed_attempts + 1;
        self.jti = None;
        self.last_failed_at = Some(now);
        self.updated_at = now;
    }

    /// Records a successful sign-in at `now` with token id `jti`.
    pub fn signup_success(&mut self, jti: &str, now: i64)
        ensures
            final(self).jti is Some && final(self).jti->0@ == jti@,
            final(self).failed_attempts == 0,
            final(self).last_failed_at is None,
            final(self).last_signin_at == Some(now),
            final(self).updated_at == now,
            final(self).account == old(self).account,
            final(self).password == old(self).password,
            final(self).email == old(self).email,
    {
        self.jti = Some(String::from_str(jti));
        self.failed_attempts = 0;
        self.last_failed_at = None;
        self.last_signin_at = Some(now);
        self.updated_at = now;
    }

    /// Revokes the current token at `now`.
    pub fn signout(&mut self, now: i64)
        ensures
            *final(self) == (MemberEntity { jti: None, updated_at: now, ..*old(self) }),
    {
        self.jti = None;
        self.updated_at = now;
    }

    /// Whether sign-in is locked at `now`.
    pub fn is_locked(&self, lock_threshold: i64, lock_seconds: i64, now: i64) -> (r: bool)
        ensures
            r == locked(*self, lock_threshold, lock_seconds, now),
    {
        match self.last_failed_at {
            Some(last) => {
                if self.failed_attempts >= lock_threshold {
                    let ls = lock_seconds as i128;
                    let fa = self.failed_attempts as i128;
                    assert(-0x4000_0000_0000_0000_0000_0000_0000_0000 <= ls * fa <= 0x4000_0000_0000_0000_0000_0000_0000_0000)
                        by (nonlinear_arith)
                        requires
                            -0x8000_0000_0000_0000 <= ls <= 0x7fff_ffff_ffff_ffff,
                            -0x8000_0000_0000_0000 <= fa <= 0x7fff_ffff_ffff_ffff,
                    ;
                    let until: i128 = last as i128 + ls * fa;
                    (now as i128) < until
                } else {
                    false
                }
            },
            None => false,
        }
    }

    /// Whether the record may change again at `now`: true once `interval`
    /// seconds have passed since its last change.
    pub fn is_busy(&self, interval: i64, now: i64) -> (r: bool)
        ensures
            r == settled(*self, interval, now),
    {
        now as i128 >= self.updated_at as i128 + interval as i128
    }
}

#[derive(Clone, Debug, PartialEq, Eq)]
pub struct MemberSignupRequestDto {
    pub account: String,
    pub password: String,
    pub confirm_password: String,
    pub email: Option<String>,
}

impl MemberSignupRequestDto {
    /// The member to register, with its password already hashed, at `now`.
    pub fn to_member_entity(&self, password_hash: String, now: i64) -> (m: MemberEntity)
        ensures
            m.account@ == self.account@,
            m.password == password_hash,
            m.jti is None,
            m.email is Some <==> self.email is Some,
            self.email is Some ==> m.email->0@ == self.email->0@,
            m.failed_attempts == 0,
            m.last_failed_at is None,
            m.last_signin_at is None,
            m.updated_at == now,
    {
        MemberEntity {
            account: String::from_str(self.account.as_str()),
            password: password_hash,
            email: match &self.email { Some(e) => Some(String::from_str(e.as_str())), None => None },
            jti: None,
            failed_attempts: 0,
            last_failed_at: None,
            last_signin_at: None,
            updated_at: now,
        }
    }
}

#[derive(Clone, Debug, PartialEq, Eq)]
pub struct MemberSignupResponseDto {
    pub account: String,
    pub email: Option<String>,
}

#[derive(Clone, Debug, PartialEq, Eq)]
pub struct MemberSigninRequestDto {
    pub account: String,
    pub password: String,
}

#[derive(Clone, Debug, PartialEq, Eq)]
pub struct MemberSigninResponseDto {
    pub account: String,
    pub email: Option<String>,
    pub token: String,
}

impl MemberSigninResponseDto {
    pub fn new(entity: MemberEntity, token: String) -> (r: MemberSigninResponseDto)
        ensures
            r.account == entity.account,
            r.email == entity.email,
            r.token == token,
    {
        MemberSigninResponseDto { account: entity.account, email: entity.email, token }
    }
}

impl From<MemberEntity> for MemberSignupResponseDto {
    fn from(entity: MemberEntity) -> (r: MemberSignupResponseDto)
        ensures
            r.account == entity.account,
            r.email == entity.email,
    {
        MemberSignupResponseDto { account: entity.account, email: entity.email }
    }
}

impl vstd::std_specs::convert::FromSpecImpl<MemberEntity> for MemberSignupResponseDto {
    open spec fn obeys_from_spec() -> bool {
        true
    }

    open spec fn from_spec(entity: MemberEntity) -> MemberSignupResponseDto {
        MemberSignupResponseDto { account: entity.account, email: entity.email }
    }
}

/// Whether a sign-up may go ahead: sign-up must be allowed, the password
/// confirmed, and the account not yet registered.
pub fn check_signup(allow_signup: bool, dto: &MemberSignupRequestDto, registered: bool) -> (r: Result<(), AppError>)
    ensures
        !allow_signup ==> r == Err::<(), AppError>(AppError::Forbidden()),
        allow_signup && dto.password@ != dto.confirm_password@ ==> r matches Err(AppError::BadRequest(_)),
        allow_signup && dto.password@ == dto.confirm_password@ && registered ==> r matches Err(AppError::DataConflict(_)),
        r is Ok <==> allow_signup && dto.password@ == dto.confirm_password@ && !registered,
{
    if !allow_signup {
        return Err(AppError::Forbidden());
    }
    if dto.password != dto.confirm_password {
        return Err(AppError::BadRequest(String::from_str("Password confirmation does not match")));
    }
    if registered {
        let msg = String::from_str("The account '").concat(dto.account.as_str()).concat("' is already registered.");
        return Err(AppError::DataConflict(msg));
    }
    Ok(())
}

/// Whether a sign-in may go on to the password check at `now`.
pub fn signin_gate(member: &Option<MemberEntity>, now: i64, update_interval: i64, lock_threshold: i64, lock_seconds: i64) -> (r: Result<(), AppError>)
    ensures
        member is None ==> r == Err::<(), AppError>(AppError::Unauthorized()),
        member matches Some(m) ==> r == if !settled(*m, update_interval, now) {
            Err::<(), AppError>(AppError::ServerBusy())
        } else if locked(*m, lock_threshold, lock_seconds, now) {
            Err(AppError::AccountLocked())
        } else {
            Ok(())
        },
{
    match member {
        None => Err(AppError::Unauthorized()),
        Some(m) => {
            if !m.is_busy(update_interval, now) {
                Err(AppError::ServerBusy())
            } else if m.is_locked(lock_threshold, lock_seconds, now) {
                Err(AppError::AccountLocked())
            } else {
                Ok(())
            }
        },
    }
}

/// Whether a token with id `jti` is the member's current one.
pub fn authorize_token(member: &Option<MemberEntity>, jti: &String) -> (r: Result<(), AppError>)
    ensures
        r is Ok <==> (member matches Some(m) && m.jti matches Some(j) && j@ == jti@),
        r is Err ==> r == Err::<(), AppError>(AppError::Unauthorized()),
{
    match member {
        None => Err(AppError::Unauthorized()),
        Some(m) => match &m.jti {
            Some(j) => if *j == *jti { Ok(()) } else { Err(AppError::Unauthorized()) },
            None => Err(AppError::Unauthorized()),
        },
    }
}

/// Signs a member out at `now`. A member without a token is left alone
/// (`Ok(false)`); a record changed too recently is busy.
pub fn signout_member(m: &mut MemberEntity, now: i64, update_interval: i64) -> (r: Result<bool, AppError>)
    ensures
        old(m).jti is None ==> r == Ok::<bool, AppError>(false) && *final(m) == *old(m),
        old(m).jti is Some && !settled(*old(m), update_interval, now) ==> r == Err::<bool, AppError>(AppError::ServerBusy())
            && *final(m) == *old(m),
        old(m).jti is Some && settled(*old(m), update_interval, now) ==> r == Ok::<bool, AppError>(true)
            && *final(m) == (MemberEntity { jti: None, updated_at: now, ..*old(m) }),
{
    if m.jti.is_none() {
        return Ok(false);
    }
    if !m.is_busy(update_interval, now) {
        return Err(AppError::ServerBusy());
    }
    m.signout(now);
    Ok(true)
}

/// Token claims.
#[derive(Clone, Debug, PartialEq, Eq)]
pub struct Claims {
    pub sub: String,
    pub iss: String,
    /// Issued at.
    pub iat: i64,
    /// Expiry.
    pub exp: i64,
    /// Token id.
    pub jti: String,
}

impl Claims {
    /// Claims issued at `now` for `duration_seconds`, with token id `jti`.
    pub fn new(subject: &str, issuer: &str, duration_seconds: i64, now: i64, jti: String) -> (c: Claims)
        requires
            i64::MIN <= now + duration_seconds <= i64::MAX,
        ensures
            c.sub@ == subject@,
            c.iss@ == issuer@,
            c.iat == now,
            c.exp == now + duration_seconds,
            c.jti == jti,
    {
        Claims {
            sub: String::from_str(subject),
            iss: String::from_str(issuer),
            iat: now,
            exp: now + duration_seconds,
            jti,
        }
    }
}

/// Why an account name or a password was refused.
#[derive(Clone, Copy, Debug, PartialEq, Eq, Structural)]
pub enum ValidationFailure {
    AccountLength,
    AccountCharset,
    AccountConsecutiveSymbols,
    PasswordLength,
    PasswordAsciiOnly,
    PasswordComplexity,
}

impl ValidationFailure {
    /// The failure's code.
    pub fn code(&self) -> (r: &'static str) {
        match self {
            ValidationFailure::AccountLength => "account_length",
            ValidationFailure::AccountCharset => "account_charset",
            ValidationFailure::AccountConsecutiveSymbols => "account_consecutive_symbols",
            ValidationFailure::PasswordLength => "length",
            ValidationFailure::PasswordAsciiOnly => "ascii_only",
            ValidationFailure::PasswordComplexity => "complexity",
        }
    }

    /// The message shown for the failure.
    pub fn message(&self) -> (r: &'static str) {
        match self {
            ValidationFailure::AccountLength => "Account ID must be between 6 and 32 characters",
            ValidationFailure::AccountCharset => "Account ID can only contain letters, numbers, ., _, -",
            ValidationFailure::AccountConsecutiveSymbols => "Symbols cannot appear more than twice consecutively",
            ValidationFailure::PasswordLength => "Password must be 8-64 characters",
            ValidationFailure::PasswordAsciiOnly => "Password must contain only ASCII characters",
            ValidationFailure::PasswordComplexity => "Password must contain at least one uppercase, one lowercase, one number, and one symbol",
        }
    }
}

/// What `regex` reports for a pattern and a text: `None` when the pattern
/// does not compile, else whether it matches somewhere in the text.
pub uninterp spec fn regex_finds(pattern: Seq<char>, text: Seq<char>) -> Option<bool>;

/// Relies on `regex::Regex::new` and `Regex::is_match`: compiling a pattern
/// and searching a text depend on the two strings alone.
#[verifier::external_body]
fn regex_search(pattern: &str, text: &str) -> (r: Option<bool>)
    ensures
        r == regex_finds(pattern@, text@),
{
    match regex::Regex::new(pattern) {
        Ok(re) => Some(re.is_match(text)),
        Err(_) => None,
    }
}

/// Account names: letters, digits, `.`, `_` and `-` only.
pub open spec fn account_charset_pattern() -> Seq<char> {
    "^[a-zA-Z0-9._-]+$"@
}

/// Three or more symbols in a row.
pub open spec fn symbol_run_pattern() -> Seq<char> {
    "[._-]{3,}"@
}

/// Checks an account name: 6 to 32 bytes, letters, digits and `.`, `_`,
/// `-` only, and no run of three symbols.
pub fn validate_account(account: &str) -> (r: Result<(), ValidationFailure>)
    ensures
        (account.len() < 6 || account.len() > 32) ==> r == Err::<(), ValidationFailure>(ValidationFailure::AccountLength),
        6 <= account.len() <= 32 ==> r == if regex_finds(account_charset_pattern(), account@) != Some(true) {
            Err::<(), ValidationFailure>(ValidationFailure::AccountCharset)
        } else if regex_finds(symbol_run_pattern(), account@) == Some(true) {
            Err(ValidationFailure::AccountConsecutiveSymbols)
        } else {
            Ok(())
        },
{
    if account.len() < 6 || account.len() > 32 {
        return Err(ValidationFailure::AccountLength);
    }
    let allowed = regex_search("^[a-zA-Z0-9._-]+$", account);
    if allowed != Some(true) {
        return Err(ValidationFailure::AccountCharset);
    }
    let symbols = regex_search("[._-]{3,}", account);
    if symbols == Some(true) {
        return Err(ValidationFailure::AccountConsecutiveSymbols);
    }
    Ok(())
}

/// Characters that count as symbols in a password.
pub open spec fn is_password_symbol(c: char) -> bool {
    password_symbols().contains(c)
}

pub open spec fn password_symbols() -> Seq<char> {
    "!@#$%^&*()-_=+[]{}|;:,.<>?/"@
}

pub open spec fn has_char(s: Seq<char>, p: spec_fn(char) -> bool) -> bool {
    exists|i: int| 0 <= i < s.len() && p(#[trigger] s[i])
}

fn is_symbol_exec(c: char) -> (r: bool)
    ensures
        r == is_password_symbol(c),
{
    let symbols = "!@#$%^&*()-_=+[]{}|;:,.<>?/";
    proof {
        reveal_strlit("!@#$%^&*()-_=+[]{}|;:,.<>?/");
    }
    assert(symbols@ == password_symbols());
    let mut it = symbols.chars();
    let ghost mut i: int = 0;
    loop
        invariant
            symbols@ == password_symbols(),
            0 <= i <= symbols@.len(),
            it.remaining() == symbols@.subrange(i, symbols@.len() as int),
            forall|k: int| 0 <= k < i ==> symbols@[k] != c,
        decreases symbols@.len() - i,
    {
        let ghost rest = symbols@.subrange(i, symbols@.len() as int);
        match it.next() {
            Some(d) => {
                assert(rest[0] == d);
                assert(d == symbols@[i]);
                if d == c {
                    assert(password_symbols()[i] == c);
                    return true;
                }
                proof { i = i + 1; }
            },
            None => {
                assert(rest.len() == 0);
                assert(!password_symbols().contains(c));
                return false;
            },
        }
    }
}

/// Checks a password: 8 to 64 bytes of ASCII with at least one upper-case
/// letter, one lower-case letter, one digit and one symbol.
pub fn validate_password(password: &str) -> (r: Result<(), ValidationFailure>)
    ensures
        (password.len() < 8 || password.len() > 64) ==> r == Err::<(), ValidationFailure>(ValidationFailure::PasswordLength),
        8 <= password.len() <= 64 ==> r == if !password.is_ascii() {
            Err::<(), ValidationFailure>(ValidationFailure::PasswordAsciiOnly)
        } else if !(has_char(password@, |c: char| 'A' <= c <= 'Z') && has_char(password@, |c: char| 'a' <= c <= 'z')
            && has_char(password@, |c: char| '0' <= c <= '9') && has_char(password@, |c: char| is_password_symbol(c))) {
            Err(ValidationFailure::PasswordComplexity)
        } else {
            Ok(())
        },
{
    if password.len() < 8 || password.len() > 64 {
        return Err(ValidationFailure::PasswordLength);
    }
    if !password.is_ascii() {
        return Err(ValidationFailure::PasswordAsciiOnly);
    }
    let mut upper = false;
    let mut lower = false;
    let mut digit = false;
    let mut symbol = false;
    let mut it = password.chars();
    let ghost mut i: int = 0;
    let ghost s = password@;
    loop
        invariant
            0 <= i <= s.len(),
            s == password@,
            it.remaining() == s.subrange(i, s.len() as int),
            upper == has_char(s.subrange(0, i), |c: char| 'A' <= c <= 'Z'),
            lower == has_char(s.subrange(0, i), |c: char| 'a' <= c <= 'z'),
            digit == has_char(s.subrange(0, i), |c: char| '0' <= c <= '9'),
            symbol == has_char(s.subrange(0, i), |c: char| is_password_symbol(c)),
        ensures
            upper == has_char(s, |c: char| 'A' <= c <= 'Z'),
            lower == has_char(s, |c: char| 'a' <= c <= 'z'),
            digit == has_char(s, |c: char| '0' <= c <= '9'),
            symbol == has_char(s, |c: char| is_password_symbol(c)),
        decreases s.len() - i,
    {
        let ghost rest = s.subrange(i, s.len() as int);
        match it.next() {
            Some(c) => {
                assert(rest[0] == c);
                assert(s[i] == c);
                let ghost pre = s.subrange(0, i);
                let ghost post = s.subrange(0, i + 1);
                assert(post =~= pre.push(c));
                upper = upper || ('A' <= c && c <= 'Z');
                lower = lower || ('a' <= c && c <= 'z');
                digit = digit || ('0' <= c && c <= '9');
                symbol = symbol || is_symbol_exec(c);
                proof {
                    lemma_has_char_push(pre, c, |c: char| 'A' <= c <= 'Z');
                    lemma_has_char_push(pre, c, |c: char| 'a' <= c <= 'z');
                    lemma_has_char_push(pre, c, |c: char| '0' <= c <= '9');
                    lemma_has_char_push(pre, c, |c: char| is_password_symbol(c));
                    i = i + 1;
                }
            },
            None => {
                assert(rest.len() == 0);
                assert(s.subrange(0, i) =~= s);
                break;
            },
        }
    }
    if !(upper && lower && digit && symbol) {
        return Err(ValidationFailure::PasswordComplexity);
    }
    Ok(())
}

proof fn lemma_has_char_push(s: Seq<char>, c: char, p: spec_fn(char) -> bool)
    ensures
        has_char(s.push(c), p) == (has_char(s, p) || p(c)),
{
    let t = s.push(c);
    if has_char(s, p) {
        let i = choose|i: int| 0 <= i < s.len() && p(#[trigger] s[i]);
        assert(t[i] == s[i]);
    }
    if p(c) {
        assert(t[s.len() as int] == c);
    }
    if has_char(t, p) {
        let i = choose|i: int| 0 <= i < t.len() && p(#[trigger] t[i]);
        if i < s.len() {
            assert(t[i] == s[i]);
        }
    }
}

} // verus!
