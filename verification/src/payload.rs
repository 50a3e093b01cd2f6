use vstd::prelude::*;

use crate::errors::TokenError;
use crate::foreign::{
    compile_pattern, current_timestamp, documented_match, is_class_run, is_documented_pattern,
    nil_uuid, pattern_finds_match, regex_compiles, regex_error_text, regex_finds_match,
};

verus! {

/// Claim names registered for tokens.
#[derive(Debug)]
pub enum ReservedClaims<'b> {
    ExpirationTime,
    Issuer,
    Subject,
    Audience,
    Other(&'b str),
}

/// Borrowed text of an encoded payload.
#[derive(Debug)]
pub struct PayloadBytes<'b>(&'b str);

impl<'b> View for PayloadBytes<'b> {
    type V = Seq<char>;

    closed spec fn view(&self) -> Seq<char> {
        self.0@
    }
}

impl<'b> From<&'b str> for PayloadBytes<'b> {
    /// Borrows the text as it is.
    fn from(data: &'b str) -> (bytes: Self) {
        Self(data)
    }
}

impl<'b> vstd::std_specs::convert::FromSpecImpl<&'b str> for PayloadBytes<'b> {
    open spec fn obeys_from_spec() -> bool {
        true
    }

    closed spec fn from_spec(v: &'b str) -> Self {
        PayloadBytes(v)
    }
}

/// Borrowing text as encoded payload keeps the text.
pub proof fn payload_bytes_keep_text(data: &str)
    ensures
        <PayloadBytes as vstd::std_specs::convert::FromSpec<&str>>::from_spec(data)@ == data@,
{
}

/// The pattern a user name must match: 1 to 50 ASCII letters or digits.
pub const USERNAME_PATTERN: &'static str = "^[A-Za-z0-9]{1,50}$";

/// The pattern a subject must match: 1 to 200 ASCII letters, digits or white space.
pub const SUBJECT_PATTERN: &'static str = "^[A-Za-z0-9\\s]{1,200}$";

/// The pattern a role must match: 1 to 15 ASCII letters or digits.
pub const ROLE_PATTERN: &'static str = "^[A-Za-z0-9]{1,15}$";

/// The pattern an issuer must match: 1 to 100 ASCII letters or digits.
pub const ISSUER_PATTERN: &'static str = "^[A-Za-z0-9]{1,100}$";

/// The cause given when a value does not match its pattern.
pub const INVALID_VALUE_CAUSE: &'static str = "Invalid value provided";

/// What checking a value against a pattern finds.
pub enum InputVerdict {
    /// The pattern does not compile.
    BadPattern,
    /// The pattern compiles and finds no match in the value.
    NoMatch,
    /// The pattern compiles and matches the value.
    Match,
}

pub open spec fn input_verdict(value: Seq<char>, pattern: Seq<char>) -> InputVerdict {
    if !regex_compiles(pattern) {
        InputVerdict::BadPattern
    } else if !regex_finds_match(pattern, value) {
        InputVerdict::NoMatch
    } else {
        InputVerdict::Match
    }
}

/// `e` reports that `value` did not match its pattern.
pub open spec fn is_invalid_value(e: TokenError, value: Seq<char>) -> bool {
    e matches TokenError::InvalidValue(v, cause) && v@ == value && cause@ == INVALID_VALUE_CAUSE@
}

/// What checking the claims of a payload finds, first failure first.
pub enum BoundsVerdict {
    Accepted,
    /// This pattern does not compile.
    BadPattern(Seq<char>),
    InvalidValue(Seq<char>),
    Expired,
    NotYetValid,
}

/// The verdict on one value, given the verdict on what is checked after it.
pub open spec fn field_verdict(value: Seq<char>, pattern: Seq<char>, rest: BoundsVerdict) -> BoundsVerdict {
    match input_verdict(value, pattern) {
        InputVerdict::BadPattern => BoundsVerdict::BadPattern(pattern),
        InputVerdict::NoMatch => BoundsVerdict::InvalidValue(value),
        InputVerdict::Match => rest,
    }
}

/// The instant `earlier` lies strictly before the instant `later`.
pub open spec fn lies_before(earlier: i64, later: i64) -> bool {
    earlier < later
}

/// The verdict on the validity window at time `now`: a token has expired when
/// its expiration lies before `now`, and is not yet valid when its start lies
/// after `now`.
pub open spec fn time_verdict(not_valid_before: i64, expiration: i64, now: i64) -> BoundsVerdict {
    if expiration < now {
        BoundsVerdict::Expired
    } else if not_valid_before > now {
        BoundsVerdict::NotYetValid
    } else {
        BoundsVerdict::Accepted
    }
}

/// The verdict on the claims of a payload at time `now`: user name, subject,
/// role and issuer against their patterns, in that order, then the window.
pub open spec fn bounds_verdict(
    username: Seq<char>,
    role: Seq<char>,
    subject: Seq<char>,
    issuer: Seq<char>,
    not_valid_before: i64,
    expiration: i64,
    now: i64,
) -> BoundsVerdict {
    field_verdict(
        username,
        USERNAME_PATTERN@,
        field_verdict(
            subject,
            SUBJECT_PATTERN@,
            field_verdict(
                role,
                ROLE_PATTERN@,
                field_verdict(issuer, ISSUER_PATTERN@, time_verdict(not_valid_before, expiration, now)),
            ),
        ),
    )
}

/// The verdict on one value, given whether it is of the form its pattern
/// accepts and the verdict on what is checked after it.
pub open spec fn form_verdict(value: Seq<char>, accepted: bool, rest: BoundsVerdict) -> BoundsVerdict {
    if accepted {
        rest
    } else {
        BoundsVerdict::InvalidValue(value)
    }
}

/// The verdict on the claims of a payload at time `now`, by the forms the
/// patterns describe: a user name of 1 to 50 ASCII letters or digits, a
/// subject of 1 to 200 ASCII letters, digits or white space, a role of 1 to 15
/// and an issuer of 1 to 100 ASCII letters or digits, checked in that order,
/// then the window.
pub open spec fn claims_verdict(
    username: Seq<char>,
    role: Seq<char>,
    subject: Seq<char>,
    issuer: Seq<char>,
    not_valid_before: i64,
    expiration: i64,
    now: i64,
) -> BoundsVerdict {
    form_verdict(
        username,
        is_class_run(username, false, 50),
        form_verdict(
            subject,
            is_class_run(subject, true, 200),
            form_verdict(
                role,
                is_class_run(role, false, 15),
                form_verdict(
                    issuer,
                    is_class_run(issuer, false, 100),
                    time_verdict(not_valid_before, expiration, now),
                ),
            ),
        ),
    )
}

/// `r` is the outcome that the verdict `v` calls for.
pub open spec fn reports<T>(r: Result<T, TokenError>, v: BoundsVerdict) -> bool {
    match v {
        BoundsVerdict::Accepted => r is Ok,
        BoundsVerdict::BadPattern(pattern) => r matches Err(TokenError::RegexError(text))
            && text@ == regex_error_text(pattern),
        BoundsVerdict::InvalidValue(value) => r matches Err(e) && is_invalid_value(e, value),
        BoundsVerdict::Expired => r matches Err(TokenError::ExpiredToken),
        BoundsVerdict::NotYetValid => r matches Err(TokenError::NotYetValidToken),
    }
}

/// The claims carried by a token.
#[derive(Debug, Clone)]
pub struct Payload {
    pub sub: String,
    pub exp: i64,
    pub iss: String,
    pub nbf: i64,
    pub jti: uuid::Uuid,
    pub role: String,
    pub is_active: bool,
    pub username: String,
}

impl Default for Payload {
    /// Empty texts, times 0, inactive, and the nil identifier.
    fn default() -> (p: Self)
        ensures
            p.sub@ == Seq::<char>::empty(),
            p.exp == 0,
            p.iss@ == Seq::<char>::empty(),
            p.nbf == 0,
            p.role@ == Seq::<char>::empty(),
            !p.is_active,
            p.username@ == Seq::<char>::empty(),
    {
        Payload {
            sub: String::new(),
            exp: 0,
            iss: String::new(),
            nbf: 0,
            jti: nil_uuid(),
            role: String::new(),
            is_active: false,
            username: String::new(),
        }
    }
}

impl Payload {
    /// Checks the claims against the present time, read from the clock once,
    /// and, if they pass, makes an inactive payload of them; see `new_at`.
    pub fn new(
        subject: String,
        expiration: i64,
        issuer: String,
        jti: uuid::Uuid,
        role: String,
        not_valid_before: i64,
        username: String,
    ) -> (r: Result<Self, TokenError>)
        ensures
            exists|now: i64|
                reports(
                    r,
                    #[trigger] claims_verdict(
                        username@,
                        role@,
                        subject@,
                        issuer@,
                        not_valid_before,
                        expiration,
                        now,
                    ),
                ),
            r matches Ok(p) ==> p == (Payload {
                sub: subject,
                exp: expiration,
                iss: issuer,
                nbf: not_valid_before,
                jti,
                role,
                is_active: false,
                username,
            }),
    {
        let now = current_timestamp();
        Self::new_at(subject, expiration, issuer, jti, role, not_valid_before, username, now)
    }

    /// Checks the claims at time `now` (see `check_bounds_of_data_at`) and, if
    /// they pass, makes an inactive payload of them; otherwise reports the
    /// first failure.
    pub fn new_at(
        subject: String,
        expiration: i64,
        issuer: String,
        jti: uuid::Uuid,
        role: String,
        not_valid_before: i64,
        username: String,
        now: i64,
    ) -> (r: Result<Self, TokenError>)
        ensures
            reports(
                r,
                bounds_verdict(
                    username@,
                    role@,
                    subject@,
                    issuer@,
                    not_valid_before,
                    expiration,
                    now,
                ),
            ),
            reports(
                r,
                claims_verdict(
                    username@,
                    role@,
                    subject@,
                    issuer@,
                    not_valid_before,
                    expiration,
                    now,
                ),
            ),
            r matches Ok(p) ==> p == (Payload {
                sub: subject,
                exp: expiration,
                iss: issuer,
                nbf: not_valid_before,
                jti,
                role,
                is_active: false,
                username,
            }),
    {
        let checked = Payload::check_bounds_of_data_at(
            username.as_str(),
            role.as_str(),
            subject.as_str(),
            issuer.as_str(),
            not_valid_before,
            expiration,
            now,
        );
        match checked {
            Err(e) => Err(e),
            Ok(()) => Ok(Self {
                sub: subject,
                exp: expiration,
                iss: issuer,
                jti,
                role,
                nbf: not_valid_before,
                is_active: false,
                username,
            }),
        }
    }

    pub fn username(&self) -> (name: String)
        ensures
            name == self.username,
    {
        self.username.clone()
    }

    /// Replaces the user name when it matches `USERNAME_PATTERN`; otherwise
    /// reports why and leaves the payload as it was.
    pub fn set_username(&mut self, username: String) -> (r: Result<&mut Self, TokenError>)
        ensures
            input_verdict(username@, USERNAME_PATTERN@) is Match ==> (r matches Ok(p)
                && *p == (Payload { username: username, ..*old(self) })
                && *final(self) == *final(p)),
            !(input_verdict(username@, USERNAME_PATTERN@) is Match) ==> *final(self) == *old(self),
            input_verdict(username@, USERNAME_PATTERN@) is BadPattern
                ==> (r matches Err(TokenError::RegexError(text)) && text@ == regex_error_text(
                USERNAME_PATTERN@,
            )),
            r is Ok <==> is_class_run(username@, false, 50),
            !is_class_run(username@, false, 50) ==> (r matches Err(e) && is_invalid_value(e, username@)),
            input_verdict(username@, USERNAME_PATTERN@) is NoMatch
                ==> (r matches Err(e) && is_invalid_value(e, username@)),
    {
        match Self::validate_input(username.as_str(), USERNAME_PATTERN) {
            Err(e) => Err(e),
            Ok(valid) => {
                if valid {
                    self.username = username;
                }
                Ok(self)
            },
        }
    }

    pub fn set_jti(&mut self, jti: uuid::Uuid) -> (r: &mut Self)
        ensures
            *r == (Payload { jti: jti, ..*old(self) }),
            *final(self) == *final(r),
    {
        self.jti = jti;
        self
    }

    pub fn jti(&self) -> (id: uuid::Uuid)
        ensures
            id == self.jti,
    {
        self.jti
    }

    pub fn set_is_active(&mut self, is_active: bool) -> (r: &mut Self)
        ensures
            *r == (Payload { is_active: is_active, ..*old(self) }),
            *final(self) == *final(r),
    {
        self.is_active = is_active;
        self
    }

    pub fn is_active(&self) -> (active: bool)
        ensures
            active == self.is_active,
    {
        self.is_active
    }

    /// Replaces the subject when it matches `SUBJECT_PATTERN`; otherwise
    /// reports why and leaves the payload as it was.
    pub fn set_subject(&mut self, subject: String) -> (r: Result<&mut Self, TokenError>)
        ensures
            input_verdict(subject@, SUBJECT_PATTERN@) is Match ==> (r matches Ok(p)
                && *p == (Payload { sub: subject, ..*old(self) })
                && *final(self) == *final(p)),
            !(input_verdict(subject@, SUBJECT_PATTERN@) is Match) ==> *final(self) == *old(self),
            input_verdict(subject@, SUBJECT_PATTERN@) is BadPattern
                ==> (r matches Err(TokenError::RegexError(text)) && text@ == regex_error_text(
                SUBJECT_PATTERN@,
            )),
            r is Ok <==> is_class_run(subject@, true, 200),
            !is_class_run(subject@, true, 200) ==> (r matches Err(e) && is_invalid_value(e, subject@)),
            input_verdict(subject@, SUBJECT_PATTERN@) is NoMatch
                ==> (r matches Err(e) && is_invalid_value(e, subject@)),
    {
        match Self::validate_input(subject.as_str(), SUBJECT_PATTERN) {
            Err(e) => Err(e),
            Ok(valid) => {
                if valid {
                    self.sub = subject;
                }
                Ok(self)
            },
        }
    }

    pub fn subject(&self) -> (s: &String)
        ensures
            *s == self.sub,
    {
        &self.sub
    }

    /// Replaces the expiration unless it lies before the present time, read
    /// from the clock; see `set_expiration_at`.
    pub fn set_expiration(&mut self, expiration: i64) -> (r: Result<&mut Self, TokenError>)
        ensures
            r matches Ok(p)
                ==> (*p == (Payload { exp: expiration, ..*old(self) }) && *final(self) == *final(p)),
            r is Err ==> (r matches Err(TokenError::ExpiredToken) && *final(self) == *old(self)),
            exists|now: i64| (r is Err) == #[trigger] lies_before(expiration, now),
            r is Err ==> expiration < i64::MAX,
    {
        let now = current_timestamp();
        let r = self.set_expiration_at(expiration, now);
        assert((r is Err) == lies_before(expiration, now));
        r
    }

    /// Replaces the expiration unless it lies before `now`, in which case the
    /// payload stays as it was and the error is `ExpiredToken`.
    pub fn set_expiration_at(&mut self, expiration: i64, now: i64) -> (r: Result<&mut Self, TokenError>)
        ensures
            expiration < now
                ==> (r matches Err(TokenError::ExpiredToken) && *final(self) == *old(self)),
            expiration >= now ==> (r matches Ok(p) && *p == (Payload { exp: expiration, ..*old(self) })
                && *final(self) == *final(p)),
    {
        if expiration < now {
            return Err(TokenError::ExpiredToken);
        }
        self.exp = expiration;
        Ok(self)
    }

    pub fn expiration(&self) -> (exp: i64)
        ensures
            exp == self.exp,
    {
        self.exp
    }

    /// Replaces the issuer when it matches `ISSUER_PATTERN`; otherwise reports
    /// why and leaves the payload as it was.
    pub fn set_issuer(&mut self, issuer: String) -> (r: Result<&mut Self, TokenError>)
        ensures
            input_verdict(issuer@, ISSUER_PATTERN@) is Match ==> (r matches Ok(p)
                && *p == (Payload { iss: issuer, ..*old(self) })
                && *final(self) == *final(p)),
            !(input_verdict(issuer@, ISSUER_PATTERN@) is Match) ==> *final(self) == *old(self),
            input_verdict(issuer@, ISSUER_PATTERN@) is BadPattern
                ==> (r matches Err(TokenError::RegexError(text)) && text@ == regex_error_text(
                ISSUER_PATTERN@,
            )),
            r is Ok <==> is_class_run(issuer@, false, 100),
            !is_class_run(issuer@, false, 100) ==> (r matches Err(e) && is_invalid_value(e, issuer@)),
            input_verdict(issuer@, ISSUER_PATTERN@) is NoMatch
                ==> (r matches Err(e) && is_invalid_value(e, issuer@)),
    {
        match Self::validate_input(issuer.as_str(), ISSUER_PATTERN) {
            Err(e) => Err(e),
            Ok(valid) => {
                if valid {
                    self.iss = issuer;
                }
                Ok(self)
            },
        }
    }

    pub fn issuer(&self) -> (s: &String)
        ensures
            *s == self.iss,
    {
        &self.iss
    }

    /// Replaces the start of validity unless it lies after the present time,
    /// read from the clock; see `set_not_valid_before_at`.
    pub fn set_not_valid_before(&mut self, not_valid_before: i64) -> (r: Result<&mut Self, TokenError>)
        ensures
            r matches Ok(p) ==> (*p == (Payload { nbf: not_valid_before, ..*old(self) })
                && *final(self) == *final(p)),
            r is Err ==> (r matches Err(TokenError::NotYetValidToken) && *final(self) == *old(self)),
            exists|now: i64| (r is Err) == #[trigger] lies_before(now, not_valid_before),
            r is Err ==> not_valid_before > i64::MIN,
    {
        let now = current_timestamp();
        let r = self.set_not_valid_before_at(not_valid_before, now);
        assert((r is Err) == lies_before(now, not_valid_before));
        r
    }

    /// Replaces the start of validity unless it lies after `now`, in which case
    /// the payload stays as it was and the error is `NotYetValidToken`.
    pub fn set_not_valid_before_at(&mut self, not_valid_before: i64, now: i64) -> (r: Result<
        &mut Self,
        TokenError,
    >)
        ensures
            not_valid_before > now ==> (r matches Err(TokenError::NotYetValidToken) && *final(self)
                == *old(self)),
            not_valid_before <= now ==> (r matches Ok(p) && *p == (Payload {
                nbf: not_valid_before,
                ..*old(self)
            }) && *final(self) == *final(p)),
    {
        if not_valid_before > now {
            return Err(TokenError::NotYetValidToken);
        }
        self.nbf = not_valid_before;
        Ok(self)
    }

    pub fn not_valid_before(&self) -> (nbf: i64)
        ensures
            nbf == self.nbf,
    {
        self.nbf
    }

    /// Checks `value` against the regular expression `pattern`: `Ok(true)` when
    /// it matches, `InvalidValue` when it does not, `RegexError` when the
    /// pattern does not compile. It never answers `Ok(false)`.
    pub fn validate_input(value: &str, pattern: &str) -> (r: Result<bool, TokenError>)
        ensures
            input_verdict(value@, pattern@) is Match <==> r == Ok::<bool, TokenError>(true),
            input_verdict(value@, pattern@) is BadPattern <==> (r matches Err(
                TokenError::RegexError(text),
            ) && text@ == regex_error_text(pattern@)),
            is_documented_pattern(pattern@) ==> !(r matches Err(TokenError::RegexError(_))),
            is_documented_pattern(pattern@) ==> documented_match(
                pattern@,
                value@,
                r == Ok::<bool, TokenError>(true),
            ),
            input_verdict(value@, pattern@) is NoMatch <==> (r matches Err(e) && is_invalid_value(
                e,
                value@,
            )),
    {
        let regex = match compile_pattern(pattern) {
            Ok(regex) => regex,
            Err(text) => return Err(TokenError::RegexError(text)),
        };
        if pattern_finds_match(&regex, value) {
            Ok(true)
        } else {
            Err(
                TokenError::InvalidValue(
                    String::from_str(value),
                    String::from_str(INVALID_VALUE_CAUSE),
                ),
            )
        }
    }

    /// Checks the claims of a payload against their patterns and the validity
    /// window against the present time, read from the clock once; see
    /// `check_bounds_of_data_at`.
    pub fn check_bounds_of_data(
        username: &str,
        role: &str,
        subject: &str,
        issuer: &str,
        not_valid_before: i64,
        expiration: i64,
    ) -> (r: Result<(), TokenError>)
        ensures
            exists|now: i64|
                reports(
                    r,
                    #[trigger] claims_verdict(
                        username@,
                        role@,
                        subject@,
                        issuer@,
                        not_valid_before,
                        expiration,
                        now,
                    ),
                ),
    {
        let now = current_timestamp();
        Self::check_bounds_of_data_at(
            username,
            role,
            subject,
            issuer,
            not_valid_before,
            expiration,
            now,
        )
    }

    /// Checks the user name, subject, role and issuer against their patterns,
    /// in that order, then that the expiration does not lie before `now` and
    /// the start of validity not after it. The first failure is reported.
    pub fn check_bounds_of_data_at(
        username: &str,
        role: &str,
        subject: &str,
        issuer: &str,
        not_valid_before: i64,
        expiration: i64,
        now: i64,
    ) -> (r: Result<(), TokenError>)
        ensures
            reports(
                r,
                bounds_verdict(
                    username@,
                    role@,
                    subject@,
                    issuer@,
                    not_valid_before,
                    expiration,
                    now,
                ),
            ),
            reports(
                r,
                claims_verdict(
                    username@,
                    role@,
                    subject@,
                    issuer@,
                    not_valid_before,
                    expiration,
                    now,
                ),
            ),
    {
        if !Self::validate_input(username, USERNAME_PATTERN)? {
            return Err(
                TokenError::InvalidLength(String::from_str("Username"), 1, 50, username.len() as u64),
            );
        }
        if !Self::validate_input(subject, SUBJECT_PATTERN)? {
            return Err(
                TokenError::InvalidLength(String::from_str("Subject"), 1, 200, subject.len() as u64),
            );
        }
        if !Self::validate_input(role, ROLE_PATTERN)? {
            return Err(TokenError::InvalidLength(String::from_str("Role"), 1, 15, role.len() as u64));
        }
        if !Self::validate_input(issuer, ISSUER_PATTERN)? {
            return Err(
                TokenError::InvalidLength(String::from_str("Issuer"), 1, 100, issuer.len() as u64),
            );
        }
        if expiration < now {
            return Err(TokenError::ExpiredToken);
        }
        if not_valid_before > now {
            return Err(TokenError::NotYetValidToken);
        }
        Ok(())
    }
}

} // verus!
