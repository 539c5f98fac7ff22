//! The credential manager: salted password hashing and verification, and
//! bearer-token issuance.
//!
//! Hashing and signing are done by vetted outside primitives behind
//! trusted wrappers. The token's claims payload, however, is the
//! library's own wire contract — `{"sub":…,"role":…,"exp":…}` — and is
//! built and proved here, character by character.

use vstd::prelude::*;

use crate::error::AppError;

verus! {

/// Whether bcrypt verification of `password` against `hash` succeeds.
/// A function of the two strings alone: the salt and cost are read back
/// out of `hash` itself. A malformed `hash` verifies nothing.
pub uninterp spec fn password_verifies(password: Seq<char>, hash: Seq<char>) -> bool;

/// Relies on bcrypt::verify: it re-derives the hash from the password
/// and the salt embedded in `hash` and compares in constant time, a
/// deterministic function of the two arguments; a malformed hash yields
/// an error, folded to `false` here.
#[verifier::external_body]
pub(crate) fn verify_password(password: &str, hash: &str) -> (r: bool)
    ensures
        r == password_verifies(password@, hash@),
{
    bcrypt::verify(password, hash).unwrap_or(false)
}

/// Relies on bcrypt::hash with the crate's default cost: each call draws
/// a fresh random salt, so nothing relates two calls; but every hash it
/// returns is the 60-character bcrypt form and verifies against the
/// password it was derived from.
#[verifier::external_body]
pub(crate) fn hash_password(password: &str) -> (r: Result<String, AppError>)
    ensures
        r matches Ok(h) ==> h@.len() == 60 && password_verifies(password@, h@),
{
    match bcrypt::hash(password, bcrypt::DEFAULT_COST) {
        Ok(h) => Ok(h),
        Err(_) => Err(AppError::AuthError),
    }
}

/// Relies on uuid::Uuid::new_v4 and its Display form: a random
/// identifier whose hyphenated text form is exactly 36 characters.
/// Nothing relates two calls. Like an allocation, the draw aborts if
/// the operating system's entropy source fails.
#[verifier::external_body]
pub(crate) fn generate_account_id() -> (r: String)
    ensures
        r@.len() == 36,
{
    uuid::Uuid::new_v4().to_string()
}

/// Relies on chrono::Utc::now: the current wall clock as Unix
/// milliseconds. Nothing is assumed of the value; the read aborts on a
/// system clock set before the Unix epoch.
#[verifier::external_body]
pub(crate) fn now_millis() -> (t: i64) {
    chrono::Utc::now().timestamp_millis()
}

/// Relies on chrono::Utc::now: the current wall clock as Unix seconds.
/// Nothing is assumed of the value; the read aborts on a system clock
/// set before the Unix epoch.
#[verifier::external_body]
pub(crate) fn now_seconds() -> (t: i64) {
    chrono::Utc::now().timestamp()
}

pub assume_specification[ String::push ](s: &mut String, c: char)
    ensures
        final(s)@ == old(s)@.push(c),
;

/// How long an issued token stays valid: 24 hours, in seconds.
pub const TOKEN_TTL_SECONDS: i64 = 86400;

pub const DEC_DIGITS: [char; 10] = ['0', '1', '2', '3', '4', '5', '6', '7', '8', '9'];

pub const HEX_DIGITS: [char; 16] = [
    '0',
    '1',
    '2',
    '3',
    '4',
    '5',
    '6',
    '7',
    '8',
    '9',
    'a',
    'b',
    'c',
    'd',
    'e',
    'f',
];

/// The decimal digits of a non-negative number, most significant first.
pub open spec fn spec_u64_digits(n: nat) -> Seq<char>
    decreases n,
{
    if n < 10 {
        seq![DEC_DIGITS@[n as int]]
    } else {
        spec_u64_digits(n / 10) + seq![DEC_DIGITS@[(n % 10) as int]]
    }
}

/// The decimal form of a signed number: a minus sign for a negative one,
/// then the digits of its magnitude.
pub open spec fn spec_i64_digits(n: int) -> Seq<char> {
    if n < 0 {
        seq!['-'] + spec_u64_digits((-n) as nat)
    } else {
        spec_u64_digits(n as nat)
    }
}

/// How one character is written inside a JSON string: quote and
/// backslash get a backslash escape, control characters get their short
/// escape or the `\u00XX` form, and every other character stands as is.
pub open spec fn spec_escape_char(c: char) -> Seq<char> {
    if c == '"' {
        seq!['\\', '"']
    } else if c == '\\' {
        seq!['\\', '\\']
    } else if (c as u32) < 32 {
        if c == '\u{8}' {
            seq!['\\', 'b']
        } else if c == '\t' {
            seq!['\\', 't']
        } else if c == '\n' {
            seq!['\\', 'n']
        } else if c == '\u{c}' {
            seq!['\\', 'f']
        } else if c == '\r' {
            seq!['\\', 'r']
        } else {
            seq!['\\', 'u', '0', '0', HEX_DIGITS@[((c as u32) / 16) as int], HEX_DIGITS@[(
            (c as u32) % 16) as int]]
        }
    } else {
        seq![c]
    }
}

/// A whole string escaped for use inside a JSON string literal.
pub open spec fn spec_json_escape(s: Seq<char>) -> Seq<char>
    decreases s.len(),
{
    if s.len() == 0 {
        Seq::empty()
    } else {
        spec_json_escape(s.drop_last()) + spec_escape_char(s.last())
    }
}

/// The claims payload of an issued token, exactly as it is signed:
/// a JSON object holding the subject id, the role, and the absolute
/// expiry as Unix seconds, in that order.
pub open spec fn spec_claims_json(sub: Seq<char>, role: Seq<char>, exp: int) -> Seq<char> {
    "{\"sub\":\""@ + spec_json_escape(sub) + "\",\"role\":\""@ + spec_json_escape(role)
        + "\",\"exp\":"@ + spec_i64_digits(exp) + "}"@
}

/// What signing a payload under a secret returns: the three-segment
/// token that jsonwebtoken's HS256 encoding produces, a deterministic
/// function of payload and secret.
pub uninterp spec fn jwt_of(payload: Seq<char>, secret: Seq<char>) -> Seq<char>;

/// Relies on jsonwebtoken::encode with the default header (HS256) and a
/// key from the raw secret bytes: HMAC signing is deterministic in the
/// payload and the secret. The payload is passed through as raw JSON,
/// so the signed bytes are exactly the payload built here.
#[verifier::external_body]
fn sign_jwt(payload: &str, secret: &str) -> (r: Result<String, AppError>)
    ensures
        r matches Ok(t) ==> t@ == jwt_of(payload@, secret@),
        r matches Err(e) ==> e is AuthError,
{
    let raw = match serde_json::value::RawValue::from_string(payload.to_string()) {
        Ok(v) => v,
        Err(_) => return Err(AppError::AuthError),
    };
    jsonwebtoken::encode(
        &jsonwebtoken::Header::default(),
        &raw,
        &jsonwebtoken::EncodingKey::from_secret(secret.as_bytes()),
    ).map_err(|_| AppError::AuthError)
}

fn push_u64_digits(n: u64, out: &mut String)
    ensures
        final(out)@ == old(out)@ + spec_u64_digits(n as nat),
    decreases n,
{
    if n < 10 {
        out.push(DEC_DIGITS[n as usize]);
        assert(final(out)@ =~= old(out)@ + spec_u64_digits(n as nat));
    } else {
        push_u64_digits(n / 10, out);
        out.push(DEC_DIGITS[(n % 10) as usize]);
        assert(final(out)@ =~= old(out)@ + spec_u64_digits(n as nat));
    }
}

fn push_i64_digits(n: i64, out: &mut String)
    ensures
        final(out)@ == old(out)@ + spec_i64_digits(n as int),
{
    if n < 0 {
        out.push('-');
        let mag: u64 = if n == i64::MIN {
            9223372036854775808u64
        } else {
            (-n) as u64
        };
        push_u64_digits(mag, out);
        assert(final(out)@ =~= old(out)@ + spec_i64_digits(n as int));
    } else {
        push_u64_digits(n as u64, out);
    }
}

fn push_json_escaped(s: &str, out: &mut String)
    ensures
        final(out)@ == old(out)@ + spec_json_escape(s@),
{
    let n = s.unicode_len();
    let mut i: usize = 0;
    while i < n
        invariant
            i <= n,
            n == s@.len(),
            out@ == old(out)@ + spec_json_escape(s@.take(i as int)),
        decreases n - i,
    {
        let ghost prefix = out@;
        let c = s.get_char(i);
        if c == '"' {
            out.push('\\');
            out.push('"');
        } else if c == '\\' {
            out.push('\\');
            out.push('\\');
        } else if (c as u32) < 32 {
            if c == '\u{8}' {
                out.push('\\');
                out.push('b');
            } else if c == '\t' {
                out.push('\\');
                out.push('t');
            } else if c == '\n' {
                out.push('\\');
                out.push('n');
            } else if c == '\u{c}' {
                out.push('\\');
                out.push('f');
            } else if c == '\r' {
                out.push('\\');
                out.push('r');
            } else {
                let v = c as u32;
                out.push('\\');
                out.push('u');
                out.push('0');
                out.push('0');
                out.push(HEX_DIGITS[(v / 16) as usize]);
                out.push(HEX_DIGITS[(v % 16) as usize]);
            }
        } else {
            out.push(c);
        }
        proof {
            assert(out@ =~= prefix + spec_escape_char(s@[i as int]));
            assert(s@.take(i + 1).drop_last() =~= s@.take(i as int));
            assert(s@.take(i + 1).last() == s@[i as int]);
            assert(out@ =~= old(out)@ + spec_json_escape(s@.take(i + 1)));
        }
        i += 1;
    }
    proof {
        assert(s@.take(n as int) =~= s@);
    }
}

/// Builds the claims payload for a token: subject and role are escaped
/// as JSON strings, the expiry stands as a plain number.
pub fn claims_json(subject_id: &str, role: &str, exp: i64) -> (r: String)
    ensures
        r@ == spec_claims_json(subject_id@, role@, exp as int),
{
    let mut out = String::new();
    out.append("{\"sub\":\"");
    push_json_escaped(subject_id, &mut out);
    out.append("\",\"role\":\"");
    push_json_escaped(role, &mut out);
    out.append("\",\"exp\":");
    push_i64_digits(exp, &mut out);
    out.append("}");
    out
}

/// Issues a bearer token whose claims expire exactly `TOKEN_TTL_SECONDS`
/// after the given moment. An expiry that would overflow the clock's
/// range is a signing failure, not a panic.
pub fn issue_token_at(subject_id: &str, role: &str, secret: &str, now: i64) -> (r: Result<
    String,
    AppError,
>)
    ensures
        match r {
            Ok(t) => now + TOKEN_TTL_SECONDS <= i64::MAX && t@ == jwt_of(
                spec_claims_json(subject_id@, role@, now + TOKEN_TTL_SECONDS),
                secret@,
            ),
            Err(e) => e is AuthError,
        },
{
    if now > i64::MAX - TOKEN_TTL_SECONDS {
        return Err(AppError::AuthError);
    }
    let exp = now + TOKEN_TTL_SECONDS;
    let payload = claims_json(subject_id, role, exp);
    sign_jwt(payload.as_str(), secret)
}

/// Issues a bearer token expiring `TOKEN_TTL_SECONDS` from now.
pub fn issue_token(subject_id: &str, role: &str, secret: &str) -> (r: Result<String, AppError>)
    ensures
        match r {
            Ok(t) => exists|exp: int|
                t@ == jwt_of(#[trigger] spec_claims_json(subject_id@, role@, exp), secret@),
            Err(e) => e is AuthError,
        },
{
    let now = now_seconds();
    issue_token_at(subject_id, role, secret, now)
}

} // verus!
