//! Time-based one-time passwords (RFC 6238): reading and normalising
//! secrets, and generating codes.
//!
//! The HMAC computation, the Base32 alphabet tables and the `otpauth://`
//! grammar are those of the `totp-rs` and `base32` crates, reached through
//! trusted functions that name their results.

use vstd::prelude::*;
use vstd::string::*;
use crate::errors::Error;
use crate::text::{
    ascii_upper, ascii_uppercase, chars_of, has_no_space, has_prefix, is_space,
    lemma_no_space_is_clean, starts_with, string_from_chars, strip_spaces, to_ascii_uppercase,
    trim, trimmed, without_spaces,
};

verus! {

/// The digits of a code unless the URI says otherwise.
pub const DEFAULT_DIGITS: usize = 6;

/// The seconds a code is valid for unless the URI says otherwise.
pub const DEFAULT_PERIOD: u64 = 30;

/// The most digits a code can have: the truncated HMAC has 31 bits.
pub const MAX_DIGITS: usize = 9;

/// The hash under the HMAC.
#[derive(Debug, Clone, Copy, PartialEq, Eq, Structural)]
pub enum Algorithm {
    SHA1,
    SHA256,
    SHA512,
}

/// What is needed to generate codes: the secret as Base32 text, the hash,
/// the number of digits and the period in seconds, and the labels that an
/// `otpauth://` URI carries.
#[derive(Debug, Clone)]
pub struct TotpConfig {
    pub secret: String,
    pub issuer: Option<String>,
    pub account_name: Option<String>,
    pub algorithm: Algorithm,
    pub digits: usize,
    pub period: u64,
}

/// The mathematical content of a `TotpConfig`.
pub ghost struct TotpConfigView {
    pub secret: Seq<char>,
    pub issuer: Option<Seq<char>>,
    pub account_name: Option<Seq<char>>,
    pub algorithm: Algorithm,
    pub digits: usize,
    pub period: u64,
}

impl DeepView for TotpConfig {
    type V = TotpConfigView;

    open spec fn deep_view(&self) -> TotpConfigView {
        TotpConfigView {
            secret: self.secret@,
            issuer: self.issuer.deep_view(),
            account_name: self.account_name.deep_view(),
            algorithm: self.algorithm,
            digits: self.digits,
            period: self.period,
        }
    }
}

// ---------------------------------------------------------------------------
// Base32 alphabets
// ---------------------------------------------------------------------------

/// Whether `c` is a character of the RFC 4648 Base32 alphabet: a capital
/// letter or a digit from 2 to 7.
pub open spec fn is_base32_char(c: char) -> bool {
    let u = c as u32;
    (0x41 <= u <= 0x5A) || (0x32 <= u <= 0x37)
}

/// Whether `s` is Base32 in the strict sense that code generation asks for:
/// capital letters and the digits 2 to 7 only.
pub open spec fn is_strict_base32(s: Seq<char>) -> bool {
    forall|i: int| 0 <= i < s.len() ==> is_base32_char(#[trigger] s[i])
}

/// Whether the normaliser lets `c` through: a letter of either case, a
/// digit from 2 to 7, or the padding sign.
pub open spec fn is_lenient_base32_char(c: char) -> bool {
    let u = c as u32;
    (0x41 <= u <= 0x5A) || (0x61 <= u <= 0x7A) || (0x32 <= u <= 0x37) || u == 0x3D
}

/// Whether the normaliser lets `s` through.
pub open spec fn is_lenient_base32(s: Seq<char>) -> bool {
    forall|i: int| 0 <= i < s.len() ==> is_lenient_base32_char(#[trigger] s[i])
}

// ---------------------------------------------------------------------------
// Names for what the outside crates compute
// ---------------------------------------------------------------------------

/// The bytes that a strict Base32 text stands for.
pub uninterp spec fn base32_bytes(text: Seq<char>) -> Seq<u8>;

/// The one-time password of RFC 4226 for a secret, a hash, a number of
/// digits and a counter, as decimal text.
pub uninterp spec fn hotp_code(secret: Seq<u8>, algorithm: Algorithm, digits: usize, counter: u64) -> Seq<
    char,
>;

/// What an `otpauth://totp/` URI says, where it is well formed. The secret
/// is given back as Base32 text.
pub uninterp spec fn otpauth_parts(uri: Seq<char>) -> Option<TotpConfigView>;

/// Whether a text is a URL that names no host.
pub uninterp spec fn url_lacks_host(uri: Seq<char>) -> bool;

/// What a URI says, where it is an `otpauth://totp/` URI: a URL without a
/// host is none.
pub open spec fn uri_parts(uri: Seq<char>) -> Option<TotpConfigView> {
    if url_lacks_host(uri) {
        None
    } else {
        otpauth_parts(uri)
    }
}

/// The `otpauth://totp/` URI for a secret and its labels and settings.
pub uninterp spec fn otpauth_uri(
    secret: Seq<u8>,
    issuer: Option<Seq<char>>,
    account_name: Seq<char>,
    algorithm: Algorithm,
    digits: usize,
    period: u64,
) -> Seq<char>;

// ---------------------------------------------------------------------------
// Trusted functions
// ---------------------------------------------------------------------------

/// Trusted: `url::Url::parse` followed by `Url::host`: whether the text is
/// a URL that names no host.
#[verifier::external_body]
fn lacks_host(uri: &str) -> (r: bool)
    ensures
        r == url_lacks_host(uri@),
{
    url::Url::parse(uri).map(|u| u.host().is_none()).unwrap_or(false)
}

/// Trusted: `totp_rs::TOTP::from_url_unchecked`, which reads the URI
/// without asking for a secret of 128 bits or for 6 to 8 digits, and
/// `TOTP::get_secret_base32` for the secret. The secret that comes back is
/// never empty and is written in the strict alphabet; the account name is
/// always present. On a URL without a host the outside function panics, so
/// such a URL is kept from it.
#[verifier::external_body]
fn read_otpauth(uri: &str) -> (r: Option<TotpConfig>)
    requires
        !url_lacks_host(uri@),
    ensures
        match r {
            Some(c) => otpauth_parts(uri@) == Some(c.deep_view()) && is_strict_base32(c.secret@)
                && c.secret@.len() > 0 && c.account_name is Some,
            None => otpauth_parts(uri@) is None,
        },
{
    totp_rs::TOTP::from_url_unchecked(uri).ok().map(
        |t| TotpConfig {
            secret: t.get_secret_base32(),
            issuer: t.issuer,
            account_name: Some(t.account_name),
            algorithm: match t.algorithm {
                totp_rs::Algorithm::SHA1 => Algorithm::SHA1,
                totp_rs::Algorithm::SHA256 => Algorithm::SHA256,
                totp_rs::Algorithm::SHA512 => Algorithm::SHA512,
            },
            digits: t.digits,
            period: t.step,
        },
    )
}

/// Trusted: `totp_rs::Secret::to_bytes` on an encoded secret. It decodes
/// exactly the texts written in the strict alphabet.
#[verifier::external_body]
fn decode_secret(text: &str) -> (r: Option<Vec<u8>>)
    ensures
        r is Some <==> is_strict_base32(text@),
        r matches Some(bytes) ==> bytes@ == base32_bytes(text@),
{
    totp_rs::Secret::Encoded(text.to_string()).to_bytes().ok()
}

/// Trusted: `base32::decode` with the RFC 4648 alphabet, unpadded. It
/// decodes exactly the ASCII texts made of letters of either case, the
/// digits 2 to 7 and the padding sign; nothing is said of the bytes.
#[verifier::external_body]
fn decode_lenient(text: &str) -> (r: Option<Vec<u8>>)
    ensures
        r is Some <==> is_lenient_base32(text@),
{
    base32::decode(base32::Alphabet::RFC4648 { padding: false }, text)
}

/// Trusted: `totp_rs::TOTP::generate` on a `TOTP` with the given fields and
/// a skew of 1. The code depends on the time only through the number of
/// whole periods since the epoch. The period must not be zero (`generate`
/// divides by it) and the digits must be at most nine (it raises ten to
/// their power in 32 bits).
#[verifier::external_body]
fn outside_generate(
    secret: &Vec<u8>,
    algorithm: Algorithm,
    digits: usize,
    period: u64,
    time: u64,
) -> (r: String)
    requires
        period > 0,
        digits <= MAX_DIGITS,
    ensures
        r@ == hotp_code(secret@, algorithm, digits, (time / period) as u64),
{
    let algorithm = match algorithm {
        Algorithm::SHA1 => totp_rs::Algorithm::SHA1,
        Algorithm::SHA256 => totp_rs::Algorithm::SHA256,
        Algorithm::SHA512 => totp_rs::Algorithm::SHA512,
    };
    let (secret, issuer, account_name) = (secret.clone(), None, String::new());
    totp_rs::TOTP { algorithm, digits, skew: 1, step: period, secret, issuer, account_name }
        .generate(time)
}

/// Trusted: `totp_rs::TOTP::get_url` on a `TOTP` with the given fields,
/// the account name `account_name` and a skew of 1.
#[verifier::external_body]
fn outside_url(secret: &Vec<u8>, config: &TotpConfig, account_name: &str) -> (r: String)
    ensures
        r@ == otpauth_uri(
            secret@,
            config.issuer.deep_view(),
            account_name@,
            config.algorithm,
            config.digits,
            config.period,
        ),
{
    let algorithm = match config.algorithm {
        Algorithm::SHA1 => totp_rs::Algorithm::SHA1,
        Algorithm::SHA256 => totp_rs::Algorithm::SHA256,
        Algorithm::SHA512 => totp_rs::Algorithm::SHA512,
    };
    let (digits, step, secret) = (config.digits, config.period, secret.clone());
    let (issuer, account_name) = (config.issuer.clone(), account_name.to_string());
    totp_rs::TOTP { algorithm, digits, skew: 1, step, secret, issuer, account_name }.get_url()
}

/// Trusted: `SystemTime::now` of std, as whole seconds since the Unix
/// epoch; `None` where the clock stands before the epoch.
#[verifier::external_body]
fn unix_seconds() -> (r: Option<u64>) {
    std::time::SystemTime::now().duration_since(std::time::UNIX_EPOCH).ok().map(|d| d.as_secs())
}

// ---------------------------------------------------------------------------
// Codes
// ---------------------------------------------------------------------------

/// Whether codes can be generated from `c`: the secret is strict Base32,
/// the period is not zero and the digits are at most nine.
pub open spec fn can_generate(c: TotpConfigView) -> bool {
    is_strict_base32(c.secret) && c.period > 0 && c.digits <= MAX_DIGITS
}

/// The code that `c` gives at `time` (seconds since the epoch).
pub open spec fn code_at(c: TotpConfigView, time: u64) -> Option<Seq<char>> {
    if can_generate(c) {
        Some(hotp_code(base32_bytes(c.secret), c.algorithm, c.digits, (time / c.period) as u64))
    } else {
        None
    }
}

/// The seconds for which the code of `time` stays valid, under a period of
/// `period` seconds.
pub open spec fn remaining(period: u64, time: u64) -> int {
    period - time % period
}

/// Two instants in the same period give the same code.
pub proof fn lemma_code_constant_within_period(c: TotpConfigView, t1: u64, t2: u64)
    requires
        c.period > 0,
        t1 / c.period == t2 / c.period,
    ensures
        code_at(c, t1) == code_at(c, t2),
{
}

/// The code of an instant is still the code after a time shorter than what
/// remained of the period, and the remaining time is never zero and never
/// more than the period.
pub proof fn lemma_code_lasts_for_ttl(c: TotpConfigView, t: u64, later: u64)
    requires
        c.period > 0,
        t <= later,
        later - t < remaining(c.period, t),
    ensures
        code_at(c, t) == code_at(c, later),
        0 < remaining(c.period, t) <= c.period,
{
    let p = c.period as int;
    let a = t as int;
    let b = later as int;
    assert(a / p == b / p) by (nonlinear_arith)
        requires
            p > 0,
            0 <= a <= b,
            b - a < p - a % p,
    {
        let q = a / p;
        assert(a == q * p + a % p);
        assert(q * p <= b < (q + 1) * p);
        assert(b / p == q);
    }
}

impl TotpConfig {
    /// A configuration with the usual settings: SHA-1, 6 digits, 30
    /// seconds.
    pub fn new(secret: String) -> (r: Self)
        ensures
            r.deep_view() == (TotpConfigView {
                secret: secret@,
                issuer: None,
                account_name: None,
                algorithm: Algorithm::SHA1,
                digits: DEFAULT_DIGITS,
                period: DEFAULT_PERIOD,
            }),
    {
        TotpConfig {
            secret,
            issuer: None,
            account_name: None,
            algorithm: Algorithm::SHA1,
            digits: DEFAULT_DIGITS,
            period: DEFAULT_PERIOD,
        }
    }

    /// Reads an `otpauth://totp/...` URI. A secret shorter than the 16
    /// bytes that the RFC recommends is accepted.
    pub fn from_uri(uri: &str) -> (r: Result<Self, Error>)
        ensures
            match r {
                Ok(c) => uri_parts(uri@) == Some(c.deep_view()) && is_strict_base32(c.secret@)
                    && c.secret@.len() > 0,
                Err(e) => uri_parts(uri@) is None && e is InvalidTotp,
            },
    {
        if lacks_host(uri) {
            return Err(Error::InvalidTotp);
        }
        match read_otpauth(uri) {
            Some(c) => Ok(c),
            None => Err(Error::InvalidTotp),
        }
    }

    /// The code at `timestamp`, in seconds since the Unix epoch.
    ///
    /// A code comes out exactly where the secret is strict Base32, the
    /// period is not zero and the digits are at most nine; anything else
    /// is an `InvalidTotp` error.
    pub fn generate_at(&self, timestamp: u64) -> (r: Result<String, Error>)
        ensures
            match r {
                Ok(code) => code_at(self.deep_view(), timestamp) == Some(code@),
                Err(e) => code_at(self.deep_view(), timestamp) is None && e is InvalidTotp,
            },
    {
        if self.period == 0 || self.digits > MAX_DIGITS {
            return Err(Error::InvalidTotp);
        }
        match decode_secret(self.secret.as_str()) {
            Some(secret) => Ok(
                outside_generate(&secret, self.algorithm, self.digits, self.period, timestamp),
            ),
            None => Err(Error::InvalidTotp),
        }
    }

    /// The code of the current time.
    ///
    /// It fails with `InvalidTotp` exactly where no code can be generated
    /// from this configuration, and with `Other` where the system clock
    /// stands before the epoch.
    pub fn generate(&self) -> (r: Result<String, Error>)
        ensures
            match r {
                Ok(code) => exists|t: u64| code_at(self.deep_view(), t) == Some(code@),
                Err(e) => if can_generate(self.deep_view()) {
                    e is Other
                } else {
                    e is InvalidTotp
                },
            },
    {
        if self.period == 0 || self.digits > MAX_DIGITS {
            return Err(Error::InvalidTotp);
        }
        let secret = match decode_secret(self.secret.as_str()) {
            Some(secret) => secret,
            None => {
                return Err(Error::InvalidTotp);
            },
        };
        match unix_seconds() {
            Some(now) => {
                let code = outside_generate(&secret, self.algorithm, self.digits, self.period, now);
                assert(code_at(self.deep_view(), now) == Some(code@));
                Ok(code)
            },
            None => Err(Error::Other(String::from_str("System time error"))),
        }
    }

    /// The seconds until the code of `timestamp` expires: the period less
    /// the seconds gone of it. Never zero, never more than the period.
    pub fn ttl_at(&self, timestamp: u64) -> (r: u64)
        requires
            self.period > 0,
        ensures
            r == remaining(self.period, timestamp),
            0 < r <= self.period,
    {
        self.period - (timestamp % self.period)
    }

    /// The seconds until the current code expires. A clock that stands
    /// before the epoch counts as the epoch.
    pub fn ttl(&self) -> (r: u64)
        requires
            self.period > 0,
        ensures
            0 < r <= self.period,
            exists|t: u64| r == remaining(self.period, t),
    {
        let now: u64 = match unix_seconds() {
            Some(now) => now,
            None => 0,
        };
        self.ttl_at(now)
    }

    /// The `otpauth://` URI of this configuration. A configuration without
    /// an account name is written with an empty one. It fails with
    /// `InvalidTotp` exactly where the secret is not strict Base32.
    pub fn to_uri(&self) -> (r: Result<String, Error>)
        ensures
            match r {
                Ok(uri) => is_strict_base32(self.secret@) && uri@ == otpauth_uri(
                    base32_bytes(self.secret@),
                    self.issuer.deep_view(),
                    match self.account_name {
                        Some(name) => name@,
                        None => Seq::<char>::empty(),
                    },
                    self.algorithm,
                    self.digits,
                    self.period,
                ),
                Err(e) => !is_strict_base32(self.secret@) && e is InvalidTotp,
            },
    {
        let account_name: &str = match &self.account_name {
            Some(name) => name.as_str(),
            None => "",
        };
        proof {
            reveal_strlit("");
            assert(""@ =~= Seq::<char>::empty());
        }
        match decode_secret(self.secret.as_str()) {
            Some(secret) => Ok(outside_url(&secret, self, account_name)),
            None => Err(Error::InvalidTotp),
        }
    }
}

// ---------------------------------------------------------------------------
// Normalising a secret
// ---------------------------------------------------------------------------

/// The scheme that marks a URI.
pub open spec fn uri_scheme() -> Seq<char> {
    "otpauth://"@
}

/// The normal form of a secret as a person gives it, or `None` where it is
/// refused.
///
/// The input is trimmed. If it is an `otpauth://` URI, the normal form is
/// the secret that the URI carries. Otherwise all white space is taken out
/// and the small letters of the Base32 alphabet are made capitals; what is
/// then not made of Base32 characters (padding included) is refused, and so
/// is every character outside ASCII.
pub open spec fn normalised(input: Seq<char>) -> Option<Seq<char>> {
    let t = trimmed(input);
    if has_prefix(t, uri_scheme()) {
        match uri_parts(t) {
            Some(c) => Some(c.secret),
            None => None,
        }
    } else {
        let cleaned = ascii_uppercase(without_spaces(t));
        if is_lenient_base32(cleaned) {
            Some(cleaned)
        } else {
            None
        }
    }
}

/// Whether `s` is made of capital letters, the digits 2 to 7 and the
/// padding sign: what a normal form looks like.
pub open spec fn is_normal_form(s: Seq<char>) -> bool {
    forall|i: int|
        0 <= i < s.len() ==> {
            let u = #[trigger] s[i] as u32;
            (0x41 <= u <= 0x5A) || (0x32 <= u <= 0x37) || u == 0x3D
        }
}

/// A text that looks like a normal form is its own normal form.
pub proof fn lemma_normal_form_is_fixed(s: Seq<char>)
    requires
        is_normal_form(s),
    ensures
        normalised(s) == Some(s),
{
    assert(has_no_space(s)) by {
        assert forall|i: int| 0 <= i < s.len() implies !is_space(#[trigger] s[i]) by {
            let u = s[i] as u32;
            assert((0x41 <= u <= 0x5A) || (0x32 <= u <= 0x37) || u == 0x3D);
        }
    }
    lemma_no_space_is_clean(s);
    reveal_strlit("otpauth://");
    if has_prefix(s, uri_scheme()) {
        assert(s.subrange(0, 10)[0] == 'o');
        assert(s[0] as u32 == 0x6F);
        assert(false);
    }
    assert(ascii_uppercase(s) =~= s) by {
        assert forall|i: int| 0 <= i < s.len() implies ascii_upper(#[trigger] s[i]) == s[i] by {
            let u = s[i] as u32;
            assert((0x41 <= u <= 0x5A) || (0x32 <= u <= 0x37) || u == 0x3D);
        }
    }
    assert(is_lenient_base32(s)) by {
        assert forall|i: int| 0 <= i < s.len() implies is_lenient_base32_char(#[trigger] s[i]) by {
            let u = s[i] as u32;
            assert((0x41 <= u <= 0x5A) || (0x32 <= u <= 0x37) || u == 0x3D);
        }
    }
}

/// The capital form of a character is never an ASCII small letter.
pub proof fn lemma_capital_is_no_small_letter(c: char)
    ensures
        !(0x61 <= ascii_upper(c) as u32 <= 0x7A),
{
    if 0x61 <= c as u32 <= 0x7A {
        assert(ascii_upper(c) as u32 == c as u32 - 32);
    }
}

/// Capitals that the normaliser lets through look like a normal form.
pub proof fn lemma_capitals_are_normal(s: Seq<char>)
    requires
        is_lenient_base32(ascii_uppercase(s)),
    ensures
        is_normal_form(ascii_uppercase(s)),
{
    let up = ascii_uppercase(s);
    assert forall|i: int| 0 <= i < up.len() implies {
        let u = #[trigger] up[i] as u32;
        (0x41 <= u <= 0x5A) || (0x32 <= u <= 0x37) || u == 0x3D
    } by {
        assert(up.len() == s.len());
        assert(is_lenient_base32_char(up[i]));
        assert(up[i] == ascii_upper(s[i]));
        lemma_capital_is_no_small_letter(s[i]);
    }
}

/// Normalises a secret: an `otpauth://` URI gives the secret it carries,
/// and bare Base32 text loses its white space and gets capital letters.
///
/// The result is the normal form of the input: capital letters, the digits
/// 2 to 7 and the padding sign only. It is its own normal form: normalising
/// twice is normalising once. What has no normal form is refused with
/// `InvalidTotp`.
pub fn parse_totp_secret(input: &str) -> (r: Result<String, Error>)
    ensures
        match r {
            Ok(secret) => normalised(input@) == Some(secret@) && is_normal_form(secret@)
                && normalised(secret@) == Some(secret@),
            Err(e) => normalised(input@) is None && e is InvalidTotp,
        },
{
    let chars = chars_of(input);
    let t = trim(&chars);
    let scheme = chars_of("otpauth://");
    if starts_with(&t, &scheme) {
        let uri = string_from_chars(&t);
        match TotpConfig::from_uri(uri.as_str()) {
            Ok(config) => {
                proof {
                    assert(is_normal_form(config.secret@)) by {
                        assert forall|i: int| 0 <= i < config.secret@.len() implies {
                            let u = #[trigger] config.secret@[i] as u32;
                            (0x41 <= u <= 0x5A) || (0x32 <= u <= 0x37) || u == 0x3D
                        } by {
                            assert(is_base32_char(config.secret@[i]));
                        }
                    }
                    lemma_normal_form_is_fixed(config.secret@);
                }
                Ok(config.secret)
            },
            Err(e) => Err(e),
        }
    } else {
        let stripped = strip_spaces(&t);
        let cleaned = string_from_chars(&to_ascii_uppercase(&stripped));
        match decode_lenient(cleaned.as_str()) {
            Some(_) => {
                proof {
                    lemma_capitals_are_normal(stripped@);
                    lemma_normal_form_is_fixed(cleaned@);
                }
                Ok(cleaned)
            },
            None => Err(Error::InvalidTotp),
        }
    }
}

} // verus!
