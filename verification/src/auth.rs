//! Authentication: password strength rules and Argon2id hashing, and the
//! session tokens' lifetimes, claims and expiry.

use vstd::prelude::*;
use vstd::utf8::encode_utf8;
use argon2::PasswordHasher;
use argon2::PasswordVerifier;
use crate::config::JwtConfig;
use crate::ids::{parse_uuid, uuid_error, uuid_parse};
use crate::text::{
    char_is_alphanumeric, char_is_lowercase, char_is_numeric, char_is_uppercase, chars_slice,
    decimal_value, has_prefix, lemma_nat_decimal_digits, nat_decimal, parse_int, parse_u64, str_equals, string_from_chars, string_from_str, to_chars, trim,
    trim_chars, unicode_alphanumeric, unicode_lowercase, unicode_numeric, unicode_uppercase,
};

verus! {

// ---------------------------------------------------------------------------
// Passwords
// ---------------------------------------------------------------------------

/// Password-related errors.
#[derive(Debug)]
pub enum PasswordError {
    HashFailed(String),
    VerifyFailed(String),
    InvalidHashFormat,
    InvalidPassword,
}

/// Whether Argon2 accepts the costs: at least 8 KiB of memory and 8 KiB per lane, at
/// least one pass, and from 1 to `0xFFFFFF` lanes.
pub open spec fn argon2_params_valid(memory_cost: u32, time_cost: u32, parallelism: u32) -> bool {
    memory_cost >= 8 && memory_cost >= parallelism * 8 && time_cost >= 1 && parallelism >= 1
        && parallelism <= 0xFFFFFF
}

/// The message of the error that Argon2 gives for costs it refuses.
pub uninterp spec fn argon2_params_message(memory_cost: u32, time_cost: u32, parallelism: u32) -> Seq<char>;

/// `argon2::Params::new(m, t, p, Some(32))`. Its source refuses exactly the costs that
/// `argon2_params_valid` rules out (an output of 32 bytes is within its bounds); the
/// message of a refusal is named. The product `p * 8` that the source computes must fit
/// in a `u32`.
#[verifier::external_body]
fn argon2_check_params(memory_cost: u32, time_cost: u32, parallelism: u32) -> (r: Result<(), String>)
    requires
        parallelism * 8 <= u32::MAX,
    ensures
        r is Ok <==> argon2_params_valid(memory_cost, time_cost, parallelism),
        r matches Err(m) ==> m@ == argon2_params_message(memory_cost, time_cost, parallelism),
{
    match argon2::Params::new(memory_cost, time_cost, parallelism, Some(32)) {
        Ok(_) => Ok(()),
        Err(e) => Err(e.to_string()),
    }
}

/// Hashes `password` with Argon2id (version 19) under the given costs and a fresh random
/// salt from the operating system (`SaltString::generate(&mut OsRng)`, then
/// `Argon2::hash_password`). The salt is random, so the string itself is not tied to
/// the arguments; the contract states what holds of every success: the PHC string that
/// the crate writes starts with the algorithm, version 19 and the costs
/// (`argon2id_phc_head`), parses back (`PasswordHash::new`), and
/// verifies the same password, since `verify_password` recomputes the hash from the
/// algorithm, version, costs, salt and output length that the string records. The
/// crate refuses only a password of more than `0xFFFFFFFF` bytes (`MAX_PWD_LEN`): the
/// generated salt, the output length and the costs, which `Params::new` accepted, are
/// within its bounds. The parameters of the string are the costs `m`, `t` and `p` in
/// decimal, as `ParamsString::try_from(&Params)` writes them (no key id, no data).
#[verifier::external_body]
fn argon2id_hash(password: &[u8], memory_cost: u32, time_cost: u32, parallelism: u32) -> (r: Result<
    String,
    String,
>)
    requires
        argon2_params_valid(memory_cost, time_cost, parallelism),
    ensures
        password@.len() <= 0xFFFF_FFFF ==> r is Ok,
        r matches Ok(h) ==> has_prefix(h@, argon2id_phc_head(memory_cost, time_cost, parallelism))
            && phc_well_formed(h@) && argon2_accepts(password@, h@) && phc_params(h@) == seq![
            ("m"@, nat_decimal(memory_cost as nat)),
            ("t"@, nat_decimal(time_cost as nat)),
            ("p"@, nat_decimal(parallelism as nat)),
        ],
{
    let params = argon2::Params::new(memory_cost, time_cost, parallelism, Some(32)).unwrap();
    let hasher = argon2::Argon2::new(argon2::Algorithm::Argon2id, argon2::Version::V0x13, params);
    let salt = argon2::password_hash::SaltString::generate(&mut rand::rngs::OsRng);
    match hasher.hash_password(password, &salt) {
        Ok(h) => Ok(h.to_string()),
        Err(e) => Err(e.to_string()),
    }
}

/// The start of the PHC string of an Argon2id hash under the given costs, up to the
/// salt: `$argon2id$v=19$m=<memory>,t=<time>,p=<lanes>$`.
pub open spec fn argon2id_phc_head(memory_cost: u32, time_cost: u32, parallelism: u32) -> Seq<char> {
    "$argon2id$v=19$m="@ + nat_decimal(memory_cost as nat) + ",t="@ + nat_decimal(time_cost as nat)
        + ",p="@ + nat_decimal(parallelism as nat) + "$"@
}

/// Whether `hash` is a well-formed PHC string.
pub uninterp spec fn phc_well_formed(hash: Seq<char>) -> bool;

/// `argon2::PasswordHash::new(hash).is_ok()`: whether `hash` parses as a PHC string. The
/// parser refuses an empty string and one that does not start with `$`.
#[verifier::external_body]
fn phc_parses(hash: &str) -> (r: bool)
    ensures
        r == phc_well_formed(hash@),
        hash@.len() == 0 || hash@[0] != '$' ==> !r,
{
    argon2::PasswordHash::new(hash).is_ok()
}

/// Whether Argon2 (with the algorithm, version and costs that the hash records) accepts
/// `password` for `hash`.
pub uninterp spec fn argon2_accepts(password: Seq<u8>, hash: Seq<char>) -> bool;

/// The parameters that the PHC string `hash` records, as pairs of name and value in the
/// order they stand in it.
pub uninterp spec fn phc_params(hash: Seq<char>) -> Seq<(Seq<char>, Seq<char>)>;

/// `PasswordHash::new(hash)?.params.iter()`, each pair of name and value as strings.
#[verifier::external_body]
fn phc_param_pairs(hash: &str) -> (r: Vec<(String, String)>)
    requires
        phc_well_formed(hash@),
    ensures
        r@.len() == phc_params(hash@).len(),
        forall|i: int| 0 <= i < r@.len() ==> (#[trigger] r@[i].0@, r@[i].1@) == phc_params(hash@)[i],
{
    match argon2::PasswordHash::new(hash) {
        Ok(h) => h.params.iter().map(|(n, v)| (n.as_str().to_string(), v.as_str().to_string())).collect(),
        Err(_) => Vec::new(),
    }
}

/// Whether a parameter of a PHC string records a lane count `p` whose product with 8
/// does not fit in a `u32` (Argon2's `Params::new` computes that product).
pub open spec fn lanes_overflow(param: (Seq<char>, Seq<char>)) -> bool {
    &&& param.0 == "p"@
    &&& parse_int(param.1, false, 0, u64::MAX as int) matches Some(n)
    &&& n * 8 > u32::MAX
}

/// Whether no parameter of the PHC string `hash` records such a lane count.
pub open spec fn phc_lanes_in_range(hash: Seq<char>) -> bool {
    forall|i: int| 0 <= i < phc_params(hash).len() ==> !lanes_overflow(#[trigger] phc_params(hash)[i])
}

/// `Argon2::default().verify_password(password, &PasswordHash::new(hash)?)`: whether
/// the password matches the PHC string. The contract names the answer, which depends on
/// the password and the hash alone. The crate reads the costs from the hash and builds
/// `Params` from them, which computes `p * 8` in a `u32`; a hash whose lane count
/// makes that overflow is left out. (A hash may record costs so large that the
/// computation exhausts the machine's memory or time; that is not stated.)
#[verifier::external_body]
fn argon2_verify(password: &[u8], hash: &str) -> (r: bool)
    requires
        phc_well_formed(hash@),
        phc_lanes_in_range(hash@),
    ensures
        r == argon2_accepts(password@, hash@),
{
    match argon2::PasswordHash::new(hash) {
        Ok(parsed) => argon2::Argon2::default().verify_password(password, &parsed).is_ok(),
        Err(_) => false,
    }
}

/// Whether a password meets the strength rules: 8 to 128 characters, with a
/// lower-case letter, an upper-case letter, a numeric character and a character that is
/// neither alphabetic nor numeric.
pub open spec fn strong_password(p: Seq<char>) -> bool {
    &&& 8 <= p.len() <= 128
    &&& exists|i: int| 0 <= i < p.len() && unicode_lowercase(#[trigger] p[i])
    &&& exists|i: int| 0 <= i < p.len() && unicode_uppercase(#[trigger] p[i])
    &&& exists|i: int| 0 <= i < p.len() && unicode_numeric(#[trigger] p[i])
    &&& exists|i: int| 0 <= i < p.len() && !unicode_alphanumeric(#[trigger] p[i])
}

/// What `verify_password` answers for `password` and the stored string `hash`: whether
/// Argon2 accepts the password, where the string is a PHC string with a lane count
/// Argon2 can compute with; `false` for a lane count beyond Argon2's limit; `None`
/// (an error) where the string is not a PHC string.
pub open spec fn verify_answer(password: Seq<char>, hash: Seq<char>) -> Option<bool> {
    if !phc_well_formed(hash) {
        None
    } else if !phc_lanes_in_range(hash) {
        Some(false)
    } else {
        Some(argon2_accepts(encode_utf8(password), hash))
    }
}

proof fn lemma_costs_lanes_in_range(h: Seq<char>, m: u32, t: u32, p: u32)
    requires
        phc_params(h) == seq![("m"@, nat_decimal(m as nat)), ("t"@, nat_decimal(t as nat)), ("p"@, nat_decimal(p as nat))],
        p <= 0xFFFFFF,
    ensures
        phc_lanes_in_range(h),
{
    reveal_strlit("m");
    reveal_strlit("t");
    reveal_strlit("p");
    lemma_nat_decimal_digits(p as nat);
    let d = nat_decimal(p as nat);
    assert(d[0] != '+');
    assert(decimal_value(d, false) == Some(p as int));
    assert forall|i: int| 0 <= i < phc_params(h).len() implies !lanes_overflow(#[trigger] phc_params(h)[i]) by {
        if i == 0 {
            assert(phc_params(h)[0].0[0] != "p"@[0]);
        } else if i == 1 {
            assert(phc_params(h)[1].0[0] != "p"@[0]);
        }
    }
}

/// Password hasher using the Argon2id algorithm.
#[derive(Debug, Clone)]
pub struct Argon2Hasher {
    memory_cost: u32,
    time_cost: u32,
    parallelism: u32,
}

impl Argon2Hasher {
    /// Whether the hasher's costs are ones that Argon2 accepts.
    pub closed spec fn well_formed(&self) -> bool {
        argon2_params_valid(self.memory_cost, self.time_cost, self.parallelism)
    }

    /// The hasher's memory cost in KiB, time cost and parallelism.
    pub closed spec fn costs(&self) -> (u32, u32, u32) {
        (self.memory_cost, self.time_cost, self.parallelism)
    }

    /// A hasher with 64 MiB of memory, 3 passes and 4 lanes.
    pub fn new() -> (h: Self)
        ensures
            h.well_formed(),
            h.costs() == (65536u32, 3u32, 4u32),
    {
        Argon2Hasher { memory_cost: 65536, time_cost: 3, parallelism: 4 }
    }

    /// A hasher with the given memory cost (KiB), time cost and parallelism, where
    /// Argon2 accepts them.
    pub fn with_params(memory_cost: u32, time_cost: u32, parallelism: u32) -> (r: Result<
        Self,
        PasswordError,
    >)
        requires
            parallelism * 8 <= u32::MAX,
        ensures
            argon2_params_valid(memory_cost, time_cost, parallelism) ==> (r matches Ok(h)
                && h.well_formed() && h.costs() == (memory_cost, time_cost, parallelism)),
            !argon2_params_valid(memory_cost, time_cost, parallelism) ==> (r matches Err(
                PasswordError::HashFailed(m),
            ) && m@ == argon2_params_message(memory_cost, time_cost, parallelism)),
    {
        match argon2_check_params(memory_cost, time_cost, parallelism) {
            Ok(()) => Ok(Argon2Hasher { memory_cost, time_cost, parallelism }),
            Err(m) => Err(PasswordError::HashFailed(m)),
        }
    }

    /// Hashes a password with Argon2id and a fresh random salt, giving a PHC string that
    /// `verify_password` accepts for the same password.
    pub fn hash_password(&self, password: &str) -> (r: Result<String, PasswordError>)
        requires
            self.well_formed(),
        ensures
            encode_utf8(password@).len() <= 0xFFFF_FFFF ==> r is Ok,
            r matches Ok(h) ==> verify_answer(password@, h@) == Some(true),
            r matches Ok(h) ==> has_prefix(h@, argon2id_phc_head(self.costs().0, self.costs().1, self.costs().2))
                && phc_well_formed(h@) && argon2_accepts(encode_utf8(password@), h@),
            r matches Err(e) ==> e is HashFailed,
    {
        match argon2id_hash(password.as_bytes(), self.memory_cost, self.time_cost, self.parallelism) {
            Ok(h) => {
                proof {
                    lemma_costs_lanes_in_range(h@, self.memory_cost, self.time_cost, self.parallelism);
                }
                Ok(h)
            },
            Err(m) => Err(PasswordError::HashFailed(m)),
        }
    }

    /// Whether `password` matches the stored PHC string `hash`; an error where `hash`
    /// is not a PHC string. A hash whose lane count is beyond Argon2's limit (more
    /// than `0xFFFFFF` lanes) never verifies: Argon2 refuses its costs.
    pub fn verify_password(&self, password: &str, hash: &str) -> (r: Result<bool, PasswordError>)
        ensures
            !phc_well_formed(hash@) ==> r matches Err(PasswordError::InvalidHashFormat),
            hash@.len() == 0 || hash@[0] != '$' ==> r matches Err(PasswordError::InvalidHashFormat),
            phc_well_formed(hash@) && !phc_lanes_in_range(hash@) ==> r == Ok::<bool, PasswordError>(false),
            phc_well_formed(hash@) && phc_lanes_in_range(hash@) ==> r == Ok::<bool, PasswordError>(
                argon2_accepts(encode_utf8(password@), hash@),
            ),
            match verify_answer(password@, hash@) {
                Some(b) => r == Ok::<bool, PasswordError>(b),
                None => r is Err,
            },
    {
        if !phc_parses(hash) {
            return Err(PasswordError::InvalidHashFormat);
        }
        let params = phc_param_pairs(hash);
        let mut i: usize = 0;
        while i < params.len()
            invariant
                phc_well_formed(hash@),
                hash@.len() > 0 && hash@[0] == '$',
                params@.len() == phc_params(hash@).len(),
                forall|j: int| 0 <= j < params@.len() ==> (#[trigger] params@[j].0@, params@[j].1@)
                    == phc_params(hash@)[j],
                i <= params@.len(),
                forall|j: int| 0 <= j < i ==> !lanes_overflow(#[trigger] phc_params(hash@)[j]),
            decreases params@.len() - i,
        {
            let (name, value) = (&params[i].0, &params[i].1);
            assert((params@[i as int].0@, params@[i as int].1@) == phc_params(hash@)[i as int]);
            if str_equals(name.as_str(), "p") {
                if let Some(n) = parse_u64(value.as_str()) {
                    if n > 536870911 {
                        assert(lanes_overflow(phc_params(hash@)[i as int]));
                        return Ok(false);
                    }
                }
            }
            i = i + 1;
        }
        Ok(argon2_verify(password.as_bytes(), hash))
    }

    /// Checks the strength rules of `strong_password`.
    pub fn validate_strength(&self, password: &str) -> (r: Result<(), PasswordError>)
        ensures
            strong_password(password@) ==> r is Ok,
            !strong_password(password@) ==> r matches Err(PasswordError::InvalidPassword),
    {
        let cs = to_chars(password);
        let n = cs.len();
        if n < 8 {
            return Err(PasswordError::InvalidPassword);
        }
        if n > 128 {
            return Err(PasswordError::InvalidPassword);
        }
        let mut has_lower = false;
        let mut has_upper = false;
        let mut has_digit = false;
        let mut has_special = false;
        let mut i: usize = 0;
        while i < cs.len()
            invariant
                cs@ == password@,
                i <= cs@.len(),
                has_lower == exists|j: int| 0 <= j < i && unicode_lowercase(#[trigger] cs@[j]),
                has_upper == exists|j: int| 0 <= j < i && unicode_uppercase(#[trigger] cs@[j]),
                has_digit == exists|j: int| 0 <= j < i && unicode_numeric(#[trigger] cs@[j]),
                has_special == exists|j: int|
                    0 <= j < i && !unicode_alphanumeric(#[trigger] cs@[j]),
            decreases cs@.len() - i,
        {
            let c = cs[i];
            if char_is_lowercase(c) {
                has_lower = true;
            }
            if char_is_uppercase(c) {
                has_upper = true;
            }
            if char_is_numeric(c) {
                has_digit = true;
            }
            if !char_is_alphanumeric(c) {
                has_special = true;
            }
            i = i + 1;
        }
        if !(has_lower && has_upper && has_digit && has_special) {
            return Err(PasswordError::InvalidPassword);
        }
        Ok(())
    }
}

impl Default for Argon2Hasher {
    fn default() -> (h: Self)
        ensures
            h.well_formed(),
            h.costs() == (65536u32, 3u32, 4u32),
    {
        Self::new()
    }
}

// ---------------------------------------------------------------------------
// Session tokens
// ---------------------------------------------------------------------------

/// The errors of token handling.
#[derive(Debug)]
pub enum AuthError {
    AuthenticationError(String),
    InternalError(String),
}

/// Claims stored in a session token.
#[derive(Debug, Clone)]
pub struct Claims {
    /// Subject (user ID).
    pub sub: String,
    /// User role.
    pub role: String,
    /// Tenant ID.
    pub tenant_id: String,
    /// Tenant role (owner, admin, member).
    pub tenant_role: String,
    /// Issued at.
    pub iat: i64,
    /// Expiration time.
    pub exp: i64,
}

/// What a valid token says: the user, the tenant, the roles and the expiry.
#[derive(Debug, Clone)]
pub struct TokenData {
    pub user_id: u128,
    pub tenant_id: u128,
    pub tenant_role: String,
    pub role: String,
    pub expires_at: i64,
}

/// The seconds in one unit of a duration suffix: `s`, `m`, `h`, `d` and `w`; `None`
/// for any other character.
pub open spec fn unit_seconds(c: char) -> Option<int> {
    if c == 'h' {
        Some(3600)
    } else if c == 'd' {
        Some(86400)
    } else if c == 'w' {
        Some(604800)
    } else if c == 'm' {
        Some(60)
    } else if c == 's' {
        Some(1)
    } else {
        None
    }
}

/// The count in front of a duration's unit: the number written there, or 24 where it
/// does not read as a `u64`.
pub open spec fn duration_count(t: Seq<char>) -> int {
    match parse_int(t.drop_last(), false, 0, u64::MAX as int) {
        Some(v) => v,
        None => 24,
    }
}

/// The count as a signed 64-bit number (`count as i64`): counts beyond `i64::MAX`
/// wrap around to negative numbers.
pub open spec fn wrapped_count(c: int) -> int {
    if c > i64::MAX {
        c - 0x1_0000_0000_0000_0000
    } else {
        c
    }
}

/// The seconds that a duration such as `24h`, `7d` or `30m` stands for. Surrounding white
/// space is ignored; an empty text or an unknown unit gives 24 hours.
pub open spec fn duration_seconds(s: Seq<char>) -> int {
    let t = trim(s);
    if t.len() == 0 {
        86400
    } else {
        match unit_seconds(t.last()) {
            Some(u) => wrapped_count(duration_count(t)) * u,
            None => 86400,
        }
    }
}

/// The largest number of seconds that a time delta holds.
pub open spec fn max_delta_seconds() -> int {
    9223372036854775
}

/// Whether a duration text can be read without a panic: its last character (after
/// trimming) is ASCII, and the seconds it stands for (the count wrapped to a signed
/// number, times the unit) fit in a time delta.
pub open spec fn duration_readable(s: Seq<char>) -> bool {
    let t = trim(s);
    t.len() > 0 ==> ((t.last() as u32) < 128 && (unit_seconds(t.last()) is Some ==> -max_delta_seconds()
        <= wrapped_count(duration_count(t)) * unit_seconds(t.last())->0 <= max_delta_seconds()))
}

/// Whether `parse_duration` can read `s` (see `duration_readable`).
pub fn duration_is_readable(s: &str) -> (r: bool)
    ensures
        r == duration_readable(s@),
{
    let t = trim_chars(&to_chars(s));
    if t.len() == 0 {
        return true;
    }
    let last = t[t.len() - 1];
    if !((last as u32) < 128) {
        return false;
    }
    let unit: u64 = if last == 'h' {
        3600
    } else if last == 'd' {
        86400
    } else if last == 'w' {
        604800
    } else if last == 'm' {
        60
    } else if last == 's' {
        1
    } else {
        return true;
    };
    let digits = string_from_chars(&chars_slice(&t, 0, t.len() - 1));
    assert(digits@ == t@.drop_last());
    let num: u64 = match parse_u64(digits.as_str()) {
        Some(v) => v,
        None => 24,
    };
    assert(num == duration_count(t@));
    let w: i128 = if num > 9223372036854775807u64 {
        num as i128 - 18446744073709551616i128
    } else {
        num as i128
    };
    assert(w == wrapped_count(num as int));
    let product: i128 = w * (unit as i128);
    assert(-9223372036854775808 <= w <= 9223372036854775807);
    assert(product == w * unit) by (nonlinear_arith)
        requires
            product == w * (unit as i128),
    ;
    -9223372036854775i128 <= product && product <= 9223372036854775i128
}

/// Parses a duration such as `24h`, `7d`, `30m` or `1w` into seconds.
pub fn parse_duration(s: &str) -> (r: i64)
    requires
        duration_readable(s@),
    ensures
        r == duration_seconds(s@),
{
    let t = trim_chars(&to_chars(s));
    if t.len() == 0 {
        return 86400;
    }
    let last = t[t.len() - 1];
    let digits = string_from_chars(&chars_slice(&t, 0, t.len() - 1));
    assert(digits@ == t@.drop_last());
    let num: u64 = match parse_u64(digits.as_str()) {
        Some(v) => v,
        None => 24,
    };
    assert(num == duration_count(t@));
    let w: i64 = num as i64;
    assert(num > 0x7fff_ffff_ffff_ffff ==> w as int == num as int - 0x1_0000_0000_0000_0000) by (bit_vector)
        requires
            w == num as i64,
    ;
    assert(num <= 0x7fff_ffff_ffff_ffff ==> w as int == num as int) by (bit_vector)
        requires
            w == num as i64,
    ;
    assert(w == wrapped_count(num as int));
    if last == 'h' {
        w * 3600
    } else if last == 'd' {
        w * 86400
    } else if last == 'w' {
        w * 604800
    } else if last == 'm' {
        w * 60
    } else if last == 's' {
        w
    } else {
        86400
    }
}

/// The issuer and checker of session tokens.
pub struct JwtHandler {
    secret: Vec<u8>,
    expiration_secs: i64,
}

impl JwtHandler {
    /// The signing secret.
    pub closed spec fn secret_bytes(&self) -> Seq<u8> {
        self.secret@
    }

    /// The lifetime of an issued token, in seconds.
    pub closed spec fn lifetime(&self) -> int {
        self.expiration_secs as int
    }

    /// A handler that signs with the configured secret and issues tokens for the
    /// configured lifetime.
    pub fn new(config: &JwtConfig) -> (h: Self)
        requires
            duration_readable(config.expiration@),
        ensures
            h.secret_bytes() == encode_utf8(config.secret@),
            h.lifetime() == duration_seconds(config.expiration@),
    {
        JwtHandler {
            secret: config.secret.as_str().as_bytes_vec(),
            expiration_secs: parse_duration(config.expiration.as_str()),
        }
    }

    /// The lifetime of an issued token, in seconds.
    pub fn lifetime_secs(&self) -> (r: i64)
        ensures
            r == self.lifetime(),
    {
        self.expiration_secs
    }

    /// The signing secret.
    pub fn secret(&self) -> (r: &[u8])
        ensures
            r@ == self.secret_bytes(),
    {
        self.secret.as_slice()
    }

    /// The claims of a token issued at `now` (seconds since the epoch): issued at `now`
    /// and expiring one lifetime later.
    pub fn claims_for(
        &self,
        user_id: &str,
        role: &str,
        tenant_id: &str,
        tenant_role: &str,
        now: i64,
    ) -> (c: Claims)
        requires
            i64::MIN <= now + self.lifetime() <= i64::MAX,
        ensures
            c.sub@ == user_id@,
            c.role@ == role@,
            c.tenant_id@ == tenant_id@,
            c.tenant_role@ == tenant_role@,
            c.iat == now,
            c.exp == now + self.lifetime(),
    {
        Claims {
            sub: string_from_str(user_id),
            role: string_from_str(role),
            tenant_id: string_from_str(tenant_id),
            tenant_role: string_from_str(tenant_role),
            iat: now,
            exp: now + self.expiration_secs,
        }
    }

    /// What the claims of a token whose signature and expiry have been checked say.
    /// The subject must be a UUID; a tenant id that is not one stands for the nil UUID.
    pub fn token_data(&self, claims: Claims) -> (r: Result<TokenData, AuthError>)
        ensures
            uuid_parse(claims.sub@) is None ==> (r matches Err(AuthError::AuthenticationError(m))
                && m@ == "Invalid user ID in token: "@ + uuid_error(claims.sub@)),
            uuid_parse(claims.sub@) matches Some(u) ==> (r matches Ok(d) && d.user_id == u
                && d.tenant_id == (match uuid_parse(claims.tenant_id@) {
                Some(t) => t,
                None => 0,
            }) && d.tenant_role@ == claims.tenant_role@ && d.role@ == claims.role@
                && d.expires_at == claims.exp),
    {
        let user_id = match parse_uuid(claims.sub.as_str()) {
            Ok(u) => u,
            Err(e) => {
                let mut m = string_from_str("Invalid user ID in token: ");
                m.append(e.as_str());
                return Err(AuthError::AuthenticationError(m));
            },
        };
        let tenant_id = match parse_uuid(claims.tenant_id.as_str()) {
            Ok(t) => t,
            Err(_) => 0,
        };
        Ok(TokenData {
            user_id,
            tenant_id,
            tenant_role: claims.tenant_role,
            role: claims.role,
            expires_at: claims.exp,
        })
    }

    /// Whether a token has expired at `now` (seconds since the epoch).
    pub fn is_expired(&self, token_data: &TokenData, now: i64) -> (r: bool)
        ensures
            r == (now >= token_data.expires_at),
    {
        now >= token_data.expires_at
    }
}

} // verus!
