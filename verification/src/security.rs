//! Device identities and password handling: the nine-digit device
//! identifier with its text forms, and Argon2id-backed password hashing.

use vstd::prelude::*;

use crate::error::{SecurityError, SecurityResult};
use crate::text::{
    all_digits, digit_char, digit_val, digits_val, is_digit_char, pow10, strip_spaces,
    u64_to_string,
};
use argon2::password_hash::{PasswordHash, PasswordHasher, PasswordVerifier, SaltString};
use sha2::Digest;
use vstd::string::StringSliceAdditionalSpecFns;

verus! {

use vstd::arithmetic::div_mod::{
    lemma_div_denominator, lemma_fundamental_div_mod, lemma_fundamental_div_mod_converse,
    lemma_div_is_ordered,
};

/// Smallest valid device identifier (nine decimal digits).
pub const DEVICE_ID_MIN: u32 = 100_000_000;

/// Largest valid device identifier (nine decimal digits).
pub const DEVICE_ID_MAX: u32 = 999_999_999;

/// Number of digits in a device identifier.
pub const DEVICE_ID_LENGTH: usize = 9;

/// A nine-digit device identifier.
#[derive(Debug, Clone, Copy, PartialEq, Eq, Hash, Structural)]
pub struct DeviceId(u32);

impl View for DeviceId {
    type V = u32;

    closed spec fn view(&self) -> u32 {
        self.0
    }
}

/// The nine decimal digits of `v`, most significant first.
pub open spec fn id_digits(v: u32) -> Seq<char> {
    seq![
        digit_char(v as int / 100000000 % 10),
        digit_char(v as int / 10000000 % 10),
        digit_char(v as int / 1000000 % 10),
        digit_char(v as int / 100000 % 10),
        digit_char(v as int / 10000 % 10),
        digit_char(v as int / 1000 % 10),
        digit_char(v as int / 100 % 10),
        digit_char(v as int / 10 % 10),
        digit_char(v as int % 10),
    ]
}

/// The digits of `v` in three space-separated groups of three.
pub open spec fn id_spaced(v: u32) -> Seq<char> {
    seq![
        digit_char(v as int / 100000000 % 10),
        digit_char(v as int / 10000000 % 10),
        digit_char(v as int / 1000000 % 10),
        ' ',
        digit_char(v as int / 100000 % 10),
        digit_char(v as int / 10000 % 10),
        digit_char(v as int / 1000 % 10),
        ' ',
        digit_char(v as int / 100 % 10),
        digit_char(v as int / 10 % 10),
        digit_char(v as int % 10),
    ]
}

/// A digit character carries the digit value it was built from.
pub proof fn lemma_digit_char_val(d: int)
    requires
        0 <= d < 10,
    ensures
        digit_val(digit_char(d)) == d,
        is_digit_char(digit_char(d)),
{
}

/// Law: the spaced rendering of a valid identifier parses back to the same
/// value. The spaced form has eleven characters: nine digits and the two
/// spaces at fixed positions, and stripping the spaces leaves exactly the
/// nine digits, whose decimal value is the identifier itself.
pub proof fn lemma_device_id_format_parse(v: u32)
    requires
        DEVICE_ID_MIN <= v <= DEVICE_ID_MAX,
    ensures
        id_spaced(v).len() == 11,
        id_spaced(v)[3] == ' ' && id_spaced(v)[7] == ' ',
        forall|i: int|
            0 <= i < 11 && i != 3 && i != 7 ==> is_digit_char(#[trigger] id_spaced(v)[i]),
        strip_spaces(id_spaced(v)) == id_digits(v),
        all_digits(id_digits(v)),
        id_digits(v).len() == 9,
        digits_val(id_digits(v)) == v,
{
    let i = v as int;
    assert forall|k: int| 0 <= k < 11 && k != 3 && k != 7 implies is_digit_char(
        #[trigger] id_spaced(v)[k],
    ) by {
        assert(0 <= i / 100000000 % 10 < 10 && 0 <= i / 10000000 % 10 < 10 && 0 <= i / 1000000 % 10
            < 10 && 0 <= i / 100000 % 10 < 10 && 0 <= i / 10000 % 10 < 10 && 0 <= i / 1000 % 10 < 10
            && 0 <= i / 100 % 10 < 10 && 0 <= i / 10 % 10 < 10 && 0 <= i % 10 < 10);
    }
    assert(strip_spaces(id_spaced(v)) =~= id_digits(v)) by {
        reveal_with_fuel(strip_spaces, 12);
        assert(id_spaced(v).drop_last() =~= id_spaced(v).take(10));
        assert(strip_spaces(id_spaced(v).take(0)) =~= Seq::<char>::empty());
    }
    lemma_id_digits_value(v);
}

/// The decimal value of the nine digits of `v` is `v` itself.
proof fn lemma_id_digits_value(v: u32)
    requires
        v <= DEVICE_ID_MAX,
    ensures
        digits_val(id_digits(v)) == v,
{
    let i = v as int;
    let q0 = i;
    let q1 = i / 10;
    let q2 = i / 100;
    let q3 = i / 1000;
    let q4 = i / 10000;
    let q5 = i / 100000;
    let q6 = i / 1000000;
    let q7 = i / 10000000;
    let q8 = i / 100000000;
    lemma_div_denominator(i, 10, 10);
    lemma_div_denominator(i, 100, 10);
    lemma_div_denominator(i, 1000, 10);
    lemma_div_denominator(i, 10000, 10);
    lemma_div_denominator(i, 100000, 10);
    lemma_div_denominator(i, 1000000, 10);
    lemma_div_denominator(i, 10000000, 10);
    assert(q1 / 10 == q2 && q2 / 10 == q3 && q3 / 10 == q4 && q4 / 10 == q5 && q5 / 10 == q6 && q6
        / 10 == q7 && q7 / 10 == q8);
    lemma_fundamental_div_mod(q0, 10);
    lemma_fundamental_div_mod(q1, 10);
    lemma_fundamental_div_mod(q2, 10);
    lemma_fundamental_div_mod(q3, 10);
    lemma_fundamental_div_mod(q4, 10);
    lemma_fundamental_div_mod(q5, 10);
    lemma_fundamental_div_mod(q6, 10);
    lemma_fundamental_div_mod(q7, 10);
    lemma_fundamental_div_mod(q8, 10);
    // the leading digit is the whole leading quotient
    lemma_div_is_ordered(i, 999999999, 100000000);
    lemma_fundamental_div_mod_converse(999999999, 100000000, 9, 99999999);
    assert(q8 <= 9);
    vstd::arithmetic::div_mod::lemma_div_pos_is_pos(i, 100000000);
    vstd::arithmetic::div_mod::lemma_small_mod(q8 as nat, 10);
    assert(q8 % 10 == q8);
    let s = id_digits(v);
    assert(digits_val(s) == v) by {
        reveal_with_fuel(digits_val, 10);
        assert(s.drop_last() =~= s.take(8) && s.take(8).drop_last() =~= s.take(7) && s.take(
            7,
        ).drop_last() =~= s.take(6) && s.take(6).drop_last() =~= s.take(5) && s.take(5).drop_last()
            =~= s.take(4) && s.take(4).drop_last() =~= s.take(3) && s.take(3).drop_last() =~= s.take(
            2,
        ) && s.take(2).drop_last() =~= s.take(1) && s.take(1).drop_last() =~= s.take(0));
        lemma_digit_char_val(q8 % 10);
        lemma_digit_char_val(q7 % 10);
        lemma_digit_char_val(q6 % 10);
        lemma_digit_char_val(q5 % 10);
        lemma_digit_char_val(q4 % 10);
        lemma_digit_char_val(q3 % 10);
        lemma_digit_char_val(q2 % 10);
        lemma_digit_char_val(q1 % 10);
        lemma_digit_char_val(q0 % 10);
        assert(digits_val(s.take(1)) == q8);
        assert(digits_val(s.take(2)) == q8 * 10 + (q7 - 10 * q8)) by {
            assert(q7 % 10 == q7 - 10 * q8);
        }
        assert(digits_val(s.take(2)) == q7);
        assert(digits_val(s.take(3)) == q6);
        assert(digits_val(s.take(4)) == q5);
        assert(digits_val(s.take(5)) == q4);
        assert(digits_val(s.take(6)) == q3);
        assert(digits_val(s.take(7)) == q2);
        assert(digits_val(s.take(8)) == q1);
        assert(s.take(9) =~= s);
        assert(digits_val(s) == q0);
    }
}

/// Relies on rand's `gen_range`: a uniformly chosen value inside the given
/// inclusive range.
#[verifier::external_body]
fn random_id_value() -> (r: u32)
    ensures
        DEVICE_ID_MIN <= r <= DEVICE_ID_MAX,
{
    let mut rng = rand::thread_rng();
    rand::Rng::gen_range(&mut rng, DEVICE_ID_MIN..=DEVICE_ID_MAX)
}

impl DeviceId {
    /// The identifier as its numeric value.
    pub fn as_u32(&self) -> (r: u32)
        ensures
            r == self@,
    {
        self.0
    }

    /// True when the wrapped value lies in the nine-digit range.
    pub open spec fn valid(&self) -> bool {
        DEVICE_ID_MIN <= self@ <= DEVICE_ID_MAX
    }

    /// Generates a new random device identifier.
    pub fn generate() -> (r: DeviceId)
        ensures
            r.valid(),
    {
        DeviceId(random_id_value())
    }

    /// Wraps a numeric value, accepting exactly the nine-digit range.
    pub fn from_u32(id: u32) -> (r: SecurityResult<DeviceId>)
        ensures
            DEVICE_ID_MIN <= id <= DEVICE_ID_MAX ==> (r matches Ok(d) && d@ == id),
            !(DEVICE_ID_MIN <= id <= DEVICE_ID_MAX) ==> r matches Err(
                SecurityError::InvalidDeviceId(_),
            ),
    {
        if id < DEVICE_ID_MIN || id > DEVICE_ID_MAX {
            let mut m = String::from_str("Device ID must be a 9-digit number, got: ");
            let n = u64_to_string(id as u64);
            m.append(n.as_str());
            Err(SecurityError::InvalidDeviceId(m))
        } else {
            Ok(DeviceId(id))
        }
    }

    /// Renders the identifier as three space-separated groups of three digits.
    pub fn format_with_spaces(&self) -> (r: String)
        ensures
            r@ == id_spaced(self@),
    {
        let v = self.0;
        let mut s = String::new();
        crate::text::append_digit(&mut s, (v / 100000000 % 10) as u8);
        crate::text::append_digit(&mut s, (v / 10000000 % 10) as u8);
        crate::text::append_digit(&mut s, (v / 1000000 % 10) as u8);
        proof {
            reveal_strlit(" ");
        }
        s.append(" ");
        crate::text::append_digit(&mut s, (v / 100000 % 10) as u8);
        crate::text::append_digit(&mut s, (v / 10000 % 10) as u8);
        crate::text::append_digit(&mut s, (v / 1000 % 10) as u8);
        s.append(" ");
        crate::text::append_digit(&mut s, (v / 100 % 10) as u8);
        crate::text::append_digit(&mut s, (v / 10 % 10) as u8);
        crate::text::append_digit(&mut s, (v % 10) as u8);
        proof {
            assert(s@ =~= id_spaced(self@));
        }
        s
    }

    /// Renders the identifier as its plain nine digits.
    pub fn digits(&self) -> (r: String)
        ensures
            r@ == id_digits(self@),
    {
        let v = self.0;
        let mut s = String::new();
        crate::text::append_digit(&mut s, (v / 100000000 % 10) as u8);
        crate::text::append_digit(&mut s, (v / 10000000 % 10) as u8);
        crate::text::append_digit(&mut s, (v / 1000000 % 10) as u8);
        crate::text::append_digit(&mut s, (v / 100000 % 10) as u8);
        crate::text::append_digit(&mut s, (v / 10000 % 10) as u8);
        crate::text::append_digit(&mut s, (v / 1000 % 10) as u8);
        crate::text::append_digit(&mut s, (v / 100 % 10) as u8);
        crate::text::append_digit(&mut s, (v / 10 % 10) as u8);
        crate::text::append_digit(&mut s, (v % 10) as u8);
        proof {
            assert(s@ =~= id_digits(self@));
        }
        s
    }

    /// Parses an identifier from text, ignoring spaces.
    ///
    /// Accepts exactly the strings whose non-space characters are decimal
    /// digits forming a value in the nine-digit range.
    pub fn parse_str(s: &str) -> (r: SecurityResult<DeviceId>)
        ensures
            r matches Ok(d) ==> {
                let cleaned = strip_spaces(s@);
                &&& all_digits(cleaned)
                &&& cleaned.len() > 0
                &&& digits_val(cleaned) == d@
                &&& d.valid()
            },
            r is Err ==> !{
                let cleaned = strip_spaces(s@);
                &&& all_digits(cleaned)
                &&& cleaned.len() > 0
                &&& digits_val(cleaned) <= u32::MAX
                &&& DEVICE_ID_MIN <= digits_val(cleaned) <= DEVICE_ID_MAX
            },
    {
        let cleaned = crate::text::strip_spaces_exec(s);
        match crate::text::parse_u32_digits(&cleaned) {
            Some(v) => DeviceId::from_u32(v),
            None => Err(
                SecurityError::InvalidDeviceId(String::from_str("Invalid device ID format")),
            ),
        }
    }

    /// Checks an identifier string: spaces are ignored, exactly nine digits
    /// must remain, and their value must lie in the nine-digit range.
    pub fn validate(id_str: &str) -> (r: SecurityResult<()>)
        ensures
            r is Ok <==> {
                let cleaned = strip_spaces(id_str@);
                &&& cleaned.len() == DEVICE_ID_LENGTH
                &&& all_digits(cleaned)
                &&& DEVICE_ID_MIN <= digits_val(cleaned) <= DEVICE_ID_MAX
            },
    {
        let cleaned = crate::text::strip_spaces_exec(id_str);
        if cleaned.len() != DEVICE_ID_LENGTH {
            let mut m = String::from_str("Device ID must be 9 digits, got: ");
            let n = u64_to_string(cleaned.len() as u64);
            m.append(n.as_str());
            return Err(SecurityError::InvalidDeviceId(m));
        }
        match crate::text::parse_u32_digits(&cleaned) {
            Some(v) => {
                match DeviceId::from_u32(v) {
                    Ok(_) => Ok(()),
                    Err(e) => Err(e),
                }
            },
            None => {
                proof {
                    if all_digits(cleaned@) {
                        crate::text::lemma_digits_val_bounds(cleaned@);
                        assert(pow10(9) == 1000000000) by {
                            reveal_with_fuel(pow10, 10);
                        }
                    }
                }
                Err(
                    SecurityError::InvalidDeviceId(
                        String::from_str("Device ID must contain only digits"),
                    ),
                )
            },
        }
    }
}

impl core::str::FromStr for DeviceId {
    type Err = SecurityError;

    fn from_str(s: &str) -> core::result::Result<DeviceId, SecurityError> {
        DeviceId::parse_str(s)
    }
}

/// Shortest password accepted, in bytes.
pub const PASSWORD_MIN_LENGTH: usize = 6;

/// Longest password accepted, in bytes.
pub const PASSWORD_MAX_LENGTH: usize = 128;

/// Whether Argon2id accepts `password` against the PHC hash string `hash`.
/// The outcome depends on the two arguments alone, since a PHC string
/// carries its own salt and parameters.
pub uninterp spec fn argon2_verifies(password: Seq<char>, hash: Seq<char>) -> bool;

/// Relies on argon2's `hash_password` with a freshly generated random salt:
/// on success the returned PHC string verifies the same password.
#[verifier::external_body]
fn argon2_hash_password(password: &str) -> (r: core::result::Result<String, String>)
    ensures
        r matches Ok(h) ==> argon2_verifies(password@, h@),
{
    let salt = SaltString::generate(&mut argon2::password_hash::rand_core::OsRng);
    match argon2::Argon2::default().hash_password(password.as_bytes(), &salt) {
        Ok(h) => Ok(h.to_string()),
        Err(e) => Err(e.to_string()),
    }
}

/// Relies on argon2's `verify_password`: whether the password matches the
/// PHC hash string; a malformed hash string matches nothing.
#[verifier::external_body]
fn argon2_verify(password: &str, hash: &str) -> (r: bool)
    ensures
        r == argon2_verifies(password@, hash@),
{
    match PasswordHash::new(hash) {
        Ok(parsed) => argon2::Argon2::default().verify_password(
            password.as_bytes(),
            &parsed,
        ).is_ok(),
        Err(_) => false,
    }
}

/// The SHA-256 digest of a byte sequence.
pub uninterp spec fn sha256_of(data: Seq<u8>) -> Seq<u8>;

/// Relies on sha2's Sha256: the 32-byte digest of the input, a function of
/// the input alone.
#[verifier::external_body]
fn sha256_digest(data: &Vec<u8>) -> (r: [u8; 32])
    ensures
        r@ == sha256_of(data@),
        r@.len() == 32,
{
    let mut hasher = sha2::Sha256::new();
    hasher.update(data.as_slice());
    let out = hasher.finalize();
    let mut digest = [0u8; 32];
    digest.copy_from_slice(&out);
    digest
}

/// The four bytes of `v` in little-endian order.
pub open spec fn u32_le_bytes(v: u32) -> Seq<u8> {
    seq![
        (v as int % 256) as u8,
        (v as int / 256 % 256) as u8,
        (v as int / 65536 % 256) as u8,
        (v as int / 16777216 % 256) as u8,
    ]
}

/// The on-wire password proof: SHA-256 over the password bytes followed by
/// the remote device identifier in little-endian order.
pub open spec fn wire_password_hash(password: Seq<char>, remote_id: u32) -> Seq<u8> {
    sha256_of(vstd::utf8::encode_utf8(password) + u32_le_bytes(remote_id))
}

/// Computes the password proof sent in a connection request.
pub fn connection_password_hash(password: &str, remote_id: &DeviceId) -> (r: [u8; 32])
    ensures
        r@ == wire_password_hash(password@, remote_id@),
{
    let bytes = password.as_bytes();
    let mut data: Vec<u8> = Vec::new();
    let mut i: usize = 0;
    while i < bytes.len()
        invariant
            0 <= i <= bytes@.len(),
            data@ == bytes@.take(i as int),
        decreases bytes@.len() - i,
    {
        data.push(bytes[i]);
        i += 1;
    }
    proof {
        assert(bytes@.take(bytes@.len() as int) =~= bytes@);
    }
    let v = remote_id.as_u32();
    data.push((v % 256) as u8);
    data.push((v / 256 % 256) as u8);
    data.push((v / 65536 % 256) as u8);
    data.push((v / 16777216 % 256) as u8);
    proof {
        assert(data@ =~= vstd::utf8::encode_utf8(password@) + u32_le_bytes(remote_id@));
    }
    sha256_digest(&data)
}

/// Hashing, verification and length rules for session passwords.
pub struct PasswordManager;

impl PasswordManager {
    /// Checks that a password's byte length lies inside the accepted range.
    pub fn validate_password_length(password: &str) -> (r: SecurityResult<()>)
        ensures
            r is Ok <==> PASSWORD_MIN_LENGTH <= password.spec_bytes().len()
                <= PASSWORD_MAX_LENGTH,
            password.spec_bytes().len() < PASSWORD_MIN_LENGTH ==> r matches Err(
                SecurityError::PasswordTooShort { min: PASSWORD_MIN_LENGTH },
            ),
            password.spec_bytes().len() > PASSWORD_MAX_LENGTH ==> r matches Err(
                SecurityError::PasswordTooLong { max: PASSWORD_MAX_LENGTH },
            ),
    {
        let len = password.as_bytes().len();
        if len < PASSWORD_MIN_LENGTH {
            Err(SecurityError::PasswordTooShort { min: PASSWORD_MIN_LENGTH })
        } else if len > PASSWORD_MAX_LENGTH {
            Err(SecurityError::PasswordTooLong { max: PASSWORD_MAX_LENGTH })
        } else {
            Ok(())
        }
    }

    /// Hashes a password with Argon2id, returning a PHC-formatted string.
    ///
    /// Rejects exactly the passwords outside the accepted length range with
    /// the matching length error; an in-range password fails only when the
    /// hashing step itself does, and its message is then surfaced.
    pub fn hash_password(password: &str) -> (r: SecurityResult<String>)
        ensures
            r matches Ok(h) ==> argon2_verifies(password@, h@),
            r is Ok ==> PASSWORD_MIN_LENGTH <= password.spec_bytes().len() <= PASSWORD_MAX_LENGTH,
            (r matches Err(SecurityError::PasswordTooShort { .. })) <==> password.spec_bytes().len()
                < PASSWORD_MIN_LENGTH,
            (r matches Err(SecurityError::PasswordTooLong { .. })) <==> password.spec_bytes().len()
                > PASSWORD_MAX_LENGTH,
            password.spec_bytes().len() < PASSWORD_MIN_LENGTH ==> r matches Err(
                SecurityError::PasswordTooShort { min: PASSWORD_MIN_LENGTH },
            ),
            password.spec_bytes().len() > PASSWORD_MAX_LENGTH ==> r matches Err(
                SecurityError::PasswordTooLong { max: PASSWORD_MAX_LENGTH },
            ),
            PASSWORD_MIN_LENGTH <= password.spec_bytes().len() <= PASSWORD_MAX_LENGTH && r is Err
                ==> r matches Err(SecurityError::EncryptionError(_)),
    {
        match Self::validate_password_length(password) {
            Ok(_) => {},
            Err(e) => {
                return Err(e);
            },
        }
        match argon2_hash_password(password) {
            Ok(h) => Ok(h),
            Err(m) => Err(SecurityError::EncryptionError(m)),
        }
    }

    /// Verifies a password against a PHC-formatted Argon2id hash string.
    pub fn verify_password(password: &str, hash: &str) -> (r: SecurityResult<()>)
        ensures
            r is Ok <==> argon2_verifies(password@, hash@),
            r is Err ==> r matches Err(SecurityError::PasswordVerificationFailed),
    {
        if argon2_verify(password, hash) {
            Ok(())
        } else {
            Err(SecurityError::PasswordVerificationFailed)
        }
    }
}

} // verus!
