//! Salted password credentials: Argon2i over the password and a fresh
//! 32-byte salt drawn from the operating system.
use vstd::prelude::*;
use vstd::string::StringSliceAdditionalSpecFns;

verus! {

/// Length of the salt drawn for each new credential.
pub const SALT_LEN: usize = 32;

/// Largest password or salt, in bytes, that Argon2 takes.
pub const ARGON2_MAX_INPUT: u64 = 0xffff_ffff;

/// The Argon2i digest (default parameters, 32 bytes) of a password's bytes
/// under a salt.
pub uninterp spec fn argon2i_of(password: Seq<u8>, salt: Seq<u8>) -> Seq<u8>;

/// A salt that Argon2 accepts.
pub open spec fn salt_fits(salt: Seq<u8>) -> bool {
    8 <= salt.len() <= ARGON2_MAX_INPUT
}

/// A password that Argon2 accepts.
pub open spec fn password_fits(password: Seq<u8>) -> bool {
    password.len() <= ARGON2_MAX_INPUT
}

/// Relies on argon2rs: `Argon2::default(Variant::Argon2i).hash`, the
/// computation behind `argon2i_simple`, with a 32-byte output and no secret
/// or associated data. It asserts a salt of 8 to 2^32-1 bytes and a password
/// under 2^32 bytes.
#[verifier::external_body]
fn argon2i(password: &str, salt: &Vec<u8>) -> (r: Vec<u8>)
    requires
        password_fits(password.spec_bytes()),
        salt_fits(salt@),
    ensures
        r@ == argon2i_of(password.spec_bytes(), salt@),
        r@.len() == 32,
{
    let mut out = [0u8; argon2rs::defaults::LENGTH];
    let a2 = argon2rs::Argon2::default(argon2rs::Variant::Argon2i);
    a2.hash(&mut out, password.as_bytes(), salt.as_slice(), &[], &[]);
    out.to_vec()
}

/// Relies on getrandom::getrandom: it fills the buffer from the operating
/// system's secure source and says whether it could. The buffer keeps its
/// length.
#[verifier::external_body]
fn fill_random(buf: &mut Vec<u8>) -> (ok: bool)
    ensures
        final(buf)@.len() == old(buf)@.len(),
{
    getrandom::getrandom(buf.as_mut_slice()).is_ok()
}

/// A stored credential: the digest of a password and the salt it was made
/// with.
#[derive(Clone, Debug)]
pub struct Password {
    pub hash: Vec<u8>,
    pub salt: Vec<u8>,
}

impl Password {
    /// Whether `password` is the one this credential was made from: its
    /// digest under the stored salt equals the stored digest. A credential
    /// whose salt Argon2 refuses accepts no password.
    pub open spec fn accepts(&self, password: Seq<u8>) -> bool {
        &&& password_fits(password)
        &&& salt_fits(self.salt@)
        &&& argon2i_of(password, self.salt@) == self.hash@
    }

    /// The credential for `password` under a given salt.
    pub fn with_salt(password: &str, salt: Vec<u8>) -> (r: Password)
        requires
            password_fits(password.spec_bytes()),
            salt_fits(salt@),
        ensures
            r.salt@ == salt@,
            r.hash@ == argon2i_of(password.spec_bytes(), salt@),
    {
        let hash = argon2i(password, &salt);
        Password { hash, salt }
    }

    /// A new credential for `password`, under a fresh random salt; fails
    /// with `Integrity` when no random bytes can be had.
    pub fn hash(password: &str) -> (r: Result<Password, crate::error::ApiError>)
        requires
            password_fits(password.spec_bytes()),
        ensures
            match r {
                Ok(p) => p.salt@.len() == SALT_LEN && p.hash@ == argon2i_of(
                    password.spec_bytes(),
                    p.salt@,
                ),
                Err(e) => e == crate::error::ApiError::Integrity,
            },
    {
        let mut salt: Vec<u8> = vec![0u8; SALT_LEN];
        if !fill_random(&mut salt) {
            return Err(crate::error::ApiError::Integrity);
        }
        Ok(Password::with_salt(password, salt))
    }

    /// Recomputes the digest of `password` under the stored salt and
    /// compares it with the stored digest, reading every byte whatever the
    /// outcome.
    pub fn is_valid(self, password: &str) -> (r: bool)
        ensures
            r == self.accepts(password.spec_bytes()),
    {
        if password.as_bytes().len() as u64 > ARGON2_MAX_INPUT || self.salt.len() < 8 || self.salt.len() as u64
            > ARGON2_MAX_INPUT {
            return false;
        }
        let candidate = argon2i(password, &self.salt);
        same_bytes(&candidate, &self.hash)
    }
}

/// A credential made from a password accepts that same password: hashing
/// and then verifying with the same plaintext always succeeds.
pub proof fn lemma_hash_then_verify(password: Seq<u8>, credential: Password)
    requires
        password_fits(password),
        credential.salt@.len() == SALT_LEN,
        credential.hash@ == argon2i_of(password, credential.salt@),
    ensures
        credential.accepts(password),
{
}

/// A credential refuses a different password wherever Argon2 separates the
/// two under the credential's salt.
pub proof fn lemma_other_password_refused(password: Seq<u8>, other: Seq<u8>, credential: Password)
    requires
        credential.hash@ == argon2i_of(password, credential.salt@),
        argon2i_of(other, credential.salt@) != argon2i_of(password, credential.salt@),
    ensures
        !credential.accepts(other),
{
}

/// Two credentials of one password under different salts keep different
/// salts, and differ in their digests wherever Argon2 separates the salts.
pub proof fn lemma_fresh_salts_differ(password: Seq<u8>, first: Password, second: Password)
    requires
        first.hash@ == argon2i_of(password, first.salt@),
        second.hash@ == argon2i_of(password, second.salt@),
        first.salt@ != second.salt@,
        argon2i_of(password, first.salt@) != argon2i_of(password, second.salt@),
    ensures
        first.salt@ != second.salt@,
        first.hash@ != second.hash@,
{
}

/// Byte-wise equality that does not stop at the first difference.
pub fn same_bytes(a: &Vec<u8>, b: &Vec<u8>) -> (r: bool)
    ensures
        r == (a@ == b@),
{
    if a.len() != b.len() {
        return false;
    }
    let mut same = true;
    let mut i: usize = 0;
    while i < a.len()
        invariant
            a@.len() == b@.len(),
            i <= a@.len(),
            same == (forall|j: int| 0 <= j < i ==> a@[j] == b@[j]),
        decreases a@.len() - i,
    {
        if a[i] != b[i] {
            same = false;
        }
        i += 1;
    }
    if same {
        assert(a@ =~= b@);
    }
    same
}

} // verus!
