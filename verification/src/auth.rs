//! Staff passwords and the staff session.
use vstd::prelude::*;
use crate::error::AppError;
use crate::repos::CredentialRepoTrait;

verus! {

/// Whether `argon2`'s `verify_password` accepts a password for a stored
/// hash: the hash parses as a PHC string and the password hashes to it.
pub uninterp spec fn argon2_accepts(hash: Seq<char>, password: Seq<char>) -> bool;

/// How a PHC string of Argon2id, version 0x13 (19), begins: `$argon2id$v=19$`.
pub open spec fn argon2_hash_prefix() -> Seq<char> {
    "$argon2id$v=19$"@
}

/// Hashes a password with Argon2 (default parameters) and a fresh random
/// salt from the operating system (`SaltString::generate(&mut OsRng)`), in
/// PHC string form. The hash depends on the random salt, so only what holds
/// of every outcome is stated: a hash it returns is accepted for the same
/// password by `verify_password`, which recomputes it with the salt and
/// parameters the string carries, and it begins with the default
/// algorithm (Argon2id) and version (19) as `PasswordHash`'s `Display`
/// writes them. A hashing error becomes `Unexpected` with the error's text.
#[verifier::external_body]
pub fn hash_password(password: &str) -> (r: Result<String, AppError>)
    ensures
        r matches Ok(h) ==> argon2_accepts(h@, password@),
        r matches Ok(h) ==> argon2_hash_prefix().is_prefix_of(h@),
        r matches Err(e) ==> e is Unexpected,
{
    let salt = password_hash::SaltString::generate(&mut rand::rngs::OsRng);
    let hasher = argon2::Argon2::default();
    match argon2::PasswordHasher::hash_password(&hasher, password.as_bytes(), &salt) {
        Ok(h) => Ok(h.to_string()),
        Err(e) => Err(AppError::Unexpected(e.to_string())),
    }
}

/// Checks a password against a stored hash with `argon2`'s
/// `PasswordVerifier::verify_password`; a hash that does not parse
/// (`PasswordHash::new`) is never accepted. The answer is named `argon2_accepts`.
#[verifier::external_body]
pub fn verify_password(hash: &str, password: &str) -> (r: bool)
    ensures
        r == argon2_accepts(hash@, password@),
{
    match argon2::PasswordHash::new(hash) {
        Ok(parsed) => {
            let verifier = argon2::Argon2::default();
            argon2::PasswordVerifier::verify_password(&verifier, password.as_bytes(), &parsed).is_ok()
        },
        Err(_) => false,
    }
}

/// What validating a password gives when the stored hash is `stored`.
pub open spec fn password_matches(stored: Option<Seq<char>>, raw: Seq<char>) -> bool {
    match stored {
        Some(h) => argon2_accepts(h, raw),
        None => false,
    }
}

/// Setting, checking and removing the staff password.
pub struct AuthUseCase<R> {
    pub repo: R,
}

impl<R: CredentialRepoTrait> AuthUseCase<R> {
    pub fn new(repo: R) -> (r: Self)
        ensures
            r.repo == repo,
    {
        AuthUseCase { repo }
    }

    /// Stores a fresh hash of the password: an Argon2id PHC string, never
    /// the password as given (unless that is itself such a string).
    pub fn set_password(&mut self, raw: &str) -> (r: Result<(), AppError>)
        ensures
            r is Ok ==> (final(self).repo.stored_hash() matches Some(h) && argon2_accepts(h, raw@)),
            r is Ok ==> (final(self).repo.stored_hash() matches Some(h) && argon2_hash_prefix().is_prefix_of(h)),
            (r is Ok && !argon2_hash_prefix().is_prefix_of(raw@)) ==> final(self).repo.stored_hash() != Some(raw@),
            r is Err ==> final(self).repo.stored_hash() == old(self).repo.stored_hash(),
    {
        let hash = match hash_password(raw) {
            Ok(h) => h,
            Err(e) => {
                return Err(e);
            },
        };
        self.repo.set_password(hash.as_str())
    }

    /// Whether the password matches the stored hash; without a stored hash, no.
    pub fn validate_password(&self, raw: &str) -> (r: Result<bool, AppError>)
        ensures
            r matches Ok(b) ==> b == password_matches(self.repo.stored_hash(), raw@),
    {
        match self.repo.get_password_hash() {
            Ok(Some(hash)) => Ok(verify_password(hash.as_str(), raw)),
            Ok(None) => Ok(false),
            Err(e) => Err(e),
        }
    }

    /// Whether a password is set.
    pub fn password_required(&self) -> (r: Result<bool, AppError>)
        ensures
            r matches Ok(b) ==> b == self.repo.stored_hash() is Some,
    {
        match self.repo.get_password_hash() {
            Ok(h) => Ok(h.is_some()),
            Err(e) => Err(e),
        }
    }

    /// Removes the stored password.
    pub fn delete_password(&mut self) -> (r: Result<(), AppError>)
        ensures
            final(self).repo.stored_hash() == (if r is Ok { None } else { old(self).repo.stored_hash() }),
    {
        self.repo.delete_password()
    }
}

/// A password that was set is accepted afterwards: once `set_password(raw)`
/// has succeeded, validating `raw` against what is stored gives true.
pub proof fn set_password_then_validate(stored: Option<Seq<char>>, raw: Seq<char>)
    requires
        stored matches Some(h) && argon2_accepts(h, raw),
    ensures
        password_matches(stored, raw),
{
}

#[verifier::external_type_specification]
#[verifier::external_body]
pub struct ExInstant(std::time::Instant);

/// The staff session: whether staff are logged in and when they last acted.
pub struct AuthState {
    pub logged_in: bool,
    pub last_activity: Option<std::time::Instant>,
}

impl Default for AuthState {
    fn default() -> (s: Self)
        ensures
            !s.logged_in,
            s.last_activity is None,
    {
        AuthState { logged_in: false, last_activity: None }
    }
}

/// How many seconds of inactivity end a session.
pub const SESSION_TIMEOUT_SECS: u64 = 900;

/// Reads the monotonic clock (`std::time::Instant::now`).
#[verifier::external_body]
fn instant_now() -> std::time::Instant {
    std::time::Instant::now()
}

/// The whole seconds since an instant (`Instant::elapsed().as_secs()`); it depends on the clock.
#[verifier::external_body]
fn seconds_since(i: &std::time::Instant) -> u64 {
    i.elapsed().as_secs()
}

/// Whether a session idle for the given seconds has timed out.
pub open spec fn session_expired(idle_secs: u64) -> bool {
    idle_secs > SESSION_TIMEOUT_SECS
}

/// Logs staff in when the password equals the expected one; the expected
/// password must be configured.
pub fn staff_login(st: &mut AuthState, password: &str, expected: Option<&str>) -> (r: Result<(), String>)
    ensures
        r is Ok <==> (expected matches Some(e) && e@ == password@),
        r is Ok ==> final(st).logged_in && final(st).last_activity is Some,
        r is Err ==> *final(st) == *old(st),
        r matches Err(m) ==> m@ == (if expected is None { "Missing STAFF_PASSWORD"@ } else { "Invalid password"@ }),
{
    let expected = match expected {
        Some(e) => String::from_str(e),
        None => {
            return Err(String::from_str("Missing STAFF_PASSWORD"));
        },
    };
    let given = String::from_str(password);
    if given == expected {
        st.logged_in = true;
        st.last_activity = Some(instant_now());
        Ok(())
    } else {
        Err(String::from_str("Invalid password"))
    }
}

/// Lets a staff-only command go ahead: `Ok` when staff are logged in, else
/// the error `Unauthorized`.
pub fn require_login(st: &AuthState) -> (r: Result<(), String>)
    ensures
        r is Ok <==> st.logged_in,
        r matches Err(m) ==> m@ == "Unauthorized"@,
{
    if !st.logged_in {
        return Err(String::from_str("Unauthorized"));
    }
    Ok(())
}

/// Ends the staff session.
pub fn staff_logout(st: &mut AuthState)
    ensures
        !final(st).logged_in,
        final(st).last_activity is None,
{
    st.logged_in = false;
    st.last_activity = None;
}

/// The status of a session after `idle_secs` seconds without activity. A
/// session that is not logged in (or has no activity time) stays as it is
/// and is not logged in; one idle for more than fifteen minutes ends; any
/// other has its activity time refreshed and is logged in.
pub fn session_after_idle(st: &mut AuthState, idle_secs: u64) -> (r: bool)
    ensures
        !(old(st).logged_in && old(st).last_activity is Some) ==> !r && *final(st) == *old(st),
        old(st).logged_in && old(st).last_activity is Some ==> {
            &&& r == !session_expired(idle_secs)
            &&& r ==> final(st).logged_in && final(st).last_activity is Some
            &&& !r ==> !final(st).logged_in && final(st).last_activity is None
        },
{
    if st.logged_in && st.last_activity.is_some() {
        if idle_secs > SESSION_TIMEOUT_SECS {
            st.logged_in = false;
            st.last_activity = None;
            false
        } else {
            st.last_activity = Some(instant_now());
            true
        }
    } else {
        false
    }
}

/// Whether staff are still logged in: the time since the last activity is
/// read from the clock and the session is updated as `session_after_idle` says.
pub fn check_login_status(st: &mut AuthState) -> (r: bool)
    ensures
        !(old(st).logged_in && old(st).last_activity is Some) ==> !r && *final(st) == *old(st),
        old(st).logged_in && old(st).last_activity is Some ==> {
            &&& r ==> final(st).logged_in && final(st).last_activity is Some
            &&& !r ==> !final(st).logged_in && final(st).last_activity is None
        },
{
    let idle = match &st.last_activity {
        Some(last) => seconds_since(last),
        None => 0,
    };
    session_after_idle(st, idle)
}

} // verus!
