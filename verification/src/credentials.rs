//! The credential store: one secret per provider name, kept by the
//! platform's secure-credential facility under a fixed service namespace.
//!
//! The facility's replies differ across platforms (a distinct "no such
//! item" condition, a failure to open the store, a rejected write).  This
//! module absorbs those differences: every reply is first carried over as a
//! plain value (`PasswordReply`, `WriteReply`, `RemoveReply`) and then
//! mapped by a verified function into the uniform outcome model, in which
//! absence of an entry is an ordinary result and never an error.

use vstd::prelude::*;

verus! {

/// Handle to one slot of the platform's secure-credential facility.
#[verifier::external_type_specification]
#[verifier::external_body]
pub struct ExEntry(keyring::Entry);

/// A failure of the credential store, each holding the platform's own
/// description of the fault.  Absence of an entry is never a failure.
#[derive(Debug, PartialEq, Eq)]
pub enum SecretError {
    /// The facility could not be opened for this namespace and provider.
    StoreUnavailable(String),
    /// The facility failed while reading an entry (not "no entry").
    ReadFailed(String),
    /// The facility rejected a write.
    WriteFailed(String),
    /// The facility failed while deleting an entry (not "no entry").
    DeleteFailed(String),
    /// The provider name was empty.
    ArgumentInvalid,
}

impl SecretError {
    /// A human-readable description of the failure: never empty, naming
    /// exactly the operation that failed and carrying the facility's own
    /// reason word for word.  The description is built from the failure
    /// alone, so it never holds the secret value.
    pub fn describe(&self) -> (r: String)
        ensures
            r@.len() > 0,
            (match *self {
                SecretError::StoreUnavailable(m) => r@ == "the credential store is unavailable: "@
                    + m@,
                SecretError::ReadFailed(m) => r@ == "reading the secret failed: "@ + m@,
                SecretError::WriteFailed(m) => r@ == "writing the secret failed: "@ + m@,
                SecretError::DeleteFailed(m) => r@ == "deleting the secret failed: "@ + m@,
                SecretError::ArgumentInvalid => r@ == "the provider name must not be empty"@,
            }),
    {
        proof {
            reveal_strlit("the credential store is unavailable: ");
            reveal_strlit("reading the secret failed: ");
            reveal_strlit("writing the secret failed: ");
            reveal_strlit("deleting the secret failed: ");
            reveal_strlit("the provider name must not be empty");
        }
        match self {
            SecretError::StoreUnavailable(m) => String::from_str(
                "the credential store is unavailable: ",
            ).concat(m.as_str()),
            SecretError::ReadFailed(m) => String::from_str("reading the secret failed: ").concat(
                m.as_str(),
            ),
            SecretError::WriteFailed(m) => String::from_str("writing the secret failed: ").concat(
                m.as_str(),
            ),
            SecretError::DeleteFailed(m) => String::from_str("deleting the secret failed: ")
                .concat(m.as_str()),
            SecretError::ArgumentInvalid => String::from_str("the provider name must not be empty"),
        }
    }
}

/// What the facility answered when asked for a stored secret.
pub enum PasswordReply {
    /// An entry exists and holds this secret.
    Value(String),
    /// No entry exists for the provider: a normal outcome.
    Missing,
    /// The facility itself failed, with its description.
    Fault(String),
}

/// What the facility answered when asked to write a secret.
pub enum WriteReply {
    /// The secret was written.
    Written,
    /// The facility itself failed, with its description.
    Fault(String),
}

/// What the facility answered when asked to delete an entry.
pub enum RemoveReply {
    /// An entry existed and was deleted.
    Removed,
    /// No entry existed for the provider.
    Missing,
    /// The facility itself failed, with its description.
    Fault(String),
}

/// Normalizes a fetch reply: a value is `Ok(Some(..))`, a missing entry is
/// `Ok(None)` (never an error), and only a genuine platform fault is `Err`.
pub fn fetch_outcome(reply: PasswordReply) -> (r: Result<Option<String>, SecretError>)
    ensures
        (match reply {
            PasswordReply::Value(s) => (r matches Ok(v) && v matches Some(t) && t == s),
            PasswordReply::Missing => r == Ok::<Option<String>, SecretError>(None),
            PasswordReply::Fault(m) => r == Err::<Option<String>, SecretError>(
                SecretError::ReadFailed(m),
            ),
        }),
{
    match reply {
        PasswordReply::Value(s) => Ok(Some(s)),
        PasswordReply::Missing => Ok(None),
        PasswordReply::Fault(m) => Err(SecretError::ReadFailed(m)),
    }
}

/// Normalizes a presence probe: a value means the entry exists, a missing
/// entry means it does not (never an error), and only a genuine platform
/// fault is `Err`.
pub fn exists_outcome(reply: PasswordReply) -> (r: Result<bool, SecretError>)
    ensures
        (match reply {
            PasswordReply::Value(_) => r == Ok::<bool, SecretError>(true),
            PasswordReply::Missing => r == Ok::<bool, SecretError>(false),
            PasswordReply::Fault(m) => r == Err::<bool, SecretError>(SecretError::ReadFailed(m)),
        }),
{
    match reply {
        PasswordReply::Value(_) => Ok(true),
        PasswordReply::Missing => Ok(false),
        PasswordReply::Fault(m) => Err(SecretError::ReadFailed(m)),
    }
}

/// Normalizes a store reply: only a genuine platform fault is `Err`.
pub fn store_outcome(reply: WriteReply) -> (r: Result<(), SecretError>)
    ensures
        (match reply {
            WriteReply::Written => r is Ok,
            WriteReply::Fault(m) => r == Err::<(), SecretError>(SecretError::WriteFailed(m)),
        }),
{
    match reply {
        WriteReply::Written => Ok(()),
        WriteReply::Fault(m) => Err(SecretError::WriteFailed(m)),
    }
}

/// Normalizes a delete reply: deleting an entry that does not exist is
/// success (idempotent delete), and only a genuine platform fault is `Err`.
pub fn remove_outcome(reply: RemoveReply) -> (r: Result<(), SecretError>)
    ensures
        (match reply {
            RemoveReply::Removed => r is Ok,
            RemoveReply::Missing => r is Ok,
            RemoveReply::Fault(m) => r == Err::<(), SecretError>(SecretError::DeleteFailed(m)),
        }),
{
    match reply {
        RemoveReply::Removed => Ok(()),
        RemoveReply::Missing => Ok(()),
        RemoveReply::Fault(m) => Err(SecretError::DeleteFailed(m)),
    }
}

/// The fixed service namespace under which every credential entry is kept:
/// process-wide configuration, the same for every call.
pub fn service_namespace() -> (r: &'static str)
    ensures
        r@ == "com.pixcore.app"@,
{
    "com.pixcore.app"
}

/// Relies on keyring::Entry::new: builds a handle for the (service, user)
/// pair against the process' credential store, touching no entry; it fails
/// when the pair is invalid for the platform's store or the store cannot
/// be reached.
#[verifier::external_body]
fn open_entry(service: &str, provider: &str) -> (r: Result<keyring::Entry, String>) {
    match keyring::Entry::new(service, provider) {
        Ok(entry) => Ok(entry),
        Err(e) => Err(format!("{}", e)),
    }
}

/// Relies on keyring::Entry::get_password: yields the stored secret, fails
/// with keyring::Error::NoEntry when no entry exists, and with another
/// error on a genuine platform fault.
#[verifier::external_body]
fn read_password(entry: &keyring::Entry) -> (r: PasswordReply) {
    match entry.get_password() {
        Ok(secret) => PasswordReply::Value(secret),
        Err(keyring::Error::NoEntry) => PasswordReply::Missing,
        Err(e) => PasswordReply::Fault(format!("{}", e)),
    }
}

/// Relies on keyring::Entry::set_password: writes the secret for this
/// entry, replacing any previous one.
#[verifier::external_body]
fn write_password(entry: &keyring::Entry, secret: &str) -> (r: WriteReply) {
    match entry.set_password(secret) {
        Ok(()) => WriteReply::Written,
        Err(e) => WriteReply::Fault(format!("{}", e)),
    }
}

/// Relies on keyring::Entry::delete_credential: deletes the entry, fails
/// with keyring::Error::NoEntry when none exists, and with another error
/// on a genuine platform fault.
#[verifier::external_body]
fn remove_password(entry: &keyring::Entry) -> (r: RemoveReply) {
    match entry.delete_credential() {
        Ok(()) => RemoveReply::Removed,
        Err(keyring::Error::NoEntry) => RemoveReply::Missing,
        Err(e) => RemoveReply::Fault(format!("{}", e)),
    }
}

/// Stores `api_key` as the one secret for `provider`, overwriting any
/// previous secret for it.  An empty provider name is rejected, and every
/// other failure is a genuine platform fault: either the facility could
/// not be opened, or it rejected the write.
pub fn store_api_key(provider: &str, api_key: &str) -> (r: Result<(), SecretError>)
    ensures
        (provider@.len() == 0) <==> r == Err::<(), SecretError>(SecretError::ArgumentInvalid),
        (r matches Err(e) ==> (e is ArgumentInvalid || e is StoreUnavailable || e is WriteFailed)),
{
    if provider.is_empty() {
        return Err(SecretError::ArgumentInvalid);
    }
    match open_entry(service_namespace(), provider) {
        Err(m) => Err(SecretError::StoreUnavailable(m)),
        Ok(entry) => store_outcome(write_password(&entry, api_key)),
    }
}

/// Fetches the secret stored for `provider`.  `Ok(Some(..))` is the stored
/// secret, `Ok(None)` means no entry exists — a normal outcome, never
/// conflated with the genuine platform faults reported as `Err`.
pub fn get_api_key(provider: &str) -> (r: Result<Option<String>, SecretError>)
    ensures
        (provider@.len() == 0) <==> r == Err::<Option<String>, SecretError>(
            SecretError::ArgumentInvalid,
        ),
        (r matches Err(e) ==> (e is ArgumentInvalid || e is StoreUnavailable || e is ReadFailed)),
{
    if provider.is_empty() {
        return Err(SecretError::ArgumentInvalid);
    }
    match open_entry(service_namespace(), provider) {
        Err(m) => Err(SecretError::StoreUnavailable(m)),
        Ok(entry) => fetch_outcome(read_password(&entry)),
    }
}

/// Deletes the secret stored for `provider`.  Deleting a provider that has
/// no entry is success (the delete is idempotent); only a genuine platform
/// fault is an error.
pub fn delete_api_key(provider: &str) -> (r: Result<(), SecretError>)
    ensures
        (provider@.len() == 0) <==> r == Err::<(), SecretError>(SecretError::ArgumentInvalid),
        (r matches Err(e) ==> (e is ArgumentInvalid || e is StoreUnavailable || e is DeleteFailed)),
{
    if provider.is_empty() {
        return Err(SecretError::ArgumentInvalid);
    }
    match open_entry(service_namespace(), provider) {
        Err(m) => Err(SecretError::StoreUnavailable(m)),
        Ok(entry) => remove_outcome(remove_password(&entry)),
    }
}

/// Reports whether a secret is stored for `provider`.  Absence is
/// `Ok(false)`, never an error; only a genuine platform fault is `Err`.
pub fn has_api_key(provider: &str) -> (r: Result<bool, SecretError>)
    ensures
        (provider@.len() == 0) <==> r == Err::<bool, SecretError>(SecretError::ArgumentInvalid),
        (r matches Err(e) ==> (e is ArgumentInvalid || e is StoreUnavailable || e is ReadFailed)),
{
    if provider.is_empty() {
        return Err(SecretError::ArgumentInvalid);
    }
    match open_entry(service_namespace(), provider) {
        Err(m) => Err(SecretError::StoreUnavailable(m)),
        Ok(entry) => exists_outcome(read_password(&entry)),
    }
}

/// The facility as this store relies on it: a mapping from provider name
/// to the one secret most recently stored for it.  Storing inserts,
/// deleting removes, and fetching looks the provider up; the platform
/// facility is the sole holder of this state.
pub open spec fn facility_store(
    m: Map<Seq<char>, Seq<char>>,
    p: Seq<char>,
    s: Seq<char>,
) -> Map<Seq<char>, Seq<char>> {
    m.insert(p, s)
}

/// What fetching yields from the facility: the stored secret, or nothing.
pub open spec fn facility_fetch(m: Map<Seq<char>, Seq<char>>, p: Seq<char>) -> Option<Seq<char>> {
    if m.contains_key(p) {
        Some(m[p])
    } else {
        None
    }
}

/// What deleting leaves of the facility.
pub open spec fn facility_remove(
    m: Map<Seq<char>, Seq<char>>,
    p: Seq<char>,
) -> Map<Seq<char>, Seq<char>> {
    m.remove(p)
}

/// Whether the facility holds an entry for the provider.
pub open spec fn facility_has(m: Map<Seq<char>, Seq<char>>, p: Seq<char>) -> bool {
    m.contains_key(p)
}

/// Law: storing a secret and then fetching the same provider yields
/// exactly that secret, whatever the facility held before.
pub proof fn lemma_store_then_fetch(m: Map<Seq<char>, Seq<char>>, p: Seq<char>, s: Seq<char>)
    ensures
        facility_fetch(facility_store(m, p, s), p) == Some(s),
{
}

/// Law: after a delete the provider fetches as absent, and a second
/// delete changes nothing (the delete is idempotent).
pub proof fn lemma_remove_then_fetch(m: Map<Seq<char>, Seq<char>>, p: Seq<char>)
    ensures
        facility_fetch(facility_remove(m, p), p) is None,
        facility_remove(facility_remove(m, p), p) == facility_remove(m, p),
{
    assert(facility_remove(facility_remove(m, p), p) =~= facility_remove(m, p));
}

/// Law: a provider never stored fetches as absent and does not exist;
/// neither outcome is an error.
pub proof fn lemma_never_stored(m: Map<Seq<char>, Seq<char>>, p: Seq<char>)
    requires
        !facility_has(m, p),
    ensures
        facility_fetch(m, p) is None,
        !facility_has(m, p),
{
}

/// Law: the presence probe agrees with fetching — a provider exists in
/// the facility exactly when fetching it finds a secret.
pub proof fn lemma_has_agrees_with_fetch(m: Map<Seq<char>, Seq<char>>, p: Seq<char>)
    ensures
        facility_has(m, p) <==> facility_fetch(m, p) is Some,
{
}

/// Law: at most one secret exists per provider — a second store for the
/// same provider overwrites the first (last write wins).
pub proof fn lemma_store_overwrites(
    m: Map<Seq<char>, Seq<char>>,
    p: Seq<char>,
    s1: Seq<char>,
    s2: Seq<char>,
)
    ensures
        facility_fetch(facility_store(facility_store(m, p, s1), p, s2), p) == Some(s2),
{
}

/// Law: distinct provider names never collide on one slot — storing or
/// deleting under one provider leaves every other provider's slot as it was.
pub proof fn lemma_distinct_providers(
    m: Map<Seq<char>, Seq<char>>,
    p: Seq<char>,
    q: Seq<char>,
    s: Seq<char>,
)
    requires
        p != q,
    ensures
        facility_fetch(facility_store(m, p, s), q) == facility_fetch(m, q),
        facility_fetch(facility_remove(m, p), q) == facility_fetch(m, q),
{
}

} // verus!
