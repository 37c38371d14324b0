//! The credential store adapter: maps the two logical secret names onto
//! the platform credential store under the fixed service namespace, and
//! applies the error policy of the three operations — `set` surfaces the
//! first write failure, `get` and `clear` are best-effort per slot.
use vstd::prelude::*;

use crate::model::StoreView;

verus! {

/// Fixed service namespace under which both secrets are stored.
pub const SERVICE_NAMESPACE: &'static str = "aagc-saas";

/// Name of the access-token secret within the namespace.
pub const ACCESS_TOKEN_KEY: &'static str = "accessToken";

/// Name of the refresh-token secret within the namespace.
pub const REFRESH_TOKEN_KEY: &'static str = "refreshToken";

/// keyring::Entry, the handle for one named credential in the platform
/// store, declared opaquely: nothing is assumed of its contents.
#[verifier::external_type_specification]
#[verifier::external_body]
pub struct ExEntry(keyring::Entry);

/// keyring::Error, the backend's failure value, declared opaquely: it is
/// only carried through and rendered as text.
#[verifier::external_type_specification]
#[verifier::external_body]
pub struct ExKeyringError(keyring::Error);

/// Relies on keyring::Entry::new: builds a handle for the credential named
/// (service, user) in the default credential store. It may reject invalid
/// names, and nothing is promised of the outcome; it panics only if the
/// store builder's lock was poisoned by a panic on another thread.
pub assume_specification[ keyring::Entry::new ](service: &str, user: &str) -> (r: Result<
    keyring::Entry,
    keyring::Error,
>);

/// Relies on keyring::Entry::set_password: asks the credential store to
/// persist the given string for this entry. The store may reject the
/// write, so nothing is promised of the outcome.
pub assume_specification[ keyring::Entry::set_password ](
    e: &keyring::Entry,
    password: &str,
) -> (r: Result<(), keyring::Error>);

/// Relies on keyring::Entry::get_password: asks the credential store for
/// the string held by this entry. Whether a value comes back depends on
/// the store's state, so nothing is promised of the outcome.
pub assume_specification[ keyring::Entry::get_password ](e: &keyring::Entry) -> (r: Result<
    String,
    keyring::Error,
>);

/// Relies on keyring::Entry::delete_credential: asks the credential store
/// to delete this entry's credential; it fails with NoEntry when there is
/// none. Nothing is promised of the outcome.
pub assume_specification[ keyring::Entry::delete_credential ](e: &keyring::Entry) -> (r: Result<
    (),
    keyring::Error,
>);

/// Relies on keyring::Error's Display implementation: renders the
/// platform's failure message as text.
#[verifier::external_body]
fn error_text(e: &keyring::Error) -> (r: String) {
    e.to_string()
}

/// The pair of token slots that `get` returns: each slot holds the stored
/// secret, or is absent when none could be read.
pub struct Tokens {
    pub access_token: Option<String>,
    pub refresh_token: Option<String>,
}

/// The slot a read resolves to, seen abstractly.
pub open spec fn slot_view(t: Option<String>) -> Option<Seq<char>> {
    match t {
        Some(s) => Some(s@),
        None => None,
    }
}

impl View for Tokens {
    type V = StoreView;

    open spec fn view(&self) -> StoreView {
        StoreView {
            access_token: slot_view(self.access_token),
            refresh_token: slot_view(self.refresh_token),
        }
    }
}

/// The slot one read outcome collapses to: the value that was read, or the
/// absent slot on any failure.
pub open spec fn collapsed_slot(outcome: Result<String, keyring::Error>) -> Option<Seq<char>> {
    match outcome {
        Ok(v) => Some(v@),
        Err(_) => None,
    }
}

/// Collapse one read outcome at the boundary: a value that was read fills
/// the slot, and any failure (not found, or denied) deliberately resolves
/// to the absent slot rather than an error.
pub fn collapse_read(outcome: Result<String, keyring::Error>) -> (slot: Option<String>)
    ensures
        slot_view(slot) == collapsed_slot(outcome),
        slot is Some <==> outcome is Ok,
{
    match outcome {
        Ok(v) => Some(v),
        Err(_) => None,
    }
}

/// The pair that `get` returns for any two read outcomes the backend can
/// produce: each outcome collapses to its slot independently, so no
/// combination of failures is an error of the pair.
pub fn tokens_from_reads(
    access: Result<String, keyring::Error>,
    refresh: Result<String, keyring::Error>,
) -> (t: Tokens)
    ensures
        t@ == (StoreView {
            access_token: collapsed_slot(access),
            refresh_token: collapsed_slot(refresh),
        }),
{
    let access_token = collapse_read(access);
    let refresh_token = collapse_read(refresh);
    Tokens { access_token, refresh_token }
}

/// Map one write outcome to the call's result: an accepted write passes
/// through, and a rejected one aborts the call with the backend's failure
/// message.
pub fn write_step(outcome: Result<(), keyring::Error>) -> (r: Result<(), String>)
    ensures
        r is Ok <==> outcome is Ok,
{
    match outcome {
        Ok(()) => Ok(()),
        Err(e) => Err(error_text(&e)),
    }
}

/// Handles for the two secrets of the service namespace. The store itself
/// is owned and persisted by the operating system; this type holds no
/// token state of its own.
pub struct TokenVault {
    access: keyring::Entry,
    refresh: keyring::Entry,
}

impl TokenVault {
    /// Open handles for both secrets in the default credential store. The
    /// store decides whether the names are acceptable; a rejection of
    /// either handle surfaces as the backend's failure message.
    pub fn new() -> (r: Result<TokenVault, String>) {
        let access = match keyring::Entry::new(SERVICE_NAMESPACE, ACCESS_TOKEN_KEY) {
            Ok(e) => e,
            Err(e) => {
                return Err(error_text(&e));
            },
        };
        let refresh = match keyring::Entry::new(SERVICE_NAMESPACE, REFRESH_TOKEN_KEY) {
            Ok(e) => e,
            Err(e) => {
                return Err(error_text(&e));
            },
        };
        Ok(TokenVault { access, refresh })
    }

    /// Write both secrets, access token first. The first rejected write
    /// aborts the call with the backend's message; a write that already
    /// succeeded is not rolled back. Whether each write is accepted is the
    /// backend's decision alone, so success cannot be promised here; the
    /// transition each outcome produces is `model::store_after_set`, and
    /// the call reports success exactly when both writes were accepted
    /// (`model::set_reports_ok`).
    pub fn set_tokens(&self, access_token: &str, refresh_token: &str) -> (r: Result<(), String>) {
        write_step(self.access.set_password(access_token))?;
        write_step(self.refresh.set_password(refresh_token))?;
        Ok(())
    }

    /// Read both secrets independently and collapse each outcome at the
    /// boundary: a slot that could not be read (not found, or denied) is
    /// absent, never an error, so the call as a whole cannot fail — the
    /// result type has no error case. What each slot holds is the
    /// backend's answer, so its value cannot be promised here; the
    /// per-field policy is `tokens_from_reads`, verified for every pair
    /// of outcomes.
    pub fn get_tokens(&self) -> (t: Tokens) {
        tokens_from_reads(self.access.get_password(), self.refresh.get_password())
    }

    /// Ask the store to delete both secrets, ignoring each deletion's
    /// outcome (including "no such secret"): the call expresses intent and
    /// always reports success, idempotently.
    pub fn clear_tokens(&self) -> (r: Result<(), String>)
        ensures
            r is Ok,
    {
        let _ = self.access.delete_credential();
        let _ = self.refresh.delete_credential();
        Ok(())
    }

    /// The handle of the access-token secret.
    pub fn access_entry(&self) -> &keyring::Entry {
        &self.access
    }

    /// The handle of the refresh-token secret.
    pub fn refresh_entry(&self) -> &keyring::Entry {
        &self.refresh
    }
}

} // verus!
