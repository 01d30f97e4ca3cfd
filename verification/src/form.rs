//! Forms from which entries are authored: which user authenticates the entry,
//! which subspace and timestamp it gets, and how its payload is settled.

use vstd::prelude::*;

verus! {

/// Declares iroh-base's `Hash`, the blake3 hash that names a blob, to Verus
/// as an opaque type: the forms carry such hashes through and never look
/// inside them.
#[verifier::external_type_specification]
#[verifier::external_body]
pub struct ExHash(iroh_base::hash::Hash);

/// The public key of a user.
#[derive(Debug, Clone, Copy)]
pub struct UserId(pub [u8; 32]);

/// A subspace is named by the public key of its owner.
pub type SubspaceId = UserId;

/// Microseconds since the Unix epoch.
pub type Timestamp = u64;

/// A write capability, as far as the forms read it: the user to whom it was
/// granted.
#[derive(Debug, Clone, Copy)]
pub struct WriteCapability {
    pub receiver: UserId,
}

impl WriteCapability {
    /// The user to whom the capability was granted.
    pub fn receiver(&self) -> (r: &UserId)
        ensures
            *r == self.receiver,
    {
        &self.receiver
    }
}

/// Select which capability to use for authenticating a new entry.
#[derive(Debug, Clone, Copy)]
pub enum AuthForm {
    /// Use any available capability which covers the entry and whose receiver
    /// is the provided user.
    Any(UserId),
    /// Use the provided capability.
    Exact(WriteCapability),
}

/// The user who receives the capability that an auth form selects.
pub open spec fn spec_user_id(form: AuthForm) -> UserId {
    match form {
        AuthForm::Any(user) => user,
        AuthForm::Exact(cap) => cap.receiver,
    }
}

impl AuthForm {
    /// The user id of the user who is the receiver of the capability selected
    /// by this form.
    pub fn user_id(&self) -> (r: UserId)
        ensures
            r == spec_user_id(*self),
    {
        match self {
            AuthForm::Any(user) => *user,
            AuthForm::Exact(cap) => *cap.receiver(),
        }
    }
}

impl From<UserId> for AuthForm {
    fn from(user: UserId) -> (r: AuthForm) {
        AuthForm::Any(user)
    }
}

impl vstd::std_specs::convert::FromSpecImpl<UserId> for AuthForm {
    open spec fn obeys_from_spec() -> bool {
        true
    }

    open spec fn from_spec(user: UserId) -> AuthForm {
        AuthForm::Any(user)
    }
}

impl From<WriteCapability> for AuthForm {
    fn from(cap: WriteCapability) -> (r: AuthForm) {
        AuthForm::Exact(cap)
    }
}

impl vstd::std_specs::convert::FromSpecImpl<WriteCapability> for AuthForm {
    open spec fn obeys_from_spec() -> bool {
        true
    }

    open spec fn from_spec(cap: WriteCapability) -> AuthForm {
        AuthForm::Exact(cap)
    }
}

/// Set the subspace either to a provided subspace id, or use the user
/// authenticating the entry as subspace.
#[derive(Debug, Clone, Copy)]
pub enum SubspaceForm {
    /// Set the subspace to the user id of the user authenticating the entry.
    User,
    /// Set the subspace to the provided subspace id.
    Exact(SubspaceId),
}

/// Set the timestamp either to the provided timestamp or to the current
/// system time.
#[derive(Debug, Clone, Copy)]
pub enum TimestampForm {
    /// Set the timestamp to the current system time.
    Now,
    /// Set the timestamp to the provided value.
    Exact(Timestamp),
}

/// Why a payload could not be settled.
#[derive(Debug, Clone, Copy, PartialEq, Eq, Structural)]
pub enum PayloadError {
    /// A payload was given by hash, and the blob store holds no blob of that
    /// hash.
    HashNotFound,
}

/// Settles a payload given by its hash, from the size of the blob of that
/// hash in the store (`None` where the store holds no such blob): the
/// payload is that hash and that size.
pub fn payload_of_hash(digest: iroh_base::hash::Hash, stored_size: Option<u64>) -> (r: Result<
    (iroh_base::hash::Hash, u64),
    PayloadError,
>)
    ensures
        match stored_size {
            Some(size) => r == Ok::<(iroh_base::hash::Hash, u64), PayloadError>((digest, size)),
            None => r == Err::<(iroh_base::hash::Hash, u64), PayloadError>(
                PayloadError::HashNotFound,
            ),
        },
{
    match stored_size {
        Some(size) => Ok((digest, size)),
        None => Err(PayloadError::HashNotFound),
    }
}

/// Settles a payload imported from bytes: the hash under which the store
/// imported them, and the number of bytes.
pub fn payload_of_bytes(imported: iroh_base::hash::Hash, len: usize) -> (r: (
    iroh_base::hash::Hash,
    u64,
))
    ensures
        r.0 == imported,
        r.1 == len,
{
    (imported, len as u64)
}

/// A form built from a user selects that user, and one built from a
/// capability selects its receiver.
pub proof fn lemma_auth_form_from_user_id(user: UserId, cap: WriteCapability)
    ensures
        spec_user_id(<AuthForm as vstd::std_specs::convert::FromSpec<UserId>>::from_spec(user))
            == user,
        spec_user_id(
            <AuthForm as vstd::std_specs::convert::FromSpec<WriteCapability>>::from_spec(cap),
        ) == cap.receiver,
{
}

} // verus!
