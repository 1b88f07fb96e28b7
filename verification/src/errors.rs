use vstd::prelude::*;

verus! {

/// The caller-visible failures of the execution core.
///
/// `NotFound` and the credential errors are caller configuration mistakes
/// and are surfaced at once, never retried. Transient transport trouble is
/// not an `ExecError`: the submit stage absorbs it into a `SubmitResult`
/// with `confirmed == false`.
#[derive(Clone, Copy, Debug, PartialEq, Eq, Structural)]
pub enum ExecError {
    /// The wallet identifier is not registered in the pool.
    NotFound,
    /// No RPC endpoints were configured, so there is no current endpoint.
    PoolEmpty,
    /// The wallet is watch-only: it carries no signing credential.
    CredentialUnavailable,
    /// The credential bytes do not form a valid signing credential, or the
    /// key they derive does not match the supplied public key.
    InvalidCredential,
}

} // verus!
