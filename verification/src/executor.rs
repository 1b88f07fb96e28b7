use vstd::prelude::*;

verus! {

use crate::endpoints::{spec_rotate_index, EndpointPool};
use crate::errors::ExecError;
use crate::pipeline::{simulate, spec_simulate, SimResult, SwapIntent};
use crate::solana::{credential_ok, derive_pubkey, pubkey_of, sign_placeholder};
use crate::wallets::{
    has_wallet, ids_unique, spec_refresh, spec_register, spec_set_busy, wallet_at, Wallet,
    WalletPool, WalletView,
};

/// A fully signed, unsent transaction produced by the pre-sign stage.
///
/// The caller may discard it freely: nothing was sent yet. Once it is handed
/// to a transport and the send is aborted, the outcome is unknown and must
/// be reconciled by signature lookup, never treated as rolled back.
pub struct SignedTransaction {
    /// The wallet whose credential signed the transaction.
    pub wallet_id: String,
    /// The input amount of the intent the transaction stands for.
    pub amount_in: u64,
    transaction: solana_sdk::transaction::Transaction,
}

impl SignedTransaction {
    /// The identifier of the wallet whose credential signed the transaction.
    pub closed spec fn spec_wallet_id(self) -> Seq<char> {
        self.wallet_id@
    }

    /// The input amount of the intent the transaction stands for.
    pub closed spec fn spec_amount_in(self) -> u64 {
        self.amount_in
    }

    /// Hands the signed transaction itself over for submission.
    pub fn into_transaction(self) -> solana_sdk::transaction::Transaction {
        self.transaction
    }
}

/// The transaction-execution core: a pool of signing wallets and a pool of
/// RPC endpoints, with the pipeline stages — simulate, pre-sign, submit — as
/// independently callable operations composed by the caller.
///
/// The core performs no network I/O itself: callers hand in what a network
/// read produced and take plain values back.
pub struct SolExecutor {
    endpoints: EndpointPool,
    wallets: WalletPool,
}

impl SolExecutor {
    /// The wallet records, in registration order.
    pub closed spec fn wallets_view(self) -> Seq<WalletView> {
        self.wallets@
    }

    /// The configured endpoint URLs, in order.
    pub closed spec fn endpoints_view(self) -> Seq<Seq<char>> {
        self.endpoints.spec_endpoints()
    }

    /// The active endpoint rotation index.
    pub closed spec fn current_index(self) -> int {
        self.endpoints.spec_current()
    }

    /// Both pools are well formed: wallet identifiers are unique and the
    /// rotation index stays inside the endpoint pool.
    pub closed spec fn wf(self) -> bool {
        self.wallets.wf() && self.endpoints.wf()
    }

    /// What well-formedness gives a caller: the wallet identifiers are
    /// unique — so the pool laws apply to `wallets_view()` — and the
    /// rotation index stays inside the endpoint pool.
    pub proof fn lemma_wf_parts(self)
        requires
            self.wf(),
        ensures
            ids_unique(self.wallets_view()),
            self.endpoints_view().len() == 0 ==> self.current_index() == 0,
            self.endpoints_view().len() > 0 ==> 0 <= self.current_index()
                < self.endpoints_view().len(),
    {
    }

    /// Builds an executor over the given endpoints with no wallets
    /// registered and the rotation index at the first endpoint.
    pub fn new(rpc_endpoints: Vec<String>) -> (r: Result<SolExecutor, ExecError>)
        ensures
            r matches Ok(e) && {
                &&& e.wf()
                &&& e.endpoints_view() == rpc_endpoints@.map_values(|s: String| s@)
                &&& e.current_index() == 0
                &&& e.wallets_view() == Seq::<WalletView>::empty()
            },
    {
        Ok(
            SolExecutor {
                endpoints: EndpointPool::new(rpc_endpoints),
                wallets: WalletPool::new(),
            },
        )
    }

    /// Registers a signing wallet under `wallet_id`: the public key is
    /// derived from the credential bytes and the record starts with balance
    /// 0 and the busy flag clear, overwriting any earlier record for the
    /// identifier. `InvalidCredential`, with everything unchanged, when the
    /// bytes do not form a keypair.
    pub fn add_wallet(&mut self, wallet_id: String, credential: Vec<u8>) -> (r: Result<
        (),
        ExecError,
    >)
        requires
            old(self).wf(),
        ensures
            final(self).wf(),
            final(self).endpoints_view() == old(self).endpoints_view(),
            final(self).current_index() == old(self).current_index(),
            credential_ok(credential@) ==> r is Ok && final(self).wallets_view() == spec_register(
                old(self).wallets_view(),
                WalletView {
                    id: wallet_id@,
                    pubkey: pubkey_of(credential@),
                    credential: Some(credential@),
                    balance: 0,
                    busy: false,
                },
            ),
            !credential_ok(credential@) ==> r == Err::<(), ExecError>(ExecError::InvalidCredential)
                && final(self).wallets_view() == old(self).wallets_view(),
    {
        match derive_pubkey(&credential) {
            Some(pk) => self.wallets.register(wallet_id, pk, Some(credential)),
            None => Err(ExecError::InvalidCredential),
        }
    }

    /// Registers a watch-only wallet under `wallet_id` with the supplied
    /// public key and no signing credential; such a wallet can be simulated
    /// and observed but never pre-signs.
    pub fn add_watch_only_wallet(&mut self, wallet_id: String, public_key: String) -> (r: Result<
        (),
        ExecError,
    >)
        requires
            old(self).wf(),
        ensures
            final(self).wf(),
            final(self).endpoints_view() == old(self).endpoints_view(),
            final(self).current_index() == old(self).current_index(),
            r is Ok,
            final(self).wallets_view() == spec_register(
                old(self).wallets_view(),
                WalletView {
                    id: wallet_id@,
                    pubkey: public_key@,
                    credential: None,
                    balance: 0,
                    busy: false,
                },
            ),
    {
        self.wallets.register(wallet_id, public_key, None)
    }

    /// Overwrites the cached balance of `wallet_id` with the value a network
    /// read produced out of core, and returns that value; `NotFound`, with
    /// everything unchanged, when the wallet is absent.
    pub fn get_wallet_balance(&mut self, wallet_id: &String, queried_balance: u64) -> (r: Result<
        u64,
        ExecError,
    >)
        requires
            old(self).wf(),
        ensures
            final(self).wf(),
            final(self).endpoints_view() == old(self).endpoints_view(),
            final(self).current_index() == old(self).current_index(),
            final(self).wallets_view() == spec_refresh(
                old(self).wallets_view(),
                wallet_id@,
                queried_balance,
            ),
            has_wallet(old(self).wallets_view(), wallet_id@) ==> r == Ok::<u64, ExecError>(
                queried_balance,
            ),
            !has_wallet(old(self).wallets_view(), wallet_id@) ==> r == Err::<u64, ExecError>(
                ExecError::NotFound,
            ),
    {
        match self.wallets.refresh_balance(wallet_id, queried_balance) {
            Ok(()) => Ok(queried_balance),
            Err(e) => Err(e),
        }
    }

    /// The simulate stage: a pure function of the intent under the fallback
    /// quote policy. Wallet and endpoint state are never read or changed,
    /// and the result always reports `ok` under the fallback.
    pub fn simulate_swap(&self, intent: &SwapIntent) -> (r: Result<SimResult, ExecError>)
        ensures
            r matches Ok(s) && s@ == spec_simulate(intent@),
    {
        Ok(simulate(intent))
    }

    /// Whether the pre-sign stage can go ahead for `wallet_id`: the wallet
    /// must be registered and carry a signing credential. Callers check this
    /// before fetching a network anchor value, so that no network call is
    /// made at all for an unknown or watch-only wallet.
    pub fn can_pre_sign(&self, wallet_id: &String) -> (r: Result<(), ExecError>)
        requires
            self.wf(),
        ensures
            !has_wallet(self.wallets_view(), wallet_id@) ==> r == Err::<(), ExecError>(
                ExecError::NotFound,
            ),
            has_wallet(self.wallets_view(), wallet_id@) ==> match wallet_at(
                self.wallets_view(),
                wallet_id@,
            ).credential {
                Some(_) => r is Ok,
                None => r == Err::<(), ExecError>(ExecError::CredentialUnavailable),
            },
    {
        match self.wallets.credential_for_signing(wallet_id) {
            Ok(_) => Ok(()),
            Err(e) => Err(e),
        }
    }

    /// The pre-sign stage: looks the wallet up, fails with `NotFound` or
    /// `CredentialUnavailable` when it is absent or watch-only, and
    /// otherwise signs the placeholder instruction standing for the intent
    /// over the caller-fetched anchor value. The credential is only borrowed
    /// for this one sign operation. The output is fully signed and unsent:
    /// nothing is transmitted and no pool state changes.
    pub fn pre_sign_swap(
        &self,
        wallet_id: &String,
        intent: &SwapIntent,
        recent_anchor: &[u8; 32],
    ) -> (r: Result<SignedTransaction, ExecError>)
        requires
            self.wf(),
        ensures
            !has_wallet(self.wallets_view(), wallet_id@) ==> (r matches Err(e) && e
                == ExecError::NotFound),
            has_wallet(self.wallets_view(), wallet_id@) ==> match wallet_at(
                self.wallets_view(),
                wallet_id@,
            ).credential {
                None => r matches Err(e) && e == ExecError::CredentialUnavailable,
                Some(c) => {
                    &&& credential_ok(c) ==> (r matches Ok(st) && st.spec_wallet_id() == wallet_id@
                        && st.spec_amount_in() == intent@.amount_in)
                    &&& !credential_ok(c) ==> (r matches Err(e) && e
                        == ExecError::InvalidCredential)
                },
            },
    {
        let credential = match self.wallets.credential_for_signing(wallet_id) {
            Ok(c) => c,
            Err(e) => {
                return Err(e);
            },
        };
        match sign_placeholder(credential, recent_anchor) {
            Some(tx) => Ok(
                SignedTransaction {
                    wallet_id: wallet_id.clone(),
                    amount_in: intent.amount_in,
                    transaction: tx,
                },
            ),
            None => Err(ExecError::InvalidCredential),
        }
    }

    /// Writes the advisory busy flag of `wallet_id`: callers treat setting
    /// it as acquire and clearing it as release around a pipeline
    /// invocation; the pool itself never rejects work because of it.
    /// `NotFound`, with everything unchanged, when the wallet is absent.
    pub fn set_wallet_busy(&mut self, wallet_id: &String, busy: bool) -> (r: Result<(), ExecError>)
        requires
            old(self).wf(),
        ensures
            final(self).wf(),
            final(self).endpoints_view() == old(self).endpoints_view(),
            final(self).current_index() == old(self).current_index(),
            final(self).wallets_view() == spec_set_busy(old(self).wallets_view(), wallet_id@, busy),
            has_wallet(old(self).wallets_view(), wallet_id@) ==> r is Ok,
            !has_wallet(old(self).wallets_view(), wallet_id@) ==> r == Err::<(), ExecError>(
                ExecError::NotFound,
            ),
    {
        self.wallets.set_busy(wallet_id, busy)
    }

    /// An immutable snapshot of the wallet record with the credential
    /// redacted; `NotFound` when the identifier is unknown. A status read
    /// never changes any pool state.
    pub fn get_wallet_status(&self, wallet_id: &String) -> (r: Result<Wallet, ExecError>)
        requires
            self.wf(),
        ensures
            has_wallet(self.wallets_view(), wallet_id@) ==> (r matches Ok(w) && w@ == WalletView {
                credential: None,
                ..wallet_at(self.wallets_view(), wallet_id@)
            }),
            !has_wallet(self.wallets_view(), wallet_id@) ==> (r matches Err(e) && e
                == ExecError::NotFound),
    {
        self.wallets.snapshot(wallet_id)
    }

    /// The endpoint at the active rotation index, for the caller's transport
    /// to send through; `PoolEmpty` when no endpoints were configured.
    pub fn current_endpoint(&self) -> (r: Result<String, ExecError>)
        requires
            self.wf(),
        ensures
            self.endpoints_view().len() > 0 ==> (r matches Ok(e) && e@
                == self.endpoints_view()[self.current_index()]),
            self.endpoints_view().len() == 0 ==> r == Err::<String, ExecError>(ExecError::PoolEmpty),
    {
        self.endpoints.current()
    }

    /// Advances the endpoint rotation index by one, modulo the pool size:
    /// the caller-triggered failover step after a submission failure. Wallet
    /// state is untouched.
    pub fn rotate_rpc_client(&mut self)
        requires
            old(self).wf(),
        ensures
            final(self).wf(),
            final(self).wallets_view() == old(self).wallets_view(),
            final(self).endpoints_view() == old(self).endpoints_view(),
            final(self).current_index() == spec_rotate_index(
                old(self).current_index(),
                old(self).endpoints_view().len() as int,
            ),
    {
        self.endpoints.rotate();
    }
}

} // verus!
