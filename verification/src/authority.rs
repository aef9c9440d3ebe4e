use crate::account::AccountKey;
use crate::accountant::Vault;
use crate::error::ExtractionError;
use vstd::prelude::*;

verus! {

/// What a vault authority is bound to: the one vault it may debit, the
/// address it signs with and the bump that address was derived with.
pub struct AuthorityScope {
    pub vault: AccountKey,
    pub signer: AccountKey,
    pub bump: u8,
}

/// The capability to debit one vault. It is bound to that vault when it is
/// issued and cannot be pointed at another one afterwards.
#[derive(Clone, Copy, Debug)]
pub struct VaultAuthority {
    vault: AccountKey,
    signer: AccountKey,
    bump: u8,
}

impl View for VaultAuthority {
    type V = AuthorityScope;

    closed spec fn view(&self) -> AuthorityScope {
        AuthorityScope { vault: self.vault, signer: self.signer, bump: self.bump }
    }
}

/// Leave to debit `amount` units from `vault`, signed for by `signer`.
#[derive(Clone, Copy, Debug, PartialEq, Eq)]
pub struct DebitAuthorization {
    pub vault: AccountKey,
    pub signer: AccountKey,
    pub bump: u8,
    pub amount: u64,
}

/// The authority that is issued for `vault` when `recorded_signer` is the
/// address recorded as its scoped authority: none unless the vault is in
/// fact controlled by that address.
pub open spec fn issued_authority(vault: Vault, recorded_signer: AccountKey, bump: u8) -> Result<
    AuthorityScope,
    ExtractionError,
> {
    if vault.authority == recorded_signer {
        Ok(AuthorityScope { vault: vault.key, signer: recorded_signer, bump })
    } else {
        Err(ExtractionError::ConstraintViolation)
    }
}

/// What an authority answers when asked to debit `amount` from the vault
/// `vault_id`: leave for its own vault, `ConstraintViolation` for any other.
pub open spec fn debit_decision(scope: AuthorityScope, vault_id: AccountKey, amount: u64) -> Result<
    DebitAuthorization,
    ExtractionError,
> {
    if scope.vault == vault_id {
        Ok(DebitAuthorization { vault: vault_id, signer: scope.signer, bump: scope.bump, amount })
    } else {
        Err(ExtractionError::ConstraintViolation)
    }
}

impl VaultAuthority {
    /// Issues the authority over `vault`, given the address recorded as the
    /// vault's scoped authority and its bump. Refuses with
    /// `ConstraintViolation` when the vault is controlled by another address.
    pub fn issue(vault: &Vault, recorded_signer: &AccountKey, bump: u8) -> (authority: Result<
        VaultAuthority,
        ExtractionError,
    >)
        ensures
            match issued_authority(*vault, *recorded_signer, bump) {
                Ok(scope) => authority matches Ok(a) && a@ == scope,
                Err(e) => authority matches Err(refusal) && refusal == e,
            },
    {
        if vault.authority.matches(recorded_signer) {
            Ok(VaultAuthority { vault: vault.key, signer: *recorded_signer, bump })
        } else {
            Err(ExtractionError::ConstraintViolation)
        }
    }

    /// The vault this authority is scoped to.
    pub fn vault(&self) -> (key: AccountKey)
        ensures
            key == self@.vault,
    {
        self.vault
    }

    /// The address this authority signs with.
    pub fn signer(&self) -> (key: AccountKey)
        ensures
            key == self@.signer,
    {
        self.signer
    }

    /// The bump the signing address was derived with.
    pub fn bump(&self) -> (bump: u8)
        ensures
            bump == self@.bump,
    {
        self.bump
    }

    /// Authorizes a debit of `amount` units from the vault `vault_id`. An
    /// authority gives leave for the vault it is scoped to and for no other.
    pub fn authorize_debit(&self, vault_id: &AccountKey, amount: u64) -> (leave: Result<
        DebitAuthorization,
        ExtractionError,
    >)
        ensures
            leave == debit_decision(self@, *vault_id, amount),
    {
        if self.vault.matches(vault_id) {
            Ok(DebitAuthorization { vault: *vault_id, signer: self.signer, bump: self.bump, amount })
        } else {
            Err(ExtractionError::ConstraintViolation)
        }
    }
}

/// Authority isolation: an authority scoped to one vault cannot authorize a
/// debit of any amount against another vault.
pub proof fn lemma_authority_isolation(scope: AuthorityScope, other_vault: AccountKey, amount: u64)
    requires
        scope.vault != other_vault,
    ensures
        debit_decision(scope, other_vault, amount) == Err::<DebitAuthorization, ExtractionError>(
            ExtractionError::ConstraintViolation,
        ),
{
}

/// An authority issued for one vault is scoped to that vault, so what it
/// authorizes against a different vault is always refused.
pub proof fn lemma_issued_authority_is_scoped(
    vault: Vault,
    recorded_signer: AccountKey,
    bump: u8,
    other: Vault,
    amount: u64,
)
    requires
        vault.key != other.key,
    ensures
        issued_authority(vault, recorded_signer, bump) matches Ok(scope) ==> scope.vault
            == vault.key && debit_decision(scope, other.key, amount) == Err::<
            DebitAuthorization,
            ExtractionError,
        >(ExtractionError::ConstraintViolation),
{
}

} // verus!
