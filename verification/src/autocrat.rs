//! Governance records: the organisation that owns a token, and the
//! proposals put before it.
//!
//! A proposal stores the instructions to carry out if it passes, and the
//! accounts those instructions touch. Its markets settle through four
//! conditional vaults, which must answer to the proposal and hold the
//! right assets before the proposal is recorded.

use vstd::prelude::*;
use vstd::std_specs::convert::FromSpecImpl;

use crate::address::Address;

verus! {

/// How far, in basis points, the pass price must lie above the fail price
/// for a proposal to pass, unless the organisation says otherwise.
pub const DEFAULT_PASS_THRESHOLD_BPS: u16 = 2000;

/// The decimals that an organisation's token must have.
pub const TOKEN_DECIMALS: u8 = 9;

/// The bytes of the wrapped native asset's address.
pub const WSOL_BYTES: [u8; 32] = [
    6, 155, 136, 87, 254, 171, 129, 132, 251, 104, 127, 99, 70, 24, 192, 53, 218, 196, 57, 220, 26, 235, 59, 85, 152,
    160, 240, 0, 0, 0, 0, 1,
];

/// The wrapped native asset, in which the base vaults are denominated.
pub open spec fn wsol_address() -> Address {
    Address { bytes: WSOL_BYTES }
}

/// The wrapped native asset, in which the base vaults are denominated.
pub fn wsol() -> (address: Address)
    ensures
        address == wsol_address(),
{
    Address { bytes: WSOL_BYTES }
}

/// Why a governance instruction was refused.
#[derive(Clone, Copy, Debug, PartialEq, Eq, Structural)]
pub enum AutocratError {
    /// The token does not have the decimals that an organisation's token
    /// must have.
    ConstraintMintDecimals,
    /// A vault does not answer to the proposal, or holds another asset
    /// than it must.
    ConstraintRaw,
}

/// An organisation.
#[derive(Clone, Copy, Debug, PartialEq, Eq)]
pub struct DAO {
    /// The organisation's token.
    pub token: Address,
    /// How far, in basis points, the pass price must lie above the fail
    /// price for a proposal to pass.
    pub pass_threshold_bps: u16,
}

/// An instruction that a proposal carries out when it passes.
#[derive(Clone, Debug, PartialEq, Eq)]
pub struct ProposalInstruction {
    /// The program to call.
    pub program_id: Address,
    /// The accounts to hand to the program, as indexes into the
    /// proposal's accounts.
    pub accounts: Vec<u8>,
    /// The call's data.
    pub data: Vec<u8>,
}

/// An account that a proposal's instructions touch.
#[derive(Clone, Copy, Debug, PartialEq, Eq)]
pub struct ProposalAccount {
    pub pubkey: Address,
    pub is_signer: bool,
    pub is_writable: bool,
}

/// An account as an instruction names it.
#[derive(Clone, Copy, Debug, PartialEq, Eq)]
pub struct AccountMeta {
    pub pubkey: Address,
    pub is_signer: bool,
    pub is_writable: bool,
}

impl<'a> From<&'a ProposalAccount> for AccountMeta {
    /// The same account with the same permissions.
    fn from(acc: &'a ProposalAccount) -> (meta: AccountMeta) {
        AccountMeta { pubkey: acc.pubkey, is_signer: acc.is_signer, is_writable: acc.is_writable }
    }
}

impl<'a> FromSpecImpl<&'a ProposalAccount> for AccountMeta {
    open spec fn obeys_from_spec() -> bool {
        true
    }

    open spec fn from_spec(acc: &'a ProposalAccount) -> AccountMeta {
        AccountMeta { pubkey: acc.pubkey, is_signer: acc.is_signer, is_writable: acc.is_writable }
    }
}

/// A proposal.
#[derive(Clone, Debug, PartialEq, Eq)]
pub struct Proposal {
    /// Whether the proposal's instructions have been carried out.
    pub did_execute: bool,
    pub instructions: Vec<ProposalInstruction>,
    pub accounts: Vec<ProposalAccount>,
}

/// What a conditional vault records of itself.
#[derive(Clone, Copy, Debug, PartialEq, Eq)]
pub struct ConditionalVault {
    /// Who may settle the vault.
    pub settlement_authority: Address,
    /// The asset that the vault holds.
    pub underlying_token_mint: Address,
}

impl ConditionalVault {
    /// Whether the vault is settled by `authority` and holds `mint`.
    pub open spec fn serves(self, authority: Address, mint: Address) -> bool {
        self.settlement_authority == authority && self.underlying_token_mint == mint
    }

    /// Checks whether the vault is settled by `authority` and holds `mint`.
    pub fn is_serving(&self, authority: &Address, mint: &Address) -> (serving: bool)
        ensures
            serving == self.serves(*authority, *mint),
    {
        self.settlement_authority == *authority && self.underlying_token_mint == *mint
    }
}

/// The accounts of the instruction that founds an organisation.
#[derive(Clone, Copy, Debug, PartialEq, Eq)]
pub struct InitializeDAO {
    /// The organisation's record, to be filled in.
    pub dao: DAO,
    /// The token that the organisation is founded on.
    pub token: Address,
    /// The decimals of that token.
    pub token_decimals: u8,
}

impl InitializeDAO {
    /// Whether the accounts are fit for founding an organisation: the
    /// token has the required decimals.
    pub open spec fn constraints_hold(self) -> bool {
        self.token_decimals == TOKEN_DECIMALS
    }
}

/// The accounts of the instruction that records a proposal.
#[derive(Clone, Debug, PartialEq, Eq)]
pub struct InitializeProposal {
    /// The proposal's record, to be filled in.
    pub proposal: Proposal,
    /// The organisation that the proposal is put before.
    pub dao: DAO,
    pub quote_pass_vault: ConditionalVault,
    pub quote_fail_vault: ConditionalVault,
    pub base_pass_vault: ConditionalVault,
    pub base_fail_vault: ConditionalVault,
    /// The four authorities derived from the proposal's own address, one
    /// for each vault.
    pub quote_pass_vault_settlement_authority: Address,
    pub quote_fail_vault_settlement_authority: Address,
    pub base_pass_vault_settlement_authority: Address,
    pub base_fail_vault_settlement_authority: Address,
}

impl InitializeProposal {
    /// Whether the vaults are fit for the proposal: each answers to the
    /// authority derived for it, the quote vaults hold the organisation's
    /// token, and the base vaults hold the wrapped native asset.
    pub open spec fn constraints_hold(self) -> bool {
        &&& self.quote_pass_vault.serves(self.quote_pass_vault_settlement_authority, self.dao.token)
        &&& self.quote_fail_vault.serves(self.quote_fail_vault_settlement_authority, self.dao.token)
        &&& self.base_pass_vault.serves(self.base_pass_vault_settlement_authority, wsol_address())
        &&& self.base_fail_vault.serves(self.base_fail_vault_settlement_authority, wsol_address())
    }
}

/// The accounts of an instruction that only the organisation may give.
#[derive(Clone, Copy, Debug, PartialEq, Eq)]
pub struct Auth {
    pub dao: DAO,
}

/// Founds an organisation on `ctx.token`, with the default pass threshold.
/// Fails with `ConstraintMintDecimals`, changing nothing, where the token
/// does not have the required decimals.
pub fn initialize_dao(ctx: &mut InitializeDAO) -> (outcome: Result<(), AutocratError>)
    ensures
        old(ctx).constraints_hold() ==> outcome == Ok::<(), AutocratError>(()) && *final(ctx) == (InitializeDAO {
            dao: DAO { token: old(ctx).token, pass_threshold_bps: DEFAULT_PASS_THRESHOLD_BPS },
            ..*old(ctx)
        }),
        !old(ctx).constraints_hold() ==> outcome == Err::<(), AutocratError>(AutocratError::ConstraintMintDecimals)
            && *final(ctx) == *old(ctx),
{
    if ctx.token_decimals != TOKEN_DECIMALS {
        return Err(AutocratError::ConstraintMintDecimals);
    }
    ctx.dao.token = ctx.token;
    ctx.dao.pass_threshold_bps = DEFAULT_PASS_THRESHOLD_BPS;
    Ok(())
}

/// Records a proposal with the given instructions and accounts, not yet
/// carried out. Fails with `ConstraintRaw`, changing nothing, where a vault
/// does not answer to its authority or holds another asset than it must.
pub fn initialize_proposal(
    ctx: &mut InitializeProposal,
    instructions: Vec<ProposalInstruction>,
    accts: Vec<ProposalAccount>,
) -> (outcome: Result<(), AutocratError>)
    ensures
        old(ctx).constraints_hold() ==> outcome == Ok::<(), AutocratError>(()) && *final(ctx) == (
        InitializeProposal {
            proposal: Proposal { did_execute: false, instructions, accounts: accts },
            ..*old(ctx)
        }),
        !old(ctx).constraints_hold() ==> outcome == Err::<(), AutocratError>(AutocratError::ConstraintRaw)
            && *final(ctx) == *old(ctx),
{
    let wsol: Address = wsol();
    let fit: bool = ctx.quote_pass_vault.is_serving(&ctx.quote_pass_vault_settlement_authority, &ctx.dao.token)
        && ctx.quote_fail_vault.is_serving(&ctx.quote_fail_vault_settlement_authority, &ctx.dao.token)
        && ctx.base_pass_vault.is_serving(&ctx.base_pass_vault_settlement_authority, &wsol)
        && ctx.base_fail_vault.is_serving(&ctx.base_fail_vault_settlement_authority, &wsol);
    if !fit {
        return Err(AutocratError::ConstraintRaw);
    }
    ctx.proposal.did_execute = false;
    ctx.proposal.instructions = instructions;
    ctx.proposal.accounts = accts;
    Ok(())
}

/// Takes a new pass threshold from the organisation. The request is
/// accepted and the organisation's record stays as it is.
pub fn set_pass_threshold_bps(ctx: &mut Auth, pass_threshold_bps: u16) -> (outcome: Result<(), AutocratError>)
    ensures
        outcome == Ok::<(), AutocratError>(()),
        *final(ctx) == *old(ctx),
{
    Ok(())
}

} // verus!
