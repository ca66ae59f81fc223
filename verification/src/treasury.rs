//! The checks and account lists of the treasury instructions: referral rewards, treasury configs,
//! token flags and the accounts of a GT exchange.
use vstd::prelude::*;

use crate::market::Address;
use crate::pda::{associated_token_address_spec, find_associated_token_address};

verus! {

/// Errors of building treasury instructions.
#[derive(Debug, Clone, Copy, PartialEq, Eq, Structural)]
pub enum TreasuryError {
    /// No referral reward factors were given.
    EmptyFactors,
    /// The treasury config is not set.
    TreasuryConfigNotSet,
    /// An account was not found.
    NotFound,
}

/// An account handed to an instruction, with whether it signs and whether it is written.
#[derive(Debug, Clone, Copy, PartialEq, Eq, Structural)]
pub struct AccountMeta {
    /// The address of the account.
    pub pubkey: Address,
    /// Whether the account signs the transaction.
    pub is_signer: bool,
    /// Whether the account is written.
    pub is_writable: bool,
}

/// Check the referral reward factors: at least one must be given.
pub fn validate_referral_reward_factors(factors: &Vec<u128>) -> (r: Result<(), TreasuryError>)
    ensures
        r is Ok <==> factors.len() > 0,
        r is Err ==> r == Err::<(), TreasuryError>(TreasuryError::EmptyFactors),
{
    if factors.len() == 0 {
        Err(TreasuryError::EmptyFactors)
    } else {
        Ok(())
    }
}

/// The value a token flag is toggled to: exactly one of `enable` and `disable` is given.
pub fn toggle_value(enable: bool, disable: bool) -> (r: bool)
    requires
        enable != disable,
    ensures
        r == enable,
        r == !disable,
{
    enable
}

/// The treasury config to use: the hint when one is given, else the one that the config account
/// holds (`configured`, `None` when the config account was not found).
pub fn treasury_config_address(hint: Option<Address>, configured: Option<Option<Address>>) -> (r: Result<
    Address,
    TreasuryError,
>)
    ensures
        match (hint, configured) {
            (Some(a), _) => r == Ok::<Address, TreasuryError>(a),
            (None, None) => r == Err::<Address, TreasuryError>(TreasuryError::NotFound),
            (None, Some(None)) => r == Err::<Address, TreasuryError>(TreasuryError::TreasuryConfigNotSet),
            (None, Some(Some(a))) => r == Ok::<Address, TreasuryError>(a),
        },
{
    match hint {
        Some(a) => Ok(a),
        None => match configured {
            None => Err(TreasuryError::NotFound),
            Some(None) => Err(TreasuryError::TreasuryConfigNotSet),
            Some(Some(a)) => Ok(a),
        },
    }
}

/// The tokens of a GT exchange with their token programs, from the tokens of the treasury
/// config and the owners of their mint accounts (`None` for a mint account that was not found).
pub fn tokens_with_programs(tokens: &Vec<Address>, owners: &Vec<Option<Address>>) -> (r: Result<
    Vec<(Address, Address)>,
    TreasuryError,
>)
    requires
        owners.len() == tokens.len(),
    ensures
        (forall|i: int| 0 <= i < owners.len() ==> #[trigger] owners@[i] is Some) ==> r is Ok,
        (exists|i: int| 0 <= i < owners.len() && #[trigger] owners@[i] is None) ==> r == Err::<
            Vec<(Address, Address)>,
            TreasuryError,
        >(TreasuryError::NotFound),
        r matches Ok(v) ==> v.len() == tokens.len() && forall|i: int|
            0 <= i < tokens.len() ==> #[trigger] v@[i] == (tokens@[i], owners@[i].unwrap()),
{
    let mut out: Vec<(Address, Address)> = Vec::new();
    let mut i: usize = 0;
    while i < tokens.len()
        invariant
            owners.len() == tokens.len(),
            i <= tokens.len(),
            out.len() == i,
            forall|j: int| 0 <= j < i ==> #[trigger] owners@[j] is Some,
            forall|j: int| 0 <= j < i ==> #[trigger] out@[j] == (tokens@[j], owners@[j].unwrap()),
        decreases tokens.len() - i,
    {
        match owners[i] {
            Some(owner) => out.push((tokens[i], owner)),
            None => return Err(TreasuryError::NotFound),
        }
        i += 1;
    }
    Ok(out)
}

/// Whether the associated token accounts of `wallet` exist for the first `n` tokens.
pub open spec fn atas_exist(tokens: Seq<(Address, Address)>, wallet: Address, n: int) -> bool {
    forall|j: int| 0 <= j < n ==> (#[trigger] associated_token_address_spec(wallet, tokens[j].0, tokens[j].1)) is Some
}

/// Whether the associated token accounts of the GT bank and of the owner exist for every token.
pub open spec fn gt_exchange_atas_exist(tokens: Seq<(Address, Address)>, gt_bank: Address, owner: Address) -> bool {
    atas_exist(tokens, gt_bank, tokens.len() as int) && atas_exist(tokens, owner, tokens.len() as int)
}

/// The written account meta of the associated token account of `wallet` for a token.
pub open spec fn ata_meta(wallet: Address, token: (Address, Address)) -> AccountMeta {
    AccountMeta {
        pubkey: associated_token_address_spec(wallet, token.0, token.1).unwrap(),
        is_signer: false,
        is_writable: true,
    }
}

/// The read-only account meta of the mint of a token.
pub open spec fn mint_meta(token: (Address, Address)) -> AccountMeta {
    AccountMeta { pubkey: token.0, is_signer: false, is_writable: false }
}

/// Push the associated token account of `wallet` for each token, in order; `None` as soon as one
/// has no address.
fn push_atas(r: &mut Vec<AccountMeta>, tokens: &Vec<(Address, Address)>, wallet: &Address) -> (ok: bool)
    requires
        old(r).len() + tokens.len() <= usize::MAX,
    ensures
        ok == atas_exist(tokens@, *wallet, tokens.len() as int),
        ok ==> final(r)@.len() == old(r)@.len() + tokens.len(),
        ok ==> final(r)@.subrange(0, old(r)@.len() as int) == old(r)@,
        ok ==> forall|j: int|
            0 <= j < tokens.len() ==> #[trigger] final(r)@[old(r)@.len() + j] == ata_meta(*wallet, tokens@[j]),
{
    let ghost start = r@;
    let mut i: usize = 0;
    while i < tokens.len()
        invariant
            i <= tokens.len(),
            start.len() + tokens.len() <= usize::MAX,
            r@.len() == start.len() + i,
            r@.subrange(0, start.len() as int) == start,
            atas_exist(tokens@, *wallet, i as int),
            forall|j: int| 0 <= j < i ==> #[trigger] r@[start.len() + j] == ata_meta(*wallet, tokens@[j]),
        decreases tokens.len() - i,
    {
        let a = match find_associated_token_address(wallet, &tokens[i].0, &tokens[i].1) {
            None => {
                proof {
                    assert(associated_token_address_spec(*wallet, tokens@[i as int].0, tokens@[i as int].1) is None);
                }
                return false;
            },
            Some(a) => a,
        };
        let ghost before = r@;
        r.push(AccountMeta { pubkey: a, is_signer: false, is_writable: true });
        proof {
            assert(r@.subrange(0, start.len() as int) =~= before.subrange(0, start.len() as int));
            assert forall|j: int| 0 <= j < i + 1 implies #[trigger] r@[start.len() + j] == ata_meta(
                *wallet,
                tokens@[j],
            ) by {
                if j < i {
                    assert(r@[start.len() + j] == before[start.len() + j]);
                }
            }
            assert forall|j: int| 0 <= j < i + 1 implies (#[trigger] associated_token_address_spec(
                *wallet,
                tokens@[j].0,
                tokens@[j].1,
            )) is Some by {
                if j < i {
                    assert(associated_token_address_spec(*wallet, tokens@[j].0, tokens@[j].1) is Some);
                }
            }
        }
        i += 1;
    }
    true
}

/// The remaining accounts of a GT exchange completion for `tokens`, pairs of a mint and its token
/// program: the token mints, read only, then the GT bank's associated token account of each
/// token, then the owner's associated token account of each token, both written; `None` when an
/// associated token account has no address.
pub fn complete_gt_exchange_accounts(tokens: &Vec<(Address, Address)>, gt_bank: &Address, owner: &Address) -> (r:
    Option<Vec<AccountMeta>>)
    requires
        3 * tokens.len() <= usize::MAX,
    ensures
        r is Some <==> gt_exchange_atas_exist(tokens@, *gt_bank, *owner),
        r matches Some(v) ==> {
            &&& v.len() == 3 * tokens.len()
            &&& forall|i: int| 0 <= i < tokens.len() ==> #[trigger] v@[i] == mint_meta(tokens@[i])
            &&& forall|i: int|
                0 <= i < tokens.len() ==> #[trigger] v@[tokens.len() + i] == ata_meta(*gt_bank, tokens@[i])
            &&& forall|i: int|
                0 <= i < tokens.len() ==> #[trigger] v@[2 * tokens.len() + i] == ata_meta(*owner, tokens@[i])
        },
{
    let n = tokens.len();
    let mut r: Vec<AccountMeta> = Vec::new();
    let mut i: usize = 0;
    while i < n
        invariant
            n == tokens.len(),
            i <= n,
            r.len() == i,
            forall|j: int| 0 <= j < i ==> #[trigger] r@[j] == mint_meta(tokens@[j]),
        decreases n - i,
    {
        r.push(AccountMeta { pubkey: tokens[i].0, is_signer: false, is_writable: false });
        i += 1;
    }
    let ghost mints = r@;
    if !push_atas(&mut r, tokens, gt_bank) {
        return None;
    }
    let ghost with_vaults = r@;
    if !push_atas(&mut r, tokens, owner) {
        return None;
    }
    proof {
        assert forall|j: int| 0 <= j < n implies #[trigger] r@[j] == mint_meta(tokens@[j]) by {
            assert(r@[j] == r@.subrange(0, 2 * n as int)[j]);
            assert(with_vaults[j] == with_vaults.subrange(0, n as int)[j]);
            assert(mints[j] == mint_meta(tokens@[j]));
        }
        assert forall|j: int| 0 <= j < n implies #[trigger] r@[n + j] == ata_meta(*gt_bank, tokens@[j]) by {
            assert(r@[n + j] == r@.subrange(0, 2 * n as int)[n + j]);
            assert(with_vaults[n + j] == ata_meta(*gt_bank, tokens@[j]));
        }
    }
    Some(r)
}

} // verus!
