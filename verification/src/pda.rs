//! Program derived addresses of the accounts of the store and timelock programs: the seeds each
//! account is derived from, handed to the address derivation of the Solana program library.
use anchor_lang::prelude::Pubkey;
use vstd::prelude::*;

use crate::market::Address;

verus! {

/// The 32 bytes of an address, big-endian.
pub open spec fn address_bytes(a: Address) -> Seq<u8> {
    Seq::new(
        32,
        |i: int|
            if i < 16 {
                ((a.hi >> ((8 * (15 - i)) as u32)) & 0xff) as u8
            } else {
                ((a.lo >> ((8 * (31 - i)) as u32)) & 0xff) as u8
            },
    )
}

impl Address {
    /// The 32 bytes of the address, big-endian.
    pub fn to_bytes(&self) -> (r: Vec<u8>)
        ensures
            r@ == address_bytes(*self),
    {
        let mut bytes: Vec<u8> = Vec::new();
        let mut k: u32 = 0;
        while k < 32
            invariant
                k <= 32,
                bytes@.len() == k,
                forall|i: int| 0 <= i < k ==> bytes@[i] == #[trigger] address_bytes(*self)[i],
            decreases 32 - k,
        {
            let b = if k < 16 {
                ((self.hi >> (8 * (15 - k))) & 0xff) as u8
            } else {
                ((self.lo >> (8 * (31 - k))) & 0xff) as u8
            };
            bytes.push(b);
            k += 1;
        }
        assert(bytes@ =~= address_bytes(*self));
        bytes
    }
}

/// The address derived from `seeds` under `program_id` and the bump seed that makes it fall off
/// the curve, as computed by the Solana program library; `None` when no bump seed does, or when
/// there are too many seeds or a seed is too long.
pub uninterp spec fn program_address_spec(seeds: Seq<Seq<u8>>, program_id: Address) -> Option<(Address, u8)>;

/// Why seeds that include the bump seed derive no address.
#[derive(Debug, Clone, Copy, PartialEq, Eq, Structural)]
pub enum PdaError {
    /// The seeds give a point on the curve.
    InvalidSeeds,
}

/// The address derived from `seeds` (the bump seed included) under `program_id`, as computed by
/// the Solana program library, or `None` when the seeds give a point on the curve.
pub uninterp spec fn create_program_address_spec(seeds: Seq<Seq<u8>>, program_id: Address) -> Option<Address>;

/// The views of the seeds.
pub open spec fn seeds_view(seeds: Seq<Vec<u8>>) -> Seq<Seq<u8>> {
    seeds.map_values(|s: Vec<u8>| s@)
}

/// Calls `Pubkey::try_find_program_address` of `anchor_lang`: the derived address and bump seed,
/// named by `program_address_spec` of the seeds and the program id. The library finds them by
/// trying bump seeds from 255 down with `create_program_address` on the seeds followed by the
/// bump seed, and returns the first address that this gives: so the address found is the one
/// that `create_program_address` derives from the seeds and the bump seed found.
#[verifier::external_body]
fn try_find_program_address(seeds: &Vec<Vec<u8>>, program_id: &Address) -> (r: Option<(Address, u8)>)
    ensures
        r == program_address_spec(seeds_view(seeds@), *program_id),
        r matches Some((a, b)) ==> create_program_address_spec(
            seeds_view(seeds@).push(seq![b]),
            *program_id,
        ) == Some(a),
{
    let seeds: Vec<&[u8]> = seeds.iter().map(|s| s.as_slice()).collect();
    let mut id = [0u8; 32];
    id[..16].copy_from_slice(&program_id.hi.to_be_bytes());
    id[16..].copy_from_slice(&program_id.lo.to_be_bytes());
    Pubkey::try_find_program_address(&seeds, &Pubkey::new_from_array(id)).map(|(key, bump)| {
        let bytes = key.to_bytes();
        let hi = u128::from_be_bytes(bytes[..16].try_into().unwrap());
        let lo = u128::from_be_bytes(bytes[16..].try_into().unwrap());
        (Address { hi, lo }, bump)
    })
}

/// Calls `Pubkey::create_program_address` of `anchor_lang`: the address derived from seeds that
/// include the bump seed, named by `create_program_address_spec`. With at most 16 seeds of at most
/// 32 bytes, the library fails only with `InvalidSeeds`.
#[verifier::external_body]
fn create_program_address(seeds: &Vec<Vec<u8>>, program_id: &Address) -> (r: Result<Address, PdaError>)
    requires
        seeds.len() <= 16,
        forall|i: int| 0 <= i < seeds.len() ==> #[trigger] seeds@[i].len() <= 32,
    ensures
        match create_program_address_spec(seeds_view(seeds@), *program_id) {
            Some(a) => r == Ok::<Address, PdaError>(a),
            None => r == Err::<Address, PdaError>(PdaError::InvalidSeeds),
        },
{
    let seeds: Vec<&[u8]> = seeds.iter().map(|s| s.as_slice()).collect();
    let mut id = [0u8; 32];
    id[..16].copy_from_slice(&program_id.hi.to_be_bytes());
    id[16..].copy_from_slice(&program_id.lo.to_be_bytes());
    match Pubkey::create_program_address(&seeds, &Pubkey::new_from_array(id)) {
        Ok(key) => {
            let bytes = key.to_bytes();
            let hi = u128::from_be_bytes(bytes[..16].try_into().unwrap());
            let lo = u128::from_be_bytes(bytes[16..].try_into().unwrap());
            Ok(Address { hi, lo })
        },
        Err(_) => Err(PdaError::InvalidSeeds),
    }
}

/// The seed of market accounts: `market`.
pub open spec fn market_seed() -> Seq<u8> {
    seq![109u8, 97u8, 114u8, 107u8, 101u8, 116u8]
}

/// The seed of market vault accounts: `market_vault`.
pub open spec fn market_vault_seed() -> Seq<u8> {
    seq![109u8, 97u8, 114u8, 107u8, 101u8, 116u8, 95u8, 118u8, 97u8, 117u8, 108u8, 116u8]
}

/// The seed of market token mints: `market_token_mint`.
pub open spec fn market_token_mint_seed() -> Seq<u8> {
    seq![
        109u8, 97u8, 114u8, 107u8, 101u8, 116u8, 95u8, 116u8, 111u8, 107u8, 101u8, 110u8, 95u8, 109u8, 105u8, 110u8, 116u8
    ]
}

/// The seed of executor wallets: `wallet`.
pub open spec fn wallet_seed() -> Seq<u8> {
    seq![119u8, 97u8, 108u8, 108u8, 101u8, 116u8]
}

/// Find the address of the market account of `token` in `store`.
pub fn find_market_address(store: &Address, token: &Address, store_program_id: &Address) -> (r: Option<
    (Address, u8),
>)
    ensures
        r == program_address_spec(seq![market_seed(), address_bytes(*store), address_bytes(*token)], *store_program_id),
{
    let seeds: Vec<Vec<u8>> = vec![vec![109u8, 97u8, 114u8, 107u8, 101u8, 116u8], store.to_bytes(), token.to_bytes()];
    proof {
        assert(seeds_view(seeds@) =~= seq![market_seed(), address_bytes(*store), address_bytes(*token)]);
    }
    try_find_program_address(&seeds, store_program_id)
}

/// Find the address of the vault of `token` in `store`.
pub fn find_market_vault_address(store: &Address, token: &Address, store_program_id: &Address) -> (r: Option<
    (Address, u8),
>)
    ensures
        r == program_address_spec(
            seq![market_vault_seed(), address_bytes(*store), address_bytes(*token), Seq::<u8>::empty()],
            *store_program_id,
        ),
{
    let seeds: Vec<Vec<u8>> = vec![
        vec![109u8, 97u8, 114u8, 107u8, 101u8, 116u8, 95u8, 118u8, 97u8, 117u8, 108u8, 116u8],
        store.to_bytes(),
        token.to_bytes(),
        Vec::new(),
    ];
    proof {
        assert(seeds_view(seeds@) =~= seq![
            market_vault_seed(),
            address_bytes(*store),
            address_bytes(*token),
            Seq::<u8>::empty(),
        ]);
    }
    try_find_program_address(&seeds, store_program_id)
}

/// Find the address of the market token mint of the market of the given tokens in `store`.
pub fn find_market_token_address(
    store: &Address,
    index_token: &Address,
    long_token: &Address,
    short_token: &Address,
    store_program_id: &Address,
) -> (r: Option<(Address, u8)>)
    ensures
        r == program_address_spec(
            seq![
                market_token_mint_seed(),
                address_bytes(*store),
                address_bytes(*index_token),
                address_bytes(*long_token),
                address_bytes(*short_token),
            ],
            *store_program_id,
        ),
{
    let seeds: Vec<Vec<u8>> = vec![
        vec![109u8, 97u8, 114u8, 107u8, 101u8, 116u8, 95u8, 116u8, 111u8, 107u8, 101u8, 110u8, 95u8, 109u8, 105u8, 110u8, 116u8],
        store.to_bytes(),
        index_token.to_bytes(),
        long_token.to_bytes(),
        short_token.to_bytes(),
    ];
    proof {
        assert(seeds_view(seeds@) =~= seq![
            market_token_mint_seed(),
            address_bytes(*store),
            address_bytes(*index_token),
            address_bytes(*long_token),
            address_bytes(*short_token),
        ]);
    }
    try_find_program_address(&seeds, store_program_id)
}

/// Find the address of the wallet of an executor of the timelock program. The bump seed found
/// gives the same address back through `create_executor_wallet_pda`.
pub fn find_executor_wallet_pda(executor: &Address, timelock_program_id: &Address) -> (r: Option<(Address, u8)>)
    ensures
        r == program_address_spec(seq![wallet_seed(), address_bytes(*executor)], *timelock_program_id),
        r matches Some((wallet, bump)) ==> create_program_address_spec(
            seq![wallet_seed(), address_bytes(*executor), seq![bump]],
            *timelock_program_id,
        ) == Some(wallet),
{
    let seeds: Vec<Vec<u8>> = vec![vec![119u8, 97u8, 108u8, 108u8, 101u8, 116u8], executor.to_bytes()];
    proof {
        assert(seeds_view(seeds@) =~= seq![wallet_seed(), address_bytes(*executor)]);
    }
    let r = try_find_program_address(&seeds, timelock_program_id);
    proof {
        if let Some((wallet, bump)) = r {
            assert(seeds_view(seeds@).push(seq![bump]) =~= seq![
                wallet_seed(),
                address_bytes(*executor),
                seq![bump],
            ]);
        }
    }
    r
}

/// Create the address of the wallet of an executor from its bump seed.
pub fn create_executor_wallet_pda(executor: &Address, wallet_bump: u8, timelock_program_id: &Address) -> (r:
    Result<Address, PdaError>)
    ensures
        match create_program_address_spec(
            seq![wallet_seed(), address_bytes(*executor), seq![wallet_bump]],
            *timelock_program_id,
        ) {
            Some(a) => r == Ok::<Address, PdaError>(a),
            None => r == Err::<Address, PdaError>(PdaError::InvalidSeeds),
        },
{
    let bump_seed: Vec<u8> = vec![wallet_bump];
    assert(bump_seed@ =~= seq![wallet_bump]);
    let seeds: Vec<Vec<u8>> = vec![vec![119u8, 97u8, 108u8, 108u8, 101u8, 116u8], executor.to_bytes(), bump_seed];
    proof {
        assert(seeds_view(seeds@) =~= seq![wallet_seed(), address_bytes(*executor), seq![wallet_bump]]);
    }
    create_program_address(&seeds, timelock_program_id)
}

/// The associated token account program (`ATokenGPvbdGVxr1b2hvZbsiqW5xWH25efTNsLJA8knL`).
pub open spec fn associated_token_program_spec() -> Address {
    Address { hi: 0x8c97258f4e2489f1bb3d1029148e0d83, lo: 0x0b5a1399daff1084048e7bd8dbe9f859 }
}

/// The associated token account program.
pub fn associated_token_program_id() -> (r: Address)
    ensures
        r == associated_token_program_spec(),
{
    Address { hi: 0x8c97258f4e2489f1bb3d1029148e0d83, lo: 0x0b5a1399daff1084048e7bd8dbe9f859 }
}

/// The associated token account of `wallet` for `mint` under `token_program`: the program address
/// of the seeds `[wallet, token_program, mint]` under the associated token account program, or
/// `None` when no bump seed gives one.
pub open spec fn associated_token_address_spec(wallet: Address, mint: Address, token_program: Address) -> Option<
    Address,
> {
    match program_address_spec(
        seq![address_bytes(wallet), address_bytes(token_program), address_bytes(mint)],
        associated_token_program_spec(),
    ) {
        Some((a, _)) => Some(a),
        None => None,
    }
}

/// Find the associated token account of `wallet` for `mint` under `token_program`.
pub fn find_associated_token_address(wallet: &Address, mint: &Address, token_program: &Address) -> (r: Option<
    Address,
>)
    ensures
        r == associated_token_address_spec(*wallet, *mint, *token_program),
{
    let seeds: Vec<Vec<u8>> = vec![wallet.to_bytes(), token_program.to_bytes(), mint.to_bytes()];
    proof {
        assert(seeds_view(seeds@) =~= seq![
            address_bytes(*wallet),
            address_bytes(*token_program),
            address_bytes(*mint),
        ]);
    }
    let program = associated_token_program_id();
    match try_find_program_address(&seeds, &program) {
        Some((a, _)) => Some(a),
        None => None,
    }
}

/// The length of the discriminator that starts the data of every account of the store program.
pub const DISC_OFFSET: usize = 8;

/// A filter of the accounts of the store program by the store they belong to.
#[derive(Debug, Clone, Copy, PartialEq, Eq, Structural)]
pub struct StoreFilter {
    /// Store.
    pub store: Address,
    /// Where the store address sits in the account data, discriminator excluded.
    pub store_offset: usize,
}

impl StoreFilter {
    /// Create a new store filter.
    pub fn new(store: &Address, store_offset: usize) -> (r: Self)
        ensures
            r == (StoreFilter { store: *store, store_offset }),
    {
        StoreFilter { store: *store, store_offset }
    }

    /// The bytes that the account data must hold, and where: the store address, at the store
    /// offset, past the discriminator unless it is ignored.
    pub fn filter_bytes(&self, ignore_disc_offset: bool) -> (r: (usize, Vec<u8>))
        requires
            self.store_offset + DISC_OFFSET <= usize::MAX,
        ensures
            r.0 == if ignore_disc_offset {
                self.store_offset as int
            } else {
                self.store_offset + DISC_OFFSET
            },
            r.1@ == address_bytes(self.store),
    {
        let offset = if ignore_disc_offset {
            self.store_offset
        } else {
            self.store_offset + DISC_OFFSET
        };
        (offset, self.store.to_bytes())
    }
}

} // verus!
