//! Derivation of the program's cells, the well-known program ids and the
//! small checks and builders that the handlers share.
use vstd::prelude::*;
use vstd::slice::slice_to_vec;
use vstd::string::StringSliceAdditionalSpecFns;
use crate::account::{
    AccountInfo, Action, PREFIX, PREFIX_TOKEN, PREFIXMULTISIG, PREFIXMULTISIGSAFE, Seeds, Tag,
};
use crate::codec::{read_u64, u64_at};
use crate::error::{custom, ProgramError, TokenError};
use crate::keys::{
    derived, find_program_address, lemma_pubkey_of, pubkey_of, seeds_view, zero_key,
    zero_pubkey, Pubkey,
};

verus! {

/// The bytes of the token program's id.
pub open spec fn token_program_bytes() -> Seq<u8> {
    seq![
        6u8, 221, 246, 225, 215, 101, 161, 147, 217, 203, 225, 70, 206, 235, 121, 172, 28, 180, 133,
        237, 95, 91, 55, 145, 58, 140, 245, 133, 126, 255, 0, 169,
    ]
}

/// The bytes of the associated-token-account program's id.
pub open spec fn associated_token_program_bytes() -> Seq<u8> {
    seq![
        140u8, 151, 37, 143, 78, 36, 137, 241, 187, 61, 16, 41, 20, 142, 13, 131, 11, 90, 19, 153,
        218, 255, 16, 132, 4, 142, 123, 216, 219, 233, 248, 89,
    ]
}

/// The key that a base58 text stands for, or `None` where it stands for none.
pub uninterp spec fn base58_key(text: Seq<char>) -> Option<Seq<u8>>;

/// Calls `spl_token::id`, which returns the token program's id: the key that
/// `TokenkegQfeZyiNwAJbNbGKPFXCWuBvf9Ss623VQ5DA` stands for.
#[verifier::external_body]
fn spl_token_id() -> (r: Pubkey)
    ensures
        r@ == token_program_bytes(),
{
    Pubkey { bytes: spl_token::id().to_bytes() }
}

/// Calls `spl_associated_token_account::id`, which returns the id of the
/// associated-token-account program: the key that
/// `ATokenGPvbdGVxr1b2hvZbsiqW5xWH25efTNsLJA8knL` stands for.
#[verifier::external_body]
fn spl_associated_token_account_id() -> (r: Pubkey)
    ensures
        r@ == associated_token_program_bytes(),
{
    Pubkey { bytes: spl_associated_token_account::id().to_bytes() }
}

/// Calls `Pubkey::from_str` of solana-program, which decodes a base58 text
/// into a key and fails where the text is no key. The result is a function of
/// the text alone.
#[verifier::external_body]
fn pubkey_from_str(text: &str) -> (r: Option<Pubkey>)
    ensures
        match r {
            Some(key) => base58_key(text@) == Some(key@),
            None => base58_key(text@) is None,
        },
{
    match <solana_program::pubkey::Pubkey as std::str::FromStr>::from_str(text) {
        Ok(key) => Some(Pubkey { bytes: key.to_bytes() }),
        Err(_) => None,
    }
}

/// Calls `Pack::get_packed_len` for `spl_token::state::Account`, which returns
/// the length of a token account: 165 bytes.
#[verifier::external_body]
fn spl_token_account_len() -> (r: usize)
    ensures
        r == 165,
{
    <spl_token::state::Account as solana_program::program_pack::Pack>::get_packed_len()
}

/// The id of the token program.
pub open spec fn token_program_key() -> Pubkey {
    pubkey_of(token_program_bytes())
}

/// The id of the associated-token-account program.
pub open spec fn associated_token_program_key() -> Pubkey {
    pubkey_of(associated_token_program_bytes())
}

/// The id of the token program.
pub fn token_program_id() -> (r: Pubkey)
    ensures
        r == token_program_key(),
{
    let r = spl_token_id();
    proof {
        lemma_pubkey_of(r);
    }
    r
}

/// The id of the associated-token-account program.
pub fn associated_token_program_id() -> (r: Pubkey)
    ensures
        r == associated_token_program_key(),
{
    let r = spl_associated_token_account_id();
    proof {
        lemma_pubkey_of(r);
    }
    r
}

/// The id of the system program: the key of 32 zero bytes.
pub fn system_program_id() -> (r: Pubkey)
    ensures
        r == zero_key(),
{
    zero_pubkey()
}

/// The text of the fee sink that is used where none is configured.
pub const FEE_RECEIVER: &'static str = "EsDV3m3xUZ7g8QKa1kFdbZT18nNz8ddGJRcTK84WDQ7k";

/// The key that a base58 text stands for.
pub open spec fn parsed_key(text: Seq<char>) -> Option<Pubkey> {
    match base58_key(text) {
        Some(bytes) => Some(pubkey_of(bytes)),
        None => None,
    }
}

/// Decodes a base58 text into a key.
pub fn parse_pubkey(text: &str) -> (r: Option<Pubkey>)
    ensures
        r == parsed_key(text@),
{
    match pubkey_from_str(text) {
        Some(key) => {
            proof {
                lemma_pubkey_of(key);
            }
            Some(key)
        },
        None => None,
    }
}

/// The fee sink that is used where none is configured.
pub fn default_fee_receiver() -> (r: Option<Pubkey>)
    ensures
        r == parsed_key(FEE_RECEIVER@),
{
    parse_pubkey(FEE_RECEIVER)
}

impl Tag {
    /// The seed that the tag puts before the keys, if it puts one.
    pub open spec fn spec_prefix(self) -> Seq<Seq<u8>> {
        match self {
            Tag::Vault => Seq::empty(),
            Tag::WithdrawSol => seq![PREFIX.spec_bytes()],
            Tag::WithdrawToken => seq![PREFIX_TOKEN.spec_bytes()],
            Tag::WithdrawMultisigSol => seq![PREFIXMULTISIG.spec_bytes()],
            Tag::MultisigSafe => seq![PREFIXMULTISIGSAFE.spec_bytes()],
        }
    }

    /// The text of the tag, if it has one.
    pub fn prefix(&self) -> (r: Option<&'static str>)
        ensures
            match r {
                Some(text) => self.spec_prefix() == seq![text.spec_bytes()],
                None => self.spec_prefix() == Seq::<Seq<u8>>::empty(),
            },
    {
        match self {
            Tag::Vault => None,
            Tag::WithdrawSol => Some(PREFIX),
            Tag::WithdrawToken => Some(PREFIX_TOKEN),
            Tag::WithdrawMultisigSol => Some(PREFIXMULTISIG),
            Tag::MultisigSafe => Some(PREFIXMULTISIGSAFE),
        }
    }
}

/// The seeds of a cell in a namespace, without the bump seed: the tag, the
/// owning key and, where there is one, the mint.
pub open spec fn seed_list(tag: Tag, key: Pubkey, mint: Option<Pubkey>) -> Seq<Seq<u8>> {
    tag.spec_prefix() + seq![key@] + (match mint {
        Some(m) => seq![m@],
        None => Seq::empty(),
    })
}

/// The address of a cell in a namespace and the bump seed that gives it.
pub open spec fn cell_address(tag: Tag, key: Pubkey, mint: Option<Pubkey>, program: Pubkey) -> Option<
    (Pubkey, u8),
> {
    derived(seed_list(tag, key, mint), program)
}

/// The seeds under which `cell_address` is signed for.
pub open spec fn cell_seeds(tag: Tag, key: Pubkey, mint: Option<Pubkey>, program: Pubkey) -> Seeds {
    Seeds { tag, key, mint, bump: cell_address(tag, key, mint, program)->Some_0.1 }
}

fn build_seeds(tag: Tag, key: &Pubkey, mint: Option<Pubkey>) -> (r: Vec<Vec<u8>>)
    ensures
        seeds_view(r@) == seed_list(tag, *key, mint),
{
    let mut seeds: Vec<Vec<u8>> = Vec::new();
    match tag.prefix() {
        Some(text) => {
            seeds.push(slice_to_vec(text.as_bytes()));
        },
        None => {},
    }
    seeds.push(key.to_vec());
    match mint {
        Some(m) => {
            seeds.push(m.to_vec());
        },
        None => {},
    }
    assert(seeds_view(seeds@) =~= seed_list(tag, *key, mint));
    seeds
}

/// Derives the address of a cell in a namespace and the seeds to sign for it.
pub fn derive_cell(tag: Tag, key: &Pubkey, mint: Option<Pubkey>, program_id: &Pubkey) -> (r: Option<
    (Pubkey, Seeds),
>)
    ensures
        match r {
            Some((address, seeds)) => cell_address(tag, *key, mint, *program_id) == Some(
                (address, seeds.bump),
            ) && seeds == cell_seeds(tag, *key, mint, *program_id),
            None => cell_address(tag, *key, mint, *program_id) is None,
        },
{
    let seeds = build_seeds(tag, key, mint);
    match find_program_address(&seeds, program_id) {
        Some((address, bump)) => Some((address, Seeds { tag, key: *key, mint, bump })),
        None => None,
    }
}

impl Seeds {
    /// The seeds as byte strings, the bump seed last.
    pub fn to_vec(&self) -> (r: Vec<Vec<u8>>)
        ensures
            seeds_view(r@) == seed_list(self.tag, self.key, self.mint).push(seq![self.bump]),
    {
        let mut seeds = build_seeds(self.tag, &self.key, self.mint);
        let mut last: Vec<u8> = Vec::new();
        last.push(self.bump);
        assert(last@ =~= seq![self.bump]);
        seeds.push(last);
        assert(seeds_view(seeds@) =~= seed_list(self.tag, self.key, self.mint).push(seq![self.bump]));
        seeds
    }
}

/// The address of a sender's native vault and its bump seed.
pub fn get_master_address_and_bump_seed(sender: &Pubkey, program_id: &Pubkey) -> (r: Option<
    (Pubkey, u8),
>)
    ensures
        r == cell_address(Tag::Vault, *sender, None, *program_id),
{
    match derive_cell(Tag::Vault, sender, None, program_id) {
        Some((address, seeds)) => Some((address, seeds.bump)),
        None => None,
    }
}

/// The address derived from a tag and one key, and its bump seed.
pub fn get_withdraw_data_and_bump_seed(prefix: &str, sender: &Pubkey, program_id: &Pubkey) -> (r:
    Option<(Pubkey, u8)>)
    ensures
        r == derived(seq![prefix.spec_bytes(), sender@], *program_id),
{
    let mut seeds: Vec<Vec<u8>> = Vec::new();
    seeds.push(slice_to_vec(prefix.as_bytes()));
    seeds.push(sender.to_vec());
    assert(seeds_view(seeds@) =~= seq![prefix.spec_bytes(), sender@]);
    find_program_address(&seeds, program_id)
}

/// The address derived from a tag, a key and a mint, and its bump seed.
pub fn get_token_withdraw_data_and_bump_seed(
    prefix: &str,
    sender: &Pubkey,
    token_mint: &Pubkey,
    program_id: &Pubkey,
) -> (r: Option<(Pubkey, u8)>)
    ensures
        r == derived(seq![prefix.spec_bytes(), sender@, token_mint@], *program_id),
{
    let mut seeds: Vec<Vec<u8>> = Vec::new();
    seeds.push(slice_to_vec(prefix.as_bytes()));
    seeds.push(sender.to_vec());
    seeds.push(token_mint.to_vec());
    assert(seeds_view(seeds@) =~= seq![prefix.spec_bytes(), sender@, token_mint@]);
    find_program_address(&seeds, program_id)
}

/// The address derived from a tag and a multisig group's key, and its bump seed.
pub fn get_multisig_data_and_bump_seed(prefix: &str, sender: &Pubkey, program_id: &Pubkey) -> (r:
    Option<(Pubkey, u8)>)
    ensures
        r == derived(seq![prefix.spec_bytes(), sender@], *program_id),
{
    get_withdraw_data_and_bump_seed(prefix, sender, program_id)
}

/// The address of the associated token account of `wallet` for `mint`.
pub open spec fn associated_token_address(wallet: Pubkey, mint: Pubkey) -> Option<Pubkey> {
    match derived(
        seq![wallet@, token_program_key()@, mint@],
        associated_token_program_key(),
    ) {
        Some((address, _)) => Some(address),
        None => None,
    }
}

/// Derives the address of the associated token account of `wallet` for `mint`.
pub fn get_associated_token_address(wallet: &Pubkey, mint: &Pubkey) -> (r: Option<Pubkey>)
    ensures
        r == associated_token_address(*wallet, *mint),
{
    let token_program = token_program_id();
    let program = associated_token_program_id();
    let mut seeds: Vec<Vec<u8>> = Vec::new();
    seeds.push(wallet.to_vec());
    seeds.push(token_program.to_vec());
    seeds.push(mint.to_vec());
    assert(seeds_view(seeds@) =~= seq![wallet@, token_program_key()@, mint@]);
    match find_program_address(&seeds, &program) {
        Some((address, _)) => Some(address),
        None => None,
    }
}

/// Fails with `PublicKeyMismatch` unless the two keys are the same.
pub fn assert_keys_equal(key1: Pubkey, key2: Pubkey) -> (r: Result<(), ProgramError>)
    ensures
        key1 == key2 ==> r is Ok,
        key1 != key2 ==> r == Err::<(), ProgramError>(custom(TokenError::PublicKeyMismatch)),
{
    if key1 != key2 {
        Err(ProgramError::from(TokenError::PublicKeyMismatch))
    } else {
        Ok(())
    }
}

/// Fails with `AccountDataTooSmall` where `data` is shorter than `min_len`.
pub fn check_data_len(data: &[u8], min_len: usize) -> (r: Result<(), ProgramError>)
    ensures
        data@.len() >= min_len ==> r is Ok,
        data@.len() < min_len ==> r == Err::<(), ProgramError>(ProgramError::AccountDataTooSmall),
{
    if data.len() < min_len {
        Err(ProgramError::AccountDataTooSmall)
    } else {
        Ok(())
    }
}

/// The balance that the data of a token account holds: the 64-bit integer at
/// offset 64 of at least 165 bytes.
pub open spec fn token_balance(data: Seq<u8>) -> Option<u64> {
    if data.len() < 165 {
        None
    } else {
        Some(u64_at(data, 64))
    }
}

/// Reads the balance of a token account.
pub fn get_token_balance(token_account: &AccountInfo) -> (r: Result<u64, ProgramError>)
    ensures
        match r {
            Ok(amount) => token_balance(token_account.data@) == Some(amount),
            Err(e) => token_balance(token_account.data@) is None && e
                == ProgramError::AccountDataTooSmall,
        },
{
    match check_data_len(token_account.data.as_slice(), spl_token_account_len()) {
        Ok(()) => Ok(read_u64(token_account.data.as_slice(), 64)),
        Err(e) => Err(e),
    }
}

/// The action that creates a cell of the program, paid by `payer`.
pub fn create_pda_account(
    payer: &AccountInfo,
    rent_space: u64,
    rent_times: u64,
    space: u64,
    owner: &Pubkey,
    new_pda_account: &AccountInfo,
) -> (r: Action)
    ensures
        r@ == (crate::account::ActionView::CreateAccount {
            payer: payer.key,
            account: new_pda_account.key,
            space,
            rent_space,
            rent_times,
            owner: *owner,
            seeds: None,
        }),
{
    Action::CreateAccount {
        payer: payer.key,
        account: new_pda_account.key,
        space,
        rent_space,
        rent_times,
        owner: *owner,
        seeds: None,
    }
}

/// The action that creates a derived cell of the program, for which the
/// program signs.
pub fn create_pda_account_signed(
    payer: &AccountInfo,
    rent_space: u64,
    rent_times: u64,
    space: u64,
    owner: &Pubkey,
    new_pda_account: &AccountInfo,
    seeds: Seeds,
) -> (r: Action)
    ensures
        r@ == (crate::account::ActionView::CreateAccount {
            payer: payer.key,
            account: new_pda_account.key,
            space,
            rent_space,
            rent_times,
            owner: *owner,
            seeds: Some(seeds),
        }),
{
    Action::CreateAccount {
        payer: payer.key,
        account: new_pda_account.key,
        space,
        rent_space,
        rent_times,
        owner: *owner,
        seeds: Some(seeds),
    }
}

/// The action that moves lamports out of a derived cell, for which the
/// program signs.
pub fn create_transfer(sender: &AccountInfo, receiver: &AccountInfo, amount: u64, seeds: Seeds) -> (r:
    Action)
    ensures
        r@ == (crate::account::ActionView::Transfer {
            from: sender.key,
            to: receiver.key,
            lamports: amount,
            seeds: Some(seeds),
        }),
{
    Action::Transfer { from: sender.key, to: receiver.key, lamports: amount, seeds: Some(seeds) }
}

/// The action that moves lamports out of an account that signed itself.
pub fn create_transfer_unsigned(sender: &AccountInfo, receiver: &AccountInfo, amount: u64) -> (r:
    Action)
    ensures
        r@ == (crate::account::ActionView::Transfer {
            from: sender.key,
            to: receiver.key,
            lamports: amount,
            seeds: None,
        }),
{
    Action::Transfer { from: sender.key, to: receiver.key, lamports: amount, seeds: None }
}

} // verus!
