//! The vault of a sender: deposits into it, and the free withdrawals out of
//! it, which the reservation ledger limits.
use vstd::prelude::*;
use crate::account::{emit, no_actions, views, AccountInfo, Action, ActionView, Seeds, Tag};
use crate::checks::{
    check_cell, check_token_account, checked_cell, is_token_account_of, ledger_mint, ledger_tag,
    ledger_tag_of, load_ledger, loaded_ledger,
};
use crate::error::{custom, ProgramError, TokenError};
use crate::keys::{zero_key, Pubkey};
use crate::stream::{outcome_is, Roles};
use crate::utils::{
    create_transfer, create_transfer_unsigned, get_token_balance, token_balance,
    token_program_key,
};

verus! {

/// What a deposit does. The sender signs; the vault is the one derived from
/// the sender. A native deposit moves lamports from the sender into the
/// vault. A token deposit moves tokens from the sender's token account into
/// the vault's, which is created on first use.
pub open spec fn deposit_spec(
    program: Pubkey,
    a: Seq<AccountInfo>,
    roles: Roles,
    token: bool,
    amount: u64,
) -> Result<Seq<ActionView>, ProgramError> {
    let source = a[roles.source as int];
    let vault = a[roles.vault as int];
    let mint = a[roles.mint as int].key;
    let vault_token = a[roles.vault_token as int];
    match checked_cell(program, vault, Tag::Vault, source.key, None) {
        Err(e) => Err(e),
        Ok(_) => if token && (a[roles.token_program as int].key != token_program_key()
            || !is_token_account_of(vault_token, vault.key, mint)) {
            Err(custom(TokenError::PublicKeyMismatch))
        } else if !token && a[roles.system_program as int].key != zero_key() {
            Err(custom(TokenError::PublicKeyMismatch))
        } else if !source.is_signer {
            Err(ProgramError::MissingRequiredSignature)
        } else if token {
            Ok(
                (if vault_token.data@.len() == 0 {
                    seq![
                        ActionView::CreateAssociatedTokenAccount {
                            payer: source.key,
                            wallet: vault.key,
                            mint,
                        },
                    ]
                } else {
                    Seq::empty()
                }) + seq![
                    ActionView::TokenTransfer {
                        source: a[roles.source_token as int].key,
                        destination: vault_token.key,
                        authority: source.key,
                        amount,
                        seeds: None,
                    },
                ],
            )
        } else {
            Ok(
                seq![
                    ActionView::Transfer {
                        from: source.key,
                        to: vault.key,
                        lamports: amount,
                        seeds: None,
                    },
                ],
            )
        },
    }
}

/// Deposits into the vault of a sender.
pub fn deposit(
    program_id: &Pubkey,
    accounts: &[AccountInfo],
    roles: &Roles,
    token: bool,
    amount: u64,
) -> (r: Result<Vec<Action>, ProgramError>)
    requires
        roles.within(accounts@.len() as int),
    ensures
        outcome_is(r, deposit_spec(*program_id, accounts@, *roles, token, amount)),
{
    let source = &accounts[roles.source];
    let vault = &accounts[roles.vault];
    let mint = accounts[roles.mint].key;
    let vault_token = &accounts[roles.vault_token];
    let _seeds = check_cell(program_id, vault, Tag::Vault, &source.key, None)?;
    if token {
        if accounts[roles.token_program].key != crate::utils::token_program_id() {
            return Err(ProgramError::from(TokenError::PublicKeyMismatch));
        }
        if !check_token_account(vault_token, &vault.key, &mint) {
            return Err(ProgramError::from(TokenError::PublicKeyMismatch));
        }
    } else if accounts[roles.system_program].key != crate::utils::system_program_id() {
        return Err(ProgramError::from(TokenError::PublicKeyMismatch));
    }
    if !source.is_signer {
        return Err(ProgramError::MissingRequiredSignature);
    }
    let mut out = no_actions();
    if token {
        if vault_token.data.len() == 0 {
            emit(
                &mut out,
                Action::CreateAssociatedTokenAccount { payer: source.key, wallet: vault.key, mint },
            );
        }
        emit(
            &mut out,
            Action::TokenTransfer {
                source: accounts[roles.source_token].key,
                destination: vault_token.key,
                authority: source.key,
                amount,
                seeds: None,
            },
        );
    } else {
        emit(&mut out, create_transfer_unsigned(source, vault, amount));
    }
    assert(views(out@) =~= deposit_spec(*program_id, accounts@, *roles, token, amount)->Ok_0);
    Ok(out)
}

/// The balance of the vault in the asset: its lamports, or the balance of
/// its token account.
pub open spec fn vault_balance(a: Seq<AccountInfo>, roles: Roles, token: bool) -> Option<u64> {
    if token {
        token_balance(a[roles.vault_token as int].data@)
    } else {
        Some(a[roles.vault as int].lamports)
    }
}

/// The transfer that takes `amount` out of the vault: to the sender, or to
/// the safe of a multisig group, whose token account is created where it is
/// missing.
pub open spec fn vault_transfer(
    a: Seq<AccountInfo>,
    roles: Roles,
    token: bool,
    to_safe: bool,
    amount: u64,
    seeds: Seeds,
) -> Seq<ActionView> {
    let source = a[roles.source as int];
    let vault = a[roles.vault as int];
    if token {
        (if to_safe && a[roles.dest_token as int].data@.len() == 0 {
            seq![
                ActionView::CreateAssociatedTokenAccount {
                    payer: source.key,
                    wallet: a[roles.dest as int].key,
                    mint: a[roles.mint as int].key,
                },
            ]
        } else {
            Seq::empty()
        }) + seq![
            ActionView::TokenTransfer {
                source: a[roles.vault_token as int].key,
                destination: if to_safe {
                    a[roles.dest_token as int].key
                } else {
                    a[roles.source_token as int].key
                },
                authority: vault.key,
                amount,
                seeds: Some(seeds),
            },
        ]
    } else {
        seq![
            ActionView::Transfer {
                from: vault.key,
                to: if to_safe {
                    a[roles.dest as int].key
                } else {
                    source.key
                },
                lamports: amount,
                seeds: Some(seeds),
            },
        ]
    }
}

/// What a free withdrawal out of the vault does. The sender signs; the
/// vault, the ledger and the token accounts are the ones derived from the
/// sender, and a safe the one derived from its group. Where the sender has
/// no ledger, nothing is reserved. Else what stays in the vault must cover
/// the ledger: a withdrawal that would take reserved funds fails with
/// `StreamedAmt`. A ledger that holds nothing is closed.
pub open spec fn vault_withdraw_spec(
    program: Pubkey,
    a: Seq<AccountInfo>,
    roles: Roles,
    token: bool,
    to_safe: bool,
    amount: u64,
) -> Result<Seq<ActionView>, ProgramError> {
    let source = a[roles.source as int];
    let vault = a[roles.vault as int];
    let ledger = a[roles.ledger as int];
    let mint = a[roles.mint as int].key;
    let vault_check = checked_cell(program, vault, Tag::Vault, source.key, None);
    let safe_check = checked_cell(
        program,
        a[roles.dest as int],
        Tag::MultisigSafe,
        a[roles.group as int].key,
        None,
    );
    let ledger_check = checked_cell(
        program,
        ledger,
        ledger_tag(token, false),
        source.key,
        ledger_mint(token, mint),
    );
    let held = loaded_ledger(program, ledger);
    let balance = vault_balance(a, roles, token);
    if vault_check is Err {
        Err(vault_check->Err_0)
    } else if to_safe && safe_check is Err {
        Err(safe_check->Err_0)
    } else if token && (a[roles.token_program as int].key != token_program_key()
        || !is_token_account_of(a[roles.source_token as int], source.key, mint)
        || !is_token_account_of(a[roles.vault_token as int], vault.key, mint) || (to_safe
        && !is_token_account_of(a[roles.dest_token as int], a[roles.dest as int].key, mint))) {
        Err(custom(TokenError::PublicKeyMismatch))
    } else if !token && a[roles.system_program as int].key != zero_key() {
        Err(custom(TokenError::PublicKeyMismatch))
    } else if !source.is_signer {
        Err(ProgramError::MissingRequiredSignature)
    } else if ledger_check is Err {
        Err(ledger_check->Err_0)
    } else if ledger.data@.len() == 0 {
        Ok(vault_transfer(a, roles, token, to_safe, amount, vault_check->Ok_0))
    } else if held is Err {
        Err(held->Err_0)
    } else if balance is None {
        Err(ProgramError::AccountDataTooSmall)
    } else if balance->Some_0 < amount {
        Err(custom(TokenError::Overflow))
    } else if balance->Some_0 - amount < held->Ok_0 {
        Err(custom(TokenError::StreamedAmt))
    } else {
        Ok(
            vault_transfer(a, roles, token, to_safe, amount, vault_check->Ok_0) + (if held->Ok_0
                == 0 {
                seq![ActionView::Close { cell: ledger.key, to: source.key }]
            } else {
                Seq::empty()
            }),
        )
    }
}

/// Withdraws from the vault of a sender what no stream has reserved.
pub fn vault_withdraw(
    program_id: &Pubkey,
    accounts: &[AccountInfo],
    roles: &Roles,
    token: bool,
    to_safe: bool,
    amount: u64,
) -> (r: Result<Vec<Action>, ProgramError>)
    requires
        roles.within(accounts@.len() as int),
    ensures
        outcome_is(r, vault_withdraw_spec(*program_id, accounts@, *roles, token, to_safe, amount)),
{
    let source = &accounts[roles.source];
    let vault = &accounts[roles.vault];
    let ledger = &accounts[roles.ledger];
    let mint = accounts[roles.mint].key;
    let seeds = check_cell(program_id, vault, Tag::Vault, &source.key, None)?;
    if to_safe {
        let _safe = check_cell(
            program_id,
            &accounts[roles.dest],
            Tag::MultisigSafe,
            &accounts[roles.group].key,
            None,
        )?;
    }
    if token {
        if accounts[roles.token_program].key != crate::utils::token_program_id() {
            return Err(ProgramError::from(TokenError::PublicKeyMismatch));
        }
        if !check_token_account(&accounts[roles.source_token], &source.key, &mint) {
            return Err(ProgramError::from(TokenError::PublicKeyMismatch));
        }
        if !check_token_account(&accounts[roles.vault_token], &vault.key, &mint) {
            return Err(ProgramError::from(TokenError::PublicKeyMismatch));
        }
        if to_safe && !check_token_account(
            &accounts[roles.dest_token],
            &accounts[roles.dest].key,
            &mint,
        ) {
            return Err(ProgramError::from(TokenError::PublicKeyMismatch));
        }
    } else if accounts[roles.system_program].key != crate::utils::system_program_id() {
        return Err(ProgramError::from(TokenError::PublicKeyMismatch));
    }
    if !source.is_signer {
        return Err(ProgramError::MissingRequiredSignature);
    }
    let ledger_mint = if token { Some(mint) } else { None };
    let _ledger_seeds = check_cell(
        program_id,
        ledger,
        ledger_tag_of(token, false),
        &source.key,
        ledger_mint,
    )?;
    let mut held: u64 = 1;
    if ledger.data.len() != 0 {
        held = load_ledger(program_id, ledger)?;
        let balance = if token {
            get_token_balance(&accounts[roles.vault_token])?
        } else {
            vault.lamports
        };
        if balance < amount {
            return Err(ProgramError::from(TokenError::Overflow));
        }
        if balance - amount < held {
            return Err(ProgramError::from(TokenError::StreamedAmt));
        }
    }
    let mut out = no_actions();
    if token {
        if to_safe && accounts[roles.dest_token].data.len() == 0 {
            emit(
                &mut out,
                Action::CreateAssociatedTokenAccount {
                    payer: source.key,
                    wallet: accounts[roles.dest].key,
                    mint,
                },
            );
        }
        emit(
            &mut out,
            Action::TokenTransfer {
                source: accounts[roles.vault_token].key,
                destination: if to_safe {
                    accounts[roles.dest_token].key
                } else {
                    accounts[roles.source_token].key
                },
                authority: vault.key,
                amount,
                seeds: Some(seeds),
            },
        );
    } else {
        let receiver = if to_safe { &accounts[roles.dest] } else { source };
        emit(&mut out, create_transfer(vault, receiver, amount, seeds));
    }
    assert(views(out@) =~= vault_transfer(accounts@, *roles, token, to_safe, amount, seeds));
    if held == 0 {
        emit(&mut out, Action::Close { cell: ledger.key, to: source.key });
    }
    assert(views(out@) =~= vault_withdraw_spec(
        *program_id,
        accounts@,
        *roles,
        token,
        to_safe,
        amount,
    )->Ok_0);
    Ok(out)
}

} // verus!
