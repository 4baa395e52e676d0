//! What holds of the share arithmetic and of the registry across calls.
use vstd::prelude::*;

use crate::errors::VaultError;
use crate::pubkey::Pubkey;
use crate::state::{
    assets_for_shares, contains_target, is_first_match, position_of,
    shares_for_deposit, ApprovedProtocol, RegistryModel, MAX_NAME_LEN, MAX_PROTOCOLS,
    lemma_first_match_exists, lemma_position_of,
};

verus! {

/// An empty vault mints exactly one share per deposited asset.
pub proof fn lemma_empty_vault_mints_one_for_one(assets: nat)
    ensures
        shares_for_deposit(0, 0, assets) == assets,
{
}

/// With assets and shares outstanding, a deposit earns the floor of its
/// exact proportional share count: never more than the rational value, and
/// less than one share below it.
pub proof fn lemma_deposit_rounds_down(total_assets: nat, total_shares: nat, assets: nat)
    requires
        total_assets > 0,
        total_shares > 0,
    ensures
        shares_for_deposit(total_assets, total_shares, assets) == (assets * total_shares)
            / total_assets,
        shares_for_deposit(total_assets, total_shares, assets) * total_assets <= assets
            * total_shares,
        assets * total_shares < (shares_for_deposit(total_assets, total_shares, assets) + 1)
            * total_assets,
{
    let q = shares_for_deposit(total_assets, total_shares, assets);
    let p = assets * total_shares;
    assert(q * total_assets <= p && p < (q + 1) * total_assets) by (nonlinear_arith)
        requires
            q == p / total_assets,
            total_assets > 0,
    ;
}

/// A deposit never lowers the assets that stand behind each share:
/// `(A + d) / (S + s) >= A / S`, written without division.
pub proof fn lemma_deposit_keeps_ratio(total_assets: nat, total_shares: nat, assets: nat)
    requires
        total_assets > 0,
        total_shares > 0,
    ensures
        (total_assets + assets) * total_shares >= total_assets * (total_shares
            + shares_for_deposit(total_assets, total_shares, assets)),
{
    let q = shares_for_deposit(total_assets, total_shares, assets);
    lemma_deposit_rounds_down(total_assets, total_shares, assets);
    assert((total_assets + assets) * total_shares >= total_assets * (total_shares + q))
        by (nonlinear_arith)
        requires
            q * total_assets <= assets * total_shares,
    ;
}

/// Redeeming the shares a deposit earned, at the same ratio, never gives
/// back more than was deposited.
pub proof fn lemma_round_trip_never_gains(total_assets: nat, total_shares: nat, assets: nat)
    ensures
        assets_for_shares(
            total_assets,
            total_shares,
            shares_for_deposit(total_assets, total_shares, assets),
        ) <= assets,
{
    let q = shares_for_deposit(total_assets, total_shares, assets);
    if total_shares > 0 && total_assets > 0 {
        lemma_deposit_rounds_down(total_assets, total_shares, assets);
        assert((q * total_assets) / total_shares <= assets) by (nonlinear_arith)
            requires
                q * total_assets <= assets * total_shares,
                total_shares > 0,
        ;
    } else if total_shares > 0 {
        assert(q * total_assets == 0) by (nonlinear_arith)
            requires
                total_assets == 0,
        ;
    }
}

/// Replacing the entry of a target by one with the same target keeps the
/// target where it was.
proof fn lemma_same_target_same_place(m: RegistryModel, target: Pubkey, entry: ApprovedProtocol)
    requires
        contains_target(m.entries, target),
        entry.target == target,
    ensures
        contains_target(m.with_entry(target, entry).entries, target),
        position_of(m.with_entry(target, entry).entries, target) == position_of(m.entries, target),
        m.with_entry(target, entry).entry(target) == entry,
        m.with_entry(target, entry).entries.len() == m.entries.len(),
{
    lemma_first_match_exists(m.entries, target);
    let p = position_of(m.entries, target);
    let n = m.with_entry(target, entry).entries;
    assert(forall|j: int| 0 <= j < p ==> n[j] == m.entries[j]);
    assert(is_first_match(n, target, p));
    lemma_position_of(n, target, p);
}

/// Disabling a target does not remove it: registering it again still fails
/// with `ProtocolAlreadyExists`.
pub proof fn lemma_disabled_target_stays_registered(
    m: RegistryModel,
    vault: Pubkey,
    bump: u8,
    target: Pubkey,
    name: String,
    other_name: Seq<char>,
)
    requires
        m.register_result(target, name@) is Ok,
        other_name.len() <= MAX_NAME_LEN,
    ensures
        m.registered(vault, bump, target, name).with_enabled(target, false).register_result(
            target,
            other_name,
        ) == Err::<(), VaultError>(VaultError::ProtocolAlreadyExists),
{
    let r = m.registered(vault, bump, target, name);
    let last = r.entries.len() - 1;
    assert(r.entries[last].target == target);
    assert(contains_target(r.entries, target));
    lemma_first_match_exists(r.entries, target);
    lemma_same_target_same_place(r, target, ApprovedProtocol { enabled: false, ..r.entry(target) });
}

/// A registry holding ten entries takes no new target, a name of more than
/// 32 characters is refused, and a new target under a name of exactly 32
/// characters is taken while there is room.
pub proof fn lemma_capacity_and_name_limit(m: RegistryModel, target: Pubkey, name: Seq<char>)
    ensures
        name.len() <= MAX_NAME_LEN && !contains_target(m.entries, target)
            && m.entries.len() == MAX_PROTOCOLS ==> m.register_result(target, name) == Err::<
            (),
            VaultError,
        >(VaultError::RegistryFull),
        name.len() > MAX_NAME_LEN ==> m.register_result(target, name) == Err::<(), VaultError>(
            VaultError::NameTooLong,
        ),
        name.len() == MAX_NAME_LEN && !contains_target(m.entries, target)
            && m.entries.len() < MAX_PROTOCOLS ==> m.register_result(target, name) is Ok,
{
}

/// A successful registration adds exactly one entry at the end and keeps
/// every earlier entry as it was, and it leaves the registry claimed when
/// the vault address is a real one.
pub proof fn lemma_register_appends(m: RegistryModel, vault: Pubkey, bump: u8, target: Pubkey, name: String)
    requires
        m.is_initialized() || !vault.spec_is_unset(),
    ensures
        m.registered(vault, bump, target, name).entries.len() == m.entries.len() + 1,
        m.registered(vault, bump, target, name).entries.subrange(0, m.entries.len() as int)
            == m.entries,
        m.registered(vault, bump, target, name).is_initialized(),
{
    assert(m.registered(vault, bump, target, name).entries.subrange(0, m.entries.len() as int)
        =~= m.entries);
}

/// In a registry whose targets are distinct, a disabled target is not
/// approved, it is approved again right after re-enabling, and switching it
/// off and on leaves what was invested in it unchanged.
pub proof fn lemma_toggle_round_trip(m: RegistryModel, target: Pubkey)
    requires
        m.wf(),
        contains_target(m.entries, target),
    ensures
        !m.with_enabled(target, false).is_approved(target),
        m.with_enabled(target, false).with_enabled(target, true).is_approved(target),
        m.with_enabled(target, false).entry(target).invested_amount == m.entry(target).invested_amount,
        m.with_enabled(target, false).with_enabled(target, true).entry(target).invested_amount
            == m.entry(target).invested_amount,
{
    lemma_first_match_exists(m.entries, target);
    let p = position_of(m.entries, target);
    let off = m.with_enabled(target, false);
    lemma_same_target_same_place(m, target, ApprovedProtocol { enabled: false, ..m.entry(target) });
    let on = off.with_enabled(target, true);
    lemma_same_target_same_place(off, target, ApprovedProtocol { enabled: true, ..off.entry(target) });
    assert forall|i: int| 0 <= i < off.entries.len() && (#[trigger] off.entries[i]).target == target implies !off.entries[i].enabled by {
        if i != p {
            assert(m.entries[i] == off.entries[i]);
            if i < p {
                assert(m.entries[i].target != m.entries[p].target);
            } else {
                assert(m.entries[p].target != m.entries[i].target);
            }
        }
    }
    assert(on.entries[p].target == target && on.entries[p].enabled);
}

} // verus!
