use vstd::prelude::*;

use crate::errors::VaultError;
use crate::pubkey::Pubkey;
use vstd::string::StrSliceExecFns;

verus! {

/// Shares minted for a deposit of `assets` into a vault holding
/// `total_assets` against `total_shares`: one for one while either total is
/// zero, else the depositor's proportion of the outstanding shares, rounded
/// down.
pub open spec fn shares_for_deposit(total_assets: nat, total_shares: nat, assets: nat) -> nat {
    if total_shares == 0 || total_assets == 0 {
        assets
    } else {
        (assets * total_shares) / total_assets
    }
}

/// Assets that `shares` stand for: nothing while no share exists, else
/// their proportion of the vault's assets, rounded down.
pub open spec fn assets_for_shares(total_assets: nat, total_shares: nat, shares: nat) -> nat {
    if total_shares == 0 {
        0
    } else {
        (shares * total_assets) / total_shares
    }
}

/// Whether a deposit of `assets` can be booked without any total leaving
/// the 64-bit range.
pub open spec fn deposit_fits(total_assets: nat, total_shares: nat, assets: nat) -> bool {
    &&& shares_for_deposit(total_assets, total_shares, assets) <= u64::MAX
    &&& total_assets + assets <= u64::MAX
    &&& total_shares + shares_for_deposit(total_assets, total_shares, assets) <= u64::MAX
}

/// The vault's books for one asset type.
#[derive(Debug, Clone)]
pub struct VaultState {
    /// The identity allowed to invest and to manage the protocol registry.
    pub authority: Pubkey,
    /// Mint of the asset that depositors bring.
    pub asset_mint: Pubkey,
    /// Mint of the shares handed out for it.
    pub share_mint: Pubkey,
    /// Assets the vault is accountable for, including those out on investment.
    pub total_assets: u64,
    /// Shares outstanding.
    pub total_shares: u64,
    /// Derivation bump of the vault's own address.
    pub bump: u8,
    /// Derivation bump of the share mint.
    pub share_bump: u8,
    /// Derivation bump of the vault's signing authority.
    pub authority_bump: u8,
    /// Space kept for fields added later.
    pub _reserved: [u8; 128],
}

impl VaultState {
    pub open spec fn spec_shares_for(&self, assets: nat) -> nat {
        shares_for_deposit(self.total_assets as nat, self.total_shares as nat, assets)
    }

    pub open spec fn spec_assets_for(&self, shares: nat) -> nat {
        assets_for_shares(self.total_assets as nat, self.total_shares as nat, shares)
    }

    /// Shares to mint for a deposit of `assets` at the current ratio.
    /// Fails with `MathOverflow` when the count does not fit in 64 bits.
    pub fn calculate_shares(&self, assets: u64) -> (r: Result<u64, VaultError>)
        ensures
            self.spec_shares_for(assets as nat) <= u64::MAX ==> r == Ok::<u64, VaultError>(
                self.spec_shares_for(assets as nat) as u64,
            ),
            self.spec_shares_for(assets as nat) > u64::MAX ==> r == Err::<u64, VaultError>(
                VaultError::MathOverflow,
            ),
    {
        if self.total_shares == 0 || self.total_assets == 0 {
            return Ok(assets);
        }
        let assets_wide = assets as u128;
        let total_shares_wide = self.total_shares as u128;
        let total_assets_wide = self.total_assets as u128;
        proof {
            lemma_wide_product(assets as nat, self.total_shares as nat);
        }
        let product = match assets_wide.checked_mul(total_shares_wide) {
            Some(p) => p,
            None => return Err(VaultError::MathOverflow),
        };
        let quotient = match product.checked_div(total_assets_wide) {
            Some(q) => q,
            None => return Err(VaultError::DivisionByZero),
        };
        if quotient > u64::MAX as u128 {
            Err(VaultError::MathOverflow)
        } else {
            Ok(quotient as u64)
        }
    }

    /// Assets that `shares` stand for at the current ratio.
    /// Fails with `MathOverflow` when the amount does not fit in 64 bits.
    pub fn calculate_assets(&self, shares: u64) -> (r: Result<u64, VaultError>)
        ensures
            self.spec_assets_for(shares as nat) <= u64::MAX ==> r == Ok::<u64, VaultError>(
                self.spec_assets_for(shares as nat) as u64,
            ),
            self.spec_assets_for(shares as nat) > u64::MAX ==> r == Err::<u64, VaultError>(
                VaultError::MathOverflow,
            ),
    {
        if self.total_shares == 0 {
            return Ok(0);
        }
        let shares_wide = shares as u128;
        let total_assets_wide = self.total_assets as u128;
        let total_shares_wide = self.total_shares as u128;
        proof {
            lemma_wide_product(shares as nat, self.total_assets as nat);
        }
        let product = match shares_wide.checked_mul(total_assets_wide) {
            Some(p) => p,
            None => return Err(VaultError::MathOverflow),
        };
        let quotient = match product.checked_div(total_shares_wide) {
            Some(q) => q,
            None => return Err(VaultError::DivisionByZero),
        };
        if quotient > u64::MAX as u128 {
            Err(VaultError::MathOverflow)
        } else {
            Ok(quotient as u64)
        }
    }

    /// Books a deposit of `assets`: computes the shares it earns at the
    /// ratio before the deposit, adds the assets and the shares to the
    /// totals, and returns the share count. Must run before the assets are
    /// moved, so that no reentrant call sees the old ratio.
    /// On failure the books are left as they were.
    pub fn record_deposit(&mut self, assets: u64) -> (r: Result<u64, VaultError>)
        ensures
            assets == 0 ==> r == Err::<u64, VaultError>(VaultError::ZeroDepositAmount),
            assets > 0 && !deposit_fits(
                old(self).total_assets as nat,
                old(self).total_shares as nat,
                assets as nat,
            ) ==> r == Err::<u64, VaultError>(VaultError::MathOverflow),
            assets > 0 && deposit_fits(
                old(self).total_assets as nat,
                old(self).total_shares as nat,
                assets as nat,
            ) ==> r == Ok::<u64, VaultError>(old(self).spec_shares_for(assets as nat) as u64),
            r is Ok ==> final(self).total_assets == old(self).total_assets + assets,
            r is Ok ==> final(self).total_shares == old(self).total_shares + r->Ok_0,
            r is Ok ==> (*final(self) == (VaultState {
                total_assets: final(self).total_assets,
                total_shares: final(self).total_shares,
                ..*old(self)
            })),
            r is Err ==> *final(self) == *old(self),
    {
        if assets == 0 {
            return Err(VaultError::ZeroDepositAmount);
        }
        let shares = self.calculate_shares(assets)?;
        let new_assets = match self.total_assets.checked_add(assets) {
            Some(v) => v,
            None => return Err(VaultError::MathOverflow),
        };
        let new_shares = match self.total_shares.checked_add(shares) {
            Some(v) => v,
            None => return Err(VaultError::MathOverflow),
        };
        self.total_assets = new_assets;
        self.total_shares = new_shares;
        Ok(shares)
    }
}

/// Most entries a registry can hold.
pub const MAX_PROTOCOLS: usize = 10;

/// Longest protocol name, in characters.
pub const MAX_NAME_LEN: usize = 32;

/// One destination that vault assets may be invested in.
#[derive(Debug, Clone)]
pub struct ApprovedProtocol {
    /// Account that receives the invested assets.
    pub target: Pubkey,
    /// Whether new investments may go to it; disabling keeps its history.
    pub enabled: bool,
    /// Everything ever invested in it.
    pub invested_amount: u64,
    /// Label for people, at most 32 characters.
    pub name: String,
}

/// Whether `i` is the first position of `entries` whose target is `target`.
pub open spec fn is_first_match(entries: Seq<ApprovedProtocol>, target: Pubkey, i: int) -> bool {
    &&& 0 <= i < entries.len()
    &&& entries[i].target == target
    &&& forall|j: int| 0 <= j < i ==> (#[trigger] entries[j]).target != target
}

/// Whether some entry has target `target`.
pub open spec fn contains_target(entries: Seq<ApprovedProtocol>, target: Pubkey) -> bool {
    exists|i: int| 0 <= i < entries.len() && (#[trigger] entries[i]).target == target
}

/// The first position of `target` in `entries` (meaningful when it is there).
pub open spec fn position_of(entries: Seq<ApprovedProtocol>, target: Pubkey) -> int {
    choose|i: int| is_first_match(entries, target, i)
}

/// Whether some enabled entry has target `target`.
pub open spec fn approved_in(entries: Seq<ApprovedProtocol>, target: Pubkey) -> bool {
    exists|i: int|
        0 <= i < entries.len() && (#[trigger] entries[i]).target == target && entries[i].enabled
}

/// The contents of a registry, as values.
pub struct RegistryModel {
    /// The vault the registry serves; all zero until it is claimed.
    pub vault: Pubkey,
    /// The entries, in order of registration.
    pub entries: Seq<ApprovedProtocol>,
    /// Derivation bump of the registry's address.
    pub bump: u8,
}

impl RegistryModel {
    /// No two entries share a target, there are at most ten, and a registry
    /// not yet claimed by a vault is empty.
    pub open spec fn wf(self) -> bool {
        &&& self.entries.len() <= MAX_PROTOCOLS
        &&& !self.is_initialized() ==> self.entries.len() == 0
        &&& forall|i: int, j: int|
            0 <= i < j < self.entries.len() ==> (#[trigger] self.entries[i]).target
                != (#[trigger] self.entries[j]).target
    }

    /// Whether the registry has been claimed by a vault.
    pub open spec fn is_initialized(self) -> bool {
        !self.vault.spec_is_unset()
    }

    /// Outcome of registering `target` under `name`.
    pub open spec fn register_result(self, target: Pubkey, name: Seq<char>) -> Result<(), VaultError> {
        if name.len() > MAX_NAME_LEN {
            Err(VaultError::NameTooLong)
        } else if contains_target(self.entries, target) {
            Err(VaultError::ProtocolAlreadyExists)
        } else if self.entries.len() >= MAX_PROTOCOLS {
            Err(VaultError::RegistryFull)
        } else {
            Ok(())
        }
    }

    /// The registry after registering `target` under `name` succeeded: the
    /// new entry is appended, and a registry not yet claimed is claimed for
    /// `vault` with `bump`.
    pub open spec fn registered(self, vault: Pubkey, bump: u8, target: Pubkey, name: String) -> RegistryModel {
        RegistryModel {
            vault: if self.is_initialized() { self.vault } else { vault },
            entries: self.entries.push(
                ApprovedProtocol { target, enabled: true, invested_amount: 0, name },
            ),
            bump: if self.is_initialized() { self.bump } else { bump },
        }
    }

    /// Whether investments may go to `target`.
    pub open spec fn is_approved(self, target: Pubkey) -> bool {
        approved_in(self.entries, target)
    }

    /// The registry with the entry of `target` replaced by `entry`.
    pub open spec fn with_entry(self, target: Pubkey, entry: ApprovedProtocol) -> RegistryModel {
        RegistryModel {
            entries: self.entries.update(position_of(self.entries, target), entry),
            ..self
        }
    }

    /// The entry of `target` (meaningful when it is there).
    pub open spec fn entry(self, target: Pubkey) -> ApprovedProtocol {
        self.entries[position_of(self.entries, target)]
    }

    /// The registry after switching `target` on or off (when it is there).
    pub open spec fn with_enabled(self, target: Pubkey, enabled: bool) -> RegistryModel {
        self.with_entry(target, ApprovedProtocol { enabled, ..self.entry(target) })
    }

    /// Whether recording `amount` more for `target` would overflow its total.
    pub open spec fn investment_overflows(self, target: Pubkey, amount: u64) -> bool {
        contains_target(self.entries, target) && self.entry(target).invested_amount + amount > u64::MAX
    }

    /// The registry after recording `amount` more for `target`: unchanged
    /// when no entry has that target.
    pub open spec fn with_investment(self, target: Pubkey, amount: u64) -> RegistryModel {
        if contains_target(self.entries, target) {
            self.with_entry(
                target,
                ApprovedProtocol {
                    invested_amount: (self.entry(target).invested_amount + amount) as u64,
                    ..self.entry(target)
                },
            )
        } else {
            self
        }
    }
}

/// The whitelist of destinations a vault may invest in.
#[derive(Debug, Clone)]
pub struct ProtocolRegistry {
    /// The vault it serves; all zero until the first registration.
    pub vault: Pubkey,
    /// Its entries, in order of registration.
    pub approved_protocols: Vec<ApprovedProtocol>,
    /// Derivation bump of the registry's address.
    pub bump: u8,
}

impl View for ProtocolRegistry {
    type V = RegistryModel;

    open spec fn view(&self) -> RegistryModel {
        RegistryModel { vault: self.vault, entries: self.approved_protocols@, bump: self.bump }
    }
}

impl ProtocolRegistry {
    /// Bytes reserved for a registry account: room for ten entries and padding.
    /// An entry takes a key, a flag, a total, and a name of up to 32
    /// characters of at most four bytes each behind a length.
    pub const SPACE: usize = 8 + 32 + 4 + (10 * (32 + 1 + 8 + 4 + 4 * 32)) + 1 + 128;

    /// The first position of `target`, if any.
    fn position(&self, target: &Pubkey) -> (r: Option<usize>)
        ensures
            r is Some ==> is_first_match(self@.entries, *target, r->Some_0 as int)
                && position_of(self@.entries, *target) == r->Some_0 as int,
            r is None <==> !contains_target(self@.entries, *target),
    {
        let mut i: usize = 0;
        while i < self.approved_protocols.len()
            invariant
                i <= self.approved_protocols@.len(),
                forall|j: int| 0 <= j < i ==> (#[trigger] self.approved_protocols@[j]).target != *target,
            decreases self.approved_protocols@.len() - i,
        {
            if self.approved_protocols[i].target == *target {
                proof {
                    lemma_position_of(self@.entries, *target, i as int);
                }
                return Some(i);
            }
            i = i + 1;
        }
        None
    }

    /// Whether investments may go to `target`: some entry has it and is enabled.
    pub fn is_protocol_approved(&self, target: &Pubkey) -> (r: bool)
        ensures
            r == self@.is_approved(*target),
    {
        let mut i: usize = 0;
        while i < self.approved_protocols.len()
            invariant
                i <= self.approved_protocols@.len(),
                forall|j: int|
                    0 <= j < i ==> !((#[trigger] self.approved_protocols@[j]).target == *target
                        && self.approved_protocols@[j].enabled),
            decreases self.approved_protocols@.len() - i,
        {
            let p = &self.approved_protocols[i];
            if p.target == *target && p.enabled {
                return true;
            }
            i = i + 1;
        }
        false
    }

    /// The entry of `target`, to be changed in place.
    pub fn get_protocol_mut(&mut self, target: &Pubkey) -> (r: Option<&mut ApprovedProtocol>)
        ensures
            r is None <==> !contains_target(old(self)@.entries, *target),
            r is None ==> final(self)@ == old(self)@,
            r is Some ==> *r->Some_0 == old(self)@.entry(*target),
            r is Some ==> final(self)@ == old(self)@.with_entry(*target, *final(r->Some_0)),
    {
        match self.position(target) {
            Some(i) => Some(&mut self.approved_protocols[i]),
            None => None,
        }
    }

    /// Adds `amount` to what has been invested in `target`. Succeeds without
    /// change when no entry has that target; fails with `MathOverflow`,
    /// changing nothing, when the total would leave 64 bits.
    pub fn track_investment(&mut self, target: &Pubkey, amount: u64) -> (r: Result<(), VaultError>)
        ensures
            old(self)@.investment_overflows(*target, amount) ==> r == Err::<(), VaultError>(
                VaultError::MathOverflow,
            ) && final(self)@ == old(self)@,
            !old(self)@.investment_overflows(*target, amount) ==> r == Ok::<(), VaultError>(())
                && final(self)@ == old(self)@.with_investment(*target, amount),
            old(self)@.wf() ==> final(self)@.wf(),
    {
        proof {
            if contains_target(self@.entries, *target) {
                lemma_with_same_entry(self@, *target);
            }
            if contains_target(self@.entries, *target) && self@.wf()
                && !self@.investment_overflows(*target, amount) {
                let e = self@.entry(*target);
                lemma_same_target_keeps_wf(
                    self@,
                    *target,
                    ApprovedProtocol {
                        invested_amount: (e.invested_amount + amount) as u64,
                        ..e
                    },
                );
            }
        }
        if let Some(protocol) = self.get_protocol_mut(target) {
            protocol.invested_amount = match protocol.invested_amount.checked_add(amount) {
                Some(v) => v,
                None => return Err(VaultError::MathOverflow),
            };
        }
        Ok(())
    }

    /// Switches `target` on or off, keeping what has been invested in it.
    /// Fails with `ProtocolNotFound`, changing nothing, when no entry has it.
    pub fn set_enabled(&mut self, target: &Pubkey, enabled: bool) -> (r: Result<(), VaultError>)
        ensures
            !contains_target(old(self)@.entries, *target) ==> r == Err::<(), VaultError>(
                VaultError::ProtocolNotFound,
            ) && final(self)@ == old(self)@,
            contains_target(old(self)@.entries, *target) ==> r == Ok::<(), VaultError>(())
                && final(self)@ == old(self)@.with_enabled(*target, enabled),
            old(self)@.wf() ==> final(self)@.wf(),
    {
        proof {
            if contains_target(self@.entries, *target) && self@.wf() {
                lemma_first_match_exists(self@.entries, *target);
                lemma_same_target_keeps_wf(
                    self@,
                    *target,
                    ApprovedProtocol { enabled, ..self@.entry(*target) },
                );
            }
        }
        match self.get_protocol_mut(target) {
            Some(protocol) => {
                protocol.enabled = enabled;
                Ok(())
            },
            None => Err(VaultError::ProtocolNotFound),
        }
    }

    /// Registers `target` under `name`, enabled and with nothing invested.
    /// A registry not yet claimed is claimed for `vault` with `bump`; `vault`
    /// must then be a real identity, not the all-zero one. Entries are only
    /// ever appended. Fails, changing nothing, with `NameTooLong` for a name
    /// over 32 characters, `ProtocolAlreadyExists` for a target already
    /// there, and `RegistryFull` when ten entries are there.
    pub fn register(&mut self, vault: Pubkey, bump: u8, target: Pubkey, name: String) -> (r: Result<(), VaultError>)
        requires
            old(self)@.is_initialized() || !vault.spec_is_unset(),
        ensures
            r == old(self)@.register_result(target, name@),
            r is Ok <==> name@.len() <= MAX_NAME_LEN && !contains_target(old(self)@.entries, target)
                && old(self)@.entries.len() < MAX_PROTOCOLS,
            r is Ok ==> final(self)@ == old(self)@.registered(vault, bump, target, name),
            r is Ok ==> final(self)@.entries == old(self)@.entries.push(
                ApprovedProtocol { target, enabled: true, invested_amount: 0, name },
            ),
            r is Ok ==> final(self)@.is_initialized(),
            r is Err ==> final(self)@ == old(self)@,
            old(self)@.wf() ==> final(self)@.wf(),
    {
        if name.as_str().unicode_len() > MAX_NAME_LEN {
            return Err(VaultError::NameTooLong);
        }
        if self.position(&target).is_some() {
            return Err(VaultError::ProtocolAlreadyExists);
        }
        if self.approved_protocols.len() >= MAX_PROTOCOLS {
            return Err(VaultError::RegistryFull);
        }
        if self.vault.is_unset() {
            self.vault = vault;
            self.bump = bump;
        }
        self.approved_protocols.push(ApprovedProtocol { target, enabled: true, invested_amount: 0, name });
        proof {
            assert(self@.entries =~= old(self)@.registered(vault, bump, target, name).entries);
        }
        Ok(())
    }
}

/// Replacing the entry of a target by one with the same target keeps the
/// registry well formed.
pub proof fn lemma_same_target_keeps_wf(m: RegistryModel, target: Pubkey, entry: ApprovedProtocol)
    requires
        m.wf(),
        contains_target(m.entries, target),
        entry.target == target,
    ensures
        m.with_entry(target, entry).wf(),
{
    lemma_first_match_exists(m.entries, target);
    let p = position_of(m.entries, target);
    let n = m.with_entry(target, entry).entries;
    assert forall|i: int, j: int| 0 <= i < j < n.len() implies (#[trigger] n[i]).target
        != (#[trigger] n[j]).target by {
        assert(n[i].target == m.entries[i].target);
        assert(n[j].target == m.entries[j].target);
    }
}

/// Putting back the entry of a target that is there changes nothing.
pub proof fn lemma_with_same_entry(m: RegistryModel, target: Pubkey)
    requires
        contains_target(m.entries, target),
    ensures
        m.with_entry(target, m.entry(target)) == m,
        is_first_match(m.entries, target, position_of(m.entries, target)),
{
    lemma_first_match_exists(m.entries, target);
    assert(m.with_entry(target, m.entry(target)).entries =~= m.entries);
}

/// A target that is there has a first position, where `position_of` points.
pub proof fn lemma_first_match_exists(entries: Seq<ApprovedProtocol>, target: Pubkey)
    requires
        contains_target(entries, target),
    ensures
        is_first_match(entries, target, position_of(entries, target)),
{
    let k = choose|k: int| 0 <= k < entries.len() && (#[trigger] entries[k]).target == target;
    lemma_first_before(entries, target, k);
}

/// At or before any position holding `target` there is a first match.
proof fn lemma_first_before(entries: Seq<ApprovedProtocol>, target: Pubkey, k: int)
    requires
        0 <= k < entries.len(),
        entries[k].target == target,
    ensures
        is_first_match(entries, target, position_of(entries, target)),
    decreases k,
{
    if forall|j: int| 0 <= j < k ==> (#[trigger] entries[j]).target != target {
        assert(is_first_match(entries, target, k));
    } else {
        let j = choose|j: int| 0 <= j < k && (#[trigger] entries[j]).target == target;
        lemma_first_before(entries, target, j);
    }
}

/// The first match of a target is unique, and is where `position_of` points.
pub proof fn lemma_position_of(entries: Seq<ApprovedProtocol>, target: Pubkey, i: int)
    requires
        is_first_match(entries, target, i),
    ensures
        position_of(entries, target) == i,
{
    let k = position_of(entries, target);
    assert(is_first_match(entries, target, k));
    if k < i {
        assert(entries[k].target != target);
    } else if i < k {
        assert(entries[i].target != target);
    }
}

/// The product of two 64-bit values fits in 128 bits.
proof fn lemma_wide_product(a: nat, b: nat)
    requires
        a <= u64::MAX,
        b <= u64::MAX,
    ensures
        a * b <= u128::MAX,
{
    assert(a * b <= u64::MAX * u64::MAX) by (nonlinear_arith)
        requires
            a <= u64::MAX,
            b <= u64::MAX,
    ;
}

} // verus!
