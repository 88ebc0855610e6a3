use vstd::prelude::*;
use crate::error::ErrorCode;
use crate::fee::MAX_FEE_BASIS_POINTS;
use crate::pubkey::Pubkey;
use crate::role::Role;

verus! {

/// `s` with every occurrence of `account` taken out, the order of the rest kept.
pub open spec fn without(s: Seq<Pubkey>, account: Pubkey) -> Seq<Pubkey> {
    s.filter(other_than(account))
}

/// Holds of every key but `account`.
pub open spec fn other_than(account: Pubkey) -> spec_fn(Pubkey) -> bool {
    |x: Pubkey| x != account
}

proof fn lemma_without_no_duplicates(s: Seq<Pubkey>, account: Pubkey)
    requires
        s.no_duplicates(),
    ensures
        without(s, account).no_duplicates(),
    decreases s.len(),
{
    reveal(Seq::filter);
    if s.len() > 0 {
        let init = s.drop_last();
        assert(init.no_duplicates()) by {
            assert forall|i: int, j: int| 0 <= i < init.len() && 0 <= j < init.len() && i != j
                implies init[i] != init[j] by {
                assert(init[i] == s[i] && init[j] == s[j]);
            }
        }
        lemma_without_no_duplicates(init, account);
        let last = s.last();
        if without(init, account).contains(last) {
            init.lemma_filter_contains_rev(other_than(account), last);
            let k = choose|k: int| 0 <= k < init.len() && init[k] == last;
            assert(s[k] == s[s.len() - 1]);
        }
    }
}

proof fn lemma_without_absent(s: Seq<Pubkey>, account: Pubkey)
    requires
        !s.contains(account),
    ensures
        without(s, account) == s,
    decreases s.len(),
{
    reveal(Seq::filter);
    if s.len() > 0 {
        let init = s.drop_last();
        assert(!init.contains(account)) by {
            if init.contains(account) {
                let k = choose|k: int| 0 <= k < init.len() && init[k] == account;
                assert(s[k] == account);
            }
        }
        lemma_without_absent(init, account);
        assert(init.push(s.last()) =~= s);
    }
}

/// Which principals hold each role. No principal is listed twice under one
/// role; a principal may hold several roles.
#[derive(Debug)]
pub struct RoleRegistry {
    admins: Vec<Pubkey>,
    fee_managers: Vec<Pubkey>,
    emergency_admins: Vec<Pubkey>,
}

fn list_contains(list: &Vec<Pubkey>, account: &Pubkey) -> (r: bool)
    ensures
        r == list@.contains(*account),
{
    let mut i: usize = 0;
    while i < list.len()
        invariant
            0 <= i <= list@.len(),
            forall|j: int| 0 <= j < i ==> list@[j] != *account,
        decreases list@.len() - i,
    {
        if list[i] == *account {
            return true;
        }
        i = i + 1;
    }
    false
}

fn push_unique(list: &mut Vec<Pubkey>, account: Pubkey)
    ensures
        final(list)@ == if old(list)@.contains(account) {
            old(list)@
        } else {
            old(list)@.push(account)
        },
{
    if !list_contains(list, &account) {
        list.push(account);
    }
}

fn retain_others(list: &mut Vec<Pubkey>, account: &Pubkey)
    ensures
        final(list)@ == without(old(list)@, *account),
{
    let mut kept: Vec<Pubkey> = Vec::new();
    let mut i: usize = 0;
    while i < list.len()
        invariant
            0 <= i <= list@.len(),
            kept@ == without(list@.take(i as int), *account),
        decreases list@.len() - i,
    {
        let item = list[i];
        proof {
            reveal(Seq::filter);
            assert(list@.take(i as int + 1).drop_last() =~= list@.take(i as int));
        }
        if item != *account {
            kept.push(item);
        }
        i = i + 1;
    }
    assert(list@.take(i as int) =~= list@);
    *list = kept;
}

impl RoleRegistry {
    /// The principals that hold `role`, in the order they were granted it.
    pub closed spec fn holders(self, role: Role) -> Seq<Pubkey> {
        match role {
            Role::Admin => self.admins@,
            Role::FeeManager => self.fee_managers@,
            Role::EmergencyAdmin => self.emergency_admins@,
        }
    }

    pub open spec fn wf(self) -> bool {
        forall|role: Role| #[trigger] self.holders(role).no_duplicates()
    }

    /// A registry in which nobody holds any role.
    pub fn new() -> (r: RoleRegistry)
        ensures
            forall|role: Role| #[trigger] r.holders(role) == Seq::<Pubkey>::empty(),
            r.wf(),
    {
        RoleRegistry { admins: Vec::new(), fee_managers: Vec::new(), emergency_admins: Vec::new() }
    }

    /// How many principals hold `role`.
    pub fn count(&self, role: Role) -> (r: usize)
        ensures
            r == self.holders(role).len(),
    {
        match role {
            Role::Admin => self.admins.len(),
            Role::FeeManager => self.fee_managers.len(),
            Role::EmergencyAdmin => self.emergency_admins.len(),
        }
    }

    /// The holders of `role`, in the order they were granted it.
    pub fn holders_of(&self, role: Role) -> (r: Vec<Pubkey>)
        ensures
            r@ == self.holders(role),
    {
        match role {
            Role::Admin => self.admins.clone(),
            Role::FeeManager => self.fee_managers.clone(),
            Role::EmergencyAdmin => self.emergency_admins.clone(),
        }
    }

    pub fn contains(&self, role: Role, account: &Pubkey) -> (r: bool)
        ensures
            r == self.holders(role).contains(*account),
    {
        match role {
            Role::Admin => list_contains(&self.admins, account),
            Role::FeeManager => list_contains(&self.fee_managers, account),
            Role::EmergencyAdmin => list_contains(&self.emergency_admins, account),
        }
    }

    /// Adds `account` to the holders of `role` unless it is there already.
    pub fn insert(&mut self, role: Role, account: Pubkey)
        ensures
            final(self).holders(role) == if old(self).holders(role).contains(account) {
                old(self).holders(role)
            } else {
                old(self).holders(role).push(account)
            },
            forall|other: Role|
                other != role ==> #[trigger] final(self).holders(other) == old(self).holders(
                    other,
                ),
            old(self).wf() ==> final(self).wf(),
    {
        match role {
            Role::Admin => push_unique(&mut self.admins, account),
            Role::FeeManager => push_unique(&mut self.fee_managers, account),
            Role::EmergencyAdmin => push_unique(&mut self.emergency_admins, account),
        }
        proof {
            if old(self).wf() {
                assert forall|r: Role| #[trigger] self.holders(r).no_duplicates() by {
                    assert(old(self).holders(r).no_duplicates());
                    if r == role && !old(self).holders(role).contains(account) {
                        let s = old(self).holders(role);
                        let t = s.push(account);
                        assert forall|i: int, j: int| 0 <= i < t.len() && 0 <= j < t.len() && i
                            != j implies t[i] != t[j] by {
                            if i == s.len() as int {
                                assert(t[j] == s[j]);
                            } else if j == s.len() as int {
                                assert(t[i] == s[i]);
                            }
                        }
                    }
                }
            }
        }
    }

    /// Takes `account` out of the holders of `role`, if it is there.
    pub fn remove(&mut self, role: Role, account: &Pubkey)
        ensures
            final(self).holders(role) == without(old(self).holders(role), *account),
            forall|other: Role|
                other != role ==> #[trigger] final(self).holders(other) == old(self).holders(
                    other,
                ),
            old(self).wf() ==> final(self).wf(),
    {
        match role {
            Role::Admin => retain_others(&mut self.admins, account),
            Role::FeeManager => retain_others(&mut self.fee_managers, account),
            Role::EmergencyAdmin => retain_others(&mut self.emergency_admins, account),
        }
        proof {
            if old(self).wf() {
                assert forall|r: Role| #[trigger] self.holders(r).no_duplicates() by {
                    assert(old(self).holders(r).no_duplicates());
                    if r == role {
                        lemma_without_no_duplicates(old(self).holders(role), *account);
                    }
                }
            }
        }
    }
}

/// The version of the configuration layout.
pub const PROCESSOR_VERSION: u8 = 1;

/// The processor's configuration: who administers it, where fees go, the fee
/// rate, whether payments are paused, and who holds which role.
#[derive(Debug)]
pub struct PaymentProcessor {
    /// The principal that initialized the processor. Informational only:
    /// authority comes from the role registry.
    pub admin: Pubkey,
    pub fee_recipient: Pubkey,
    pub fee_basis_points: u16,
    pub paused: bool,
    pub version: u8,
    /// The bump seed of the processor's derived address.
    pub bump: u8,
    pub roles: RoleRegistry,
}

impl PaymentProcessor {
    pub open spec fn wf(self) -> bool {
        &&& self.fee_basis_points <= MAX_FEE_BASIS_POINTS
        &&& self.version == PROCESSOR_VERSION
        &&& self.roles.wf()
    }

    pub open spec fn holds(self, role: Role, account: Pubkey) -> bool {
        self.roles.holders(role).contains(account)
    }

    /// Equal in every field but the role registry.
    pub open spec fn same_settings(self, other: PaymentProcessor) -> bool {
        &&& self.admin == other.admin
        &&& self.fee_recipient == other.fee_recipient
        &&& self.fee_basis_points == other.fee_basis_points
        &&& self.paused == other.paused
        &&& self.version == other.version
        &&& self.bump == other.bump
    }

    /// Equal in every field, the holders of each role included.
    pub open spec fn same_state(self, other: PaymentProcessor) -> bool {
        &&& self.same_settings(other)
        &&& forall|role: Role| #[trigger] self.roles.holders(role) == other.roles.holders(role)
    }

    /// `self` is `before` after `role` was granted to `account`: the account is
    /// appended to the role's holders unless it held the role already, and
    /// nothing else changes.
    pub open spec fn is_grant_of(self, before: PaymentProcessor, role: Role, account: Pubkey) -> bool {
        &&& self.same_settings(before)
        &&& self.roles.holders(role) == if before.holds(role, account) {
            before.roles.holders(role)
        } else {
            before.roles.holders(role).push(account)
        }
        &&& forall|other: Role|
            other != role ==> #[trigger] self.roles.holders(other) == before.roles.holders(other)
    }

    /// `self` is `before` after `role` was revoked from `account`: the account
    /// leaves the role's holders, the others keep their order, and nothing else
    /// changes.
    pub open spec fn is_revoke_of(self, before: PaymentProcessor, role: Role, account: Pubkey) -> bool {
        &&& self.same_settings(before)
        &&& self.roles.holders(role) == without(before.roles.holders(role), account)
        &&& forall|other: Role|
            other != role ==> #[trigger] self.roles.holders(other) == before.roles.holders(other)
    }

    /// Zero in every number and flag, with no role held.
    pub open spec fn is_blank(self) -> bool {
        &&& forall|i: int| 0 <= i < 32 ==> self.admin.bytes[i] == 0u8
        &&& forall|i: int| 0 <= i < 32 ==> self.fee_recipient.bytes[i] == 0u8
        &&& self.fee_basis_points == 0
        &&& !self.paused
        &&& self.version == 0
        &&& self.bump == 0
        &&& forall|role: Role| #[trigger] self.roles.holders(role) == Seq::<Pubkey>::empty()
        &&& self.roles.wf()
    }

    /// A processor record as it stands before initialization: all fields zero,
    /// no roles held.
    pub fn blank() -> (r: PaymentProcessor)
        ensures
            r.is_blank(),
    {
        PaymentProcessor {
            admin: Pubkey::zeroed(),
            fee_recipient: Pubkey::zeroed(),
            fee_basis_points: 0,
            paused: false,
            version: 0,
            bump: 0,
            roles: RoleRegistry::new(),
        }
    }

    /// Grants `role` to `account`; granting a role already held changes nothing.
    pub fn grant_role(&mut self, role: Role, account: Pubkey) -> (r: Result<(), ErrorCode>)
        ensures
            r is Ok,
            final(self).is_grant_of(*old(self), role, account),
            final(self).holds(role, account),
            old(self).holds(role, account) ==> final(self).same_state(*old(self)),
            old(self).wf() ==> final(self).wf(),
    {
        self.roles.insert(role, account);
        proof {
            if !old(self).holds(role, account) {
                assert(self.roles.holders(role).last() == account);
            }
        }
        Ok(())
    }

    /// Revokes `role` from `account`; revoking a role not held changes nothing.
    pub fn revoke_role(&mut self, role: Role, account: Pubkey) -> (r: Result<(), ErrorCode>)
        ensures
            r is Ok,
            final(self).is_revoke_of(*old(self), role, account),
            !final(self).holds(role, account),
            !old(self).holds(role, account) ==> final(self).same_state(*old(self)),
            old(self).wf() ==> final(self).wf(),
    {
        self.roles.remove(role, &account);
        proof {
            let s = old(self).roles.holders(role);
            if self.roles.holders(role).contains(account) {
                s.lemma_filter_contains_rev(other_than(account), account);
                let k = choose|k: int| 0 <= k < without(s, account).len()
                    && without(s, account)[k] == account;
                s.lemma_filter_pred(other_than(account), k);
            }
            if !s.contains(account) {
                lemma_without_absent(s, account);
            }
        }
        Ok(())
    }

    pub fn has_role(&self, role: Role, account: Pubkey) -> (r: bool)
        ensures
            r == self.holds(role, account),
    {
        self.roles.contains(role, &account)
    }
}

} // verus!
