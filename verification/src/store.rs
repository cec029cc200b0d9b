//! The position store: the one place ledger state lives.
//!
//! A [`Ledger`] owns the mapping from identity to account, the paused flag,
//! and the admin identity. An account couples a [`Position`] with the
//! per-identity settlement guard: while an operation is suspended on the
//! external custody service, the account's `pending` field records it, and
//! every other operation on the same identity is turned away with `Busy`.

use std::collections::HashMap;

use vstd::prelude::*;

use crate::errors::LedgerError;
use crate::position::Position;
use crate::settlement::spec_pending_wf;
use crate::settlement::PendingOp;

verus! {

broadcast use vstd::std_specs::hash::group_hash_axioms;

/// One identity's entry: its position, and the operation (if any) currently
/// suspended on a settlement and holding the identity's guard.
#[derive(Clone, Copy, Debug, PartialEq, Eq, Structural)]
pub struct Account {
    /// The identity's balances, principals, and checkpoints.
    pub position: Position,
    /// The settlement-bearing operation in flight, if any. While this is
    /// set, every other operation on the identity is rejected with `Busy`.
    pub pending: Option<PendingOp>,
}

/// What holds of every stored account: it belongs to its key, its position
/// is well-formed, and any pending operation still satisfies what was
/// checked of the position when it was recorded.
pub open spec fn account_wf(account: Account, id: u64) -> bool {
    &&& account.position.identity == id
    &&& account.position.wf()
    &&& match account.pending {
        Some(op) => spec_pending_wf(account.position, op),
        None => true,
    }
}

/// The ledger: every position, the paused flag, and the admin identity.
/// Created once at process start; positions are created lazily on
/// registration and never removed.
pub struct Ledger {
    pub(crate) accounts: HashMap<u64, Account>,
    pub(crate) ids: Vec<u64>,
    pub(crate) paused: bool,
    pub(crate) admin: u64,
}

impl Ledger {
    /// The stored accounts, as a map from identity to account.
    pub open(crate) spec fn accounts(self) -> Map<u64, Account> {
        self.accounts@
    }

    /// The registered identities, in registration order.
    pub open(crate) spec fn ids(self) -> Seq<u64> {
        self.ids@
    }

    /// Whether mutating operations are currently rejected.
    pub open(crate) spec fn is_paused(self) -> bool {
        self.paused
    }

    /// The identity allowed to pause and unpause.
    pub open(crate) spec fn admin_id(self) -> u64 {
        self.admin
    }

    /// Whether `id` has a position.
    pub open spec fn registered(self, id: u64) -> bool {
        self.accounts().contains_key(id)
    }

    /// Whether an operation on `id` is suspended on a settlement, so that
    /// the identity's guard is held.
    pub open spec fn busy(self, id: u64) -> bool {
        self.registered(id) && self.accounts()[id].pending is Some
    }

    /// The position stored for `id` (meaningful when registered).
    pub open spec fn position_of(self, id: u64) -> Position {
        self.accounts()[id].position
    }

    /// Every account is well-formed, and the identity list carries exactly
    /// the map's keys, each once.
    pub open spec fn wf(self) -> bool {
        &&& forall|id: u64|
            #[trigger] self.accounts().contains_key(id) ==> account_wf(self.accounts()[id], id)
        &&& self.ids().no_duplicates()
        &&& forall|id: u64| #[trigger] self.accounts().contains_key(id) ==> self.ids().contains(id)
        &&& forall|id: u64| #[trigger] self.ids().contains(id) ==> self.accounts().contains_key(id)
    }

    /// A fresh ledger: no positions, not paused, `admin` in charge.
    pub fn new(admin: u64) -> (ledger: Ledger)
        ensures
            ledger.wf(),
            !ledger.is_paused(),
            ledger.admin_id() == admin,
            ledger.accounts() == Map::<u64, Account>::empty(),
            ledger.ids() == Seq::<u64>::empty(),
    {
        Ledger { accounts: HashMap::new(), ids: Vec::new(), paused: false, admin }
    }

    /// Registering is idempotent: a zeroed position is inserted only if
    /// `id` has none yet, and a repeated call changes nothing. Returns
    /// whether the position was newly created. Rejected while paused.
    pub fn register(&mut self, id: u64) -> (outcome: Result<bool, LedgerError>)
        requires
            old(self).wf(),
        ensures
            final(self).wf(),
            final(self).is_paused() == old(self).is_paused(),
            final(self).admin_id() == old(self).admin_id(),
            match outcome {
                Ok(created) => {
                    &&& !old(self).is_paused()
                    &&& (final(self).accounts(), created) == spec_register(
                        old(self).accounts(),
                        id,
                    )
                    &&& final(self).ids() == (if created {
                        old(self).ids().push(id)
                    } else {
                        old(self).ids()
                    })
                    &&& final(self).registered(id)
                },
                Err(e) => {
                    &&& e == LedgerError::Paused
                    &&& old(self).is_paused()
                    &&& same_state(*final(self), *old(self))
                },
            },
    {
        if self.paused {
            return Err(LedgerError::Paused);
        }
        if self.accounts.contains_key(&id) {
            return Ok(false);
        }
        let account = Account { position: Position::zeroed(id), pending: None };
        self.accounts.insert(id, account);
        self.ids.push(id);
        proof {
            lemma_push_keeps_distinct(old(self).ids@, id);
        }
        Ok(true)
    }

    /// A read-only snapshot of `id`'s position, if registered. Available
    /// while paused.
    pub fn get_position(&self, id: u64) -> (position: Option<Position>)
        requires
            self.wf(),
        ensures
            position == (if self.registered(id) {
                Some(self.position_of(id))
            } else {
                Option::<Position>::None
            }),
    {
        match self.accounts.get(&id) {
            Some(account) => Some(account.position),
            None => None,
        }
    }

    /// Whether mutating operations are currently rejected. Available while
    /// paused, like every read.
    pub fn get_paused(&self) -> (paused: bool)
        ensures
            paused == self.is_paused(),
    {
        self.paused
    }

    /// Whether `id`'s guard is held by an operation suspended on a
    /// settlement.
    pub fn has_pending(&self, id: u64) -> (held: bool)
        requires
            self.wf(),
        ensures
            held == self.busy(id),
    {
        match self.accounts.get(&id) {
            Some(account) => account.pending.is_some(),
            None => false,
        }
    }
}

/// What registration does to the account map: nothing when `id` is present,
/// otherwise a zeroed position with no pending operation is added. The
/// flag says whether anything was added.
pub open spec fn spec_register(accounts: Map<u64, Account>, id: u64) -> (Map<u64, Account>, bool) {
    if accounts.contains_key(id) {
        (accounts, false)
    } else {
        (
            accounts.insert(
                id,
                Account {
                    position: Position {
                        identity: id,
                        available: 0,
                        staked: 0,
                        lent: 0,
                        farmed: 0,
                        borrowed: 0,
                        stake_checkpoint: None,
                        lend_checkpoint: None,
                        farm_checkpoint: None,
                        borrow_checkpoint: None,
                    },
                    pending: None,
                },
            ),
            true,
        )
    }
}

/// Registration is idempotent: once an identity is registered, registering
/// it again returns the map unchanged and reports that nothing was created.
pub proof fn lemma_register_idempotent(accounts: Map<u64, Account>, id: u64)
    ensures
        ({
            let (once, _) = spec_register(accounts, id);
            spec_register(once, id) == (once, false)
        }),
{
}

/// The four observable parts of the ledger coincide.
pub open spec fn same_state(a: Ledger, b: Ledger) -> bool {
    &&& a.accounts() == b.accounts()
    &&& a.ids() == b.ids()
    &&& a.is_paused() == b.is_paused()
    &&& a.admin_id() == b.admin_id()
}

/// Pushing a value not yet present keeps a duplicate-free sequence
/// duplicate-free, and extends its members by exactly that value.
proof fn lemma_push_keeps_distinct(s: Seq<u64>, v: u64)
    requires
        s.no_duplicates(),
        !s.contains(v),
    ensures
        s.push(v).no_duplicates(),
        forall|x: u64| #[trigger] s.push(v).contains(x) <==> (x == v || s.contains(x)),
{
    assert forall|x: u64| #[trigger] s.push(v).contains(x) implies (x == v || s.contains(x)) by {
        let i = choose|i: int| 0 <= i < s.push(v).len() && s.push(v)[i] == x;
        if i < s.len() {
            assert(s[i] == x);
        }
    }
    assert forall|x: u64| (x == v || s.contains(x)) implies #[trigger] s.push(v).contains(x) by {
        if x == v {
            assert(s.push(v)[s.len() as int] == x);
        } else {
            let i = choose|i: int| 0 <= i < s.len() && s[i] == x;
            assert(s.push(v)[i] == x);
        }
    }
}

} // verus!
