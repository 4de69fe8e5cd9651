//! The contract state and its operations. The caller's account, the ledger
//! time and the attached deposit are handed in by the host; the payout of a
//! reclaim is made by the host between `reclaim_payout` and `reclaim_funds`.
use vstd::prelude::*;
use crate::funding::{funds_percentage, is_reclaimable, reclaimable_at, percentage_of};
use crate::funding::lemma_percentage_monotonic;
use crate::records::{Contribution, ContractError, Payment, Payout, Proposal, ProposalStatus, User};

verus! {

/// The account that may pause proposals in a `default()` contract.
pub const DEFAULT_ADMIN: &'static str = "4myfuture.sputnikv2.testnet";

/// The whole contract state: registered users, the proposal registry, the
/// contribution ledger and the payment records. A proposal's id is its
/// position in the registry counting from 1, and likewise for contributions.
pub struct ForMyFuture {
    users: Vec<User>,
    proposals: Vec<Proposal>,
    contributions: Vec<Contribution>,
    payments: Vec<Payment>,
    admin: String,
}

/// Whether `users` holds an account named `id`.
pub open spec fn registered_in(users: Seq<User>, id: Seq<char>) -> bool {
    exists|i: int| 0 <= i < users.len() && (#[trigger] users[i]).id@ == id
}

/// Whether the account named `id` in `users` is marked as owning an open
/// proposal.
pub open spec fn active_in(users: Seq<User>, id: Seq<char>) -> bool {
    exists|i: int| 0 <= i < users.len() && (#[trigger] users[i]).id@ == id
        && users[i].with_active_proposal
}

/// `new` is `old` with `c` added to the history of its contributor `c.by`,
/// who is registered first if unknown.
pub open spec fn users_after_contribution(old: Seq<User>, new: Seq<User>, c: Contribution) -> bool {
    &&& new.len() == if registered_in(old, c.by@) { old.len() } else { old.len() + 1 }
    &&& forall|j: int| 0 <= j < old.len() ==> if (#[trigger] old[j]).id@ == c.by@ {
            &&& new[j].id == old[j].id
            &&& new[j].contributions@ == old[j].contributions@.push(c)
            &&& new[j].with_active_proposal == old[j].with_active_proposal
            &&& new[j].rank == old[j].rank
            &&& new[j].picture == old[j].picture
        } else {
            new[j] == old[j]
        }
    &&& !registered_in(old, c.by@) ==> {
            &&& new[old.len() as int].id@ == c.by@
            &&& new[old.len() as int].contributions@ == seq![c]
            &&& !new[old.len() as int].with_active_proposal
            &&& new[old.len() as int].rank == 0
            &&& new[old.len() as int].picture@.len() == 0
        }
}

/// `new` is `old` with the flag `with_active_proposal` of the account `id`
/// set to `flag`.
pub open spec fn users_with_flag(old: Seq<User>, new: Seq<User>, id: Seq<char>, flag: bool) -> bool {
    &&& new.len() == old.len()
    &&& forall|j: int| 0 <= j < old.len() ==> (#[trigger] new[j]) == if old[j].id@ == id {
            User { with_active_proposal: flag, ..old[j] }
        } else {
            old[j]
        }
}

/// What a proposal keeps from one state to a later one: its id, owner and
/// goal; its funds never shrink, eligibility once reached stays, and a
/// settled or paused proposal stays so.
pub open spec fn proposal_kept(p: Proposal, q: Proposal) -> bool {
    &&& q.index == p.index
    &&& q.user == p.user
    &&& q.amount_needed == p.amount_needed
    &&& p.funds <= q.funds
    &&& p.is_reclaimable ==> q.is_reclaimable
    &&& p.status != ProposalStatus::Open ==> q.status == p.status
}

/// `b` is a possible later state of `a`: proposals and contributions are only
/// appended, recorded contributions never change, each proposal is kept, and
/// the payment records are untouched.
pub open spec fn steps_to(a: ForMyFuture, b: ForMyFuture) -> bool {
    &&& a.proposal_list().len() <= b.proposal_list().len()
    &&& forall|i: int| 0 <= i < a.proposal_list().len()
        ==> proposal_kept(#[trigger] a.proposal_list()[i], b.proposal_list()[i])
    &&& a.contribution_list().len() <= b.contribution_list().len()
    &&& forall|k: int| 0 <= k < a.contribution_list().len()
        ==> #[trigger] a.contribution_list()[k] == b.contribution_list()[k]
    &&& b.payment_list() == a.payment_list()
}

impl ForMyFuture {
    /// The registered users, in order of registration.
    pub closed spec fn user_list(&self) -> Seq<User> {
        self.users@
    }

    /// The proposals; the one with id `n` is at position `n - 1`.
    pub closed spec fn proposal_list(&self) -> Seq<Proposal> {
        self.proposals@
    }

    /// The contributions; the one with id `n` is at position `n - 1`.
    pub closed spec fn contribution_list(&self) -> Seq<Contribution> {
        self.contributions@
    }

    /// The payment records. No operation writes them.
    pub closed spec fn payment_list(&self) -> Seq<Payment> {
        self.payments@
    }

    /// The account allowed to pause proposals.
    pub closed spec fn admin_id(&self) -> Seq<char> {
        self.admin@
    }

    pub open spec fn registered(&self, id: Seq<char>) -> bool {
        registered_in(self.user_list(), id)
    }

    pub open spec fn is_active(&self, id: Seq<char>) -> bool {
        active_in(self.user_list(), id)
    }

    pub open spec fn has_proposal(&self, proposal_id: i128) -> bool {
        1 <= proposal_id <= self.proposal_list().len()
    }

    /// The proposal with id `proposal_id`.
    pub open spec fn proposal(&self, proposal_id: i128) -> Proposal {
        self.proposal_list()[proposal_id - 1]
    }

    /// What holds of the proposal at position `i`.
    pub open spec fn proposal_wf(&self, i: int) -> bool {
        let p = self.proposal_list()[i];
        &&& p.index == i + 1
        &&& 0 < p.amount_needed
        &&& p.funds <= p.amount_needed
        &&& p.is_reclaimable == reclaimable_at(p.funds as int, p.amount_needed as int)
        &&& self.registered(p.user@)
        &&& p.status == ProposalStatus::Open ==> self.is_active(p.user@)
    }

    /// What holds of the contribution at position `k`.
    pub open spec fn contribution_wf(&self, k: int) -> bool {
        let c = self.contribution_list()[k];
        &&& c.contribution_id == k + 1
        &&& 0 < c.amount
        &&& self.has_proposal(c.proposal_id)
    }

    /// The state's invariant: account names are unique, every proposal and
    /// contribution is well formed, and no account owns two open proposals.
    pub open spec fn wf(&self) -> bool {
        let users = self.user_list();
        let props = self.proposal_list();
        &&& forall|i: int, j: int| 0 <= i < users.len() && 0 <= j < users.len()
            && (#[trigger] users[i]).id@ == (#[trigger] users[j]).id@ ==> i == j
        &&& forall|i: int| 0 <= i < props.len() ==> #[trigger] self.proposal_wf(i)
        &&& forall|k: int| 0 <= k < self.contribution_list().len()
            ==> #[trigger] self.contribution_wf(k)
        &&& forall|i: int, j: int| 0 <= i < props.len() && 0 <= j < props.len()
            && (#[trigger] props[i]).status == ProposalStatus::Open
            && (#[trigger] props[j]).status == ProposalStatus::Open
            && props[i].user@ == props[j].user@ ==> i == j
    }

    /// Why `create_proposal` refuses, if it does.
    pub open spec fn create_refusal(&self, caller: Seq<char>, amount_needed: u128) -> Option<ContractError> {
        if !self.registered(caller) {
            Some(ContractError::UnknownCaller)
        } else if amount_needed == 0 {
            Some(ContractError::InvalidAmount)
        } else if self.is_active(caller) {
            Some(ContractError::AlreadyHasActiveProposal)
        } else {
            None
        }
    }

    /// Why `contribute` refuses, if it does.
    pub open spec fn contribute_refusal(&self, proposal_id: i128, now: u64, amount: u128) -> Option<ContractError> {
        if !self.has_proposal(proposal_id) {
            Some(ContractError::NotFound)
        } else if self.proposal(proposal_id).status != ProposalStatus::Open {
            Some(ContractError::ProposalNotOpen)
        } else if amount == 0 {
            Some(ContractError::InvalidAmount)
        } else if now >= self.proposal(proposal_id).finish_date {
            Some(ContractError::ProposalExpired)
        } else if self.proposal(proposal_id).funds + amount > self.proposal(proposal_id).amount_needed {
            Some(ContractError::OverContribution)
        } else {
            None
        }
    }

    /// Why a reclaim is refused, if it is, before any transfer is tried.
    pub open spec fn reclaim_refusal(&self, caller: Seq<char>, proposal_id: i128) -> Option<ContractError> {
        if !self.has_proposal(proposal_id) {
            Some(ContractError::NotFound)
        } else if self.proposal(proposal_id).user@ != caller {
            Some(ContractError::Unauthorized)
        } else if self.proposal(proposal_id).status != ProposalStatus::Open {
            Some(ContractError::NotReclaimable)
        } else if !reclaimable_at(
            self.proposal(proposal_id).funds as int,
            self.proposal(proposal_id).amount_needed as int,
        ) {
            Some(ContractError::ThresholdNotMet)
        } else {
            None
        }
    }

    /// Position of the account `id`, if registered.
    fn find_user(&self, id: &String) -> (r: Option<usize>)
        ensures
            match r {
                Some(i) => i < self.users@.len() && self.users@[i as int].id@ == id@,
                None => !self.registered(id@),
            },
    {
        let mut i: usize = 0;
        while i < self.users.len()
            invariant
                i <= self.users@.len(),
                forall|j: int| 0 <= j < i ==> (#[trigger] self.users@[j]).id@ != id@,
            decreases self.users@.len() - i,
        {
            if self.users[i].id == *id {
                return Some(i);
            }
            i = i + 1;
        }
        None
    }

    /// Records a contribution of `amount` by `caller` at time `now` to the
    /// proposal `proposal_id`, registering `caller` if unknown.
    pub fn contribute(&mut self, caller: &String, now: u64, amount: u128, proposal_id: i128, comments: String) -> (r: Result<Contribution, ContractError>)
        requires
            old(self).wf(),
        ensures
            final(self).wf(),
            match r {
                Err(e) => {
                    &&& old(self).contribute_refusal(proposal_id, now, amount) == Some(e)
                    &&& *final(self) == *old(self)
                },
                Ok(c) => {
                    let p = old(self).proposal(proposal_id);
                    let funds = (p.funds + amount) as u128;
                    &&& old(self).contribute_refusal(proposal_id, now, amount).is_none()
                    &&& c.contribution_id == old(self).contribution_list().len() + 1
                    &&& c.proposal_id == proposal_id
                    &&& c.amount == amount
                    &&& c.to == p.user
                    &&& c.by@ == caller@
                    &&& c.date == now
                    &&& c.comments == comments
                    &&& final(self).contribution_list() == old(self).contribution_list().push(c)
                    &&& final(self).proposal_list() == old(self).proposal_list().update(
                        proposal_id - 1,
                        Proposal {
                            funds,
                            is_reclaimable: p.is_reclaimable || reclaimable_at(funds as int, p.amount_needed as int),
                            ..p
                        },
                    )
                    &&& users_after_contribution(old(self).user_list(), final(self).user_list(), c)
                    &&& steps_to(*old(self), *final(self))
                    &&& final(self).payment_list() == old(self).payment_list()
                    &&& final(self).admin_id() == old(self).admin_id()
                },
            },
    {
        if proposal_id < 1 || proposal_id > self.proposals.len() as i128 {
            return Err(ContractError::NotFound);
        }
        let pos = (proposal_id - 1) as usize;
        if self.proposals[pos].status != ProposalStatus::Open {
            return Err(ContractError::ProposalNotOpen);
        }
        if amount == 0 {
            return Err(ContractError::InvalidAmount);
        }
        if now >= self.proposals[pos].finish_date {
            return Err(ContractError::ProposalExpired);
        }
        let needed = self.proposals[pos].amount_needed;
        let funds = self.proposals[pos].funds;
        proof {
            assert(self.proposal_wf(pos as int));
        }
        if amount > needed - funds {
            return Err(ContractError::OverContribution);
        }
        let ghost old_self = *self;
        let upos = match self.find_user(caller) {
            Some(i) => i,
            None => {
                self.users.push(User::new(caller.clone()));
                self.users.len() - 1
            },
        };
        let contribution = Contribution {
            contribution_id: self.contributions.len() as i128 + 1,
            proposal_id,
            amount,
            to: self.proposals[pos].user.clone(),
            by: caller.clone(),
            date: now,
            comments,
        };
        self.contributions.push(contribution.duplicate());
        self.users[upos].contributions.push(contribution.duplicate());
        let new_funds: u128 = funds + amount;
        self.proposals[pos].funds = new_funds;
        if is_reclaimable(new_funds, needed) {
            self.proposals[pos].is_reclaimable = true;
        }
        proof {
            lemma_percentage_monotonic(funds as int, new_funds as int, needed as int);
            assert(self.proposals@ =~= old_self.proposals@.update(pos as int, self.proposals@[pos as int]));
            let us = self.users@;
            let ou = old_self.users@;
            Self::lemma_wf_frame(old_self, *self, pos as int, None);
            assert(old_self.proposal_wf(pos as int));
            assert(self.proposal_wf(pos as int));
            assert forall|k: int| 0 <= k < self.contributions@.len() implies #[trigger] self.contribution_wf(k) by {
                if k < old_self.contributions@.len() {
                    assert(self.contributions@[k] == old_self.contributions@[k]);
                }
            }
            assert(contribution.by@ == caller@);
            assert forall|j: int| 0 <= j < ou.len() implies if (#[trigger] ou[j]).id@ == contribution.by@ {
                &&& us[j].id == ou[j].id
                &&& us[j].contributions@ == ou[j].contributions@.push(contribution)
                &&& us[j].with_active_proposal == ou[j].with_active_proposal
                &&& us[j].rank == ou[j].rank
                &&& us[j].picture == ou[j].picture
            } else {
                us[j] == ou[j]
            } by {
                if ou[j].id@ == caller@ {
                    assert(old_self.wf());
                    assert(ou[upos as int].id@ == caller@);
                    assert(j == upos);
                }
            }
            if !registered_in(ou, caller@) {
                assert(us.len() == ou.len() + 1);
                assert(us[ou.len() as int].contributions@ =~= seq![contribution]);
            } else {
                assert(us.len() == ou.len());
            }
            assert(users_after_contribution(ou, us, contribution));
        }
        Ok(contribution)
    }

    /// Opens a new proposal owned by `caller`, created at time `now`. Its id
    /// is one more than the number of proposals so far.
    pub fn create_proposal(
        &mut self,
        caller: &String,
        now: u64,
        title: String,
        goal: String,
        link_institution: String,
        link_pensum: String,
        pics: Vec<String>,
        amount_needed: u128,
        description: String,
        finish_date: u64,
    ) -> (r: Result<Proposal, ContractError>)
        requires
            old(self).wf(),
        ensures
            final(self).wf(),
            match r {
                Err(e) => {
                    &&& old(self).create_refusal(caller@, amount_needed) == Some(e)
                    &&& *final(self) == *old(self)
                },
                Ok(p) => {
                    let n = old(self).proposal_list().len();
                    &&& old(self).create_refusal(caller@, amount_needed).is_none()
                    &&& p.user@ == caller@
                    &&& p.amount_needed == amount_needed
                    &&& p.funds == 0
                    &&& p.status == ProposalStatus::Open
                    &&& p.index == n + 1
                    &&& !p.is_reclaimable
                    &&& p.init_date == now
                    &&& p.finish_date == finish_date
                    &&& p.title == title
                    &&& p.goal == goal
                    &&& p.link_institution == link_institution
                    &&& p.link_pensum == link_pensum
                    &&& p.pics@ == pics@
                    &&& p.description == description
                    &&& final(self).proposal_list().len() == n + 1
                    &&& final(self).proposal_list().subrange(0, n as int) == old(self).proposal_list()
                    &&& final(self).proposal_list()[n as int].is_copy_of(&p)
                    &&& users_with_flag(old(self).user_list(), final(self).user_list(), caller@, true)
                    &&& steps_to(*old(self), *final(self))
                    &&& final(self).payment_list() == old(self).payment_list()
                    &&& final(self).contribution_list() == old(self).contribution_list()
                    &&& final(self).admin_id() == old(self).admin_id()
                },
            },
    {
        let upos = match self.find_user(caller) {
            Some(i) => i,
            None => {
                return Err(ContractError::UnknownCaller);
            },
        };
        if amount_needed == 0 {
            return Err(ContractError::InvalidAmount);
        }
        proof {
            self.lemma_active_at(upos as int);
        }
        if self.users[upos].with_active_proposal {
            return Err(ContractError::AlreadyHasActiveProposal);
        }
        let ghost old_self = *self;
        let proposal = Proposal {
            user: caller.clone(),
            amount_needed,
            funds: 0,
            title,
            description,
            goal,
            link_institution,
            link_pensum,
            init_date: now,
            finish_date,
            pics,
            status: ProposalStatus::Open,
            index: self.proposals.len() as i128 + 1,
            is_reclaimable: false,
        };
        self.proposals.push(proposal.duplicate());
        self.users[upos].with_active_proposal = true;
        proof {
            let ou = old_self.users@;
            let us = self.users@;
            let n = old_self.proposals@.len();
            assert(percentage_of(0, amount_needed as int) == 0);
            assert(us[upos as int].id@ == caller@);
            Self::lemma_wf_frame(old_self, *self, n as int, None);
            assert(self.proposal_wf(n as int));
            let ps = self.proposals@;
            assert forall|i: int, j: int| 0 <= i < ps.len() && 0 <= j < ps.len()
                && (#[trigger] ps[i]).status == ProposalStatus::Open
                && (#[trigger] ps[j]).status == ProposalStatus::Open
                && ps[i].user@ == ps[j].user@ implies i == j by {
                if i < n {
                    assert(old_self.proposal_wf(i));
                }
                if j < n {
                    assert(old_self.proposal_wf(j));
                }
            }
            assert(self.proposals@.subrange(0, n as int) =~= old_self.proposals@);
            assert forall|j: int| 0 <= j < ou.len() implies (#[trigger] us[j]) == if ou[j].id@ == caller@ {
                User { with_active_proposal: true, ..ou[j] }
            } else {
                ou[j]
            } by {
                if ou[j].id@ == caller@ {
                    assert(j == upos);
                }
            }
        }
        Ok(proposal)
    }

    /// What an operation keeps of the invariant when it leaves every account
    /// name at its position, adds at most one new name, keeps every active
    /// flag but that of `cleared`, leaves every proposal but the one at
    /// `changed` as it was, and only appends proposals and contributions.
    /// `cleared` may only be the owner of the open proposal at `changed`.
    proof fn lemma_wf_frame(a: ForMyFuture, b: ForMyFuture, changed: int, cleared: Option<Seq<char>>)
        requires
            a.wf(),
            a.users@.len() <= b.users@.len() <= a.users@.len() + 1,
            forall|j: int| 0 <= j < a.users@.len()
                ==> (#[trigger] b.users@[j]).id@ == a.users@[j].id@,
            forall|j: int| 0 <= j < a.users@.len() && (#[trigger] a.users@[j]).with_active_proposal
                && cleared != Some(a.users@[j].id@) ==> b.users@[j].with_active_proposal,
            b.users@.len() == a.users@.len() + 1
                ==> !registered_in(a.users@, b.users@[a.users@.len() as int].id@),
            cleared is Some ==> {
                &&& 0 <= changed < a.proposals@.len()
                &&& a.proposals@[changed].status == ProposalStatus::Open
                &&& Some(a.proposals@[changed].user@) == cleared
            },
            a.proposals@.len() <= b.proposals@.len(),
            forall|i: int| 0 <= i < a.proposals@.len() && i != changed
                ==> #[trigger] b.proposals@[i] == a.proposals@[i],
            a.contributions@.len() <= b.contributions@.len(),
            forall|k: int| 0 <= k < a.contributions@.len()
                ==> #[trigger] b.contributions@[k] == a.contributions@[k],
        ensures
            forall|i: int, j: int| 0 <= i < b.users@.len() && 0 <= j < b.users@.len()
                && (#[trigger] b.users@[i]).id@ == (#[trigger] b.users@[j]).id@ ==> i == j,
            forall|i: int| 0 <= i < a.proposals@.len() ==> b.registered((#[trigger] a.proposals@[i]).user@),
            forall|i: int| 0 <= i < a.proposals@.len()
                && (#[trigger] a.proposals@[i]).status == ProposalStatus::Open
                && cleared != Some(a.proposals@[i].user@) ==> b.is_active(a.proposals@[i].user@),
            forall|i: int| 0 <= i < a.proposals@.len() && i != changed ==> #[trigger] b.proposal_wf(i),
            forall|k: int| 0 <= k < a.contributions@.len() ==> #[trigger] b.contribution_wf(k),
    {
        let ou = a.users@;
        let us = b.users@;
        assert(a.user_list() == ou);
        assert forall|i: int, j: int| 0 <= i < us.len() && 0 <= j < us.len()
            && (#[trigger] us[i]).id@ == (#[trigger] us[j]).id@ implies i == j by {
            if i < ou.len() && j < ou.len() {
                assert(ou[i].id@ == us[i].id@ && ou[j].id@ == us[j].id@);
            } else if i < ou.len() {
                assert(ou[i].id@ == us[i].id@);
                assert(registered_in(ou, us[j].id@));
            } else if j < ou.len() {
                assert(ou[j].id@ == us[j].id@);
                assert(registered_in(ou, us[i].id@));
            }
        }
        assert forall|i: int| 0 <= i < a.proposals@.len() implies b.registered(
            (#[trigger] a.proposals@[i]).user@,
        ) && (a.proposals@[i].status == ProposalStatus::Open && cleared != Some(a.proposals@[i].user@)
            ==> b.is_active(a.proposals@[i].user@)) by {
            assert(a.proposal_wf(i));
            let o = a.proposals@[i].user@;
            let w1 = choose|j: int| 0 <= j < ou.len() && (#[trigger] ou[j]).id@ == o;
            assert(us[w1].id@ == o);
            if a.proposals@[i].status == ProposalStatus::Open && cleared != Some(o) {
                let w2 = choose|j: int| 0 <= j < ou.len() && (#[trigger] ou[j]).id@ == o
                    && ou[j].with_active_proposal;
                assert(us[w2].id@ == o && us[w2].with_active_proposal);
            }
        }
        assert forall|i: int| 0 <= i < a.proposals@.len() && i != changed implies #[trigger] b.proposal_wf(i) by {
            assert(a.proposal_wf(i));
            assert(b.proposals@[i] == a.proposals@[i]);
            if a.proposals@[i].status == ProposalStatus::Open && cleared == Some(a.proposals@[i].user@) {
                assert(a.proposals@[changed].status == ProposalStatus::Open);
            }
        }
        assert forall|k: int| 0 <= k < a.contributions@.len() implies #[trigger] b.contribution_wf(k) by {
            assert(a.contribution_wf(k));
        }
    }

    /// In a well-formed state, whether the account at position `i` is
    /// active is its own flag.
    proof fn lemma_active_at(&self, i: int)
        requires
            self.wf(),
            0 <= i < self.users@.len(),
        ensures
            self.is_active(self.users@[i].id@) == self.users@[i].with_active_proposal,
            self.registered(self.users@[i].id@),
    {
        if self.is_active(self.users@[i].id@) {
            let w = choose|j: int| 0 <= j < self.users@.len()
                && (#[trigger] self.users@[j]).id@ == self.users@[i].id@
                && self.users@[j].with_active_proposal;
            assert(w == i);
        }
    }

    /// Checks that `caller` may reclaim the funds of `proposal_id` now, and
    /// says what is to be paid and to whom. Changes nothing: the host makes
    /// the transfer and then reports it to `reclaim_funds`.
    pub fn reclaim_payout(&self, caller: &String, proposal_id: i128) -> (r: Result<Payout, ContractError>)
        requires
            self.wf(),
        ensures
            match r {
                Err(e) => self.reclaim_refusal(caller@, proposal_id) == Some(e),
                Ok(pay) => {
                    &&& self.reclaim_refusal(caller@, proposal_id).is_none()
                    &&& pay.to == self.proposal(proposal_id).user
                    &&& pay.amount == self.proposal(proposal_id).funds
                },
            },
    {
        if proposal_id < 1 || proposal_id > self.proposals.len() as i128 {
            return Err(ContractError::NotFound);
        }
        let pos = (proposal_id - 1) as usize;
        let p = &self.proposals[pos];
        if p.user != *caller {
            return Err(ContractError::Unauthorized);
        }
        if p.status != ProposalStatus::Open {
            return Err(ContractError::NotReclaimable);
        }
        proof {
            assert(self.proposal_wf(pos as int));
        }
        if !is_reclaimable(p.funds, p.amount_needed) {
            return Err(ContractError::ThresholdNotMet);
        }
        Ok(Payout { to: p.user.clone(), amount: p.funds })
    }

    /// Settles the proposal `proposal_id` for its owner `caller`, once the
    /// host has tried the payout that `reclaim_payout` named; `transferred`
    /// says whether it went through. Without it nothing changes.
    pub fn reclaim_funds(&mut self, caller: &String, proposal_id: i128, transferred: bool) -> (r: Result<Proposal, ContractError>)
        requires
            old(self).wf(),
        ensures
            final(self).wf(),
            match r {
                Err(e) => {
                    &&& *final(self) == *old(self)
                    &&& (old(self).reclaim_refusal(caller@, proposal_id) == Some(e) || (old(
                        self,
                    ).reclaim_refusal(caller@, proposal_id).is_none() && !transferred && e
                        == ContractError::TransferFailed))
                },
                Ok(p) => {
                    let q = old(self).proposal(proposal_id);
                    &&& old(self).reclaim_refusal(caller@, proposal_id).is_none()
                    &&& transferred
                    &&& final(self).proposal_list() == old(self).proposal_list().update(
                        proposal_id - 1,
                        Proposal { status: ProposalStatus::Settled, ..q },
                    )
                    &&& p.is_copy_of(&final(self).proposal(proposal_id))
                    &&& users_with_flag(old(self).user_list(), final(self).user_list(), caller@, false)
                    &&& steps_to(*old(self), *final(self))
                    &&& final(self).payment_list() == old(self).payment_list()
                    &&& final(self).contribution_list() == old(self).contribution_list()
                    &&& final(self).admin_id() == old(self).admin_id()
                },
            },
    {
        let checked = self.reclaim_payout(caller, proposal_id);
        if let Err(e) = checked {
            return Err(e);
        }
        if !transferred {
            return Err(ContractError::TransferFailed);
        }
        let n: usize = self.proposals.len();
        let pos = (proposal_id - 1) as usize;
        proof {
            assert(pos < n);
            assert(self.proposal_wf(pos as int));
        }
        let upos = match self.find_user(caller) {
            Some(i) => i,
            None => {
                return Err(ContractError::NotFound);
            },
        };
        let ghost old_self = *self;
        proof {
            assert(old_self.proposal_wf(pos as int));
        }
        self.proposals[pos].status = ProposalStatus::Settled;
        self.users[upos].with_active_proposal = false;
        proof {
            let ou = old_self.users@;
            let us = self.users@;
            assert forall|j: int| 0 <= j < ou.len() implies (#[trigger] us[j]) == if ou[j].id@ == caller@ {
                User { with_active_proposal: false, ..ou[j] }
            } else {
                ou[j]
            } by {
                if ou[j].id@ == caller@ {
                    assert(j == upos);
                }
            }
            Self::lemma_wf_frame(old_self, *self, pos as int, Some(caller@));
            assert(self.proposal_wf(pos as int));
        }
        Ok(self.proposals[pos].duplicate())
    }


    /// Why `pause_proposal` refuses, if it does.
    pub open spec fn pause_refusal(&self, caller: Seq<char>, proposal_id: i128) -> Option<ContractError> {
        if !self.has_proposal(proposal_id) {
            Some(ContractError::NotFound)
        } else if caller != self.admin_id() {
            Some(ContractError::Unauthorized)
        } else if self.proposal(proposal_id).status == ProposalStatus::Settled {
            Some(ContractError::ProposalNotOpen)
        } else {
            None
        }
    }

    /// Pauses the proposal `proposal_id` at the request of the administrator
    /// `caller`. A paused proposal takes no contribution and no reclaim; a
    /// settled one stays settled.
    pub fn pause_proposal(&mut self, caller: &String, proposal_id: i128) -> (r: Result<Proposal, ContractError>)
        requires
            old(self).wf(),
        ensures
            final(self).wf(),
            match r {
                Err(e) => {
                    &&& old(self).pause_refusal(caller@, proposal_id) == Some(e)
                    &&& *final(self) == *old(self)
                },
                Ok(p) => {
                    &&& old(self).pause_refusal(caller@, proposal_id).is_none()
                    &&& final(self).proposal_list() == old(self).proposal_list().update(
                        proposal_id - 1,
                        Proposal { status: ProposalStatus::Paused, ..old(self).proposal(proposal_id) },
                    )
                    &&& p.is_copy_of(&final(self).proposal(proposal_id))
                    &&& final(self).user_list() == old(self).user_list()
                    &&& steps_to(*old(self), *final(self))
                    &&& final(self).payment_list() == old(self).payment_list()
                    &&& final(self).contribution_list() == old(self).contribution_list()
                    &&& final(self).admin_id() == old(self).admin_id()
                },
            },
    {
        let n: usize = self.proposals.len();
        if proposal_id < 1 || proposal_id > n as i128 {
            return Err(ContractError::NotFound);
        }
        if !(*caller == self.admin) {
            return Err(ContractError::Unauthorized);
        }
        let pos = (proposal_id - 1) as usize;
        if self.proposals[pos].status == ProposalStatus::Settled {
            return Err(ContractError::ProposalNotOpen);
        }
        let ghost old_self = *self;
        self.proposals[pos].status = ProposalStatus::Paused;
        proof {
            let ps = self.proposals@;
            let ops = old_self.proposals@;
            Self::lemma_wf_frame(old_self, *self, pos as int, None);
            assert(old_self.proposal_wf(pos as int));
            assert forall|i: int, j: int| 0 <= i < ps.len() && 0 <= j < ps.len()
                && (#[trigger] ps[i]).status == ProposalStatus::Open
                && (#[trigger] ps[j]).status == ProposalStatus::Open
                && ps[i].user@ == ps[j].user@ implies i == j by {
                assert(ops[i].status == ProposalStatus::Open && ops[j].status == ProposalStatus::Open);
                assert(ops[i].user@ == ps[i].user@ && ops[j].user@ == ps[j].user@);
            }
            assert(self.user_list() == old_self.user_list());
        }
        Ok(self.proposals[pos].duplicate())
    }

    /// Registers `caller` if unknown and returns its account.
    pub fn login(&mut self, caller: &String) -> (u: User)
        requires
            old(self).wf(),
        ensures
            final(self).wf(),
            u.id@ == caller@,
            final(self).registered(caller@),
            forall|i: int| 0 <= i < final(self).user_list().len()
                && (#[trigger] final(self).user_list()[i]).id@ == caller@
                ==> u.is_copy_of(&final(self).user_list()[i]),
            old(self).registered(caller@) ==> *final(self) == *old(self),
            !old(self).registered(caller@) ==> steps_to(*old(self), *final(self)),
            !old(self).registered(caller@) ==> {
                let n = old(self).user_list().len();
                &&& final(self).user_list().len() == n + 1
                &&& final(self).user_list().subrange(0, n as int) == old(self).user_list()
                &&& u.contributions@.len() == 0
                &&& !u.with_active_proposal
                &&& u.rank == 0
                &&& u.picture@.len() == 0
                &&& final(self).proposal_list() == old(self).proposal_list()
                &&& final(self).contribution_list() == old(self).contribution_list()
                &&& final(self).payment_list() == old(self).payment_list()
                &&& final(self).admin_id() == old(self).admin_id()
            },
    {
        let upos = match self.find_user(caller) {
            Some(i) => i,
            None => {
                let ghost old_self = *self;
                self.users.push(User::new(caller.clone()));
                proof {
                    let ou = old_self.users@;
                    let us = self.users@;
                    assert(us.subrange(0, ou.len() as int) =~= ou);
                    Self::lemma_wf_frame(old_self, *self, -1, None);
                }
                self.users.len() - 1
            },
        };
        self.users[upos].duplicate()
    }

    /// The account `user_id`.
    pub fn get_user(&self, user_id: &String) -> (r: Result<User, ContractError>)
        requires
            self.wf(),
        ensures
            match r {
                Err(e) => e == ContractError::NotFound && !self.registered(user_id@),
                Ok(u) => {
                    &&& self.registered(user_id@)
                    &&& u.id@ == user_id@
                    &&& forall|i: int| 0 <= i < self.user_list().len()
                        && (#[trigger] self.user_list()[i]).id@ == user_id@
                        ==> u.is_copy_of(&self.user_list()[i])
                },
            },
    {
        match self.find_user(user_id) {
            Some(i) => Ok(self.users[i].duplicate()),
            None => Err(ContractError::NotFound),
        }
    }

    /// All accounts, in order of registration.
    pub fn get_users(&self) -> (r: Vec<User>)
        ensures
            r@.len() == self.user_list().len(),
            forall|i: int| 0 <= i < r@.len() ==> (#[trigger] r@[i]).is_copy_of(&self.user_list()[i]),
    {
        let mut r: Vec<User> = Vec::new();
        let mut i: usize = 0;
        while i < self.users.len()
            invariant
                i <= self.users@.len(),
                r@.len() == i,
                forall|j: int| 0 <= j < i ==> (#[trigger] r@[j]).is_copy_of(&self.users@[j]),
            decreases self.users@.len() - i,
        {
            r.push(self.users[i].duplicate());
            i = i + 1;
        }
        r
    }

    /// The proposal `proposal_id`.
    pub fn get_proposal(&self, proposal_id: i128) -> (r: Result<Proposal, ContractError>)
        ensures
            match r {
                Err(e) => e == ContractError::NotFound && !self.has_proposal(proposal_id),
                Ok(p) => self.has_proposal(proposal_id) && p.is_copy_of(&self.proposal(proposal_id)),
            },
    {
        let n: usize = self.proposals.len();
        if proposal_id < 1 || proposal_id > n as i128 {
            return Err(ContractError::NotFound);
        }
        Ok(self.proposals[(proposal_id - 1) as usize].duplicate())
    }

    /// All proposals, by id.
    pub fn get_proposals(&self) -> (r: Vec<Proposal>)
        ensures
            r@.len() == self.proposal_list().len(),
            forall|i: int| 0 <= i < r@.len() ==> (#[trigger] r@[i]).is_copy_of(&self.proposal_list()[i]),
    {
        let mut r: Vec<Proposal> = Vec::new();
        let mut i: usize = 0;
        while i < self.proposals.len()
            invariant
                i <= self.proposals@.len(),
                r@.len() == i,
                forall|j: int| 0 <= j < i ==> (#[trigger] r@[j]).is_copy_of(&self.proposals@[j]),
            decreases self.proposals@.len() - i,
        {
            r.push(self.proposals[i].duplicate());
            i = i + 1;
        }
        r
    }

    /// The funded percentage of the proposal `proposal_id`, rounded down.
    pub fn get_proposal_funds_percentage(&self, proposal_id: i128) -> (r: Result<u128, ContractError>)
        requires
            self.wf(),
        ensures
            match r {
                Err(e) => e == ContractError::NotFound && !self.has_proposal(proposal_id),
                Ok(v) => {
                    &&& self.has_proposal(proposal_id)
                    &&& v as int == percentage_of(
                        self.proposal(proposal_id).funds as int,
                        self.proposal(proposal_id).amount_needed as int,
                    )
                },
            },
    {
        let n: usize = self.proposals.len();
        if proposal_id < 1 || proposal_id > n as i128 {
            return Err(ContractError::NotFound);
        }
        let pos = (proposal_id - 1) as usize;
        proof {
            assert(self.proposal_wf(pos as int));
        }
        Ok(funds_percentage(self.proposals[pos].funds, self.proposals[pos].amount_needed))
    }

    /// An empty contract whose proposals `admin` may pause.
    pub fn new(admin: String) -> (r: ForMyFuture)
        ensures
            r.wf(),
            r.user_list().len() == 0,
            r.proposal_list().len() == 0,
            r.contribution_list().len() == 0,
            r.payment_list().len() == 0,
            r.admin_id() == admin@,
    {
        ForMyFuture {
            users: Vec::new(),
            proposals: Vec::new(),
            contributions: Vec::new(),
            payments: Vec::new(),
            admin,
        }
    }

}

impl Default for ForMyFuture {
    /// An empty contract administered by `DEFAULT_ADMIN`.
    fn default() -> (r: ForMyFuture)
        ensures
            r.wf(),
            r.user_list().len() == 0,
            r.proposal_list().len() == 0,
            r.contribution_list().len() == 0,
            r.payment_list().len() == 0,
            r.admin_id() == DEFAULT_ADMIN@,
    {
        ForMyFuture::new(DEFAULT_ADMIN.to_string())
    }
}

} // verus!
