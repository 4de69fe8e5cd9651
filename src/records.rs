//! The records the contract keeps: users, proposals, contributions and
//! payments, and the errors its operations report.
use vstd::prelude::*;

verus! {

/// Where a proposal stands. `Open` is the initial state; `Settled` and
/// `Paused` are terminal.
#[derive(PartialEq, Eq, Structural, Clone, Copy, Debug)]
pub enum ProposalStatus {
    Open,
    Settled,
    Paused,
}

/// Why an operation was refused. A refused operation changes nothing.
#[derive(PartialEq, Eq, Structural, Clone, Copy, Debug)]
pub enum ContractError {
    NotFound,
    UnknownCaller,
    InvalidAmount,
    AlreadyHasActiveProposal,
    Unauthorized,
    ProposalNotOpen,
    ProposalExpired,
    OverContribution,
    NotReclaimable,
    ThresholdNotMet,
    TransferFailed,
}

/// A contribution made to a proposal. Never changed once recorded.
#[derive(Debug)]
pub struct Contribution {
    pub contribution_id: i128,
    pub proposal_id: i128,
    pub amount: u128,
    /// Owner of the proposal when the contribution was made.
    pub to: String,
    /// The contributor.
    pub by: String,
    /// Ledger time of the contribution.
    pub date: u64,
    pub comments: String,
}

/// A transfer record. Kept in storage; no operation fills it yet.
#[derive(Debug)]
pub struct Payment {
    pub to: String,
    pub by: String,
    pub amount: u128,
    pub date: String,
    pub pay_type: String,
}

/// A registered account.
#[derive(Debug)]
pub struct User {
    pub id: String,
    /// Copies of the contributions this user made, oldest first.
    pub contributions: Vec<Contribution>,
    pub with_active_proposal: bool,
    pub rank: i128,
    pub picture: String,
}

/// A funding request.
#[derive(Debug)]
pub struct Proposal {
    /// The owner.
    pub user: String,
    pub amount_needed: u128,
    /// Sum of the contributions received.
    pub funds: u128,
    pub title: String,
    pub description: String,
    pub goal: String,
    pub link_institution: String,
    pub link_pensum: String,
    /// Ledger time of creation.
    pub init_date: u64,
    /// Contributions are accepted strictly before this ledger time.
    pub finish_date: u64,
    pub pics: Vec<String>,
    pub status: ProposalStatus,
    /// Position of the proposal in the registry, counting from 1.
    pub index: i128,
    pub is_reclaimable: bool,
}

/// What a successful reclaim pays out: `amount` to the account `to`.
#[derive(Debug)]
pub struct Payout {
    pub to: String,
    pub amount: u128,
}

fn copy_strings(v: &Vec<String>) -> (r: Vec<String>)
    ensures
        r@ == v@,
{
    let mut r: Vec<String> = Vec::new();
    let mut i: usize = 0;
    while i < v.len()
        invariant
            i <= v.len(),
            r@ == v@.subrange(0, i as int),
        decreases v.len() - i,
    {
        r.push(v[i].clone());
        i = i + 1;
    }
    assert(r@ =~= v@);
    r
}

impl Contribution {
    /// An equal copy of this contribution.
    pub fn duplicate(&self) -> (r: Contribution)
        ensures
            r == *self,
    {
        Contribution {
            contribution_id: self.contribution_id,
            proposal_id: self.proposal_id,
            amount: self.amount,
            to: self.to.clone(),
            by: self.by.clone(),
            date: self.date,
            comments: self.comments.clone(),
        }
    }
}

/// An equal copy of a list of contributions.
pub fn copy_contributions(v: &Vec<Contribution>) -> (r: Vec<Contribution>)
    ensures
        r@ == v@,
{
    let mut r: Vec<Contribution> = Vec::new();
    let mut i: usize = 0;
    while i < v.len()
        invariant
            i <= v.len(),
            r@ == v@.subrange(0, i as int),
        decreases v.len() - i,
    {
        r.push(v[i].duplicate());
        i = i + 1;
    }
    assert(r@ =~= v@);
    r
}

impl User {
    /// Whether `self` holds the same values as `o`.
    pub open spec fn is_copy_of(&self, o: &User) -> bool {
        &&& self.id == o.id
        &&& self.contributions@ == o.contributions@
        &&& self.with_active_proposal == o.with_active_proposal
        &&& self.rank == o.rank
        &&& self.picture == o.picture
    }

    /// A newly registered account with no history.
    pub fn new(id: String) -> (r: User)
        ensures
            r.id == id,
            r.contributions@.len() == 0,
            !r.with_active_proposal,
            r.rank == 0,
            r.picture@.len() == 0,
    {
        User {
            id,
            contributions: Vec::new(),
            with_active_proposal: false,
            rank: 0,
            picture: String::new(),
        }
    }

    /// A copy of this user.
    pub fn duplicate(&self) -> (r: User)
        ensures
            r.is_copy_of(self),
    {
        User {
            id: self.id.clone(),
            contributions: copy_contributions(&self.contributions),
            with_active_proposal: self.with_active_proposal,
            rank: self.rank,
            picture: self.picture.clone(),
        }
    }
}

impl Proposal {
    /// Whether `self` holds the same values as `o`.
    pub open spec fn is_copy_of(&self, o: &Proposal) -> bool {
        &&& self.user == o.user
        &&& self.amount_needed == o.amount_needed
        &&& self.funds == o.funds
        &&& self.title == o.title
        &&& self.description == o.description
        &&& self.goal == o.goal
        &&& self.link_institution == o.link_institution
        &&& self.link_pensum == o.link_pensum
        &&& self.init_date == o.init_date
        &&& self.finish_date == o.finish_date
        &&& self.pics@ == o.pics@
        &&& self.status == o.status
        &&& self.index == o.index
        &&& self.is_reclaimable == o.is_reclaimable
    }

    /// A copy of this proposal.
    pub fn duplicate(&self) -> (r: Proposal)
        ensures
            r.is_copy_of(self),
    {
        Proposal {
            user: self.user.clone(),
            amount_needed: self.amount_needed,
            funds: self.funds,
            title: self.title.clone(),
            description: self.description.clone(),
            goal: self.goal.clone(),
            link_institution: self.link_institution.clone(),
            link_pensum: self.link_pensum.clone(),
            init_date: self.init_date,
            finish_date: self.finish_date,
            pics: copy_strings(&self.pics),
            status: self.status,
            index: self.index,
            is_reclaimable: self.is_reclaimable,
        }
    }
}

} // verus!
