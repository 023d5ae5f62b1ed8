//! The project lifecycle: submission against a commitment floor, votes on
//! tranche releases against the performance quorum, performance updates by
//! an authority, and liquidation of the bond.
//!
//! Projects live in an owning store indexed by their id; ids are handed out
//! in order from zero and never reused. The bond itself is held by a ledger
//! that the caller supplies.
use vstd::prelude::*;
use crate::quorum::{performance_quorum, performance_quorum_spec, QuorumCurve};
use crate::fixed_point::SCALE;

verus! {

/// An account identity.
pub type AccountId = u64;

/// The score that a new project starts with.
pub const BASELINE_PERFORMANCE: u8 = 100;

/// The highest performance score.
pub const MAX_PERFORMANCE: u8 = 100;

/// A performance score below this liquidates the project.
pub const LIQUIDATION_THRESHOLD: u8 = 50;

/// One unit of the native token.
pub const TOKEN_UNIT: u128 = 1_000_000_000_000;

/// Default commitment depth below which a founder may not submit.
pub const MIN_SUBMISSION_DEPTH: u64 = 10;

/// Default depth at which a founder may request the full capacity.
pub const FULL_CAPACITY_DEPTH: u64 = 250;

/// Default largest grant: 10,000 tokens.
pub const MAX_GRANT_CAPACITY: u128 = 10_000_000_000_000_000;

/// Default bond: 300 tokens.
pub const BUILDER_BOND: u128 = 300_000_000_000_000;

/// The ledger that holds bonds. Its answers are outside this engine's
/// control: the engine is correct whatever they are.
pub trait BondLedger {
    /// Reserves `amount` from `who`; `false` when it could not.
    fn reserve(&mut self, who: AccountId, amount: u128) -> bool;

    /// Forfeits the `amount` that was reserved from `who`.
    fn forfeit(&mut self, who: AccountId, amount: u128);
}

/// Why an operation was refused. A refused operation changes nothing.
#[derive(Debug, Clone, Copy, PartialEq, Eq, Structural)]
pub enum GrantError {
    CommitmentFloorNotMet,
    BondReservationFailed,
    ProjectNotFound,
    ScoreOutOfRange,
    Unauthorized,
    QuorumNotMet,
    ProjectAlreadyLiquidated,
}

/// The engine's fixed parameters.
#[derive(Debug, Clone, Copy, PartialEq, Eq, Structural)]
pub struct EngineConfig {
    /// The least commitment depth that may submit.
    pub min_depth: u64,
    /// The depth from which the full capacity is granted.
    pub full_capacity_depth: u64,
    /// The largest grant capacity.
    pub max_grant_capacity: u128,
    /// The bond reserved at each submission.
    pub bond_amount: u128,
    /// The account allowed to update performance and to liquidate.
    pub authority: AccountId,
}

impl EngineConfig {
    /// The capacity interpolation has a positive span and cannot overflow.
    pub open spec fn wf(self) -> bool {
        self.full_capacity_depth > 0 && self.max_grant_capacity <= u64::MAX
    }

    /// The default parameters, with `authority` as the authority.
    pub fn standard(authority: AccountId) -> (c: EngineConfig)
        ensures
            c.wf(),
            c.min_depth == MIN_SUBMISSION_DEPTH,
            c.full_capacity_depth == FULL_CAPACITY_DEPTH,
            c.max_grant_capacity == MAX_GRANT_CAPACITY,
            c.bond_amount == BUILDER_BOND,
            c.authority == authority,
    {
        EngineConfig {
            min_depth: MIN_SUBMISSION_DEPTH,
            full_capacity_depth: FULL_CAPACITY_DEPTH,
            max_grant_capacity: MAX_GRANT_CAPACITY,
            bond_amount: BUILDER_BOND,
            authority,
        }
    }

    /// Capacity grows linearly from 0 at depth 0 to the cap at the full
    /// depth, and stays at the cap beyond it.
    pub open spec fn capacity_spec(self, depth: int) -> int {
        if depth >= self.full_capacity_depth {
            self.max_grant_capacity as int
        } else {
            self.max_grant_capacity * depth / self.full_capacity_depth as int
        }
    }

    /// The grant capacity of a founder with commitment `depth`.
    pub fn capacity_for(&self, depth: u64) -> (r: u128)
        requires
            self.wf(),
        ensures
            r as int == self.capacity_spec(depth as int),
            r <= self.max_grant_capacity,
    {
        if depth >= self.full_capacity_depth {
            self.max_grant_capacity
        } else {
            proof {
                let c = self.max_grant_capacity as int;
                let d = depth as int;
                let f = self.full_capacity_depth as int;
                assert(c * d <= u64::MAX as int * u64::MAX as int) by (nonlinear_arith)
                    requires 0 <= c <= u64::MAX, 0 <= d <= u64::MAX;
                assert(c * d / f <= c) by (nonlinear_arith)
                    requires 0 <= c, 0 <= d < f;
            }
            self.max_grant_capacity * depth as u128 / self.full_capacity_depth as u128
        }
    }
}

/// A submitted project.
#[derive(Debug, Clone, Copy, PartialEq, Eq, Structural)]
pub struct Project {
    pub id: u64,
    pub founder: AccountId,
    /// In `[0, 100]`.
    pub performance_score: u8,
    pub max_grant_capacity: u128,
    pub bond_amount: u128,
    /// Terminal once set.
    pub is_liquidated: bool,
}

impl Project {
    /// The same project, liquidated.
    pub open spec fn liquidated(self) -> Project {
        Project { is_liquidated: true, ..self }
    }
}

/// The store of projects and the rules that change them.
pub struct GrantEngine {
    config: EngineConfig,
    projects: Vec<Project>,
}

impl GrantEngine {
    /// The projects, in the order of their ids.
    pub closed spec fn view(&self) -> Seq<Project> {
        self.projects@
    }

    /// The engine's parameters.
    pub closed spec fn config_spec(&self) -> EngineConfig {
        self.config
    }

    /// Each project sits at the index of its id and has a score in range.
    pub open spec fn wf(&self) -> bool {
        &&& self.config_spec().wf()
        &&& self@.len() <= u64::MAX
        &&& forall|i: int|
            0 <= i < self@.len() ==> {
                &&& #[trigger] self@[i].id == i
                &&& self@[i].performance_score <= MAX_PERFORMANCE
            }
    }

    /// An engine with no project.
    pub fn new(config: EngineConfig) -> (e: GrantEngine)
        requires
            config.wf(),
        ensures
            e.wf(),
            e@.len() == 0,
            e.config_spec() == config,
    {
        GrantEngine { config, projects: Vec::new() }
    }

    /// The engine's parameters.
    pub fn config(&self) -> (c: EngineConfig)
        ensures
            c == self.config_spec(),
    {
        self.config
    }

    /// The number of projects ever submitted; the next id.
    pub fn project_count(&self) -> (n: usize)
        ensures
            n == self@.len(),
    {
        self.projects.len()
    }

    /// The index at which project `id` is stored, if it exists.
    fn index_of(&self, id: u64) -> (r: Option<usize>)
        ensures
            id < self@.len() ==> r == Some(id as usize) && id as usize as int == id as int,
            id >= self@.len() ==> r is None,
    {
        let n = self.projects.len();
        if id < n as u64 {
            Some(id as usize)
        } else {
            None
        }
    }

    /// The project with id `id`, if any.
    pub fn get_project(&self, id: u64) -> (r: Option<Project>)
        ensures
            id < self@.len() ==> r == Some(self@[id as int]),
            id >= self@.len() ==> r is None,
    {
        match self.index_of(id) {
            Some(i) => Some(self.projects[i]),
            None => None,
        }
    }

    /// The project that a successful submission creates.
    pub open spec fn new_project(&self, founder: AccountId, depth: int) -> Project {
        Project {
            id: self@.len() as u64,
            founder,
            performance_score: BASELINE_PERFORMANCE,
            max_grant_capacity: self.config_spec().capacity_spec(depth) as u128,
            bond_amount: self.config_spec().bond_amount,
            is_liquidated: false,
        }
    }

    /// The reservation that a submission by `founder` at `depth` asks of the
    /// ledger: the founder and the configured bond, or nothing below the
    /// commitment floor.
    pub fn bond_request(&self, founder: AccountId, depth: u64) -> (r: Option<(AccountId, u128)>)
        ensures
            depth < self.config_spec().min_depth ==> r is None,
            depth >= self.config_spec().min_depth ==> r == Some(
                (founder, self.config_spec().bond_amount),
            ),
    {
        if depth < self.config.min_depth {
            None
        } else {
            Some((founder, self.config.bond_amount))
        }
    }

    /// Records a submission at or above the floor once the ledger has
    /// answered the bond reservation: the project is created exactly when
    /// the bond was reserved.
    pub fn record_submission(&mut self, founder: AccountId, depth: u64, reserved: bool) -> (r:
        Result<u64, GrantError>)
        requires
            old(self).wf(),
            old(self)@.len() < u64::MAX,
            depth >= old(self).config_spec().min_depth,
        ensures
            final(self).wf(),
            final(self).config_spec() == old(self).config_spec(),
            reserved ==> r == Ok::<u64, GrantError>(old(self)@.len() as u64) && final(self)@
                == old(self)@.push(old(self).new_project(founder, depth as int)),
            !reserved ==> r == Err::<u64, GrantError>(GrantError::BondReservationFailed)
                && final(self)@ == old(self)@,
    {
        if !reserved {
            return Err(GrantError::BondReservationFailed);
        }
        let capacity = self.config.capacity_for(depth);
        let id = self.projects.len() as u64;
        let p = Project {
            id,
            founder,
            performance_score: BASELINE_PERFORMANCE,
            max_grant_capacity: capacity,
            bond_amount: self.config.bond_amount,
            is_liquidated: false,
        };
        self.projects.push(p);
        proof {
            assert forall|i: int| 0 <= i < self@.len() implies #[trigger] self@[i].id == i
                && self@[i].performance_score <= MAX_PERFORMANCE by {
                if i < old(self)@.len() {
                    assert(self@[i] == old(self)@[i]);
                }
            }
            assert(self.config_spec().wf());
            assert(self@.len() == old(self)@.len() + 1);
            assert(self@.len() <= u64::MAX);
            assert(self.wf());
        }
        Ok(id)
    }

    /// Submits a project for `founder`, whose commitment depth is `depth`.
    /// Below the floor nothing happens, the ledger included; otherwise the
    /// request of `bond_request` goes to the ledger, and `record_submission`
    /// creates the project exactly when the ledger reserved the bond.
    pub fn submit_proposal<L: BondLedger>(
        &mut self,
        ledger: &mut L,
        founder: AccountId,
        depth: u64,
    ) -> (r: Result<u64, GrantError>)
        requires
            old(self).wf(),
            old(self)@.len() < u64::MAX,
        ensures
            final(self).wf(),
            final(self).config_spec() == old(self).config_spec(),
            depth < old(self).config_spec().min_depth ==> {
                &&& r == Err::<u64, GrantError>(GrantError::CommitmentFloorNotMet)
                &&& final(self)@ == old(self)@
                &&& *final(ledger) == *old(ledger)
            },
            depth >= old(self).config_spec().min_depth ==> {
                ||| (r == Err::<u64, GrantError>(GrantError::BondReservationFailed)
                    && final(self)@ == old(self)@)
                ||| (r == Ok::<u64, GrantError>(old(self)@.len() as u64)
                    && final(self)@ == old(self)@.push(old(self).new_project(founder, depth as int)))
            },
    {
        let (who, amount) = match self.bond_request(founder, depth) {
            Some(req) => req,
            None => {
                return Err(GrantError::CommitmentFloorNotMet);
            },
        };
        let reserved = ledger.reserve(who, amount);
        self.record_submission(founder, depth, reserved)
    }

    /// What liquidating project `id` forfeits: its founder and its full
    /// bond, or nothing when the project is unknown or liquidated already.
    pub open spec fn forfeit_request_spec(&self, id: int) -> Option<(AccountId, u128)> {
        if 0 <= id < self@.len() && !self@[id].is_liquidated {
            Some((self@[id].founder, self@[id].bond_amount))
        } else {
            None
        }
    }

    /// The forfeit that liquidating project `id` hands to the ledger.
    pub fn forfeit_request(&self, id: u64) -> (r: Option<(AccountId, u128)>)
        ensures
            r == self.forfeit_request_spec(id as int),
    {
        match self.get_project(id) {
            Some(p) => {
                if p.is_liquidated {
                    None
                } else {
                    Some((p.founder, p.bond_amount))
                }
            },
            None => None,
        }
    }

    /// The outcome of a vote on releasing a tranche of project `id` with
    /// `approval` percent in favour, approvals above 100 counting as 100.
    pub open spec fn vote_spec(&self, id: int, approval: int) -> Result<u8, GrantError> {
        if id >= self@.len() {
            Err(GrantError::ProjectNotFound)
        } else if self@[id].is_liquidated {
            Err(GrantError::ProjectAlreadyLiquidated)
        } else {
            let a = if approval > 100 { 100 } else { approval };
            let q = performance_quorum_spec(self@[id].performance_score as int);
            if a >= q {
                Ok(q as u8)
            } else {
                Err(GrantError::QuorumNotMet)
            }
        }
    }

    /// Checks a vote on releasing a tranche of project `id` against the
    /// quorum that the project's current score requires. `Ok` carries that
    /// quorum. The project is never changed.
    pub fn vote_on_tranche_release(&self, id: u64, approval: u8) -> (r: Result<u8, GrantError>)
        requires
            self.wf(),
        ensures
            r == self.vote_spec(id as int, approval as int),
            id < self@.len() && !self@[id as int].is_liquidated ==> {
                let q = performance_quorum_spec(self@[id as int].performance_score as int);
                let a = if approval > 100 { 100 } else { approval as int };
                &&& a >= q ==> r == Ok::<u8, GrantError>(q as u8)
                &&& a < q ==> r == Err::<u8, GrantError>(GrantError::QuorumNotMet)
            },
    {
        let p = match self.get_project(id) {
            Some(p) => p,
            None => {
                return Err(GrantError::ProjectNotFound);
            },
        };
        if p.is_liquidated {
            return Err(GrantError::ProjectAlreadyLiquidated);
        }
        let a: u8 = if approval > 100 { 100 } else { approval };
        let q = performance_quorum(p.performance_score);
        if a >= q {
            Ok(q)
        } else {
            Err(GrantError::QuorumNotMet)
        }
    }

    /// The outcome of a vote on project `id` under the depth curve, where
    /// `depth` is the founder's current commitment depth and the approval is
    /// a fixed-point fraction, values above `SCALE` counting as `SCALE`.
    pub open spec fn depth_vote_spec(
        &self,
        curve: QuorumCurve,
        id: int,
        depth: int,
        approval_scaled: int,
    ) -> Result<u128, GrantError> {
        if id >= self@.len() {
            Err(GrantError::ProjectNotFound)
        } else if self@[id].is_liquidated {
            Err(GrantError::ProjectAlreadyLiquidated)
        } else {
            let a = if approval_scaled > SCALE { SCALE as int } else { approval_scaled };
            let q = curve.quorum_at(depth);
            if a >= q {
                Ok(q as u128)
            } else {
                Err(GrantError::QuorumNotMet)
            }
        }
    }

    /// Checks a vote on releasing a tranche of project `id` against the
    /// depth curve's quorum at the founder's current `depth`. `Ok` carries
    /// that quorum. The project is never changed.
    pub fn vote_on_tranche_release_by_depth(
        &self,
        curve: &QuorumCurve,
        id: u64,
        depth: u64,
        approval_scaled: u128,
    ) -> (r: Result<u128, GrantError>)
        requires
            self.wf(),
            curve.wf(),
        ensures
            r == self.depth_vote_spec(*curve, id as int, depth as int, approval_scaled as int),
    {
        let p = match self.get_project(id) {
            Some(p) => p,
            None => {
                return Err(GrantError::ProjectNotFound);
            },
        };
        if p.is_liquidated {
            return Err(GrantError::ProjectAlreadyLiquidated);
        }
        let a: u128 = if approval_scaled > SCALE { SCALE } else { approval_scaled };
        let q = curve.required_quorum(depth);
        if a >= q {
            Ok(q)
        } else {
            Err(GrantError::QuorumNotMet)
        }
    }

    /// The projects after a performance update, and what the update returns:
    /// `Ok(true)` when the new score liquidated the project.
    pub open spec fn update_spec(&self, caller: AccountId, id: int, score: int) -> (
        Seq<Project>,
        Result<bool, GrantError>,
    ) {
        if caller != self.config_spec().authority {
            (self@, Err(GrantError::Unauthorized))
        } else if score > MAX_PERFORMANCE {
            (self@, Err(GrantError::ScoreOutOfRange))
        } else if id < 0 || id >= self@.len() {
            (self@, Err(GrantError::ProjectNotFound))
        } else if self@[id].is_liquidated {
            (self@, Err(GrantError::ProjectAlreadyLiquidated))
        } else {
            let p = Project { performance_score: score as u8, ..self@[id] };
            if score < LIQUIDATION_THRESHOLD {
                (self@.update(id, p.liquidated()), Ok(true))
            } else {
                (self@.update(id, p), Ok(false))
            }
        }
    }

    /// Sets the performance score of project `id`; a score below the
    /// liquidation threshold liquidates the project in the same step and
    /// hands its `forfeit_request` to the ledger.
    pub fn update_performance<L: BondLedger>(
        &mut self,
        ledger: &mut L,
        caller: AccountId,
        id: u64,
        score: u8,
    ) -> (r: Result<bool, GrantError>)
        requires
            old(self).wf(),
        ensures
            final(self).wf(),
            final(self).config_spec() == old(self).config_spec(),
            (final(self)@, r) == old(self).update_spec(caller, id as int, score as int),
            r == Ok::<bool, GrantError>(true) ==> old(self).forfeit_request_spec(id as int) == Some(
                (old(self)@[id as int].founder, old(self)@[id as int].bond_amount),
            ),
            r != Ok::<bool, GrantError>(true) ==> *final(ledger) == *old(ledger),
    {
        if caller != self.config.authority {
            return Err(GrantError::Unauthorized);
        }
        if score > MAX_PERFORMANCE {
            return Err(GrantError::ScoreOutOfRange);
        }
        let i = match self.index_of(id) {
            Some(i) => i,
            None => {
                return Err(GrantError::ProjectNotFound);
            },
        };
        let p = self.projects[i];
        if p.is_liquidated {
            return Err(GrantError::ProjectAlreadyLiquidated);
        }
        let forfeit = self.forfeit_request(id);
        let liquidate = score < LIQUIDATION_THRESHOLD;
        let updated = Project { performance_score: score, is_liquidated: liquidate, ..p };
        self.projects.set(i, updated);
        if liquidate {
            if let Some((who, amount)) = forfeit {
                ledger.forfeit(who, amount);
            }
        }
        proof {
            assert(self@ =~= old(self).update_spec(caller, id as int, score as int).0);
            assert forall|j: int| 0 <= j < self@.len() implies #[trigger] self@[j].id == j
                && self@[j].performance_score <= MAX_PERFORMANCE by {
                if j != i {
                    assert(self@[j] == old(self)@[j]);
                }
            }
            assert(self.wf());
        }
        Ok(liquidate)
    }

    /// The projects after a liquidation of project `id`, and what it returns:
    /// `Ok(false)` when the project was liquidated already.
    pub open spec fn liquidate_spec(&self, caller: AccountId, id: int) -> (
        Seq<Project>,
        Result<bool, GrantError>,
    ) {
        if caller != self.config_spec().authority {
            (self@, Err(GrantError::Unauthorized))
        } else if id < 0 || id >= self@.len() {
            (self@, Err(GrantError::ProjectNotFound))
        } else if self@[id].is_liquidated {
            (self@, Ok(false))
        } else {
            (self@.update(id, self@[id].liquidated()), Ok(true))
        }
    }

    /// Liquidates project `id` and hands its `forfeit_request` to the ledger;
    /// a project already liquidated is left as it is, the ledger untouched.
    pub fn liquidate<L: BondLedger>(&mut self, ledger: &mut L, caller: AccountId, id: u64) -> (r:
        Result<bool, GrantError>)
        requires
            old(self).wf(),
        ensures
            final(self).wf(),
            final(self).config_spec() == old(self).config_spec(),
            (final(self)@, r) == old(self).liquidate_spec(caller, id as int),
            r == Ok::<bool, GrantError>(true) ==> old(self).forfeit_request_spec(id as int) == Some(
                (old(self)@[id as int].founder, old(self)@[id as int].bond_amount),
            ),
            r != Ok::<bool, GrantError>(true) ==> *final(ledger) == *old(ledger),
    {
        if caller != self.config.authority {
            return Err(GrantError::Unauthorized);
        }
        let i = match self.index_of(id) {
            Some(i) => i,
            None => {
                return Err(GrantError::ProjectNotFound);
            },
        };
        let p = self.projects[i];
        if p.is_liquidated {
            return Ok(false);
        }
        let forfeit = self.forfeit_request(id);
        self.projects.set(i, Project { is_liquidated: true, ..p });
        if let Some((who, amount)) = forfeit {
            ledger.forfeit(who, amount);
        }
        proof {
            assert(self@ =~= old(self).liquidate_spec(caller, id as int).0);
        }
        Ok(true)
    }
}

/// An update by the authority to a score below the liquidation threshold
/// liquidates the project in the same step and forfeits its full bond to
/// the founder's account; on the engine that results, nothing more is
/// forfeited, and votes and further updates of that project are refused as
/// already liquidated.
pub proof fn lemma_low_score_liquidates(
    e: GrantEngine,
    after: GrantEngine,
    id: int,
    score: int,
    approval: int,
    score2: int,
)
    requires
        e.wf(),
        0 <= id < e@.len(),
        !e@[id].is_liquidated,
        0 <= score < LIQUIDATION_THRESHOLD,
        0 <= score2 <= MAX_PERFORMANCE,
        after.config_spec() == e.config_spec(),
        after@ == e.update_spec(e.config_spec().authority, id, score).0,
    ensures
        e.update_spec(e.config_spec().authority, id, score).1 == Ok::<bool, GrantError>(true),
        after@[id].is_liquidated,
        after@[id].bond_amount == e@[id].bond_amount,
        e.forfeit_request_spec(id) == Some((e@[id].founder, e@[id].bond_amount)),
        after.forfeit_request_spec(id) is None,
        after.vote_spec(id, approval) == Err::<u8, GrantError>(
            GrantError::ProjectAlreadyLiquidated,
        ),
        after.update_spec(after.config_spec().authority, id, score2) == (
            after@,
            Err::<bool, GrantError>(GrantError::ProjectAlreadyLiquidated),
        ),
{
}

/// Liquidating a project that is already liquidated changes nothing and is
/// no error.
pub proof fn lemma_liquidation_idempotent(e: GrantEngine, after: GrantEngine, caller: AccountId, id: int)
    requires
        e.wf(),
        e.liquidate_spec(caller, id).1 is Ok,
        after.config_spec() == e.config_spec(),
        after@ == e.liquidate_spec(caller, id).0,
    ensures
        after.liquidate_spec(caller, id) == (after@, Ok::<bool, GrantError>(false)),
{
}

} // verus!
