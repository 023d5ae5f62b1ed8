//! Milestone-paid grants: each milestone is scored from verifiable data and
//! the score alone decides between paying the next tranche and liquidating
//! the builder's bond.
use vstd::prelude::*;

verus! {

/// The lowest milestone score that releases a tranche.
pub const D_METRIC_PASS_SCORE: u8 = 75;

/// A grant paid out in equal tranches, one per completed milestone.
#[derive(Debug, Clone, Copy)]
pub struct Grant {
    /// The builder's public key.
    pub builder: [u8; 32],
    /// The key of the governance authority that may liquidate the grant.
    pub dao_authority: [u8; 32],
    pub total_grant_amount: u64,
    pub builder_bond_amount: u64,
    pub tranches_completed: u8,
    pub total_tranches: u8,
    /// Once set, no further tranche is paid.
    pub is_liquidated: bool,
}

/// Why a milestone was not paid.
#[derive(Debug, Clone, Copy, PartialEq, Eq, Structural)]
pub enum DGEError {
    /// The milestone scored below the pass score; the grant is now liquidated.
    DMetricFailed,
    /// The grant was liquidated earlier.
    GrantLiquidated,
    /// The index is not the one after the last completed milestone, or a
    /// passing milestone lies beyond the last tranche.
    MilestoneOutOfOrder,
    /// The signer is not the grant's governance authority.
    Unauthorized,
}

impl Grant {
    /// No more milestones are completed than there are tranches.
    pub open spec fn wf(self) -> bool {
        self.tranches_completed <= self.total_tranches
    }

    /// The same grant, liquidated.
    pub open spec fn liquidated(self) -> Grant {
        Grant { is_liquidated: true, ..self }
    }

    /// The amount of each tranche; any remainder of the division is not paid.
    pub open spec fn tranche_amount(self) -> int {
        self.total_grant_amount as int / self.total_tranches as int
    }

    /// The grant after a milestone submission, and what the submission
    /// returns.
    pub open spec fn after_milestone(self, index: int, data: int) -> (Grant, Result<u64, DGEError>) {
        if self.is_liquidated {
            (self, Err(DGEError::GrantLiquidated))
        } else if index != self.tranches_completed + 1 {
            (self, Err(DGEError::MilestoneOutOfOrder))
        } else if d_metric_spec(data) < D_METRIC_PASS_SCORE {
            (self.liquidated(), Err(DGEError::DMetricFailed))
        } else if index > self.total_tranches {
            (self, Err(DGEError::MilestoneOutOfOrder))
        } else {
            (
                Grant { tranches_completed: index as u8, ..self },
                Ok(self.tranche_amount() as u64),
            )
        }
    }
}

/// The milestone score of the verifiable data: 95 from 1000 up, 80 from 500
/// up, 60 below.
pub open spec fn d_metric_spec(data: int) -> int {
    if data >= 1000 {
        95
    } else if data >= 500 {
        80
    } else {
        60
    }
}

/// Scores a milestone from its verifiable on-chain data.
pub fn calculate_d_metric(metric_data: u64) -> (r: u8)
    ensures
        r as int == d_metric_spec(metric_data as int),
{
    if metric_data >= 1000 {
        95
    } else if metric_data >= 500 {
        80
    } else {
        60
    }
}

/// Whether two keys are the same.
pub fn same_key(a: &[u8; 32], b: &[u8; 32]) -> (r: bool)
    ensures
        r == (a@ == b@),
{
    let mut i: usize = 0;
    while i < 32
        invariant
            0 <= i <= 32,
            a@.len() == 32,
            b@.len() == 32,
            forall|j: int| 0 <= j < i ==> a@[j] == b@[j],
        decreases 32 - i,
    {
        if a[i] != b[i] {
            return false;
        }
        i = i + 1;
    }
    assert(a@ =~= b@);
    true
}

/// A new grant with no milestone completed.
pub fn initialize_grant(
    builder: [u8; 32],
    dao_authority: [u8; 32],
    total_grant_amount: u64,
    milestone_tranches: u8,
    builder_bond_amount: u64,
) -> (g: Grant)
    ensures
        g.builder == builder,
        g.dao_authority == dao_authority,
        g.total_grant_amount == total_grant_amount,
        g.builder_bond_amount == builder_bond_amount,
        g.tranches_completed == 0,
        g.total_tranches == milestone_tranches,
        !g.is_liquidated,
        g.wf(),
{
    Grant {
        builder,
        dao_authority,
        total_grant_amount,
        builder_bond_amount,
        tranches_completed: 0,
        total_tranches: milestone_tranches,
        is_liquidated: false,
    }
}

/// Submits milestone `milestone_index` with its verifiable data. On success
/// the milestone counts as completed and the tranche amount to transfer is
/// returned; a failing score liquidates the grant and is reported as
/// `DMetricFailed`.
pub fn complete_milestone_and_payout(
    grant: &mut Grant,
    milestone_index: u8,
    on_chain_metric_data: u64,
) -> (r: Result<u64, DGEError>)
    requires
        old(grant).wf(),
    ensures
        (*final(grant), r) == old(grant).after_milestone(
            milestone_index as int,
            on_chain_metric_data as int,
        ),
        final(grant).wf(),
{
    if grant.is_liquidated {
        return Err(DGEError::GrantLiquidated);
    }
    if milestone_index as u16 != grant.tranches_completed as u16 + 1 {
        return Err(DGEError::MilestoneOutOfOrder);
    }
    let d_metric_score = calculate_d_metric(on_chain_metric_data);
    if d_metric_score < D_METRIC_PASS_SCORE {
        grant.is_liquidated = true;
        return Err(DGEError::DMetricFailed);
    }
    if milestone_index > grant.total_tranches {
        return Err(DGEError::MilestoneOutOfOrder);
    }
    grant.tranches_completed = milestone_index;
    let tranche_amount = grant.total_grant_amount / grant.total_tranches as u64;
    Ok(tranche_amount)
}

/// The grant after `signer` asks to liquidate it, and what the request
/// returns: the bond forfeited, or `None` when the grant was liquidated
/// already.
pub open spec fn liquidation_spec(g: Grant, signer: Seq<u8>) -> (Grant, Result<Option<u64>, DGEError>) {
    if signer != g.dao_authority@ {
        (g, Err(DGEError::Unauthorized))
    } else if g.is_liquidated {
        (g, Ok(None))
    } else {
        (g.liquidated(), Ok(Some(g.builder_bond_amount)))
    }
}

/// Liquidates the grant on behalf of its governance authority and returns
/// the full bond to forfeit; a grant already liquidated stays as it is and
/// nothing is forfeited again.
pub fn liquidate_bond(grant: &mut Grant, signer: &[u8; 32]) -> (r: Result<Option<u64>, DGEError>)
    ensures
        (*final(grant), r) == liquidation_spec(*old(grant), signer@),
{
    if !same_key(signer, &grant.dao_authority) {
        return Err(DGEError::Unauthorized);
    }
    if grant.is_liquidated {
        return Ok(None);
    }
    grant.is_liquidated = true;
    Ok(Some(grant.builder_bond_amount))
}

/// Completing the same milestone a second time is out of order, and pays
/// nothing.
pub proof fn lemma_repeated_milestone_rejected(g: Grant, index: int, data: int, data2: int)
    requires
        g.wf(),
        g.after_milestone(index, data).1 is Ok,
    ensures
        g.after_milestone(index, data).0.after_milestone(index, data2).1
            == Err::<u64, DGEError>(DGEError::MilestoneOutOfOrder),
{
}

/// A milestone whose index is not the next one is rejected and leaves the
/// grant unchanged.
pub proof fn lemma_skipped_milestone_rejected(g: Grant, index: int, data: int)
    requires
        g.wf(),
        !g.is_liquidated,
        index != g.tranches_completed + 1,
    ensures
        g.after_milestone(index, data) == (g, Err::<u64, DGEError>(DGEError::MilestoneOutOfOrder)),
{
}

/// A milestone that scores below the pass score liquidates the grant, and
/// every later milestone is refused as liquidated, whatever its data.
pub proof fn lemma_failed_milestone_is_terminal(
    g: Grant,
    index: int,
    data: int,
    index2: int,
    data2: int,
)
    requires
        g.wf(),
        !g.is_liquidated,
        index == g.tranches_completed + 1,
        d_metric_spec(data) < D_METRIC_PASS_SCORE,
    ensures
        g.after_milestone(index, data) == (
            g.liquidated(),
            Err::<u64, DGEError>(DGEError::DMetricFailed),
        ),
        g.liquidated().after_milestone(index2, data2) == (
            g.liquidated(),
            Err::<u64, DGEError>(DGEError::GrantLiquidated),
        ),
{
}

/// Liquidating twice is the same as liquidating once: the second request
/// by the authority changes nothing, forfeits nothing, and is no error.
pub proof fn lemma_liquidation_idempotent(g: Grant, signer: Seq<u8>)
    requires
        liquidation_spec(g, signer).1 is Ok,
    ensures
        liquidation_spec(liquidation_spec(g, signer).0, signer) == (
            liquidation_spec(g, signer).0,
            Ok::<Option<u64>, DGEError>(None),
        ),
        liquidation_spec(g, signer).0 == g.liquidated(),
{
}

} // verus!
