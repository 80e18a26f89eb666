//! Penalizing a machine: a state that it never leaves.

use vstd::prelude::*;
use crate::errors::{failure, DepinErrors};
use crate::identity::{Identity, ProgramConfig};
use crate::state::HostMachineRegistration;

verus! {

/// What a penalty is handed.
#[derive(Clone, Debug)]
pub struct PenalizeHost {
    /// The identity that signed the request.
    pub admin: Identity,
    /// The machine's record.
    pub host_machine: HostMachineRegistration,
}

/// Why a penalty fails, if it does: only when the signer is not the
/// administrative authority.
pub open spec fn penalize_host_failure(signer: Seq<u8>, admin: Seq<u8>) -> Option<DepinErrors> {
    if signer != admin {
        Some(DepinErrors::UnauthorizedAdmin)
    } else {
        None
    }
}

/// Penalizes the machine on behalf of the administrative authority: it is
/// stopped, what it earned and had not claimed is forfeited, and it is marked
/// for good. A refused request leaves the record as it was.
pub fn penalize_host(ctx: &mut PenalizeHost, config: &ProgramConfig) -> (r: Result<(), DepinErrors>)
    ensures
        failure(r) == penalize_host_failure(old(ctx).admin@, config.admin@),
        r is Ok ==> final(ctx).host_machine@ == old(ctx).host_machine@.forfeited(),
        r is Err ==> final(ctx).host_machine@ == old(ctx).host_machine@,
        final(ctx).admin == old(ctx).admin,
        old(ctx).host_machine@.penalized ==> final(ctx).host_machine@.penalized,
        old(ctx).host_machine@.wf() ==> final(ctx).host_machine@.wf(),
{
    if !ctx.admin.same(&config.admin) {
        return Err(DepinErrors::UnauthorizedAdmin);
    }
    ctx.host_machine.earned = 0;
    ctx.host_machine.is_active = false;
    ctx.host_machine.started_at = 0;
    ctx.host_machine.penalized = true;
    Ok(())
}

} // verus!
