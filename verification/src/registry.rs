use vstd::prelude::*;
use vstd::string::*;

use crate::errors::ToolError;
use crate::textutil::str_eq;

verus! {

/// The registry-package resolver's own state: one instance per logical
/// session. Once a resolution has succeeded, `verified` stays set for the
/// instance's lifetime and later calls skip every network query as long as
/// the local entry point still exists.
pub struct RegistryResolver {
    pub verified: bool,
}

/// How a resolution round starts.
#[derive(Clone, Copy, Debug, PartialEq, Eq, Structural)]
pub enum RegistryStep {
    /// Use the local entry path as it stands; no query is needed.
    UseLocal,
    /// Query the registry for the latest published version.
    CheckLatest,
}

/// Whether a resolver may short-circuit: it has verified once and the local
/// entry point still exists.
pub open spec fn spec_short_circuits(r: RegistryResolver, entry_exists: bool) -> bool {
    r.verified && entry_exists
}

/// Once any round has concluded successfully the resolver is verified, and
/// every later round that still finds the entry point present short-circuits:
/// it uses the local copy and performs zero registry queries.
pub proof fn lemma_verified_rounds_skip_queries(r: RegistryResolver, entry_exists: bool)
    requires
        r.verified,
        entry_exists,
    ensures
        spec_short_circuits(r, entry_exists),
{
}

impl RegistryResolver {
    /// A fresh resolver; nothing has been verified yet.
    pub fn new() -> (r: RegistryResolver)
        ensures
            !r.verified,
    {
        RegistryResolver { verified: false }
    }

    /// Starts a resolution round: exactly when the instance has verified
    /// before and the entry point exists, the round uses the local copy
    /// and performs zero registry queries.
    pub fn begin(&self, entry_exists: bool) -> (s: RegistryStep)
        ensures
            (s == RegistryStep::UseLocal) <==> spec_short_circuits(*self, entry_exists),
    {
        if self.verified && entry_exists {
            RegistryStep::UseLocal
        } else {
            RegistryStep::CheckLatest
        }
    }

    /// Whether a (re)install is required: the entry point is missing, or
    /// the installed version is not exactly the latest published one.
    pub fn install_needed(&self, entry_exists: bool, installed: &Option<String>, latest: &str) -> (b:
        bool)
        ensures
            b <==> (!entry_exists || !(installed matches Some(v) && v@ == latest@)),
    {
        if !entry_exists {
            return true;
        }
        match installed {
            Some(v) => !str_eq(v.as_str(), latest),
            None => true,
        }
    }

    /// Concludes a resolution round after any install attempt.
    ///
    /// A claimed-successful install with the entry point still missing is
    /// an incomplete install and never yields a usable path. A failed
    /// install is tolerated exactly when a local copy from an earlier run
    /// survives; otherwise it is surfaced. Every successful conclusion
    /// leaves the resolver verified and the entry point present.
    pub fn conclude(
        &mut self,
        attempted: bool,
        install_ok: bool,
        entry_exists_now: bool,
        had_local_before: bool,
        entry_path: &str,
        install_error: &str,
    ) -> (r: Result<(), ToolError>)
        requires
            !attempted ==> entry_exists_now,
            attempted && !install_ok && had_local_before ==> entry_exists_now,
        ensures
            attempted && install_ok && !entry_exists_now ==> (r matches Err(e) && (match e {
                ToolError::InstallIncomplete { entry_path: p } => p@ == entry_path@,
                _ => false,
            })),
            attempted && install_ok && entry_exists_now ==> r is Ok,
            attempted && !install_ok && had_local_before ==> r is Ok,
            attempted && !install_ok && !had_local_before ==> (r matches Err(e) && (match e {
                ToolError::Install { detail } => detail@ == install_error@,
                _ => false,
            })),
            !attempted ==> r is Ok,
            r is Ok ==> final(self).verified && entry_exists_now,
            r is Err ==> final(self).verified == old(self).verified,
    {
        if attempted {
            if install_ok {
                if !entry_exists_now {
                    return Err(
                        ToolError::InstallIncomplete { entry_path: entry_path.to_owned() },
                    );
                }
            } else {
                if !had_local_before {
                    return Err(ToolError::Install { detail: install_error.to_owned() });
                }
            }
        }
        self.verified = true;
        Ok(())
    }
}

} // verus!
