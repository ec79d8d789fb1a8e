//! The global registry that numbers the sessions.

use vstd::prelude::*;
use crate::errors::SolidrError;
use crate::preservation::lemma_init_global_wf;
use crate::ledger::Solidr;
use crate::model::{init_global_apply, init_global_rejection};

verus! {

/// Creates the registry with its counter at 0. Callable once: a second call
/// is rejected with `AlreadyInitialized` and changes nothing.
pub fn init_global(ledger: &mut Solidr) -> (result: Result<(), SolidrError>)
    requires
        old(ledger).wf(),
    ensures
        final(ledger).wf(),
        match init_global_rejection(old(ledger)@) {
            Some(error) => result == Err::<(), SolidrError>(error) && final(ledger)@ == old(ledger)@,
            None => result == Ok::<(), SolidrError>(()) && final(ledger)@ == init_global_apply(
                old(ledger)@,
            ),
        },
{
    if ledger.registry.is_some() {
        return Err(SolidrError::AlreadyInitialized);
    }
    proof {
        lemma_init_global_wf(ledger@);
    }
    ledger.registry = Some(0);
    Ok(())
}

} // verus!
