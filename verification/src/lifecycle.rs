//! The process-wide initialization decision.
//!
//! Installing the crash-diagnostic hook is once-per-process work guarded by a
//! flag. The decision — install now or not, and what the flag becomes — is
//! verified here; the driver owns the flag and the hook itself.

use vstd::prelude::*;

verus! {

/// Given whether the hook is already installed, whether to install it now
/// (first component) and what the flag becomes (second component).
pub open spec fn spec_init_step(installed: bool) -> (bool, bool) {
    (!installed, true)
}

/// The initialization decision: install the hook only on the first call;
/// afterwards the hook always counts as installed.
pub fn init_step(installed: bool) -> (r: (bool, bool))
    ensures
        r == spec_init_step(installed),
{
    (!installed, true)
}

/// Law: initialization is idempotent. The first call installs the hook; a
/// second call in the same process is a no-op — it raises no error and does
/// not install the hook again.
pub proof fn lemma_init_idempotent()
    ensures
        spec_init_step(false).0,
        spec_init_step(false).1,
        !spec_init_step(spec_init_step(false).1).0,
        spec_init_step(spec_init_step(false).1).1,
{
}

} // verus!
