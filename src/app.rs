use vstd::prelude::*;

use crate::text::{eq_ignore_case, equals_ignore_case};

verus! {

/// The entry point an application runs first, to answer the lifecycle hooks
/// that the installer and updater start it with.
#[derive(Clone, Copy, Debug)]
pub struct VelopackApp {}

/// The argument is one of the lifecycle hook flags, ignoring ASCII case.
pub open spec fn is_hook_flag(arg: Seq<char>) -> bool {
    eq_ignore_case(arg, "--veloapp-install"@) || eq_ignore_case(arg, "--veloapp-updated"@)
        || eq_ignore_case(arg, "--veloapp-obsolete"@) || eq_ignore_case(arg, "--veloapp-uninstall"@)
}

impl VelopackApp {
    /// Makes the entry point.
    pub fn build() -> (r: VelopackApp) {
        VelopackApp {  }
    }

    /// Whether the argument is one of the lifecycle hook flags, on which the
    /// application exits at once.
    pub fn is_lifecycle_hook(&self, arg: &str) -> (r: bool)
        ensures
            r == is_hook_flag(arg@),
    {
        equals_ignore_case(arg, "--veloapp-install") || equals_ignore_case(arg, "--veloapp-updated")
            || equals_ignore_case(arg, "--veloapp-obsolete") || equals_ignore_case(
            arg,
            "--veloapp-uninstall",
        )
    }
}

} // verus!
