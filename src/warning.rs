//! The warning hook: the one slot that names the handler of native diagnostic
//! messages. Installing a handler replaces the one before it.
use vstd::prelude::*;

verus! {

/// The slot for the handler of native diagnostic messages.
pub struct WarningHook {
    handler: Option<u64>,
}

impl View for WarningHook {
    type V = Option<u64>;

    closed spec fn view(&self) -> Option<u64> {
        self.handler
    }
}

/// The slot after `handler` is installed over `slot`.
pub open spec fn installed(slot: Option<u64>, handler: u64) -> Option<u64> {
    Some(handler)
}

impl WarningHook {
    /// A slot with no handler.
    pub fn new() -> (r: WarningHook)
        ensures
            r@ == None::<u64>,
    {
        WarningHook { handler: None }
    }

    /// Installs `handler`, discarding the one installed before.
    pub fn set(&mut self, handler: u64)
        ensures
            final(self)@ == installed(old(self)@, handler),
    {
        self.handler = Some(handler);
    }

    /// The handler that a diagnostic message of the native layer goes to, if
    /// one is installed.
    pub fn handler(&self) -> (r: Option<u64>)
        ensures
            r == self@,
    {
        self.handler
    }
}

/// Once a second handler replaces a first, a diagnostic message goes to the
/// second, and never again to the first.
pub proof fn lemma_replaced_handler_silent(slot: Option<u64>, first: u64, second: u64)
    requires
        first != second,
    ensures
        installed(installed(slot, first), second) == Some(second),
        installed(installed(slot, first), second) != Some(first),
{
}

} // verus!
