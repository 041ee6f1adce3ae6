use vstd::prelude::*;

verus! {

/// A capability that the shell makes available to its front end through a
/// plugin.
#[derive(Clone, Copy, Debug, PartialEq, Eq, Structural)]
pub enum Capability {
    /// Running shell commands and opening paths with the system handler.
    Shell,
    /// Native dialog boxes: messages, confirmations, file pickers.
    Dialog,
    /// Access to the file system.
    Fs,
}

/// The capabilities registered at startup, in the order of registration.
pub open spec fn registered() -> Seq<Capability> {
    seq![Capability::Shell, Capability::Dialog, Capability::Fs]
}

/// The plugins to register, in order.
pub fn plugins() -> (r: Vec<Capability>)
    ensures
        r@ == registered(),
{
    let r = vec![Capability::Shell, Capability::Dialog, Capability::Fs];
    assert(r@ =~= registered());
    r
}

/// Every capability is registered, and none twice.
pub proof fn lemma_every_capability_registered_once(c: Capability)
    ensures
        registered().contains(c),
        registered().no_duplicates(),
        registered().len() == 3,
{
    let s = registered();
    match c {
        Capability::Shell => assert(s[0] == c),
        Capability::Dialog => assert(s[1] == c),
        Capability::Fs => assert(s[2] == c),
    }
}

} // verus!
