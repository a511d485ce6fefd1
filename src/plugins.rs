use vstd::prelude::*;

verus! {

/// A capability that the application grants its frontend at start-up.
#[derive(Clone, Copy, Debug, PartialEq, Eq, Structural)]
pub enum Plugin {
    /// Native file and message dialogs.
    Dialog,
    /// Access to the file system.
    Filesystem,
    /// Opening URLs and files with the programs the system assigns to them.
    Opener,
}

/// The plugins registered at start-up, in the order of registration.
pub open spec fn bootstrap_plugin_seq() -> Seq<Plugin> {
    seq![Plugin::Dialog, Plugin::Filesystem, Plugin::Opener]
}

/// The plugins to register when the application starts, in order. Each
/// plugin stands in the list once: the set is complete and holds no
/// repeated registration.
pub fn bootstrap_plugins() -> (r: Vec<Plugin>)
    ensures
        r@ == bootstrap_plugin_seq(),
        r@.no_duplicates(),
        forall|p: Plugin| r@.contains(p),
{
    let r = vec![Plugin::Dialog, Plugin::Filesystem, Plugin::Opener];
    proof {
        assert(r@ =~= bootstrap_plugin_seq());
        assert forall|p: Plugin| r@.contains(p) by {
            let i: int = match p {
                Plugin::Dialog => 0,
                Plugin::Filesystem => 1,
                Plugin::Opener => 2,
            };
            assert(r@[i] == p);
        }
    }
    r
}

} // verus!
