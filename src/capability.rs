use crate::platform::PlatformClass;
use vstd::prelude::*;

verus! {

/// A capability plugin that the shell can register with the host runtime.
#[derive(PartialEq, Eq, Structural, Clone, Copy, Debug)]
pub enum Capability {
    /// Read, write and list files under the paths the runtime permits.
    Filesystem,
    /// Invoke external processes and commands.
    Shell,
}

/// Every capability the shell knows of, in the order in which they are
/// registered.
pub open spec fn catalog() -> Seq<Capability> {
    seq![Capability::Filesystem, Capability::Shell]
}

/// Whether a capability is offered on a platform class: the filesystem
/// everywhere, the shell on desktop platforms only.
pub open spec fn enabled_on(c: Capability, p: PlatformClass) -> bool {
    match c {
        Capability::Filesystem => true,
        Capability::Shell => p == PlatformClass::Desktop,
    }
}

/// The capabilities registered on a platform class, in registration order:
/// the catalog, restricted to what the platform offers.
pub open spec fn plugin_plan(p: PlatformClass) -> Seq<Capability> {
    catalog().filter(|c: Capability| enabled_on(c, p))
}

/// The plan, written out for each platform class.
pub proof fn lemma_plugin_plan_values(p: PlatformClass)
    ensures
        p == PlatformClass::Desktop ==> plugin_plan(p) == seq![Capability::Filesystem, Capability::Shell],
        p == PlatformClass::Mobile ==> plugin_plan(p) == seq![Capability::Filesystem],
{
    let pred = |c: Capability| enabled_on(c, p);
    let s = catalog();
    assert(s.drop_last() == seq![Capability::Filesystem]);
    assert(s.drop_last().drop_last() == Seq::<Capability>::empty());
    reveal_with_fuel(Seq::filter, 3);
    assert(seq![Capability::Filesystem].filter(pred) == seq![Capability::Filesystem]) by {
        assert(seq![Capability::Filesystem].drop_last() == Seq::<Capability>::empty());
        assert(Seq::<Capability>::empty().push(Capability::Filesystem) == seq![Capability::Filesystem]);
    }
    if p == PlatformClass::Desktop {
        assert(seq![Capability::Filesystem].push(Capability::Shell) == seq![Capability::Filesystem, Capability::Shell]);
    }
}

impl Capability {
    /// The catalog, as a vector.
    pub fn all() -> (r: Vec<Capability>)
        ensures
            r@ == catalog(),
    {
        let r = vec![Capability::Filesystem, Capability::Shell];
        assert(r@ == catalog());
        r
    }

    /// Whether this capability is offered on the platform class `p`.
    pub fn is_enabled_on(&self, p: PlatformClass) -> (r: bool)
        ensures
            r == enabled_on(*self, p),
    {
        match self {
            Capability::Filesystem => true,
            Capability::Shell => p.is_desktop(),
        }
    }
}

} // verus!
