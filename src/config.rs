use crate::capability::{catalog, enabled_on, lemma_plugin_plan_values, plugin_plan, Capability};
use crate::platform::PlatformClass;
use vstd::prelude::*;

verus! {

/// Why a capability could not be registered.
#[derive(PartialEq, Eq, Structural, Clone, Copy, Debug)]
pub enum RegistrationError {
    /// The platform class does not offer this capability.
    Unavailable,
    /// The capability is registered already.
    AlreadyRegistered,
}

/// The startup configuration: the platform class it was built for and the
/// capability plugins registered so far, in registration order.
pub struct StartupConfig {
    platform: PlatformClass,
    plugins: Vec<Capability>,
}

impl View for StartupConfig {
    type V = Seq<Capability>;

    /// The registered plugins, in registration order.
    closed spec fn view(&self) -> Seq<Capability> {
        self.plugins@
    }
}

/// What registering `c` on a configuration for `p` that holds `plugins`
/// gives back.
pub open spec fn registration_outcome(c: Capability, p: PlatformClass, plugins: Seq<Capability>) -> Result<
    (),
    RegistrationError,
> {
    if !enabled_on(c, p) {
        Err(RegistrationError::Unavailable)
    } else if plugins.contains(c) {
        Err(RegistrationError::AlreadyRegistered)
    } else {
        Ok(())
    }
}

/// What a filter keeps was in the sequence filtered.
proof fn lemma_filter_within(s: Seq<Capability>, pred: spec_fn(Capability) -> bool, x: Capability)
    requires
        s.filter(pred).contains(x),
    ensures
        s.contains(x),
    decreases s.len(),
{
    reveal(Seq::filter);
    if s.len() > 0 {
        let sub = s.drop_last().filter(pred);
        if x != s.last() {
            assert(sub.contains(x)) by {
                let k = choose|k: int| 0 <= k < s.filter(pred).len() && s.filter(pred)[k] == x;
                if pred(s.last()) {
                    assert(k < sub.len());
                    assert(sub[k] == x);
                }
            }
            lemma_filter_within(s.drop_last(), pred, x);
            let j = choose|j: int| 0 <= j < s.drop_last().len() && s.drop_last()[j] == x;
            assert(s[j] == x);
        } else {
            assert(s[s.len() - 1] == x);
        }
    }
}

impl StartupConfig {
    /// The platform class the configuration was built for.
    pub closed spec fn class(&self) -> PlatformClass {
        self.platform
    }

    /// No plugin is registered twice, and each is offered on the platform
    /// class.
    pub open spec fn wf(&self) -> bool {
        &&& self@.no_duplicates()
        &&& forall|i: int| 0 <= i < self@.len() ==> enabled_on(#[trigger] self@[i], self.class())
    }

    /// The configuration is the one the platform class calls for.
    pub open spec fn is_standard(&self) -> bool {
        self@ == plugin_plan(self.class())
    }

    /// A configuration for `platform` with no plugin registered.
    pub fn new(platform: PlatformClass) -> (r: StartupConfig)
        ensures
            r.wf(),
            r.class() == platform,
            r@ == Seq::<Capability>::empty(),
    {
        StartupConfig { platform, plugins: Vec::new() }
    }

    /// The platform class the configuration was built for.
    pub fn platform(&self) -> (r: PlatformClass)
        ensures
            r == self.class(),
    {
        self.platform
    }

    /// The registered plugins, in registration order.
    pub fn plugins(&self) -> (r: Vec<Capability>)
        ensures
            r@ == self@,
    {
        self.plugins.clone()
    }

    /// How many plugins are registered.
    pub fn len(&self) -> (r: usize)
        ensures
            r == self@.len(),
    {
        self.plugins.len()
    }

    /// Whether `c` is registered.
    pub fn contains(&self, c: Capability) -> (r: bool)
        ensures
            r == self@.contains(c),
    {
        let mut i: usize = 0;
        while i < self.plugins.len()
            invariant
                i <= self@.len(),
                forall|j: int| 0 <= j < i ==> self@[j] != c,
            decreases self@.len() - i,
        {
            if self.plugins[i] == c {
                return true;
            }
            i = i + 1;
        }
        false
    }

    /// Appends `c` to the registered plugins. It is refused, and nothing
    /// changes, when the platform class does not offer it or when it is
    /// registered already.
    pub fn register(&mut self, c: Capability) -> (r: Result<(), RegistrationError>)
        requires
            old(self).wf(),
        ensures
            final(self).wf(),
            final(self).class() == old(self).class(),
            r == registration_outcome(c, old(self).class(), old(self)@),
            r is Ok ==> final(self)@ == old(self)@.push(c),
            r is Err ==> final(self)@ == old(self)@,
    {
        if !c.is_enabled_on(self.platform) {
            return Err(RegistrationError::Unavailable);
        }
        if self.contains(c) {
            return Err(RegistrationError::AlreadyRegistered);
        }
        self.plugins.push(c);
        proof {
            let s = self@;
            assert forall|i: int, j: int|
                0 <= i < s.len() && 0 <= j < s.len() && i != j implies s[i] != s[j] by {
                if i < s.len() - 1 && j < s.len() - 1 {
                    assert(s[i] == old(self)@[i] && s[j] == old(self)@[j]);
                } else if i == s.len() - 1 {
                    assert(s[j] == old(self)@[j]);
                } else {
                    assert(s[i] == old(self)@[i]);
                }
            }
            assert forall|i: int| 0 <= i < s.len() implies enabled_on(#[trigger] s[i], self.class()) by {
                if i < s.len() - 1 {
                    assert(s[i] == old(self)@[i]);
                }
            }
        }
        Ok(())
    }

    /// The configuration that `platform` calls for: every capability of the
    /// catalog that the platform offers, in catalog order.
    pub fn for_platform(platform: PlatformClass) -> (r: StartupConfig)
        ensures
            r.wf(),
            r.class() == platform,
            r.is_standard(),
            r@ == plugin_plan(platform),
    {
        let all = Capability::all();
        let ghost pred: spec_fn(Capability) -> bool = |c: Capability| enabled_on(c, platform);
        let mut config = StartupConfig::new(platform);
        let mut i: usize = 0;
        while i < all.len()
            invariant
                all@ == catalog(),
                pred == (|x: Capability| enabled_on(x, platform)),
                i <= all@.len(),
                config.wf(),
                config.class() == platform,
                config@ == catalog().take(i as int).filter(pred),
            decreases all@.len() - i,
        {
            let c = all[i];
            let ghost before = config@;
            if c.is_enabled_on(platform) {
                let _ = config.register(c);
            }
            proof {
                reveal(Seq::filter);
                let t = catalog().take(i as int + 1);
                assert(t.drop_last() == catalog().take(i as int));
                assert(t.len() > 0 && t.last() == c);
                assert(!before.contains(c)) by {
                    if before.contains(c) {
                        lemma_filter_within(catalog().take(i as int), pred, c);
                        let k = choose|k: int| 0 <= k < i && catalog().take(i as int)[k] == c;
                        assert(catalog()[k] == catalog()[i as int]);
                    }
                }
                if enabled_on(c, platform) {
                    assert(t.filter(pred) == before.push(c));
                } else {
                    assert(t.filter(pred) == before);
                }
            }
            i = i + 1;
        }
        proof {
            assert(catalog().take(all@.len() as int) == catalog());
        }
        config
    }
}

/// Two configurations built for the same platform class hold the same
/// plugins in the same order; the filesystem plugin is always among them, and
/// the shell plugin is among them exactly on desktop platforms.
pub proof fn law_standard_plugins_deterministic(a: StartupConfig, b: StartupConfig)
    requires
        a.is_standard(),
        b.is_standard(),
        a.class() == b.class(),
    ensures
        a@ == b@,
        a@.contains(Capability::Filesystem),
        a@.contains(Capability::Shell) <==> a.class() == PlatformClass::Desktop,
{
    lemma_plugin_plan_values(a.class());
    assert(a@[0] == Capability::Filesystem);
    if a.class() == PlatformClass::Desktop {
        assert(a@[1] == Capability::Shell);
    }
}

/// On a mobile platform no well-formed configuration holds the shell plugin;
/// on a desktop platform the standard configuration holds it.
pub proof fn law_shell_gated_by_platform(c: StartupConfig)
    requires
        c.wf(),
    ensures
        c.class() == PlatformClass::Mobile ==> !c@.contains(Capability::Shell),
        c.class() == PlatformClass::Desktop && c.is_standard() ==> c@.contains(Capability::Shell),
{
    lemma_plugin_plan_values(c.class());
    if c.class() == PlatformClass::Desktop && c.is_standard() {
        assert(c@[1] == Capability::Shell);
    }
}

/// In the standard configuration the filesystem plugin comes before the shell
/// plugin whenever both are present.
pub proof fn law_filesystem_before_shell(c: StartupConfig, i: int, j: int)
    requires
        c.is_standard(),
        0 <= i < c@.len(),
        0 <= j < c@.len(),
        c@[i] == Capability::Filesystem,
        c@[j] == Capability::Shell,
    ensures
        i < j,
{
    lemma_plugin_plan_values(c.class());
}

/// Building the configuration twice for one platform class gives the same
/// set of registered plugins: nothing accumulates across constructions.
pub proof fn law_construction_idempotent(a: StartupConfig, b: StartupConfig)
    requires
        a.is_standard(),
        b.is_standard(),
        a.class() == b.class(),
    ensures
        a@.to_set() == b@.to_set(),
        a@.len() == b@.len(),
{
}

} // verus!
