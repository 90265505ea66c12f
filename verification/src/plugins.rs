//! The plugin registry.
//!
//! The application hands its host framework a fixed list of capability
//! plugins, each initialized with default configuration.  The plugins are
//! independent of one another, so what the shell ends up offering is the set
//! of registered capabilities: the order of registration does not show in it.

use vstd::prelude::*;

verus! {

/// The capability plugins the application can register: dialogs, filesystem
/// access, shell execution, process control, and safe-area CSS injection.
#[derive(Clone, Copy, Debug, PartialEq, Eq, Structural)]
pub enum Plugin {
    Dialog,
    Fs,
    Shell,
    Process,
    SafeAreaInsetsCss,
}

/// The plugins a shell registers, in registration order.
pub struct PluginRegistry {
    plugins: Vec<Plugin>,
}

impl View for PluginRegistry {
    type V = Seq<Plugin>;

    closed spec fn view(&self) -> Seq<Plugin> {
        self.plugins@
    }
}

impl PluginRegistry {
    /// The outcome of registration: which capabilities the shell offers.
    /// Neither the order of registration nor a repetition shows in it.
    pub open spec fn capabilities(&self) -> Set<Plugin> {
        self@.to_set()
    }

    /// A registry with nothing registered yet.
    pub fn new() -> (r: PluginRegistry)
        ensures
            r@ == Seq::<Plugin>::empty(),
    {
        PluginRegistry { plugins: Vec::new() }
    }

    /// Registers one more plugin, after those already registered.
    pub fn plugin(self, p: Plugin) -> (r: PluginRegistry)
        ensures
            r@ == self@.push(p),
    {
        let mut v = self.plugins;
        v.push(p);
        PluginRegistry { plugins: v }
    }

    /// How many registrations were made.
    pub fn len(&self) -> (n: usize)
        ensures
            n == self@.len(),
    {
        self.plugins.len()
    }

    /// The plugin registered at a position, counted from the first.
    pub fn get(&self, i: usize) -> (p: Plugin)
        requires
            i < self@.len(),
        ensures
            p == self@[i as int],
    {
        self.plugins[i]
    }

    /// Whether a plugin was registered, that is, whether the shell offers
    /// its capability.
    pub fn registered(&self, p: Plugin) -> (r: bool)
        ensures
            r == self.capabilities().contains(p),
    {
        let n = self.plugins.len();
        let mut i: usize = 0;
        while i < n
            invariant
                n == self@.len(),
                i <= n,
                forall|j: int| 0 <= j < i ==> self@[j] != p,
            decreases n - i,
        {
            if self.plugins[i] == p {
                assert(self@.contains(p)) by {
                    assert(self@[i as int] == p);
                }
                return true;
            }
            i += 1;
        }
        assert(!self@.contains(p));
        false
    }

    /// The fixed list the application registers, in its standard order:
    /// dialog, filesystem, shell, process, safe-area CSS.
    pub fn standard() -> (r: PluginRegistry)
        ensures
            r@ == seq![
                Plugin::Dialog,
                Plugin::Fs,
                Plugin::Shell,
                Plugin::Process,
                Plugin::SafeAreaInsetsCss,
            ],
    {
        let r = PluginRegistry::new()
            .plugin(Plugin::Dialog)
            .plugin(Plugin::Fs)
            .plugin(Plugin::Shell)
            .plugin(Plugin::Process)
            .plugin(Plugin::SafeAreaInsetsCss);
        proof {
            assert(r@ =~= seq![
                Plugin::Dialog,
                Plugin::Fs,
                Plugin::Shell,
                Plugin::Process,
                Plugin::SafeAreaInsetsCss,
            ]);
        }
        r
    }
}

/// Registration order does not affect the outcome: two shells that register
/// the same plugins, however ordered, offer the same capabilities.
pub proof fn lemma_registration_order_irrelevant(a: PluginRegistry, b: PluginRegistry)
    requires
        a@.to_multiset() == b@.to_multiset(),
    ensures
        a.capabilities() == b.capabilities(),
{
    broadcast use vstd::seq_lib::group_to_multiset_ensures;

    assert forall|p: Plugin| a@.contains(p) == b@.contains(p) by {
        assert(a@.contains(p) <==> a@.to_multiset().count(p) > 0);
        assert(b@.contains(p) <==> b@.to_multiset().count(p) > 0);
    }
    assert(a.capabilities() =~= b.capabilities());
}

} // verus!
