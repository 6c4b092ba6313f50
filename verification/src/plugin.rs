use vstd::prelude::*;
use vstd::string::StringExecFns;

use crate::registry::EventRegistry;

verus! {

/// The identifier the plugin reports to its host, as a sequence of characters.
pub open spec fn spec_name() -> Seq<char> {
    "Sentient-Core"@
}

/// The version string the plugin reports to its host.
pub open spec fn spec_version() -> Seq<char> {
    "1.0.0"@
}

/// The error a lifecycle hook may hand back to the host. The hooks of this
/// plugin succeed unconditionally, so no function of this crate ever
/// constructs a value of this type; it exists because the host requires every
/// hook to be able to signal failure.
pub struct PluginError {
    /// A human-readable description of the failure.
    pub detail: String,
}

/// The plugin shell: a name fixed at construction and never changed.
/// The version is a constant of the type and is not stored.
pub struct SentientCorePlugin {
    name: String,
}

impl View for SentientCorePlugin {
    type V = Seq<char>;

    /// A plugin instance is, mathematically, just the name it carries.
    closed spec fn view(&self) -> Seq<char> {
        self.name@
    }
}

impl SentientCorePlugin {
    /// A well-formed instance carries the fixed name. The constructor
    /// establishes this and no method disturbs it.
    pub open spec fn wf(&self) -> bool {
        self@ == spec_name()
    }

    /// Constructs the plugin shell with its fixed name.
    pub fn new() -> (plugin: Self)
        ensures
            plugin.wf(),
    {
        SentientCorePlugin { name: String::from_str("Sentient-Core") }
    }

    /// The identifier under which the host knows this plugin.
    pub fn name(&self) -> (name: &str)
        requires
            self.wf(),
        ensures
            name@ == spec_name(),
    {
        self.name.as_str()
    }

    /// The version this plugin reports to the host.
    pub fn version(&self) -> (version: &str)
        ensures
            version@ == spec_version(),
    {
        "1.0.0"
    }

    /// What the initialisation hook does to an instance: nothing. It returns
    /// success and leaves the instance exactly as it was.
    pub open spec fn spec_on_init(self) -> (SentientCorePlugin, Result<(), PluginError>) {
        (self, Ok(()))
    }

    /// What the shutdown hook does to an instance: nothing. It returns
    /// success and leaves the instance exactly as it was.
    pub open spec fn spec_on_shutdown(self) -> (SentientCorePlugin, Result<(), PluginError>) {
        (self, Ok(()))
    }

    /// Startup hook, run by the host once after registration. Any startup
    /// work would stand here; there is none, so the hook succeeds
    /// unconditionally and changes nothing.
    pub fn on_init(&mut self) -> (outcome: Result<(), PluginError>)
        ensures
            *final(self) == (*old(self)).spec_on_init().0,
            outcome == (*old(self)).spec_on_init().1,
    {
        Ok(())
    }

    /// Shutdown hook, run by the host once when the plugin is unloaded. Any
    /// teardown work would stand here; there is none, so the hook succeeds
    /// unconditionally and changes nothing.
    pub fn on_shutdown(&mut self) -> (outcome: Result<(), PluginError>)
        ensures
            *final(self) == (*old(self)).spec_on_shutdown().0,
            outcome == (*old(self)).spec_on_shutdown().1,
    {
        Ok(())
    }

    /// Handler-registration hook, the extension point for subscribing event
    /// handlers. No handlers exist yet, so it subscribes none: the registry
    /// is left exactly as the host handed it over, and the hook succeeds
    /// unconditionally.
    pub fn register_handlers(&mut self, events: &mut EventRegistry) -> (outcome: Result<
        (),
        PluginError,
    >)
        ensures
            outcome is Ok,
            final(events)@ == old(events)@,
            *final(self) == *old(self),
    {
        Ok(())
    }
}

/// Initialisation followed by shutdown always succeeds: for every instance,
/// the init hook returns success, and the shutdown hook, applied to the
/// instance the init hook leaves behind, returns success as well.
pub proof fn lemma_init_then_shutdown_succeeds(plugin: SentientCorePlugin)
    ensures
        plugin.spec_on_init().1 is Ok,
        plugin.spec_on_init().0.spec_on_shutdown().1 is Ok,
{
}

/// Independently constructed instances are indistinguishable: any two
/// well-formed instances carry the same name, and the version is a constant
/// of the type, so repeated construction always yields identical plugins.
pub proof fn lemma_instances_identical(a: &SentientCorePlugin, b: &SentientCorePlugin)
    requires
        a.wf(),
        b.wf(),
    ensures
        a@ == b@,
{
}

} // verus!
