use vstd::prelude::*;

verus! {

/// A capability extension of the host framework.
#[derive(Clone, Copy, Debug, PartialEq, Eq)]
pub enum Plugin {
    /// Native open/save/message dialogs.
    Dialog,
    /// Spawning and exiting processes.
    Process,
    /// File upload handling.
    Upload,
    /// Filesystem access.
    Fs,
    /// SQL-backed storage.
    Sql,
    /// Opening external URIs and files.
    Opener,
}

/// How many plugins the host registers.
pub const PLUGIN_COUNT: usize = 6;

/// The fixed order in which the plugins are registered.
pub open spec fn plugin_sequence() -> Seq<Plugin> {
    seq![Plugin::Dialog, Plugin::Process, Plugin::Upload, Plugin::Fs, Plugin::Sql, Plugin::Opener]
}

/// The plugin registered in position `i` (counting from zero).
pub fn plugin_at(i: usize) -> (p: Plugin)
    requires
        i < PLUGIN_COUNT,
    ensures
        p == plugin_sequence()[i as int],
{
    if i == 0 {
        Plugin::Dialog
    } else if i == 1 {
        Plugin::Process
    } else if i == 2 {
        Plugin::Upload
    } else if i == 3 {
        Plugin::Fs
    } else if i == 4 {
        Plugin::Sql
    } else {
        Plugin::Opener
    }
}

/// All plugins, in the order in which they are registered.
pub fn plugin_order() -> (r: Vec<Plugin>)
    ensures
        r@ == plugin_sequence(),
{
    let mut r: Vec<Plugin> = Vec::new();
    let mut i: usize = 0;
    while i < PLUGIN_COUNT
        invariant
            i <= PLUGIN_COUNT,
            r@ == plugin_sequence().take(i as int),
        decreases PLUGIN_COUNT - i,
    {
        r.push(plugin_at(i));
        assert(plugin_sequence().take(i + 1) =~= plugin_sequence().take(i as int).push(
            plugin_sequence()[i as int],
        ));
        i = i + 1;
    }
    assert(plugin_sequence().take(PLUGIN_COUNT as int) =~= plugin_sequence());
    r
}

} // verus!
