//! The capability plugins and their fixed attach order.

use vstd::prelude::*;

verus! {

/// One capability that the bootstrap sequence registers onto the
/// application handle.
#[derive(Clone, Copy, PartialEq, Eq, Structural, Debug)]
pub enum PluginKind {
    /// The logging plugin, attached only in debug configurations.
    Logging,
    /// The filesystem access plugin.
    Filesystem,
    /// The dialog plugin.
    Dialog,
    /// The shell command plugin.
    Shell,
    /// The OS paths plugin.
    OsPaths,
}

/// The fixed attach order: logging first when the debug flag is set,
/// then filesystem, dialog, shell and OS paths.
pub open spec fn plugin_order(debug_enabled: bool) -> Seq<PluginKind> {
    if debug_enabled {
        seq![
            PluginKind::Logging,
            PluginKind::Filesystem,
            PluginKind::Dialog,
            PluginKind::Shell,
            PluginKind::OsPaths,
        ]
    } else {
        seq![PluginKind::Filesystem, PluginKind::Dialog, PluginKind::Shell, PluginKind::OsPaths]
    }
}

/// How many plugins the bootstrap sequence will try to attach.
pub fn plugin_count(debug_enabled: bool) -> (n: usize)
    ensures
        n == plugin_order(debug_enabled).len(),
{
    if debug_enabled {
        5
    } else {
        4
    }
}

/// The plugin at a given position of the attach order.
pub fn plugin_at(debug_enabled: bool, i: usize) -> (k: PluginKind)
    requires
        i < plugin_order(debug_enabled).len(),
    ensures
        k == plugin_order(debug_enabled)[i as int],
{
    if debug_enabled {
        if i == 0 {
            PluginKind::Logging
        } else if i == 1 {
            PluginKind::Filesystem
        } else if i == 2 {
            PluginKind::Dialog
        } else if i == 3 {
            PluginKind::Shell
        } else {
            PluginKind::OsPaths
        }
    } else {
        if i == 0 {
            PluginKind::Filesystem
        } else if i == 1 {
            PluginKind::Dialog
        } else if i == 2 {
            PluginKind::Shell
        } else {
            PluginKind::OsPaths
        }
    }
}

/// The whole attach order as a vector.
pub fn plugin_schedule(debug_enabled: bool) -> (v: Vec<PluginKind>)
    ensures
        v@ == plugin_order(debug_enabled),
{
    let mut v: Vec<PluginKind> = Vec::new();
    if debug_enabled {
        v.push(PluginKind::Logging);
    }
    v.push(PluginKind::Filesystem);
    v.push(PluginKind::Dialog);
    v.push(PluginKind::Shell);
    v.push(PluginKind::OsPaths);
    proof {
        assert(v@ =~= plugin_order(debug_enabled));
    }
    v
}

/// The name under which a plugin is reported in diagnostics.
pub open spec fn plugin_label(k: PluginKind) -> Seq<char> {
    match k {
        PluginKind::Logging => "logging"@,
        PluginKind::Filesystem => "filesystem"@,
        PluginKind::Dialog => "dialog"@,
        PluginKind::Shell => "shell"@,
        PluginKind::OsPaths => "os-paths"@,
    }
}

impl PluginKind {
    /// The plugin's name, for diagnostics.
    pub fn label(&self) -> (r: &'static str)
        ensures
            r@ == plugin_label(*self),
    {
        match self {
            PluginKind::Logging => "logging",
            PluginKind::Filesystem => "filesystem",
            PluginKind::Dialog => "dialog",
            PluginKind::Shell => "shell",
            PluginKind::OsPaths => "os-paths",
        }
    }
}

/// No plugin appears twice in the attach order.
pub proof fn lemma_order_no_repeats(debug_enabled: bool)
    ensures
        forall|i: int, j: int|
            0 <= i < j < plugin_order(debug_enabled).len() ==> plugin_order(debug_enabled)[i]
                != plugin_order(debug_enabled)[j],
{
}

/// The logging plugin is scheduled precisely when the debug flag is set.
pub proof fn lemma_logging_iff_debug(debug_enabled: bool)
    ensures
        plugin_order(debug_enabled).contains(PluginKind::Logging) <==> debug_enabled,
{
    if debug_enabled {
        assert(plugin_order(true)[0] == PluginKind::Logging);
    } else {
        assert forall|i: int| 0 <= i < plugin_order(false).len() implies plugin_order(false)[i]
            != PluginKind::Logging by {}
    }
}

} // verus!
