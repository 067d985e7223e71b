//! The loaded plugin module and its creation entry point.
//!
//! Resolving a filesystem path to module bytes is outside work: the driver
//! probes the path and the dynamic loader, and hands the outcome here as a
//! `ModuleResource`. Loading validates that outcome, and instantiation runs
//! the module's entry point against the host callback capability.

use vstd::prelude::*;

use crate::callback::HostCallback;
use crate::descriptor::PluginDescriptor;
use crate::errors::HostError;
use crate::instance::HandleKind;
use crate::instance::PluginInstance;

verus! {

/// What a plugin module declares through its entry point: its metadata, its
/// negotiated channel counts, and its editor capability.
pub struct PluginPrototype {
    /// The metadata the plugin reports.
    pub descriptor: PluginDescriptor,
    /// The number of input channels the plugin accepts.
    pub num_inputs: usize,
    /// The number of output channels the plugin fills.
    pub num_outputs: usize,
    /// Whether the plugin declares a graphical editor.
    pub has_editor: bool,
    /// The native handle kind the plugin's editor supports.
    pub editor_handle_kind: HandleKind,
    /// Whether the entry point yields a live instance rather than null.
    pub yields_instance: bool,
}

/// The outcome of probing a filesystem path with the dynamic loader.
pub enum ModuleResource {
    /// The path does not exist.
    Missing,
    /// The loader rejected the file: wrong architecture, missing symbols, or
    /// a corrupt binary.
    Rejected,
    /// The file loaded but lacks the plugin-creation entry point.
    MissingEntryPoint,
    /// A loadable module exposing the given plugin prototype.
    Module(PluginPrototype),
}

/// A loaded native module together with its plugin-creation entry point. The
/// module must outlive every instance created from it; the render loop's
/// teardown order enforces this.
pub struct PluginModule {
    /// What the module's entry point declares.
    pub prototype: PluginPrototype,
}

/// What `load` returns for each probe outcome.
pub open spec fn load_spec(resource: ModuleResource) -> Result<PluginModule, HostError> {
    match resource {
        ModuleResource::Missing => Err(HostError::ModuleNotFound),
        ModuleResource::Rejected => Err(HostError::ModuleLoadError),
        ModuleResource::MissingEntryPoint => Err(HostError::EntryPointMissing),
        ModuleResource::Module(p) => Ok(PluginModule { prototype: p }),
    }
}

/// An instance freshly created from `prototype`: it carries the prototype's
/// metadata and negotiated shape, its editor is closed, and no events are
/// pending.
pub open spec fn instance_of_prototype(inst: PluginInstance, prototype: PluginPrototype) -> bool {
    &&& inst.descriptor == prototype.descriptor
    &&& inst.num_inputs == prototype.num_inputs
    &&& inst.num_outputs == prototype.num_outputs
    &&& inst.has_editor == prototype.has_editor
    &&& inst.editor_handle_kind == prototype.editor_handle_kind
    &&& !inst.editor_open
    &&& inst.pending@.len() == 0
}

impl PluginModule {
    /// Turn a probed module resource into a loaded module, or the exact
    /// error the probe outcome calls for: `ModuleNotFound` for a missing
    /// path, `ModuleLoadError` for a rejected file, `EntryPointMissing` for
    /// a module without the creation symbol.
    pub fn load(resource: ModuleResource) -> (r: Result<PluginModule, HostError>)
        ensures
            r == load_spec(resource),
    {
        match resource {
            ModuleResource::Missing => Err(HostError::ModuleNotFound),
            ModuleResource::Rejected => Err(HostError::ModuleLoadError),
            ModuleResource::MissingEntryPoint => Err(HostError::EntryPointMissing),
            ModuleResource::Module(p) => Ok(PluginModule { prototype: p }),
        }
    }

    /// Run the module's entry point. The callback capability is passed in so
    /// the plugin can reach the host from the moment it initializes, and it
    /// must stay alive for the whole lifetime of the returned instance.
    /// Fails with `InstantiationFailed` when the entry point yields a null
    /// or invalid instance.
    pub fn instantiate(&self, _host: &HostCallback) -> (r: Result<PluginInstance, HostError>)
        ensures
            r is Ok <==> self.prototype.yields_instance,
            !self.prototype.yields_instance ==> r == Err::<PluginInstance, HostError>(
                HostError::InstantiationFailed,
            ),
            r matches Ok(inst) ==> instance_of_prototype(inst, self.prototype),
    {
        if !self.prototype.yields_instance {
            return Err(HostError::InstantiationFailed);
        }
        Ok(
            PluginInstance {
                descriptor: self.prototype.descriptor.clone(),
                num_inputs: self.prototype.num_inputs,
                num_outputs: self.prototype.num_outputs,
                has_editor: self.prototype.has_editor,
                editor_handle_kind: self.prototype.editor_handle_kind,
                editor_open: false,
                pending: Vec::new(),
            },
        )
    }
}

} // verus!
