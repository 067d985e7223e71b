//! The host's error taxonomy.
//!
//! Configuration errors are fatal to the process, protocol errors are fatal to
//! the affected plugin instance, and capacity errors are recoverable: the
//! caller is signalled and may retry or drop the rejected event.

use vstd::prelude::*;

verus! {

/// Everything that can go wrong while hosting a plugin.
#[derive(Clone, Copy, Debug, PartialEq, Eq, Structural)]
pub enum HostError {
    /// The path given for the plugin module does not exist.
    ModuleNotFound,
    /// The dynamic-loading mechanism rejected the file (wrong architecture,
    /// missing symbols, corrupt binary).
    ModuleLoadError,
    /// The module lacks the expected plugin-creation entry point.
    EntryPointMissing,
    /// The module's entry point returned a null or invalid instance.
    InstantiationFailed,
    /// The plugin's editor was opened twice without an intervening close.
    EditorAlreadyOpen,
    /// The native window handle's platform kind is not one the plugin supports.
    InvalidHandle,
    /// Channel storage handed to a buffer pool differs from its configured shape.
    ShapeMismatch,
    /// A view's channel counts differ from what the instance negotiated.
    BufferShapeMismatch,
    /// The event queue is at its fixed capacity; the pushed event was dropped.
    QueueFull,
}

/// The recovery policy attached to each error.
#[derive(Clone, Copy, Debug, PartialEq, Eq, Structural)]
pub enum ErrorClass {
    /// Fatal: the host cannot safely guess plugin intent; the process stops.
    Configuration,
    /// Fatal to the affected instance; the loop tears down cleanly.
    Protocol,
    /// Recoverable: the caller is signalled and may retry.
    Capacity,
}

impl HostError {
    /// Which part of the taxonomy an error falls under.
    pub open spec fn class_spec(self) -> ErrorClass {
        match self {
            HostError::ModuleNotFound => ErrorClass::Configuration,
            HostError::ModuleLoadError => ErrorClass::Configuration,
            HostError::EntryPointMissing => ErrorClass::Configuration,
            HostError::ShapeMismatch => ErrorClass::Configuration,
            HostError::BufferShapeMismatch => ErrorClass::Configuration,
            HostError::InstantiationFailed => ErrorClass::Protocol,
            HostError::EditorAlreadyOpen => ErrorClass::Protocol,
            HostError::InvalidHandle => ErrorClass::Protocol,
            HostError::QueueFull => ErrorClass::Capacity,
        }
    }

    /// Classify an error for recovery decisions.
    pub fn class(&self) -> (r: ErrorClass)
        ensures
            r == self.class_spec(),
    {
        match self {
            HostError::ModuleNotFound => ErrorClass::Configuration,
            HostError::ModuleLoadError => ErrorClass::Configuration,
            HostError::EntryPointMissing => ErrorClass::Configuration,
            HostError::ShapeMismatch => ErrorClass::Configuration,
            HostError::BufferShapeMismatch => ErrorClass::Configuration,
            HostError::InstantiationFailed => ErrorClass::Protocol,
            HostError::EditorAlreadyOpen => ErrorClass::Protocol,
            HostError::InvalidHandle => ErrorClass::Protocol,
            HostError::QueueFull => ErrorClass::Capacity,
        }
    }

    /// True exactly for the errors a caller may recover from.
    pub fn is_recoverable(&self) -> (r: bool)
        ensures
            r == (self.class_spec() == ErrorClass::Capacity),
    {
        match self {
            HostError::QueueFull => true,
            _ => false,
        }
    }
}

} // verus!
