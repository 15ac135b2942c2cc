//! What the component-model host needs decided about a plugin: whether it
//! is of the kind that the call site expects, and the errors the host
//! reports. Loading and running the binary component is the caller's part.

use crate::storage::PluginType;
use vstd::prelude::*;

verus! {

/// Errors that can occur in the WASM runtime.
#[derive(Debug, Clone, PartialEq, Eq)]
pub enum WasmError {
    /// Failed to create the WASM engine.
    EngineCreation(String),
    /// Failed to load a WASM component.
    ComponentLoad { path: String, reason: String },
    /// Failed to instantiate a WASM component.
    Instantiation(String),
    /// Failed to call a WASM function.
    FunctionCall { name: String, reason: String },
    /// Plugin type mismatch.
    TypeMismatch { expected: String, actual: String },
    /// I/O error.
    Io(String),
    /// Error of the runtime.
    Wasmtime(String),
}

/// Result type for WASM runtime operations.
pub type WasmResult<T> = Result<T, WasmError>;

impl WasmError {
    /// The message of the error.
    pub open spec fn message(self) -> Seq<char> {
        match self {
            WasmError::EngineCreation(what) => "failed to create WASM engine: "@ + what@,
            WasmError::ComponentLoad { path, reason } => "failed to load WASM component from "@
                + path@ + ": "@ + reason@,
            WasmError::Instantiation(what) => "failed to instantiate WASM component: "@ + what@,
            WasmError::FunctionCall { name, reason } => "failed to call WASM function '"@ + name@
                + "': "@ + reason@,
            WasmError::TypeMismatch { expected, actual } => "plugin type mismatch: expected "@
                + expected@ + ", got "@ + actual@,
            WasmError::Io(what) => "I/O error: "@ + what@,
            WasmError::Wasmtime(what) => "wasmtime error: "@ + what@,
        }
    }

    /// The error says that a plugin of kind `expected` was called for, and
    /// one of kind `actual` was found.
    pub open spec fn is_mismatch(self, expected: PluginType, actual: PluginType) -> bool {
        self matches WasmError::TypeMismatch { expected: e, actual: a } && e@ == expected.label()
            && a@ == actual.label()
    }

    /// The message of the error.
    pub fn to_string(&self) -> (r: String)
        ensures
            r@ == self.message(),
    {
        match self {
            WasmError::EngineCreation(what) => {
                let mut out = String::from_str("failed to create WASM engine: ");
                out.append(what.as_str());
                out
            },
            WasmError::ComponentLoad { path, reason } => {
                let mut out = String::from_str("failed to load WASM component from ");
                out.append(path.as_str());
                out.append(": ");
                out.append(reason.as_str());
                out
            },
            WasmError::Instantiation(what) => {
                let mut out = String::from_str("failed to instantiate WASM component: ");
                out.append(what.as_str());
                out
            },
            WasmError::FunctionCall { name, reason } => {
                let mut out = String::from_str("failed to call WASM function '");
                out.append(name.as_str());
                out.append("': ");
                out.append(reason.as_str());
                out
            },
            WasmError::TypeMismatch { expected, actual } => {
                let mut out = String::from_str("plugin type mismatch: expected ");
                out.append(expected.as_str());
                out.append(", got ");
                out.append(actual.as_str());
                out
            },
            WasmError::Io(what) => {
                let mut out = String::from_str("I/O error: ");
                out.append(what.as_str());
                out
            },
            WasmError::Wasmtime(what) => {
                let mut out = String::from_str("wasmtime error: ");
                out.append(what.as_str());
                out
            },
        }
    }
}

/// What a plugin says of itself.
#[derive(Debug, Clone, PartialEq, Eq)]
pub struct PluginInfo {
    pub name: String,
    pub version: String,
    pub description: String,
    pub plugin_type: PluginType,
}

/// Checks that a plugin is of the kind that the call site expects. A plugin
/// of another kind is rejected with `TypeMismatch`.
pub fn check_plugin_kind(expected: PluginType, info: &PluginInfo) -> (r: WasmResult<()>)
    ensures
        r is Ok <==> info.plugin_type == expected,
        r matches Err(e) ==> e.is_mismatch(expected, info.plugin_type),
{
    if info.plugin_type == expected {
        Ok(())
    } else {
        Err(
            WasmError::TypeMismatch {
                expected: String::from_str(expected.as_str()),
                actual: String::from_str(info.plugin_type.as_str()),
            },
        )
    }
}

/// Store state for bumper plugins.
pub struct BumperState;

/// Store state for formatter plugins.
pub struct FormatterState;

/// Store state for parser plugins.
pub struct ParserState;

} // verus!
