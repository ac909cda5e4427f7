//! The vocabulary of the sandbox: what it can be asked to do and what it
//! answers. The sandbox itself lives outside this crate.

use vstd::prelude::*;

verus! {

/// A release channel of the toolchain.
#[derive(Debug, Clone, Copy, PartialEq, Eq, Structural)]
pub enum Channel {
    Stable,
    Beta,
    Nightly,
}

/// How much the compiler optimizes.
#[derive(Debug, Clone, Copy, PartialEq, Eq, Structural)]
pub enum Mode {
    Debug,
    Release,
}

/// A language edition.
#[derive(Debug, Clone, Copy, PartialEq, Eq, Structural)]
pub enum Edition {
    Rust2015,
    Rust2018,
}

/// The kind of library that a crate is built as.
#[derive(Debug, Clone, Copy, PartialEq, Eq, Structural)]
pub enum LibraryType {
    Lib,
    Dylib,
    Rlib,
    Staticlib,
    Cdylib,
    ProcMacro,
}

/// What a crate is built as.
#[derive(Debug, Clone, Copy, PartialEq, Eq, Structural)]
pub enum CrateType {
    Binary,
    Library(LibraryType),
}

/// The syntax of emitted assembly.
#[derive(Debug, Clone, Copy, PartialEq, Eq, Structural)]
pub enum AssemblyFlavor {
    Att,
    Intel,
}

/// Whether symbol names in emitted assembly are demangled.
#[derive(Debug, Clone, Copy, PartialEq, Eq, Structural)]
pub enum DemangleAssembly {
    Demangle,
    Mangle,
}

/// Whether emitted assembly is cleaned of directives and unused labels.
#[derive(Debug, Clone, Copy, PartialEq, Eq, Structural)]
pub enum ProcessAssembly {
    Filter,
    Raw,
}

/// What a compilation emits.
#[derive(Debug, Clone, Copy, PartialEq, Eq, Structural)]
pub enum CompileTarget {
    Assembly(AssemblyFlavor, DemangleAssembly, ProcessAssembly),
    LlvmIr,
    Mir,
    Wasm,
}

/// A failed sandbox operation, as the sandbox describes it.
#[derive(Debug, Clone, PartialEq, Eq)]
pub struct Error {
    /// The sandbox's description of what went wrong.
    pub message: String,
}

/// A request to compile code.
#[derive(Debug, Clone, PartialEq, Eq)]
pub struct CompileRequest {
    pub target: CompileTarget,
    pub channel: Channel,
    pub mode: Mode,
    pub edition: Option<Edition>,
    pub crate_type: CrateType,
    pub tests: bool,
    pub backtrace: bool,
    pub code: String,
}

/// A [`CompileRequest`] with its code as a sequence of characters.
pub struct CompileRequestView {
    pub target: CompileTarget,
    pub channel: Channel,
    pub mode: Mode,
    pub edition: Option<Edition>,
    pub crate_type: CrateType,
    pub tests: bool,
    pub backtrace: bool,
    pub code: Seq<char>,
}

impl View for CompileRequest {
    type V = CompileRequestView;

    open spec fn view(&self) -> CompileRequestView {
        CompileRequestView {
            target: self.target,
            channel: self.channel,
            mode: self.mode,
            edition: self.edition,
            crate_type: self.crate_type,
            tests: self.tests,
            backtrace: self.backtrace,
            code: self.code@,
        }
    }
}

/// The outcome of a compilation.
#[derive(Debug, Clone, PartialEq, Eq)]
pub struct CompileResponse {
    pub success: bool,
    pub code: String,
    pub stdout: String,
    pub stderr: String,
}

/// A request to build and run code.
#[derive(Debug, Clone, PartialEq, Eq)]
pub struct ExecuteRequest {
    pub channel: Channel,
    pub mode: Mode,
    pub edition: Option<Edition>,
    pub crate_type: CrateType,
    pub tests: bool,
    pub backtrace: bool,
    pub code: String,
}

/// An [`ExecuteRequest`] with its code as a sequence of characters.
pub struct ExecuteRequestView {
    pub channel: Channel,
    pub mode: Mode,
    pub edition: Option<Edition>,
    pub crate_type: CrateType,
    pub tests: bool,
    pub backtrace: bool,
    pub code: Seq<char>,
}

impl View for ExecuteRequest {
    type V = ExecuteRequestView;

    open spec fn view(&self) -> ExecuteRequestView {
        ExecuteRequestView {
            channel: self.channel,
            mode: self.mode,
            edition: self.edition,
            crate_type: self.crate_type,
            tests: self.tests,
            backtrace: self.backtrace,
            code: self.code@,
        }
    }
}

/// The outcome of building and running code.
#[derive(Debug, Clone, PartialEq, Eq)]
pub struct ExecuteResponse {
    pub success: bool,
    pub stdout: String,
    pub stderr: String,
}

/// A request to format code.
#[derive(Debug, Clone, PartialEq, Eq)]
pub struct FormatRequest {
    pub code: String,
}

/// The outcome of formatting code.
#[derive(Debug, Clone, PartialEq, Eq)]
pub struct FormatResponse {
    pub success: bool,
    pub code: String,
    pub stdout: String,
    pub stderr: String,
}

/// A request to lint code.
#[derive(Debug, Clone, PartialEq, Eq)]
pub struct ClippyRequest {
    pub code: String,
}

/// The outcome of linting code.
#[derive(Debug, Clone, PartialEq, Eq)]
pub struct ClippyResponse {
    pub success: bool,
    pub stdout: String,
    pub stderr: String,
}

/// A request to interpret code and look for undefined behaviour.
#[derive(Debug, Clone, PartialEq, Eq)]
pub struct MiriRequest {
    pub code: String,
}

/// The outcome of interpreting code.
#[derive(Debug, Clone, PartialEq, Eq)]
pub struct MiriResponse {
    pub success: bool,
    pub stdout: String,
    pub stderr: String,
}

/// A crate that code in the sandbox can use.
#[derive(Debug, Clone, PartialEq, Eq)]
pub struct CrateInformation {
    pub name: String,
    pub version: String,
    pub id: String,
}

/// The version of a toolchain.
#[derive(Debug, Clone, PartialEq, Eq)]
pub struct Version {
    pub release: String,
    pub commit_hash: String,
    pub commit_date: String,
}

} // verus!
