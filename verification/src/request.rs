//! Requests as they arrive on the wire, and their validation.
//!
//! A wire request holds text. Validation turns each field into a value of
//! the sandbox's vocabulary, or rejects the request with the error of the
//! first field that holds no accepted text.

use vstd::prelude::*;
use vstd::std_specs::convert::{FromSpecImpl, TryFromSpecImpl};
use vstd::string::StringExecFns;
use crate::error::{Error, ErrorView};
use crate::sandbox;
use crate::sandbox::{
    AssemblyFlavor,
    Channel,
    CompileTarget,
    CrateType,
    DemangleAssembly,
    Edition,
    LibraryType,
    Mode,
    ProcessAssembly,
};
use crate::text::{optional_text, str_eq};

verus! {

/// A result whose error is seen through its view.
pub open spec fn error_viewed<T>(result: Result<T, Error>) -> Result<T, ErrorView> {
    match result {
        Ok(value) => Ok(value),
        Err(error) => Err(error@),
    }
}

/// A result seen through the views of its value and of its error.
pub open spec fn viewed<T: View>(result: Result<T, Error>) -> Result<T::V, ErrorView> {
    match result {
        Ok(value) => Ok(value@),
        Err(error) => Err(error@),
    }
}

/// The target that a text names. A bare `asm` stands for AT&T syntax,
/// demangled and filtered.
pub open spec fn target_of(text: Seq<char>) -> Result<CompileTarget, ErrorView> {
    if text == "asm"@ {
        Ok(
            CompileTarget::Assembly(
                AssemblyFlavor::Att,
                DemangleAssembly::Demangle,
                ProcessAssembly::Filter,
            ),
        )
    } else if text == "llvm-ir"@ {
        Ok(CompileTarget::LlvmIr)
    } else if text == "mir"@ {
        Ok(CompileTarget::Mir)
    } else if text == "wasm"@ {
        Ok(CompileTarget::Wasm)
    } else {
        Err(ErrorView::InvalidTarget(text))
    }
}

/// The assembly syntax that a text names.
pub open spec fn assembly_flavor_of(text: Seq<char>) -> Result<AssemblyFlavor, ErrorView> {
    if text == "att"@ {
        Ok(AssemblyFlavor::Att)
    } else if text == "intel"@ {
        Ok(AssemblyFlavor::Intel)
    } else {
        Err(ErrorView::InvalidAssemblyFlavor(text))
    }
}

/// The demangling choice that a text names.
pub open spec fn demangle_assembly_of(text: Seq<char>) -> Result<DemangleAssembly, ErrorView> {
    if text == "demangle"@ {
        Ok(DemangleAssembly::Demangle)
    } else if text == "mangle"@ {
        Ok(DemangleAssembly::Mangle)
    } else {
        Err(ErrorView::InvalidDemangleAssembly(text))
    }
}

/// The assembly processing choice that a text names.
pub open spec fn process_assembly_of(text: Seq<char>) -> Result<ProcessAssembly, ErrorView> {
    if text == "filter"@ {
        Ok(ProcessAssembly::Filter)
    } else if text == "raw"@ {
        Ok(ProcessAssembly::Raw)
    } else {
        Err(ErrorView::InvalidProcessAssembly(text))
    }
}

/// The channel that a text names.
pub open spec fn channel_of(text: Seq<char>) -> Result<Channel, ErrorView> {
    if text == "stable"@ {
        Ok(Channel::Stable)
    } else if text == "beta"@ {
        Ok(Channel::Beta)
    } else if text == "nightly"@ {
        Ok(Channel::Nightly)
    } else {
        Err(ErrorView::InvalidChannel(text))
    }
}

/// The mode that a text names.
pub open spec fn mode_of(text: Seq<char>) -> Result<Mode, ErrorView> {
    if text == "debug"@ {
        Ok(Mode::Debug)
    } else if text == "release"@ {
        Ok(Mode::Release)
    } else {
        Err(ErrorView::InvalidMode(text))
    }
}

/// The edition that a text names. The empty text names none, which is
/// valid; no other text is taken for an absent edition.
pub open spec fn edition_of(text: Seq<char>) -> Result<Option<Edition>, ErrorView> {
    if text == ""@ {
        Ok(None)
    } else if text == "2015"@ {
        Ok(Some(Edition::Rust2015))
    } else if text == "2018"@ {
        Ok(Some(Edition::Rust2018))
    } else {
        Err(ErrorView::InvalidEdition(text))
    }
}

/// The crate type that a text names.
pub open spec fn crate_type_of(text: Seq<char>) -> Result<CrateType, ErrorView> {
    if text == "bin"@ {
        Ok(CrateType::Binary)
    } else if text == "lib"@ {
        Ok(CrateType::Library(LibraryType::Lib))
    } else if text == "dylib"@ {
        Ok(CrateType::Library(LibraryType::Dylib))
    } else if text == "rlib"@ {
        Ok(CrateType::Library(LibraryType::Rlib))
    } else if text == "staticlib"@ {
        Ok(CrateType::Library(LibraryType::Staticlib))
    } else if text == "cdylib"@ {
        Ok(CrateType::Library(LibraryType::Cdylib))
    } else if text == "proc-macro"@ {
        Ok(CrateType::Library(LibraryType::ProcMacro))
    } else {
        Err(ErrorView::InvalidCrateType(text))
    }
}

/// The text that names a channel.
pub open spec fn channel_name(channel: Channel) -> Seq<char> {
    match channel {
        Channel::Stable => "stable"@,
        Channel::Beta => "beta"@,
        Channel::Nightly => "nightly"@,
    }
}

/// Each channel is read back from its name, and a text is read as a
/// channel only if it is that channel's name; every other text is rejected
/// with an error that carries just that text.
pub proof fn law_channel_round_trip(channel: Channel, text: Seq<char>)
    ensures
        channel_of(channel_name(channel)) == Ok::<Channel, ErrorView>(channel),
        channel_of(text) == Ok::<Channel, ErrorView>(channel) <==> text == channel_name(channel),
        (forall|other: Channel| text != #[trigger] channel_name(other)) <==> channel_of(text)
            == Err::<Channel, ErrorView>(ErrorView::InvalidChannel(text)),
{
    reveal_strlit("stable");
    reveal_strlit("beta");
    reveal_strlit("nightly");
    assert("stable"@.len() == 6 && "beta"@.len() == 4 && "nightly"@.len() == 7);
    if forall|other: Channel| text != #[trigger] channel_name(other) {
        assert(text != channel_name(Channel::Stable));
        assert(text != channel_name(Channel::Beta));
        assert(text != channel_name(Channel::Nightly));
    }
}

/// Reads a compilation target.
pub fn parse_target(s: &str) -> (result: Result<CompileTarget, Error>)
    ensures
        error_viewed(result) == target_of(s@),
{
    if str_eq(s, "asm") {
        Ok(
            CompileTarget::Assembly(
                AssemblyFlavor::Att,
                DemangleAssembly::Demangle,
                ProcessAssembly::Filter,
            ),
        )
    } else if str_eq(s, "llvm-ir") {
        Ok(CompileTarget::LlvmIr)
    } else if str_eq(s, "mir") {
        Ok(CompileTarget::Mir)
    } else if str_eq(s, "wasm") {
        Ok(CompileTarget::Wasm)
    } else {
        Err(Error::InvalidTarget(String::from_str(s)))
    }
}

/// Reads an assembly syntax.
pub fn parse_assembly_flavor(s: &str) -> (result: Result<AssemblyFlavor, Error>)
    ensures
        error_viewed(result) == assembly_flavor_of(s@),
{
    if str_eq(s, "att") {
        Ok(AssemblyFlavor::Att)
    } else if str_eq(s, "intel") {
        Ok(AssemblyFlavor::Intel)
    } else {
        Err(Error::InvalidAssemblyFlavor(String::from_str(s)))
    }
}

/// Reads a demangling choice.
pub fn parse_demangle_assembly(s: &str) -> (result: Result<DemangleAssembly, Error>)
    ensures
        error_viewed(result) == demangle_assembly_of(s@),
{
    if str_eq(s, "demangle") {
        Ok(DemangleAssembly::Demangle)
    } else if str_eq(s, "mangle") {
        Ok(DemangleAssembly::Mangle)
    } else {
        Err(Error::InvalidDemangleAssembly(String::from_str(s)))
    }
}

/// Reads an assembly processing choice.
pub fn parse_process_assembly(s: &str) -> (result: Result<ProcessAssembly, Error>)
    ensures
        error_viewed(result) == process_assembly_of(s@),
{
    if str_eq(s, "filter") {
        Ok(ProcessAssembly::Filter)
    } else if str_eq(s, "raw") {
        Ok(ProcessAssembly::Raw)
    } else {
        Err(Error::InvalidProcessAssembly(String::from_str(s)))
    }
}

/// Reads a channel.
pub fn parse_channel(s: &str) -> (result: Result<Channel, Error>)
    ensures
        error_viewed(result) == channel_of(s@),
{
    if str_eq(s, "stable") {
        Ok(Channel::Stable)
    } else if str_eq(s, "beta") {
        Ok(Channel::Beta)
    } else if str_eq(s, "nightly") {
        Ok(Channel::Nightly)
    } else {
        Err(Error::InvalidChannel(String::from_str(s)))
    }
}

/// Reads a mode.
pub fn parse_mode(s: &str) -> (result: Result<Mode, Error>)
    ensures
        error_viewed(result) == mode_of(s@),
{
    if str_eq(s, "debug") {
        Ok(Mode::Debug)
    } else if str_eq(s, "release") {
        Ok(Mode::Release)
    } else {
        Err(Error::InvalidMode(String::from_str(s)))
    }
}

/// Reads an edition, which may be absent.
pub fn parse_edition(s: &str) -> (result: Result<Option<Edition>, Error>)
    ensures
        error_viewed(result) == edition_of(s@),
{
    if str_eq(s, "") {
        Ok(None)
    } else if str_eq(s, "2015") {
        Ok(Some(Edition::Rust2015))
    } else if str_eq(s, "2018") {
        Ok(Some(Edition::Rust2018))
    } else {
        Err(Error::InvalidEdition(String::from_str(s)))
    }
}

/// Reads a crate type.
pub fn parse_crate_type(s: &str) -> (result: Result<CrateType, Error>)
    ensures
        error_viewed(result) == crate_type_of(s@),
{
    if str_eq(s, "bin") {
        Ok(CrateType::Binary)
    } else if str_eq(s, "lib") {
        Ok(CrateType::Library(LibraryType::Lib))
    } else if str_eq(s, "dylib") {
        Ok(CrateType::Library(LibraryType::Dylib))
    } else if str_eq(s, "rlib") {
        Ok(CrateType::Library(LibraryType::Rlib))
    } else if str_eq(s, "staticlib") {
        Ok(CrateType::Library(LibraryType::Staticlib))
    } else if str_eq(s, "cdylib") {
        Ok(CrateType::Library(LibraryType::Cdylib))
    } else if str_eq(s, "proc-macro") {
        Ok(CrateType::Library(LibraryType::ProcMacro))
    } else {
        Err(Error::InvalidCrateType(String::from_str(s)))
    }
}

/// A request to compile code, as it arrives.
#[derive(Debug, Clone, PartialEq, Eq)]
pub struct CompileRequest {
    pub target: String,
    pub assembly_flavor: Option<String>,
    pub demangle_assembly: Option<String>,
    pub process_assembly: Option<String>,
    pub channel: String,
    pub mode: String,
    pub edition: String,
    pub crate_type: String,
    pub tests: bool,
    pub backtrace: bool,
    pub code: String,
}

/// A [`CompileRequest`] with its texts as sequences of characters.
pub struct CompileRequestView {
    pub target: Seq<char>,
    pub assembly_flavor: Option<Seq<char>>,
    pub demangle_assembly: Option<Seq<char>>,
    pub process_assembly: Option<Seq<char>>,
    pub channel: Seq<char>,
    pub mode: Seq<char>,
    pub edition: Seq<char>,
    pub crate_type: Seq<char>,
    pub tests: bool,
    pub backtrace: bool,
    pub code: Seq<char>,
}

impl View for CompileRequest {
    type V = CompileRequestView;

    open spec fn view(&self) -> CompileRequestView {
        CompileRequestView {
            target: self.target@,
            assembly_flavor: optional_text(self.assembly_flavor),
            demangle_assembly: optional_text(self.demangle_assembly),
            process_assembly: optional_text(self.process_assembly),
            channel: self.channel@,
            mode: self.mode@,
            edition: self.edition@,
            crate_type: self.crate_type@,
            tests: self.tests,
            backtrace: self.backtrace,
            code: self.code@,
        }
    }
}

/// The target of a compilation after the three assembly options have been
/// taken into account.
///
/// The options replace those of the base target only when the base target
/// is assembly and all three are present. In every other case the base
/// target stands as it is: one or two options alone change nothing.
pub open spec fn merged_target(
    base: CompileTarget,
    flavor: Option<AssemblyFlavor>,
    demangle: Option<DemangleAssembly>,
    process: Option<ProcessAssembly>,
) -> CompileTarget {
    match (base, flavor, demangle, process) {
        (CompileTarget::Assembly(_, _, _), Some(flavor), Some(demangle), Some(process)) => {
            CompileTarget::Assembly(flavor, demangle, process)
        },
        _ => base,
    }
}

/// The assembly options are taken all together or not at all: the merged
/// target differs from the base target only where the base target is
/// assembly and all three options are present, and then it is assembly with
/// exactly those options.
pub proof fn law_assembly_options_merge_all_or_nothing(
    base: CompileTarget,
    flavor: Option<AssemblyFlavor>,
    demangle: Option<DemangleAssembly>,
    process: Option<ProcessAssembly>,
)
    ensures
        base is Assembly && flavor is Some && demangle is Some && process is Some ==> merged_target(
            base,
            flavor,
            demangle,
            process,
        ) == CompileTarget::Assembly(flavor.unwrap(), demangle.unwrap(), process.unwrap()),
        !(base is Assembly) || flavor is None || demangle is None || process is None
            ==> merged_target(base, flavor, demangle, process) == base,
{
}

impl CompileRequestView {
    /// The assembly syntax asked for, if any; an error if the field is
    /// present and holds no accepted text.
    pub open spec fn flavor(self) -> Result<Option<AssemblyFlavor>, ErrorView> {
        match self.assembly_flavor {
            Some(text) => match assembly_flavor_of(text) {
                Ok(flavor) => Ok(Some(flavor)),
                Err(error) => Err(error),
            },
            None => Ok(None),
        }
    }

    /// The demangling choice asked for, if any; an error if the field is
    /// present and holds no accepted text.
    pub open spec fn demangle(self) -> Result<Option<DemangleAssembly>, ErrorView> {
        match self.demangle_assembly {
            Some(text) => match demangle_assembly_of(text) {
                Ok(demangle) => Ok(Some(demangle)),
                Err(error) => Err(error),
            },
            None => Ok(None),
        }
    }

    /// The processing choice asked for, if any; an error if the field is
    /// present and holds no accepted text.
    pub open spec fn process(self) -> Result<Option<ProcessAssembly>, ErrorView> {
        match self.process_assembly {
            Some(text) => match process_assembly_of(text) {
                Ok(process) => Ok(Some(process)),
                Err(error) => Err(error),
            },
            None => Ok(None),
        }
    }

    /// The request as the sandbox understands it, or the error of the first
    /// field that is not valid, in the order target, assembly flavor,
    /// demangling, processing, channel, mode, edition, crate type.
    pub open spec fn validated(self) -> Result<sandbox::CompileRequestView, ErrorView> {
        match target_of(self.target) {
            Err(error) => Err(error),
            Ok(base) => match self.flavor() {
                Err(error) => Err(error),
                Ok(flavor) => match self.demangle() {
                    Err(error) => Err(error),
                    Ok(demangle) => match self.process() {
                        Err(error) => Err(error),
                        Ok(process) => match channel_of(self.channel) {
                            Err(error) => Err(error),
                            Ok(channel) => match mode_of(self.mode) {
                                Err(error) => Err(error),
                                Ok(mode) => match edition_of(self.edition) {
                                    Err(error) => Err(error),
                                    Ok(edition) => match crate_type_of(self.crate_type) {
                                        Err(error) => Err(error),
                                        Ok(crate_type) => Ok(
                                            sandbox::CompileRequestView {
                                                target: merged_target(
                                                    base,
                                                    flavor,
                                                    demangle,
                                                    process,
                                                ),
                                                channel,
                                                mode,
                                                edition,
                                                crate_type,
                                                tests: self.tests,
                                                backtrace: self.backtrace,
                                                code: self.code,
                                            },
                                        ),
                                    },
                                },
                            },
                        },
                    },
                },
            },
        }
    }
}

impl TryFrom<CompileRequest> for sandbox::CompileRequest {
    type Error = Error;

    /// Validates a compilation request.
    fn try_from(me: CompileRequest) -> (result: Result<Self, Error>)
        ensures
            viewed(result) == me@.validated(),
    {
        let target = match parse_target(me.target.as_str()) {
            Ok(target) => target,
            Err(error) => {
                return Err(error);
            },
        };
        let assembly_flavor = match &me.assembly_flavor {
            Some(f) => match parse_assembly_flavor(f.as_str()) {
                Ok(flavor) => Some(flavor),
                Err(error) => {
                    return Err(error);
                },
            },
            None => None,
        };
        let demangle = match &me.demangle_assembly {
            Some(f) => match parse_demangle_assembly(f.as_str()) {
                Ok(demangle) => Some(demangle),
                Err(error) => {
                    return Err(error);
                },
            },
            None => None,
        };
        let process_assembly = match &me.process_assembly {
            Some(f) => match parse_process_assembly(f.as_str()) {
                Ok(process) => Some(process),
                Err(error) => {
                    return Err(error);
                },
            },
            None => None,
        };

        let target = match (target, assembly_flavor, demangle, process_assembly) {
            (CompileTarget::Assembly(_, _, _), Some(flavor), Some(demangle), Some(process)) => {
                CompileTarget::Assembly(flavor, demangle, process)
            },
            _ => target,
        };

        let channel = match parse_channel(me.channel.as_str()) {
            Ok(channel) => channel,
            Err(error) => {
                return Err(error);
            },
        };
        let mode = match parse_mode(me.mode.as_str()) {
            Ok(mode) => mode,
            Err(error) => {
                return Err(error);
            },
        };
        let edition = match parse_edition(me.edition.as_str()) {
            Ok(edition) => edition,
            Err(error) => {
                return Err(error);
            },
        };
        let crate_type = match parse_crate_type(me.crate_type.as_str()) {
            Ok(crate_type) => crate_type,
            Err(error) => {
                return Err(error);
            },
        };
        Ok(
            sandbox::CompileRequest {
                target,
                channel,
                mode,
                edition,
                crate_type,
                tests: me.tests,
                backtrace: me.backtrace,
                code: me.code,
            },
        )
    }
}


/// The conversion is specified through views, by
/// [`CompileRequestView::validated`]: the text in an error is a copy of the
/// rejected field, equal to it in content.
impl TryFromSpecImpl<CompileRequest> for sandbox::CompileRequest {
    open spec fn obeys_try_from_spec() -> bool {
        false
    }

    open spec fn try_from_spec(v: CompileRequest) -> Result<Self, Error> {
        choose|result: Result<Self, Error>| viewed(result) == v@.validated()
    }
}

/// A request to build and run code, as it arrives.
#[derive(Debug, Clone, PartialEq, Eq)]
pub struct ExecuteRequest {
    pub channel: String,
    pub mode: String,
    pub edition: String,
    pub crate_type: String,
    pub tests: bool,
    pub backtrace: bool,
    pub code: String,
}

/// An [`ExecuteRequest`] with its texts as sequences of characters.
pub struct ExecuteRequestView {
    pub channel: Seq<char>,
    pub mode: Seq<char>,
    pub edition: Seq<char>,
    pub crate_type: Seq<char>,
    pub tests: bool,
    pub backtrace: bool,
    pub code: Seq<char>,
}

impl View for ExecuteRequest {
    type V = ExecuteRequestView;

    open spec fn view(&self) -> ExecuteRequestView {
        ExecuteRequestView {
            channel: self.channel@,
            mode: self.mode@,
            edition: self.edition@,
            crate_type: self.crate_type@,
            tests: self.tests,
            backtrace: self.backtrace,
            code: self.code@,
        }
    }
}

impl ExecuteRequestView {
    /// The request as the sandbox understands it, or the error of the first
    /// field that is not valid, in the order channel, mode, edition, crate
    /// type.
    pub open spec fn validated(self) -> Result<sandbox::ExecuteRequestView, ErrorView> {
        match channel_of(self.channel) {
            Err(error) => Err(error),
            Ok(channel) => match mode_of(self.mode) {
                Err(error) => Err(error),
                Ok(mode) => match edition_of(self.edition) {
                    Err(error) => Err(error),
                    Ok(edition) => match crate_type_of(self.crate_type) {
                        Err(error) => Err(error),
                        Ok(crate_type) => Ok(
                            sandbox::ExecuteRequestView {
                                channel,
                                mode,
                                edition,
                                crate_type,
                                tests: self.tests,
                                backtrace: self.backtrace,
                                code: self.code,
                            },
                        ),
                    },
                },
            },
        }
    }
}

impl TryFrom<ExecuteRequest> for sandbox::ExecuteRequest {
    type Error = Error;

    /// Validates a request to build and run code.
    fn try_from(me: ExecuteRequest) -> (result: Result<Self, Error>)
        ensures
            viewed(result) == me@.validated(),
    {
        let channel = match parse_channel(me.channel.as_str()) {
            Ok(channel) => channel,
            Err(error) => {
                return Err(error);
            },
        };
        let mode = match parse_mode(me.mode.as_str()) {
            Ok(mode) => mode,
            Err(error) => {
                return Err(error);
            },
        };
        let edition = match parse_edition(me.edition.as_str()) {
            Ok(edition) => edition,
            Err(error) => {
                return Err(error);
            },
        };
        let crate_type = match parse_crate_type(me.crate_type.as_str()) {
            Ok(crate_type) => crate_type,
            Err(error) => {
                return Err(error);
            },
        };
        Ok(
            sandbox::ExecuteRequest {
                channel,
                mode,
                edition,
                crate_type,
                tests: me.tests,
                backtrace: me.backtrace,
                code: me.code,
            },
        )
    }
}

/// The conversion is specified through views, by
/// [`ExecuteRequestView::validated`].
impl TryFromSpecImpl<ExecuteRequest> for sandbox::ExecuteRequest {
    open spec fn obeys_try_from_spec() -> bool {
        false
    }

    open spec fn try_from_spec(v: ExecuteRequest) -> Result<Self, Error> {
        choose|result: Result<Self, Error>| viewed(result) == v@.validated()
    }
}

/// A request in the legacy form: a channel under the name `version`,
/// and an optimization level.
#[derive(Debug, Clone, PartialEq, Eq)]
pub struct EvaluateRequest {
    pub version: String,
    pub optimize: String,
    pub code: String,
}

/// An [`EvaluateRequest`] with its texts as sequences of characters.
pub struct EvaluateRequestView {
    pub version: Seq<char>,
    pub optimize: Seq<char>,
    pub code: Seq<char>,
}

impl View for EvaluateRequest {
    type V = EvaluateRequestView;

    open spec fn view(&self) -> EvaluateRequestView {
        EvaluateRequestView { version: self.version@, optimize: self.optimize@, code: self.code@ }
    }
}

/// The mode that an optimization level stands for: `Debug` for the text
/// `0` and `Release` for every other text, numeric or not.
pub open spec fn mode_of_optimize(optimize: Seq<char>) -> Mode {
    if optimize == "0"@ {
        Mode::Debug
    } else {
        Mode::Release
    }
}

impl EvaluateRequestView {
    /// The request as one to build and run a binary, without tests,
    /// backtrace or edition; an error if `version` names no channel.
    pub open spec fn validated(self) -> Result<sandbox::ExecuteRequestView, ErrorView> {
        match channel_of(self.version) {
            Err(error) => Err(error),
            Ok(channel) => Ok(
                sandbox::ExecuteRequestView {
                    channel,
                    mode: mode_of_optimize(self.optimize),
                    edition: None,
                    crate_type: CrateType::Binary,
                    tests: false,
                    backtrace: false,
                    code: self.code,
                },
            ),
        }
    }
}

/// A request of the legacy form that is accepted never names an edition,
/// always asks for a plain binary without tests or backtrace, and is built
/// in debug mode exactly when its optimization level is the text `0`.
pub proof fn law_legacy_request_defaults(
    request: EvaluateRequestView,
    valid: sandbox::ExecuteRequestView,
)
    requires
        request.validated() == Ok::<sandbox::ExecuteRequestView, ErrorView>(valid),
    ensures
        valid.edition is None,
        valid.crate_type == CrateType::Binary,
        !valid.tests,
        !valid.backtrace,
        valid.mode == Mode::Debug <==> request.optimize == "0"@,
        valid.mode == Mode::Release <==> request.optimize != "0"@,
{
}

impl TryFrom<EvaluateRequest> for sandbox::ExecuteRequest {
    type Error = Error;

    /// Validates a request of the legacy form.
    fn try_from(me: EvaluateRequest) -> (result: Result<Self, Error>)
        ensures
            viewed(result) == me@.validated(),
    {
        let channel = match parse_channel(me.version.as_str()) {
            Ok(channel) => channel,
            Err(error) => {
                return Err(error);
            },
        };
        let mode = if !str_eq(me.optimize.as_str(), "0") {
            Mode::Release
        } else {
            Mode::Debug
        };
        Ok(
            sandbox::ExecuteRequest {
                channel,
                mode,
                edition: None,
                crate_type: CrateType::Binary,
                tests: false,
                backtrace: false,
                code: me.code,
            },
        )
    }
}

/// The conversion is specified through views, by
/// [`EvaluateRequestView::validated`].
impl TryFromSpecImpl<EvaluateRequest> for sandbox::ExecuteRequest {
    open spec fn obeys_try_from_spec() -> bool {
        false
    }

    open spec fn try_from_spec(v: EvaluateRequest) -> Result<Self, Error> {
        choose|result: Result<Self, Error>| viewed(result) == v@.validated()
    }
}

/// A request to format code, as it arrives.
#[derive(Debug, Clone, PartialEq, Eq)]
pub struct FormatRequest {
    pub code: String,
}

impl TryFrom<FormatRequest> for sandbox::FormatRequest {
    type Error = Error;

    /// Takes the code over. There is nothing to validate.
    fn try_from(me: FormatRequest) -> (result: Result<Self, Error>) {
        Ok(sandbox::FormatRequest { code: me.code })
    }
}

impl TryFromSpecImpl<FormatRequest> for sandbox::FormatRequest {
    open spec fn obeys_try_from_spec() -> bool {
        true
    }

    open spec fn try_from_spec(v: FormatRequest) -> Result<Self, Error> {
        Ok(sandbox::FormatRequest { code: v.code })
    }
}

/// A request to lint code, as it arrives.
#[derive(Debug, Clone, PartialEq, Eq)]
pub struct ClippyRequest {
    pub code: String,
}

impl From<ClippyRequest> for sandbox::ClippyRequest {
    /// Takes the code over.
    fn from(me: ClippyRequest) -> (result: Self) {
        sandbox::ClippyRequest { code: me.code }
    }
}

impl FromSpecImpl<ClippyRequest> for sandbox::ClippyRequest {
    open spec fn obeys_from_spec() -> bool {
        true
    }

    open spec fn from_spec(v: ClippyRequest) -> Self {
        sandbox::ClippyRequest { code: v.code }
    }
}

/// A request to interpret code, as it arrives.
#[derive(Debug, Clone, PartialEq, Eq)]
pub struct MiriRequest {
    pub code: String,
}

impl From<MiriRequest> for sandbox::MiriRequest {
    /// Takes the code over.
    fn from(me: MiriRequest) -> (result: Self) {
        sandbox::MiriRequest { code: me.code }
    }
}

impl FromSpecImpl<MiriRequest> for sandbox::MiriRequest {
    open spec fn obeys_from_spec() -> bool {
        true
    }

    open spec fn from_spec(v: MiriRequest) -> Self {
        sandbox::MiriRequest { code: v.code }
    }
}

/// A request to store code as a gist, as it arrives.
#[derive(Debug, Clone, PartialEq, Eq)]
pub struct MetaGistCreateRequest {
    pub code: String,
}


} // verus!
