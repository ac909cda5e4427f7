use std::cell::{Cell, RefCell};

use playground_gateway::cache::{CachedSandbox, SandboxCacheOne, Timestamp};
use playground_gateway::error::Error;
use playground_gateway::gist;
use playground_gateway::handlers::{
    clippy, compile, deserialize_from_request, evaluate, execute, meta_crates,
    meta_version_beta, meta_version_nightly, meta_version_stable, miri, Gist,
};
use playground_gateway::request::{
    ClippyRequest, CompileRequest, EvaluateRequest, ExecuteRequest, FormatRequest,
    MetaGistCreateRequest, MiriRequest,
};
use playground_gateway::response::{
    ClippyResponse, CompileResponse, CrateInformation, EvaluateResponse, ExecuteResponse,
    FormatResponse, MetaCratesResponse, MetaGistResponse, MetaVersionResponse, MiriResponse,
};
use playground_gateway::sandbox;
use playground_gateway::sandbox::{
    AssemblyFlavor, Channel, CompileTarget, CrateType, DemangleAssembly, Mode, ProcessAssembly,
};

struct Sandbox;

fn at(seconds: u64) -> impl Fn() -> Timestamp {
    move || Timestamp::from_secs(seconds)
}

fn s(text: &str) -> String {
    text.to_string()
}

fn failure(message: &str) -> sandbox::Error {
    sandbox::Error { message: s(message) }
}

fn compile_request(target: &str) -> CompileRequest {
    CompileRequest {
        target: s(target),
        assembly_flavor: None,
        demangle_assembly: None,
        process_assembly: None,
        channel: s("stable"),
        mode: s("debug"),
        edition: String::new(),
        crate_type: s("bin"),
        tests: false,
        backtrace: false,
        code: s("fn main(){}"),
    }
}

fn execute_request(channel: &str) -> ExecuteRequest {
    ExecuteRequest {
        channel: s(channel),
        mode: s("release"),
        edition: s("2018"),
        crate_type: s("bin"),
        tests: false,
        backtrace: true,
        code: s("fn main(){}"),
    }
}

#[test]
fn compile_hands_the_validated_request_to_the_sandbox() {
    let seen = RefCell::new(None);
    let result = compile(
        compile_request("asm"),
        || Ok(Sandbox),
        |_: Sandbox, request: &sandbox::CompileRequest| {
            *seen.borrow_mut() = Some(request.clone());
            Ok(sandbox::CompileResponse {
                success: true,
                code: s("mov"),
                stdout: s("out"),
                stderr: s("err"),
            })
        },
    );
    assert_eq!(
        result,
        Ok(CompileResponse { success: true, code: s("mov"), stdout: s("out"), stderr: s("err") })
    );
    assert_eq!(
        seen.into_inner(),
        Some(sandbox::CompileRequest {
            target: CompileTarget::Assembly(
                AssemblyFlavor::Att,
                DemangleAssembly::Demangle,
                ProcessAssembly::Filter
            ),
            channel: Channel::Stable,
            mode: Mode::Debug,
            edition: None,
            crate_type: CrateType::Binary,
            tests: false,
            backtrace: false,
            code: s("fn main(){}"),
        })
    );
}

#[test]
fn an_invalid_request_never_reaches_the_sandbox() {
    let ran = Cell::new(false);
    let result = compile(
        compile_request("elf"),
        || Ok(Sandbox),
        |_: Sandbox, _: &sandbox::CompileRequest| {
            ran.set(true);
            Err(failure("unreachable"))
        },
    );
    assert_eq!(result, Err(Error::InvalidTarget(s("elf"))));
    assert!(!ran.get());
}

#[test]
fn a_sandbox_that_cannot_be_made_is_reported_before_the_request_is_looked_at() {
    let ran = Cell::new(false);
    let result = compile(
        compile_request("elf"),
        || Err::<Sandbox, _>(failure("no temporary directory")),
        |_: Sandbox, _: &sandbox::CompileRequest| {
            ran.set(true);
            Err(failure("unreachable"))
        },
    );
    assert_eq!(result, Err(Error::Sandbox(failure("no temporary directory"))));
    assert!(!ran.get());
}

#[test]
fn a_failure_of_the_sandbox_is_a_sandbox_error() {
    let result = execute(
        execute_request("beta"),
        || Ok(Sandbox),
        |_: Sandbox, _: &sandbox::ExecuteRequest| Err(failure("timed out")),
    );
    assert_eq!(result, Err(Error::Sandbox(failure("timed out"))));
}

#[test]
fn execute_sends_what_the_sandbox_answers() {
    let result = execute(
        execute_request("beta"),
        || Ok(Sandbox),
        |_: Sandbox, request: &sandbox::ExecuteRequest| {
            assert_eq!(request.channel, Channel::Beta);
            assert_eq!(request.mode, Mode::Release);
            assert!(request.backtrace);
            Ok(sandbox::ExecuteResponse { success: true, stdout: s("hi"), stderr: s("") })
        },
    );
    assert_eq!(result, Ok(ExecuteResponse { success: true, stdout: s("hi"), stderr: s("") }));
    let rejected = execute(
        execute_request("gamma"),
        || Ok(Sandbox),
        |_: Sandbox, _: &sandbox::ExecuteRequest| Err(failure("unreachable")),
    );
    assert_eq!(rejected, Err(Error::InvalidChannel(s("gamma"))));
}

#[test]
fn format_clippy_and_miri_hand_the_code_over() {
    let result = playground_gateway::handlers::format(
        FormatRequest { code: s("fn  main(){}") },
        || Ok(Sandbox),
        |_: Sandbox, request: &sandbox::FormatRequest| {
            assert_eq!(request.code, "fn  main(){}");
            Ok(sandbox::FormatResponse {
                success: true,
                code: s("fn main() {}\n"),
                stdout: s(""),
                stderr: s(""),
            })
        },
    );
    assert_eq!(
        result,
        Ok(FormatResponse { success: true, code: s("fn main() {}\n"), stdout: s(""), stderr: s("") })
    );

    let result = clippy(
        ClippyRequest { code: s("lint me") },
        || Ok(Sandbox),
        |_: Sandbox, request: &sandbox::ClippyRequest| {
            assert_eq!(request.code, "lint me");
            Ok(sandbox::ClippyResponse { success: false, stdout: s("o"), stderr: s("e") })
        },
    );
    assert_eq!(result, Ok(ClippyResponse { success: false, stdout: s("o"), stderr: s("e") }));

    let result = miri(
        MiriRequest { code: s("interpret me") },
        || Ok(Sandbox),
        |_: Sandbox, request: &sandbox::MiriRequest| {
            assert_eq!(request.code, "interpret me");
            Ok(sandbox::MiriResponse { success: true, stdout: s("o"), stderr: s("e") })
        },
    );
    assert_eq!(result, Ok(MiriResponse { success: true, stdout: s("o"), stderr: s("e") }));

    let result = miri(
        MiriRequest { code: s("x") },
        || Err::<Sandbox, _>(failure("down")),
        |_: Sandbox, _: &sandbox::MiriRequest| Err(failure("unreachable")),
    );
    assert_eq!(result, Err(Error::Sandbox(failure("down"))));
}

#[test]
fn evaluate_runs_the_code_and_answers_in_the_legacy_form() {
    let request = EvaluateRequest { version: s("stable"), optimize: s("0"), code: s("fn main(){}") };
    let result = evaluate(
        request,
        || Ok(Sandbox),
        |_: Sandbox, request: &sandbox::ExecuteRequest| {
            assert_eq!(request.mode, Mode::Debug);
            assert_eq!(request.edition, None);
            assert_eq!(request.crate_type, CrateType::Binary);
            Ok(sandbox::ExecuteResponse { success: false, stdout: s("out"), stderr: s("err") })
        },
    );
    assert_eq!(result, Ok(EvaluateResponse { result: s("errout"), error: Some(s("errout")) }));
}

#[test]
fn a_body_that_is_missing_or_broken_is_an_error() {
    let handled = Cell::new(0u32);
    let handle = |n: u32| {
        handled.set(handled.get() + 1);
        if n == 0 {
            Err(Error::InvalidMode(s("0")))
        } else {
            Ok(n + 1)
        }
    };
    assert_eq!(
        deserialize_from_request(Err(s("EOF while parsing")), handle),
        Err(Error::Deserialization(s("EOF while parsing")))
    );
    assert_eq!(deserialize_from_request(Ok(None), handle), Err(Error::RequestMissing));
    assert_eq!(handled.get(), 0);
    assert_eq!(deserialize_from_request(Ok(Some(4)), handle), Ok(5));
    assert_eq!(deserialize_from_request(Ok(Some(0)), handle), Err(Error::InvalidMode(s("0"))));
    assert_eq!(handled.get(), 2);
}

#[test]
fn crates_come_from_the_cache_after_the_first_request() {
    let asked = Cell::new(0u32);
    let mut slot = SandboxCacheOne::new();
    let fetch = |_: Sandbox| {
        asked.set(asked.get() + 1);
        Ok(vec![sandbox::CrateInformation { name: s("serde"), version: s("1.0.80"), id: s("serde") }])
    };
    let expected = MetaCratesResponse {
        crates: vec![CrateInformation { name: s("serde"), version: s("1.0.80"), id: s("serde") }],
    };
    let now = CachedSandbox::new(at(1));
    assert_eq!(meta_crates(&now, &mut slot, || Ok(Sandbox), fetch), Ok(expected.clone()));
    let later = CachedSandbox::new(at(60));
    assert_eq!(meta_crates(&later, &mut slot, || Ok(Sandbox), fetch), Ok(expected));
    assert_eq!(asked.get(), 1);
}

#[test]
fn a_sandbox_is_made_even_where_the_cache_answers() {
    let mut slot = SandboxCacheOne::new();
    let now = CachedSandbox::new(at(1));
    let fetch = |_: Sandbox| Ok(Vec::new());
    assert!(meta_crates(&now, &mut slot, || Ok(Sandbox), fetch).is_ok());
    let result = meta_crates(&now, &mut slot, || Err::<Sandbox, _>(failure("disk full")), fetch);
    assert_eq!(result, Err(Error::Sandbox(failure("disk full"))));
}

#[test]
fn versions_are_asked_of_their_channels() {
    let asked = RefCell::new(Vec::new());
    let ask = |_: Sandbox, channel: Channel| {
        asked.borrow_mut().push(channel);
        Ok(sandbox::Version {
            release: format!("{:?}", channel),
            commit_hash: s("da5f414c2"),
            commit_date: s("2018-10-24"),
        })
    };
    let sent = |release: &str| MetaVersionResponse {
        version: s(release),
        hash: s("da5f414c2"),
        date: s("2018-10-24"),
    };
    let now = CachedSandbox::new(at(1));
    let mut stable = SandboxCacheOne::new();
    let mut beta = SandboxCacheOne::new();
    let mut nightly = SandboxCacheOne::new();
    assert_eq!(meta_version_stable(&now, &mut stable, || Ok(Sandbox), ask), Ok(sent("Stable")));
    assert_eq!(meta_version_beta(&now, &mut beta, || Ok(Sandbox), ask), Ok(sent("Beta")));
    assert_eq!(meta_version_nightly(&now, &mut nightly, || Ok(Sandbox), ask), Ok(sent("Nightly")));
    assert_eq!(meta_version_beta(&now, &mut beta, || Ok(Sandbox), ask), Ok(sent("Beta")));
    assert_eq!(*asked.borrow(), vec![Channel::Stable, Channel::Beta, Channel::Nightly]);
}

#[test]
fn a_poisoned_slot_is_reported_to_the_client() {
    let mut slot: SandboxCacheOne<sandbox::Version> = SandboxCacheOne::new();
    slot.poison();
    let now = CachedSandbox::new(at(1));
    let result = meta_version_stable(
        &now,
        &mut slot,
        || Ok(Sandbox),
        |_: Sandbox, _: Channel| Err(failure("unreachable")),
    );
    assert_eq!(result, Err(Error::CachePoisoned));
}

#[test]
fn gists_are_stored_and_loaded_with_the_token() {
    let service = Gist::new(s("SECRET-REDACTED"));
    let stored = service.create(MetaGistCreateRequest { code: s("fn main(){}") }, |token, code| {
        assert_eq!(token, "SECRET-REDACTED");
        gist::Gist { id: s("abc"), url: s("https://gist.example/abc"), code }
    });
    assert_eq!(
        stored,
        MetaGistResponse { id: s("abc"), url: s("https://gist.example/abc"), code: s("fn main(){}") }
    );
    let loaded = service.show("abc", |token: String, id: &str| {
        assert_eq!(token, "SECRET-REDACTED");
        gist::Gist { id: s(id), url: format!("https://gist.example/{}", id), code: s("loaded") }
    });
    assert_eq!(
        loaded,
        MetaGistResponse { id: s("abc"), url: s("https://gist.example/abc"), code: s("loaded") }
    );
}
