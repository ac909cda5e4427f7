//! What the gateway does with a request once its body has been decoded.
//!
//! The sandbox and the gist service live outside this crate. A handler is
//! given the means to reach them as operations, and states what it hands
//! to them and what it makes of their answers.

use vstd::prelude::*;
use vstd::std_specs::convert::FromSpec;
use crate::cache::{CachedSandbox, Observed, SandboxCacheOne, Timestamp};
use crate::error::{Error, ErrorView};
use crate::gist;
use crate::request::{
    ClippyRequest,
    CompileRequest,
    EvaluateRequest,
    ExecuteRequest,
    FormatRequest,
    MetaGistCreateRequest,
    MiriRequest,
};
use crate::response::{
    evaluated,
    lists_crates,
    version_sent,
    ClippyResponse,
    CompileResponse,
    EvaluateResponse,
    ExecuteResponse,
    FormatResponse,
    MetaCratesResponse,
    MetaGistResponse,
    MetaVersionResponse,
    MiriResponse,
};
use crate::sandbox;
use crate::sandbox::{Channel, CrateInformation, Version};

verus! {

/// What decoding a request's body came to, as a result: the request, or
/// the error that says that the body could not be decoded or was missing.
pub open spec fn decoded<Q>(body: Result<Option<Q>, String>) -> Result<Q, ErrorView> {
    match body {
        Err(message) => Err(ErrorView::Deserialization(message@)),
        Ok(None) => Err(ErrorView::RequestMissing),
        Ok(Some(request)) => Ok(request),
    }
}

/// Hands a decoded request to `handle`.
///
/// `body` is what decoding the request's body gave: the decoder's message
/// if it failed, `None` if there was no body. In both cases `handle` is
/// not called and the error says which of the two it was.
pub fn deserialize_from_request<Q, R, F>(body: Result<Option<Q>, String>, handle: F) -> (result:
    Result<R, Error>) where F: FnOnce(Q) -> Result<R, Error>
    requires
        body matches Ok(Some(request)) ==> call_requires(handle, (request,)),
    ensures
        match decoded(body) {
            Err(error) => result matches Err(failed) && failed@ == error,
            Ok(request) => call_ensures(handle, (request,), result),
        },
{
    let request = match body {
        Err(message) => {
            return Err(Error::Deserialization(message));
        },
        Ok(None) => {
            return Err(Error::RequestMissing);
        },
        Ok(Some(request)) => request,
    };
    handle(request)
}

/// How a request that needs the sandbox is handled.
///
/// A sandbox is made first; if that fails, the failure is the result. Then
/// the request is validated; `validated` is the error of that, or says
/// which requests may be handed to the sandbox. Then `run` is given the
/// sandbox and such a request. Its failure is the result, as a sandbox
/// error; its answer is turned into a response that `delivers` accepts.
pub open spec fn handled<S, Q, A, R, N, C>(
    new_sandbox: N,
    validated: Result<spec_fn(Q) -> bool, ErrorView>,
    run: C,
    delivers: spec_fn(A, R) -> bool,
    result: Result<R, Error>,
) -> bool where
    N: FnOnce() -> Result<S, sandbox::Error>,
    C: FnOnce(S, &Q) -> Result<A, sandbox::Error>,
 {
    exists|created: Result<S, sandbox::Error>|
        {
            &&& #[trigger] call_ensures(new_sandbox, (), created)
            &&& match created {
                Err(error) => result == Err::<R, Error>(Error::Sandbox(error)),
                Ok(sandbox) => match validated {
                    Err(error) => result matches Err(rejected) && rejected@ == error,
                    Ok(accepts) => exists|request: Q, answer: Result<A, sandbox::Error>|
                        {
                            &&& accepts(request)
                            &&& #[trigger] call_ensures(run, (sandbox, &request), answer)
                            &&& match answer {
                                Err(error) => result == Err::<R, Error>(Error::Sandbox(error)),
                                Ok(answer) => result matches Ok(response) && delivers(
                                    answer,
                                    response,
                                ),
                            }
                        },
                },
            }
        }
}

/// What every handler needs of the two operations that stand for the
/// sandbox: both can be called, whatever they are given.
pub open spec fn can_run<S, Q, A, N, C>(new_sandbox: N, run: C) -> bool where
    N: FnOnce() -> Result<S, sandbox::Error>,
    C: FnOnce(S, &Q) -> Result<A, sandbox::Error>,
 {
    &&& call_requires(new_sandbox, ())
    &&& forall|sandbox: S, request: &Q| #[trigger] call_requires(run, (sandbox, request))
}

/// Handles a request to compile code.
pub fn compile<S, N, C>(body: CompileRequest, new_sandbox: N, run: C) -> (result: Result<
    CompileResponse,
    Error,
>) where
    N: FnOnce() -> Result<S, sandbox::Error>,
    C: FnOnce(S, &sandbox::CompileRequest) -> Result<sandbox::CompileResponse, sandbox::Error>,

    requires
        can_run(new_sandbox, run),
    ensures
        handled(
            new_sandbox,
            match body@.validated() {
                Ok(valid) => Ok(|request: sandbox::CompileRequest| request@ == valid),
                Err(error) => Err(error),
            },
            run,
            |answer: sandbox::CompileResponse, response: CompileResponse|
                response == CompileResponse::from_spec(answer),
            result,
        ),
{
    let sandbox = match new_sandbox() {
        Ok(sandbox) => sandbox,
        Err(error) => {
            return Err(Error::Sandbox(error));
        },
    };
    let request = match sandbox::CompileRequest::try_from(body) {
        Ok(request) => request,
        Err(error) => {
            return Err(error);
        },
    };
    match run(sandbox, &request) {
        Ok(answer) => Ok(CompileResponse::from(answer)),
        Err(error) => Err(Error::Sandbox(error)),
    }
}

/// Handles a request to build and run code.
pub fn execute<S, N, C>(body: ExecuteRequest, new_sandbox: N, run: C) -> (result: Result<
    ExecuteResponse,
    Error,
>) where
    N: FnOnce() -> Result<S, sandbox::Error>,
    C: FnOnce(S, &sandbox::ExecuteRequest) -> Result<sandbox::ExecuteResponse, sandbox::Error>,

    requires
        can_run(new_sandbox, run),
    ensures
        handled(
            new_sandbox,
            match body@.validated() {
                Ok(valid) => Ok(|request: sandbox::ExecuteRequest| request@ == valid),
                Err(error) => Err(error),
            },
            run,
            |answer: sandbox::ExecuteResponse, response: ExecuteResponse|
                response == ExecuteResponse::from_spec(answer),
            result,
        ),
{
    let sandbox = match new_sandbox() {
        Ok(sandbox) => sandbox,
        Err(error) => {
            return Err(Error::Sandbox(error));
        },
    };
    let request = match sandbox::ExecuteRequest::try_from(body) {
        Ok(request) => request,
        Err(error) => {
            return Err(error);
        },
    };
    match run(sandbox, &request) {
        Ok(answer) => Ok(ExecuteResponse::from(answer)),
        Err(error) => Err(Error::Sandbox(error)),
    }
}

/// Handles a request to format code.
pub fn format<S, N, C>(body: FormatRequest, new_sandbox: N, run: C) -> (result: Result<
    FormatResponse,
    Error,
>) where
    N: FnOnce() -> Result<S, sandbox::Error>,
    C: FnOnce(S, &sandbox::FormatRequest) -> Result<sandbox::FormatResponse, sandbox::Error>,

    requires
        can_run(new_sandbox, run),
    ensures
        handled(
            new_sandbox,
            Ok(
                |request: sandbox::FormatRequest|
                    request == (sandbox::FormatRequest { code: body.code }),
            ),
            run,
            |answer: sandbox::FormatResponse, response: FormatResponse|
                response == FormatResponse::from_spec(answer),
            result,
        ),
{
    let sandbox = match new_sandbox() {
        Ok(sandbox) => sandbox,
        Err(error) => {
            return Err(Error::Sandbox(error));
        },
    };
    let request = match sandbox::FormatRequest::try_from(body) {
        Ok(request) => request,
        Err(error) => {
            return Err(error);
        },
    };
    match run(sandbox, &request) {
        Ok(answer) => Ok(FormatResponse::from(answer)),
        Err(error) => Err(Error::Sandbox(error)),
    }
}

/// Handles a request to lint code.
pub fn clippy<S, N, C>(body: ClippyRequest, new_sandbox: N, run: C) -> (result: Result<
    ClippyResponse,
    Error,
>) where
    N: FnOnce() -> Result<S, sandbox::Error>,
    C: FnOnce(S, &sandbox::ClippyRequest) -> Result<sandbox::ClippyResponse, sandbox::Error>,

    requires
        can_run(new_sandbox, run),
    ensures
        handled(
            new_sandbox,
            Ok(
                |request: sandbox::ClippyRequest|
                    request == (sandbox::ClippyRequest { code: body.code }),
            ),
            run,
            |answer: sandbox::ClippyResponse, response: ClippyResponse|
                response == ClippyResponse::from_spec(answer),
            result,
        ),
{
    let sandbox = match new_sandbox() {
        Ok(sandbox) => sandbox,
        Err(error) => {
            return Err(Error::Sandbox(error));
        },
    };
    let request = sandbox::ClippyRequest::from(body);
    match run(sandbox, &request) {
        Ok(answer) => Ok(ClippyResponse::from(answer)),
        Err(error) => Err(Error::Sandbox(error)),
    }
}

/// Handles a request to interpret code.
pub fn miri<S, N, C>(body: MiriRequest, new_sandbox: N, run: C) -> (result: Result<
    MiriResponse,
    Error,
>) where
    N: FnOnce() -> Result<S, sandbox::Error>,
    C: FnOnce(S, &sandbox::MiriRequest) -> Result<sandbox::MiriResponse, sandbox::Error>,

    requires
        can_run(new_sandbox, run),
    ensures
        handled(
            new_sandbox,
            Ok(|request: sandbox::MiriRequest| request == (sandbox::MiriRequest { code: body.code })),
            run,
            |answer: sandbox::MiriResponse, response: MiriResponse|
                response == MiriResponse::from_spec(answer),
            result,
        ),
{
    let sandbox = match new_sandbox() {
        Ok(sandbox) => sandbox,
        Err(error) => {
            return Err(Error::Sandbox(error));
        },
    };
    let request = sandbox::MiriRequest::from(body);
    match run(sandbox, &request) {
        Ok(answer) => Ok(MiriResponse::from(answer)),
        Err(error) => Err(Error::Sandbox(error)),
    }
}

/// Handles a request of the legacy form: the code is built and run, and
/// the outcome is sent in the legacy form.
pub fn evaluate<S, N, C>(body: EvaluateRequest, new_sandbox: N, run: C) -> (result: Result<
    EvaluateResponse,
    Error,
>) where
    N: FnOnce() -> Result<S, sandbox::Error>,
    C: FnOnce(S, &sandbox::ExecuteRequest) -> Result<sandbox::ExecuteResponse, sandbox::Error>,

    requires
        can_run(new_sandbox, run),
    ensures
        handled(
            new_sandbox,
            match body@.validated() {
                Ok(valid) => Ok(|request: sandbox::ExecuteRequest| request@ == valid),
                Err(error) => Err(error),
            },
            run,
            |answer: sandbox::ExecuteResponse, response: EvaluateResponse|
                response@ == evaluated(answer.success, answer.stdout@, answer.stderr@),
            result,
        ),
{
    let sandbox = match new_sandbox() {
        Ok(sandbox) => sandbox,
        Err(error) => {
            return Err(Error::Sandbox(error));
        },
    };
    let request = match sandbox::ExecuteRequest::try_from(body) {
        Ok(request) => request,
        Err(error) => {
            return Err(error);
        },
    };
    match run(sandbox, &request) {
        Ok(answer) => Ok(EvaluateResponse::from(answer)),
        Err(error) => Err(Error::Sandbox(error)),
    }
}

/// How a request for something that the sandbox reports about itself is
/// handled.
///
/// A sandbox is made first, whether it will be asked or not; if that
/// fails, the failure is the result and the slot stays as it is. Then the
/// slot answers as [`SandboxCacheOne::answers`] says, by the readings of
/// `clock`, where `fetched` says what asking the sandbox may give. An error
/// is the result as it is; a value is turned into a response that
/// `delivers` accepts.
pub open spec fn served_from_cache<S, T: Clone, R, N, K>(
    clock: K,
    before: SandboxCacheOne<T>,
    new_sandbox: N,
    fetched: spec_fn(S, Result<T, sandbox::Error>) -> bool,
    delivers: spec_fn(T, R) -> bool,
    after: SandboxCacheOne<T>,
    result: Result<R, Error>,
) -> bool where N: FnOnce() -> Result<S, sandbox::Error>, K: Fn() -> Timestamp {
    exists|created: Result<S, sandbox::Error>|
        {
            &&& #[trigger] call_ensures(new_sandbox, (), created)
            &&& match created {
                Err(error) => result == Err::<R, Error>(Error::Sandbox(error)) && after == before,
                Ok(sandbox) => exists|seen: Observed<T>, answer: Result<T, Error>|
                    {
                        &&& seen.read(clock)
                        &&& seen.invoked is Some ==> fetched(sandbox, seen.invoked.unwrap())
                        &&& #[trigger] before.answers(seen, after, answer)
                        &&& match answer {
                            Err(error) => result == Err::<R, Error>(error),
                            Ok(value) => result matches Ok(response) && delivers(value, response),
                        }
                    },
            }
        }
}

/// Handles a request for the crates that the sandbox offers.
pub fn meta_crates<S, K, N, C>(
    cached: &CachedSandbox<K>,
    slot: &mut SandboxCacheOne<Vec<CrateInformation>>,
    new_sandbox: N,
    crates: C,
) -> (result: Result<MetaCratesResponse, Error>) where
    K: Fn() -> Timestamp,
    N: FnOnce() -> Result<S, sandbox::Error>,
    C: FnOnce(S) -> Result<Vec<CrateInformation>, sandbox::Error>,

    requires
        call_requires(cached.clock, ()),
        call_requires(new_sandbox, ()),
        forall|sandbox: S| #[trigger] call_requires(crates, (sandbox,)),
    ensures
        served_from_cache(
            cached.clock,
            *old(slot),
            new_sandbox,
            |sandbox: S, outcome: Result<Vec<CrateInformation>, sandbox::Error>|
                call_ensures(crates, (sandbox,), outcome),
            |value: Vec<CrateInformation>, response: MetaCratesResponse|
                lists_crates(response.crates@, value@),
            *final(slot),
            result,
        ),
{
    let sandbox = match new_sandbox() {
        Ok(sandbox) => sandbox,
        Err(error) => {
            return Err(Error::Sandbox(error));
        },
    };
    let populator = || -> (outcome: Result<Vec<CrateInformation>, sandbox::Error>)
        requires
            call_requires(crates, (sandbox,)),
        ensures
            call_ensures(crates, (sandbox,), outcome),
        { crates(sandbox) };
    match cached.crates(slot, populator) {
        Ok(value) => Ok(MetaCratesResponse::from(value)),
        Err(error) => Err(error),
    }
}

/// How a request for a toolchain's version is handled: as
/// [`served_from_cache`] says, where the sandbox is asked for the version
/// of `channel` and the response is the version as it is sent.
pub open spec fn version_served<S, K, N, C>(
    channel: Channel,
    clock: K,
    before: SandboxCacheOne<Version>,
    new_sandbox: N,
    version: C,
    after: SandboxCacheOne<Version>,
    result: Result<MetaVersionResponse, Error>,
) -> bool where
    K: Fn() -> Timestamp,
    N: FnOnce() -> Result<S, sandbox::Error>,
    C: FnOnce(S, Channel) -> Result<Version, sandbox::Error>,
 {
    served_from_cache(
        clock,
        before,
        new_sandbox,
        |sandbox: S, outcome: Result<Version, sandbox::Error>|
            call_ensures(version, (sandbox, channel), outcome),
        |value: Version, response: MetaVersionResponse|
            response == version_sent(value),
        after,
        result,
    )
}

/// Handles a request for the version of the stable toolchain.
pub fn meta_version_stable<S, K, N, C>(
    cached: &CachedSandbox<K>,
    slot: &mut SandboxCacheOne<Version>,
    new_sandbox: N,
    version: C,
) -> (result: Result<MetaVersionResponse, Error>) where
    K: Fn() -> Timestamp,
    N: FnOnce() -> Result<S, sandbox::Error>,
    C: FnOnce(S, Channel) -> Result<Version, sandbox::Error>,

    requires
        call_requires(cached.clock, ()),
        call_requires(new_sandbox, ()),
        forall|sandbox: S| #[trigger] call_requires(version, (sandbox, Channel::Stable)),
    ensures
        version_served(
            Channel::Stable,
            cached.clock,
            *old(slot),
            new_sandbox,
            version,
            *final(slot),
            result,
        ),
{
    let sandbox = match new_sandbox() {
        Ok(sandbox) => sandbox,
        Err(error) => {
            return Err(Error::Sandbox(error));
        },
    };
    let populator = |channel: Channel| -> (outcome: Result<Version, sandbox::Error>)
        requires
            call_requires(version, (sandbox, channel)),
        ensures
            call_ensures(version, (sandbox, channel), outcome),
        { version(sandbox, channel) };
    match cached.version_stable(slot, populator) {
        Ok(value) => Ok(MetaVersionResponse::from(value)),
        Err(error) => Err(error),
    }
}

/// Handles a request for the version of the beta toolchain.
pub fn meta_version_beta<S, K, N, C>(
    cached: &CachedSandbox<K>,
    slot: &mut SandboxCacheOne<Version>,
    new_sandbox: N,
    version: C,
) -> (result: Result<MetaVersionResponse, Error>) where
    K: Fn() -> Timestamp,
    N: FnOnce() -> Result<S, sandbox::Error>,
    C: FnOnce(S, Channel) -> Result<Version, sandbox::Error>,

    requires
        call_requires(cached.clock, ()),
        call_requires(new_sandbox, ()),
        forall|sandbox: S| #[trigger] call_requires(version, (sandbox, Channel::Beta)),
    ensures
        version_served(
            Channel::Beta,
            cached.clock,
            *old(slot),
            new_sandbox,
            version,
            *final(slot),
            result,
        ),
{
    let sandbox = match new_sandbox() {
        Ok(sandbox) => sandbox,
        Err(error) => {
            return Err(Error::Sandbox(error));
        },
    };
    let populator = |channel: Channel| -> (outcome: Result<Version, sandbox::Error>)
        requires
            call_requires(version, (sandbox, channel)),
        ensures
            call_ensures(version, (sandbox, channel), outcome),
        { version(sandbox, channel) };
    match cached.version_beta(slot, populator) {
        Ok(value) => Ok(MetaVersionResponse::from(value)),
        Err(error) => Err(error),
    }
}

/// Handles a request for the version of the nightly toolchain.
pub fn meta_version_nightly<S, K, N, C>(
    cached: &CachedSandbox<K>,
    slot: &mut SandboxCacheOne<Version>,
    new_sandbox: N,
    version: C,
) -> (result: Result<MetaVersionResponse, Error>) where
    K: Fn() -> Timestamp,
    N: FnOnce() -> Result<S, sandbox::Error>,
    C: FnOnce(S, Channel) -> Result<Version, sandbox::Error>,

    requires
        call_requires(cached.clock, ()),
        call_requires(new_sandbox, ()),
        forall|sandbox: S| #[trigger] call_requires(version, (sandbox, Channel::Nightly)),
    ensures
        version_served(
            Channel::Nightly,
            cached.clock,
            *old(slot),
            new_sandbox,
            version,
            *final(slot),
            result,
        ),
{
    let sandbox = match new_sandbox() {
        Ok(sandbox) => sandbox,
        Err(error) => {
            return Err(Error::Sandbox(error));
        },
    };
    let populator = |channel: Channel| -> (outcome: Result<Version, sandbox::Error>)
        requires
            call_requires(version, (sandbox, channel)),
        ensures
            call_ensures(version, (sandbox, channel), outcome),
        { version(sandbox, channel) };
    match cached.version_nightly(slot, populator) {
        Ok(value) => Ok(MetaVersionResponse::from(value)),
        Err(error) => Err(error),
    }
}

/// The gist service as the gateway reaches it: with one token for every
/// request.
#[derive(Debug, Default)]
pub struct Gist {
    token: String,
}

impl Gist {
    /// The token that is handed to the gist service.
    pub closed spec fn token(&self) -> String {
        self.token
    }

    /// Reaches the gist service with `token`.
    pub fn new(token: String) -> (gist: Self)
        ensures
            gist.token() == token,
    {
        Self { token }
    }

    /// Handles a request to store code as a gist: `create` is given the
    /// token and the code, and the gist that it stores is sent.
    pub fn create<C>(&self, body: MetaGistCreateRequest, create: C) -> (response:
        MetaGistResponse) where C: FnOnce(String, String) -> gist::Gist
        requires
            call_requires(create, (self.token(), body.code)),
        ensures
            exists|stored: gist::Gist|
                {
                    &&& #[trigger] call_ensures(create, (self.token(), body.code), stored)
                    &&& response == MetaGistResponse::from_spec(stored)
                },
    {
        let stored = create(self.token.clone(), body.code);
        MetaGistResponse::from(stored)
    }

    /// Handles a request for the gist with the id `id`: `load` is given the
    /// token and the id, and the gist that it finds is sent.
    pub fn show<L>(&self, id: &str, load: L) -> (response: MetaGistResponse) where
        L: FnOnce(String, &str) -> gist::Gist,

        requires
            call_requires(load, (self.token(), id)),
        ensures
            exists|found: gist::Gist|
                {
                    &&& #[trigger] call_ensures(load, (self.token(), id), found)
                    &&& response == MetaGistResponse::from_spec(found)
                },
    {
        let found = load(self.token.clone(), id);
        MetaGistResponse::from(found)
    }
}


} // verus!
