use playground_gateway::error::Error;
use playground_gateway::gist;
use playground_gateway::response::{
    error_response, serialize_to_response, ClippyResponse, CompileResponse, CrateInformation,
    EvaluateResponse, ExecuteResponse, FormatResponse, JsonResponse, MetaCratesResponse,
    MetaGistResponse, MetaVersionResponse, MiriResponse, CONTENT_TYPE_JSON, FATAL_ERROR_JSON,
    STATUS_INTERNAL_SERVER_ERROR, STATUS_OK,
};
use playground_gateway::sandbox;

fn s(text: &str) -> String {
    text.to_string()
}

#[test]
fn sandbox_responses_are_sent_as_they_are() {
    assert_eq!(
        CompileResponse::from(sandbox::CompileResponse {
            success: true,
            code: s("asm"),
            stdout: s("out"),
            stderr: s("err"),
        }),
        CompileResponse { success: true, code: s("asm"), stdout: s("out"), stderr: s("err") }
    );
    assert_eq!(
        ExecuteResponse::from(sandbox::ExecuteResponse {
            success: false,
            stdout: s("out"),
            stderr: s("err"),
        }),
        ExecuteResponse { success: false, stdout: s("out"), stderr: s("err") }
    );
    assert_eq!(
        FormatResponse::from(sandbox::FormatResponse {
            success: true,
            code: s("fn main() {}"),
            stdout: s(""),
            stderr: s("warn"),
        }),
        FormatResponse { success: true, code: s("fn main() {}"), stdout: s(""), stderr: s("warn") }
    );
    assert_eq!(
        ClippyResponse::from(sandbox::ClippyResponse {
            success: true,
            stdout: s("a"),
            stderr: s("b"),
        }),
        ClippyResponse { success: true, stdout: s("a"), stderr: s("b") }
    );
    assert_eq!(
        MiriResponse::from(sandbox::MiriResponse { success: false, stdout: s("a"), stderr: s("b") }),
        MiriResponse { success: false, stdout: s("a"), stderr: s("b") }
    );
}

#[test]
fn crates_are_listed_in_order() {
    let listed = MetaCratesResponse::from(vec![
        sandbox::CrateInformation { name: s("serde"), version: s("1.0.80"), id: s("serde") },
        sandbox::CrateInformation { name: s("lazy-static"), version: s("1.2.0"), id: s("lazy_static") },
    ]);
    assert_eq!(
        listed.crates,
        vec![
            CrateInformation { name: s("serde"), version: s("1.0.80"), id: s("serde") },
            CrateInformation { name: s("lazy-static"), version: s("1.2.0"), id: s("lazy_static") },
        ]
    );
    assert_eq!(MetaCratesResponse::from(Vec::new()).crates, Vec::new());
}

#[test]
fn version_is_sent_under_other_names() {
    let sent = MetaVersionResponse::from(sandbox::Version {
        release: s("1.30.0"),
        commit_hash: s("da5f414c2"),
        commit_date: s("2018-10-24"),
    });
    assert_eq!(
        sent,
        MetaVersionResponse { version: s("1.30.0"), hash: s("da5f414c2"), date: s("2018-10-24") }
    );
}

#[test]
fn gist_is_sent_as_it_is() {
    let sent = MetaGistResponse::from(gist::Gist { id: s("abc"), url: s("https://x/abc"), code: s("fn") });
    assert_eq!(sent, MetaGistResponse { id: s("abc"), url: s("https://x/abc"), code: s("fn") });
}

#[test]
fn legacy_response_after_success_leaves_the_error_stream_out() {
    let sent = EvaluateResponse::from(sandbox::ExecuteResponse {
        success: true,
        stdout: s("hello\n"),
        stderr: s("Compiling playground\n"),
    });
    assert_eq!(sent, EvaluateResponse { result: s("hello\n"), error: None });
}

#[test]
fn legacy_response_after_failure_holds_both_streams_twice() {
    let sent = EvaluateResponse::from(sandbox::ExecuteResponse {
        success: false,
        stdout: s("partial\n"),
        stderr: s("error: oops\n"),
    });
    assert_eq!(
        sent,
        EvaluateResponse {
            result: s("error: oops\npartial\n"),
            error: Some(s("error: oops\npartial\n")),
        }
    );
}

#[test]
fn errors_say_what_was_rejected() {
    assert_eq!(
        Error::InvalidTarget(s("x86")).to_string(),
        "The value \"x86\" is not a valid target"
    );
    assert_eq!(
        Error::InvalidAssemblyFlavor(s("arm")).to_string(),
        "The value \"arm\" is not a valid assembly flavor"
    );
    assert_eq!(
        Error::InvalidDemangleAssembly(s("")).to_string(),
        "The value \"\" is not a valid demangle option"
    );
    assert_eq!(
        Error::InvalidProcessAssembly(s("cooked")).to_string(),
        "The value \"cooked\" is not a valid assembly processing option"
    );
    assert_eq!(
        Error::InvalidChannel(s("dev")).to_string(),
        "The value \"dev\" is not a valid channel"
    );
    assert_eq!(Error::InvalidMode(s("fast")).to_string(), "The value \"fast\" is not a valid mode");
    assert_eq!(
        Error::InvalidEdition(s("2021")).to_string(),
        "The value \"2021\" is not a valid edition"
    );
    assert_eq!(
        Error::InvalidCrateType(s("exe")).to_string(),
        "The value \"exe\" is not a valid crate type"
    );
}

#[test]
fn rejected_text_is_quoted_and_escaped() {
    assert_eq!(
        Error::InvalidChannel(s("a\"b\\c\n\t")).to_string(),
        "The value \"a\\\"b\\\\c\\n\\t\" is not a valid channel"
    );
    assert_eq!(
        Error::InvalidMode(s("dé\u{0}")).to_string(),
        format!("The value {:?} is not a valid mode", "dé\u{0}")
    );
}

#[test]
fn other_errors_have_their_messages() {
    assert_eq!(
        Error::Sandbox(sandbox::Error { message: s("docker is down") }).to_string(),
        "Sandbox operation failed: docker is down"
    );
    assert_eq!(
        Error::Serialization(s("key must be a string")).to_string(),
        "Unable to serialize response: key must be a string"
    );
    assert_eq!(
        Error::Deserialization(s("expected value at line 1")).to_string(),
        "Unable to deserialize request: expected value at line 1"
    );
    assert_eq!(Error::RequestMissing.to_string(), "No request was provided");
    assert_eq!(Error::CachePoisoned.to_string(), "The cache has been poisoned");
}

#[test]
fn a_result_is_sent_with_status_200() {
    let sent = serialize_to_response(Ok(41u32), |n: &u32| Ok(format!("{{\"n\":{}}}", n + 1)));
    assert_eq!(sent, JsonResponse { status: STATUS_OK, body: s("{\"n\":42}") });
    assert_eq!(STATUS_OK, 200);
    assert_eq!(CONTENT_TYPE_JSON, "application/json");
}

#[test]
fn every_error_is_sent_with_status_500() {
    let never = |_: &u32| -> Result<String, String> { panic!("nothing to serialize") };
    let sent = serialize_to_response(Err(Error::InvalidChannel(s("dev"))), never);
    assert_eq!(sent.status, STATUS_INTERNAL_SERVER_ERROR);
    assert_eq!(sent.status, 500);
    assert_eq!(sent.body, "{\"error\":\"The value \\\"dev\\\" is not a valid channel\"}");

    let sent = serialize_to_response(Err(Error::CachePoisoned), never);
    assert_eq!(sent.status, 500);
    assert_eq!(sent.body, "{\"error\":\"The cache has been poisoned\"}");

    let sent = serialize_to_response(
        Err(Error::Sandbox(sandbox::Error { message: s("line\nbreak") })),
        never,
    );
    assert_eq!(sent.status, 500);
    assert_eq!(sent.body, "{\"error\":\"Sandbox operation failed: line\\nbreak\"}");
}

#[test]
fn messages_are_escaped_as_json_strings() {
    let never = |_: &u32| -> Result<String, String> { panic!("nothing to serialize") };
    let body = |message: &str| {
        serialize_to_response(Err(Error::Serialization(message.to_string())), never).body
    };
    let framed = |escaped: &str| {
        format!("{{\"error\":\"Unable to serialize response: {}\"}}", escaped)
    };
    assert_eq!(body(""), framed(""));
    assert_eq!(body("plain text"), framed("plain text"));
    assert_eq!(body("\"quoted\""), framed("\\\"quoted\\\""));
    assert_eq!(body("back\\slash"), framed("back\\\\slash"));
    assert_eq!(body("\u{8}\t\n\u{c}\r"), framed("\\b\\t\\n\\f\\r"));
    assert_eq!(body("\u{0}\u{1}\u{7}"), framed("\\u0000\\u0001\\u0007"));
    assert_eq!(body("\u{b}\u{e}\u{f}\u{10}"), framed("\\u000b\\u000e\\u000f\\u0010"));
    assert_eq!(body("\u{1a}\u{1f}"), framed("\\u001a\\u001f"));
    assert_eq!(body(" /'\u{7f}"), framed(" /'\u{7f}"));
    assert_eq!(body("é\u{2028}\u{1f600}"), framed("é\u{2028}\u{1f600}"));
}

#[test]
fn every_character_below_the_space_is_escaped() {
    let never = |_: &u32| -> Result<String, String> { panic!("nothing to serialize") };
    for code in 0u32..0x20 {
        let c = char::from_u32(code).unwrap();
        let sent = serialize_to_response(Err(Error::Serialization(c.to_string())), never);
        let escaped = match c {
            '\u{8}' => "\\b".to_string(),
            '\t' => "\\t".to_string(),
            '\n' => "\\n".to_string(),
            '\u{c}' => "\\f".to_string(),
            '\r' => "\\r".to_string(),
            _ => format!("\\u00{:02x}", code),
        };
        assert_eq!(
            sent.body,
            format!("{{\"error\":\"Unable to serialize response: {}\"}}", escaped)
        );
    }
    for code in 0x20u32..0x250 {
        let c = char::from_u32(code).unwrap();
        if c == '"' || c == '\\' {
            continue;
        }
        let sent = serialize_to_response(Err(Error::Serialization(c.to_string())), never);
        assert_eq!(
            sent.body,
            format!("{{\"error\":\"Unable to serialize response: {}\"}}", c)
        );
    }
}

#[test]
fn json_responses_are_sent_as_json() {
    let sent = serialize_to_response(Ok(1u32), |n: &u32| Ok(n.to_string()));
    assert_eq!(sent.content_type(), "application/json");
    assert_eq!(error_response(None).content_type(), CONTENT_TYPE_JSON);
}

#[test]
fn error_bodies_are_json() {
    let never = |_: &u32| -> Result<String, String> { panic!("nothing to serialize") };
    let error = Error::InvalidTarget(s("\u{1}\"quoted\" \\ é"));
    let sent = serialize_to_response(Err(error.clone()), never);
    let value: serde_json::Value = serde_json::from_str(&sent.body).unwrap();
    assert_eq!(value["error"].as_str(), Some(error.to_string().as_str()));
    assert_eq!(value.as_object().unwrap().len(), 1);
}

#[test]
fn a_failure_to_encode_the_result_is_an_error_like_any_other() {
    let sent = serialize_to_response(Ok(1u32), |_: &u32| Err(s("recursion limit exceeded")));
    assert_eq!(sent.status, 500);
    assert_eq!(
        sent.body,
        "{\"error\":\"Unable to serialize response: recursion limit exceeded\"}"
    );
}

#[test]
fn an_error_that_cannot_be_encoded_gets_the_fixed_body() {
    let sent = error_response(None);
    assert_eq!(sent.status, 500);
    assert_eq!(sent.body, FATAL_ERROR_JSON);
    assert_eq!(
        FATAL_ERROR_JSON,
        r#"{"error": "Multiple cascading errors occurred, abandon all hope"}"#
    );
    let sent = error_response(Some(s("\"boom\"")));
    assert_eq!(sent, JsonResponse { status: 500, body: s("{\"error\":\"boom\"}") });
}
