use agent_session::actions::{Actions, ArtifactDelta, StateDelta};
use agent_session::auth::{
    AuthConfig, AuthScheme, HttpAuth, HttpCredentials, OAuth2, RawAuthCredential,
    RequestedAuthConfigs, ServiceAccountAuth, ServiceAccountCredential,
};
use agent_session::error::DecodeError;
use agent_session::grounding::{
    GroundingChunk, GroundingMetadata, GroundingSupport, RetrievalMetadata, RetrievedContext,
    SearchEntryPoint, Segment, WebContext,
};
use agent_session::json::{Json, Number};
use agent_session::response::parse_run_response;

fn s(text: &str) -> String {
    text.to_string()
}

fn parse(text: &str) -> Json {
    Json::parse(text).expect("valid JSON")
}

fn whole(i: i64) -> Json {
    Json::Number(Number::Int(i))
}

fn scheme() -> AuthScheme {
    AuthScheme {
        auth_type: s("apiKey"),
        description: s("a key"),
        in_: Some(s("query")),
        name: s("key"),
        additional_props: vec![(s("x-extra"), Json::Bool(true))],
    }
}

fn api_key_credential() -> RawAuthCredential {
    RawAuthCredential {
        auth_type: s("apiKey"),
        resource_ref: s("ref"),
        api_key: Some(s("SECRET-REDACTED")),
        http: None,
        service_account: None,
        oauth2: None,
        additional_props: vec![],
    }
}

#[test]
fn citations() {
    assert_eq!(
        RetrievedContext::decode(&parse(r#"{"text":"t","title":"T","uri":"u"}"#)),
        Ok(RetrievedContext { text: s("t"), title: s("T"), uri: s("u") })
    );
    assert_eq!(
        WebContext::decode(&parse(r#"{"domain":"d","title":"T","uri":"u"}"#)),
        Ok(WebContext { domain: s("d"), title: s("T"), uri: s("u") })
    );
    assert_eq!(RetrievedContext::decode(&parse(r#"{"text":"t","title":"T"}"#)), Err(DecodeError::MissingField));
    assert_eq!(WebContext::decode(&parse(r#"{"domain":1,"title":"T","uri":"u"}"#)), Err(DecodeError::WrongType));
    assert_eq!(WebContext::decode(&parse("[]")), Err(DecodeError::NotAnObject));
}

#[test]
fn a_chunk_is_either_citation_both_or_neither() {
    let web = WebContext { domain: s("d"), title: s("T"), uri: s("u") };
    assert_eq!(
        GroundingChunk::decode(&parse(r#"{"web":{"domain":"d","title":"T","uri":"u"}}"#)),
        Ok(GroundingChunk { retrieved_context: None, web: Some(web.clone()) })
    );
    assert_eq!(
        GroundingChunk::decode(&parse(r#"{"retrievedContext":null}"#)),
        Ok(GroundingChunk { retrieved_context: None, web: None })
    );
    let both = GroundingChunk {
        retrieved_context: Some(RetrievedContext { text: s("t"), title: s("T"), uri: s("u") }),
        web: Some(web),
    };
    assert_eq!(GroundingChunk::decode(&both.encode()), Ok(both));
    assert_eq!(
        GroundingChunk { retrieved_context: None, web: None }.encode(),
        Json::Object(vec![])
    );
    assert_eq!(GroundingChunk::decode(&parse(r#"{"web":{"domain":"d"}}"#)), Err(DecodeError::MissingField));
}

#[test]
fn a_segment_holds_whole_numbers_of_32_bits() {
    assert_eq!(
        Segment::decode(&parse(r#"{"endIndex":9,"partIndex":0,"startIndex":-1,"text":"x"}"#)),
        Ok(Segment { end_index: 9, part_index: 0, start_index: -1, text: s("x") })
    );
    assert_eq!(
        Segment::decode(&parse(r#"{"end_index":2147483647,"part_index":-2147483648,"start_index":0,"text":""}"#)),
        Ok(Segment { end_index: i32::MAX, part_index: i32::MIN, start_index: 0, text: s("") })
    );
    assert_eq!(
        Segment::decode(&parse(r#"{"endIndex":2147483648,"partIndex":0,"startIndex":0,"text":"x"}"#)),
        Err(DecodeError::OutOfRange)
    );
    assert_eq!(
        Segment::decode(&parse(r#"{"endIndex":1,"partIndex":-2147483649,"startIndex":0,"text":"x"}"#)),
        Err(DecodeError::OutOfRange)
    );
    assert_eq!(
        Segment::decode(&parse(r#"{"endIndex":1.5,"partIndex":0,"startIndex":0,"text":"x"}"#)),
        Err(DecodeError::WrongType)
    );
    assert_eq!(
        Segment::decode(&parse(r#"{"endIndex":"1","partIndex":0,"startIndex":0,"text":"x"}"#)),
        Err(DecodeError::WrongType)
    );
    assert_eq!(
        Segment { end_index: 9, part_index: 0, start_index: -1, text: s("x") }.encode(),
        Json::Object(vec![
            (s("endIndex"), whole(9)),
            (s("partIndex"), whole(0)),
            (s("startIndex"), whole(-1)),
            (s("text"), Json::Str(s("x"))),
        ])
    );
}

#[test]
fn the_first_field_that_fails_gives_the_error() {
    assert_eq!(
        Segment::decode(&parse(r#"{"endIndex":"x","partIndex":99999999999,"text":1}"#)),
        Err(DecodeError::WrongType)
    );
    assert_eq!(
        Segment::decode(&parse(r#"{"endIndex":1,"partIndex":99999999999,"text":1}"#)),
        Err(DecodeError::OutOfRange)
    );
    assert_eq!(
        Segment::decode(&parse(r#"{"endIndex":1,"partIndex":1,"text":1}"#)),
        Err(DecodeError::MissingField)
    );
}

#[test]
fn grounding_metadata_in_full() {
    let text = r#"{
        "groundingChunks": [
            {"retrievedContext": {"text": "t", "title": "T", "uri": "u"}},
            {"web": {"domain": "d", "title": "W", "uri": "w"}}
        ],
        "groundingSupports": [
            {"confidenceScores": [0.5, 1], "groundingChunkIndices": [0, 1],
             "segment": {"endIndex": 5, "partIndex": 0, "startIndex": 1, "text": "seg"}}
        ],
        "retrievalMetadata": {"googleSearchDynamicRetrievalScore": 0.25},
        "retrievalQueries": ["q1"],
        "searchEntryPoint": {"renderedContent": "<div/>"},
        "webSearchQueries": []
    }"#;
    let expected = GroundingMetadata {
        grounding_chunks: vec![
            GroundingChunk {
                retrieved_context: Some(RetrievedContext { text: s("t"), title: s("T"), uri: s("u") }),
                web: None,
            },
            GroundingChunk {
                retrieved_context: None,
                web: Some(WebContext { domain: s("d"), title: s("W"), uri: s("w") }),
            },
        ],
        grounding_supports: vec![GroundingSupport {
            confidence_scores: vec![Number::Decimal(s("0.5")), Number::Int(1)],
            grounding_chunk_indices: vec![0, 1],
            segment: Segment { end_index: 5, part_index: 0, start_index: 1, text: s("seg") },
        }],
        retrieval_metadata: RetrievalMetadata {
            google_search_dynamic_retrieval_score: Some(Number::Decimal(s("0.25"))),
        },
        retrieval_queries: vec![s("q1")],
        search_entry_point: SearchEntryPoint { rendered_content: Some(s("<div/>")), sdk_blob: None },
        web_search_queries: vec![],
    };
    assert_eq!(GroundingMetadata::decode(&parse(text)), Ok(expected.clone()));
    assert_eq!(GroundingMetadata::decode(&expected.encode()), Ok(expected));
}

#[test]
fn grounding_metadata_that_fails() {
    assert_eq!(GroundingMetadata::decode(&parse("{}")), Err(DecodeError::MissingField));
    let bad_score = r#"{
        "groundingChunks": [],
        "groundingSupports": [
            {"confidenceScores": ["high"], "groundingChunkIndices": [],
             "segment": {"endIndex": 5, "partIndex": 0, "startIndex": 1, "text": "seg"}}
        ],
        "retrievalMetadata": {}, "retrievalQueries": [], "searchEntryPoint": {}, "webSearchQueries": []
    }"#;
    assert_eq!(GroundingMetadata::decode(&parse(bad_score)), Err(DecodeError::WrongType));
    let bad_queries = r#"{
        "groundingChunks": [], "groundingSupports": [],
        "retrievalMetadata": {}, "retrievalQueries": "q", "searchEntryPoint": {}, "webSearchQueries": []
    }"#;
    assert_eq!(GroundingMetadata::decode(&parse(bad_queries)), Err(DecodeError::NotAnArray));
    let bad_index = r#"{
        "groundingChunks": [],
        "groundingSupports": [
            {"confidenceScores": [], "groundingChunkIndices": [1, 4294967296],
             "segment": {"endIndex": 5, "partIndex": 0, "startIndex": 1, "text": "seg"}}
        ],
        "retrievalMetadata": {}, "retrievalQueries": [], "searchEntryPoint": {}, "webSearchQueries": []
    }"#;
    assert_eq!(GroundingMetadata::decode(&parse(bad_index)), Err(DecodeError::OutOfRange));
}

#[test]
fn an_open_record_keeps_what_it_does_not_name() {
    let text = r#"{"type":"apiKey","description":"a key","in":"query","name":"key","x-extra":true}"#;
    assert_eq!(AuthScheme::decode(&parse(text)), Ok(scheme()));
    assert_eq!(
        scheme().encode(),
        Json::Object(vec![
            (s("type"), Json::Str(s("apiKey"))),
            (s("description"), Json::Str(s("a key"))),
            (s("in"), Json::Str(s("query"))),
            (s("name"), Json::Str(s("key"))),
            (s("x-extra"), Json::Bool(true)),
        ])
    );
    assert_eq!(AuthScheme::decode(&scheme().encode()), Ok(scheme()));
}

#[test]
fn additional_properties_keep_their_order_and_exclude_named_fields() {
    let creds = HttpCredentials::decode(&parse(
        r#"{"zeta":1,"username":"u","alpha":[2],"token":null,"mid":"m"}"#,
    ))
    .expect("credentials");
    assert_eq!(creds.username, Some(s("u")));
    assert_eq!(creds.password, None);
    assert_eq!(creds.token, None);
    assert_eq!(
        creds.additional_props,
        vec![(s("alpha"), Json::Array(vec![whole(2)])), (s("mid"), Json::Str(s("m"))), (s("zeta"), whole(1))]
    );
}

#[test]
fn credentials_of_each_kind() {
    let http = HttpAuth {
        scheme: Some(s("bearer")),
        credentials: Some(HttpCredentials {
            username: None,
            password: None,
            token: Some(s("SECRET-REDACTED")),
            additional_props: vec![],
        }),
        additional_props: vec![(s("realm"), Json::Str(s("r")))],
    };
    assert_eq!(HttpAuth::decode(&http.encode()), Ok(http.clone()));
    let account = ServiceAccountAuth {
        service_account_credential: Some(ServiceAccountCredential {
            cred_type: s("service_account"),
            project_id: s("p"),
            private_key_id: s("kid"),
            private_key: s("SECRET-REDACTED"),
            client_email: s("e@x"),
            client_id: s("cid"),
            auth_uri: s("a"),
            token_uri: s("t"),
            auth_provider_x509_cert_url: s("ap"),
            client_x509_cert_url: s("cx"),
            universe_domain: s("ud"),
            additional_props: vec![],
        }),
        scopes: vec![s("read"), s("write")],
        use_default_credential: Some(false),
        additional_props: vec![],
    };
    assert_eq!(ServiceAccountAuth::decode(&account.encode()), Ok(account.clone()));
    let wire = account.encode();
    let inner = Json::find(wire.as_object().expect("an object"), "serviceAccountCredential")
        .and_then(|j| j.as_object())
        .expect("the credential");
    assert_eq!(Json::find(inner, "type"), Some(&Json::Str(s("service_account"))));
    assert_eq!(Json::find(inner, "authProviderX509CertUrl"), Some(&Json::Str(s("ap"))));
    assert_eq!(Json::find(inner, "clientX509CertUrl"), Some(&Json::Str(s("cx"))));
    let oauth = OAuth2 {
        client_id: s("c"),
        client_secret: s("SECRET-REDACTED"),
        auth_uri: s("a"),
        state: Some(s("st")),
        redirect_uri: s("r"),
        auth_response_uri: None,
        auth_code: None,
        access_token: Some(s("at")),
        refresh_token: None,
        additional_props: vec![(s("expires"), whole(3600))],
    };
    assert_eq!(OAuth2::decode(&oauth.encode()), Ok(oauth.clone()));
    let raw = RawAuthCredential {
        auth_type: s("oauth2"),
        resource_ref: s("ref"),
        api_key: None,
        http: None,
        service_account: None,
        oauth2: Some(oauth),
        additional_props: vec![],
    };
    assert_eq!(RawAuthCredential::decode(&raw.encode()), Ok(raw.clone()));
    assert!(raw.is_consistent());
    let mut mixed = raw.clone();
    mixed.http = Some(http);
    assert!(!mixed.is_consistent());
    let mut account_kind = api_key_credential();
    assert!(account_kind.is_consistent());
    account_kind.api_key = None;
    account_kind.auth_type = s("serviceAccount");
    account_kind.service_account = Some(account);
    assert!(account_kind.is_consistent());
    account_kind.auth_type = s("http");
    assert!(!account_kind.is_consistent());
    let mut bare = api_key_credential();
    bare.api_key = None;
    bare.auth_type = s("anything");
    assert!(bare.is_consistent());
}

#[test]
fn snake_case_credentials() {
    let text = r#"{"auth_type":"apiKey","resource_ref":"ref","api_key":"SECRET-REDACTED"}"#;
    assert_eq!(RawAuthCredential::decode(&parse(text)), Ok(api_key_credential()));
    assert_eq!(
        RawAuthCredential::decode(&parse(r#"{"authType":"apiKey","resourceRef":"ref","apiKey":"SECRET-REDACTED"}"#)),
        Ok(api_key_credential())
    );
    assert_eq!(
        RawAuthCredential::decode(&parse(r#"{"authType":"apiKey"}"#)),
        Err(DecodeError::MissingField)
    );
    assert_eq!(
        RawAuthCredential::decode(&parse(r#"{"authType":"http","resourceRef":"r","http":[]}"#)),
        Err(DecodeError::NotAnObject)
    );
}

#[test]
fn requested_configs_are_kept_by_name() {
    let config = AuthConfig {
        auth_scheme: scheme(),
        raw_auth_credential: api_key_credential(),
        exchanged_auth_credential: None,
    };
    let requested = RequestedAuthConfigs {
        configs: vec![(s("first"), config.clone()), (s("second"), config.clone())],
    };
    let wire = requested.encode();
    assert_eq!(
        wire,
        Json::Object(vec![(s("first"), config.encode()), (s("second"), config.encode())])
    );
    assert_eq!(RequestedAuthConfigs::decode(&wire), Ok(requested));
    assert_eq!(
        RequestedAuthConfigs::decode(&parse(r#"{"first": {"authScheme": {}}}"#)),
        Err(DecodeError::MissingField)
    );
    assert_eq!(RequestedAuthConfigs::decode(&parse("{}")), Ok(RequestedAuthConfigs { configs: vec![] }));
    assert_eq!(RequestedAuthConfigs::decode(&parse("3")), Err(DecodeError::NotAnObject));
}

#[test]
fn deltas() {
    assert_eq!(
        StateDelta::decode(&parse(r#"{"b": {"x": 1}, "a": null}"#)),
        Ok(StateDelta {
            additional_props: vec![
                (s("a"), Json::Null),
                (s("b"), Json::Object(vec![(s("x"), whole(1))])),
            ],
        })
    );
    assert_eq!(StateDelta::decode(&parse("[]")), Err(DecodeError::NotAnObject));
    let state = StateDelta { additional_props: vec![(s("k"), Json::Str(s("v")))] };
    assert_eq!(state.encode(), Json::Object(vec![(s("k"), Json::Str(s("v")))]));
    assert_eq!(
        ArtifactDelta::decode(&parse(r#"{"report.pdf": 2, "a.png": 0}"#)),
        Ok(ArtifactDelta { additional_props: vec![(s("a.png"), 0), (s("report.pdf"), 2)] })
    );
    assert_eq!(ArtifactDelta::decode(&parse(r#"{"a": "1"}"#)), Err(DecodeError::WrongType));
    assert_eq!(ArtifactDelta::decode(&parse(r#"{"a": 3000000000}"#)), Err(DecodeError::OutOfRange));
    let artifacts = ArtifactDelta { additional_props: vec![(s("f"), -3)] };
    assert_eq!(artifacts.encode(), Json::Object(vec![(s("f"), whole(-3))]));
    assert_eq!(ArtifactDelta::decode(&artifacts.encode()), Ok(artifacts));
}

#[test]
fn actions_of_an_event() {
    let body = r#"[{
        "content": {"parts": [], "role": "model"},
        "actions": {
            "skipSummarization": true,
            "stateDelta": {"step": 2},
            "artifactDelta": {"f": 1},
            "transferToAgent": "helper",
            "escalate": false,
            "requestedAuthConfigs": {
                "cfg": {
                    "authScheme": {"type": "apiKey", "description": "a key", "in": "query", "name": "key", "x-extra": true},
                    "rawAuthCredential": {"authType": "apiKey", "resourceRef": "ref", "apiKey": "SECRET-REDACTED"}
                }
            }
        }
    }]"#;
    let events = parse_run_response(body).expect("one event");
    let expected = Actions {
        skip_summarization: Some(true),
        state_delta: Some(StateDelta { additional_props: vec![(s("step"), whole(2))] }),
        artifact_delta: Some(ArtifactDelta { additional_props: vec![(s("f"), 1)] }),
        transfer_to_agent: Some(s("helper")),
        escalate: Some(false),
        requested_auth_configs: Some(RequestedAuthConfigs {
            configs: vec![(
                s("cfg"),
                AuthConfig {
                    auth_scheme: scheme(),
                    raw_auth_credential: api_key_credential(),
                    exchanged_auth_credential: None,
                },
            )],
        }),
    };
    assert_eq!(events[0].actions, Some(expected.clone()));
    assert_eq!(Actions::decode(&expected.encode()), Ok(expected));
    let none = Actions {
        skip_summarization: None,
        state_delta: None,
        artifact_delta: None,
        transfer_to_agent: None,
        escalate: None,
        requested_auth_configs: None,
    };
    assert_eq!(none.encode(), Json::Object(vec![]));
    assert_eq!(Actions::decode(&parse("{}")), Ok(none));
}

#[test]
fn an_additional_member_under_the_name_of_a_field_is_not_read_back() {
    let mut clash = scheme();
    clash.additional_props = vec![(s("name"), Json::Str(s("shadowed"))), (s("kept"), Json::Null)];
    let read = AuthScheme::decode(&clash.encode()).expect("a scheme");
    assert_eq!(read.name, "key");
    assert_eq!(read.additional_props, vec![(s("kept"), Json::Null)]);
    let mut snake = scheme();
    snake.additional_props = vec![(s("resource_ref"), Json::Bool(true))];
    assert_eq!(AuthScheme::decode(&snake.encode()), Ok(snake));
    let mut credential = api_key_credential();
    credential.additional_props = vec![(s("resource_ref"), Json::Bool(true)), (s("plain"), whole(1))];
    let back = RawAuthCredential::decode(&credential.encode()).expect("a credential");
    assert_eq!(back.resource_ref, "ref");
    assert_eq!(back.additional_props, vec![(s("plain"), whole(1))]);
}
