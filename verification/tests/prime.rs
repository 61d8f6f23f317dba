use prefix_prime::backend::backend_step;
use prefix_prime::outcome::{is_success, PrimeOutcome};
use prefix_prime::over_http::http_outcome;
use prefix_prime::prime::{prime_once, prime_worker, timed_out};
use prefix_prime::protocol::{Action, BodyError, Event, HttpRequest, RpcFailure, Stage};
use prefix_prime::request::{wire_rank, ConnectionMode, PrimeRequest, WorkerInfo};
use prefix_prime::request_id::prime_request_id;
use prefix_prime::text::{decimal_text, join};
use prefix_prime::timeout::{timed_out_after, timed_out_text, Timeout, PRIME_TIMEOUT_SECS};
use serde_json::Value;

fn worker(connection_mode: ConnectionMode) -> WorkerInfo {
    WorkerInfo { connection_mode, api_key: None, dp_rank: None }
}

fn http_worker() -> WorkerInfo {
    worker(ConnectionMode::Http)
}

fn serving_body(prompt: &str) -> Value {
    let mut fields = serde_json::Map::new();
    fields.insert("model".to_string(), Value::from("m"));
    fields.insert("prompt".to_string(), Value::from(prompt));
    fields.insert("stream".to_string(), Value::from(false));
    fields.insert("n".to_string(), Value::from(1));
    fields.insert("max_tokens".to_string(), Value::from(1));
    fields.insert("temperature".to_string(), Value::from(0.0));
    fields.insert("some_bench_field".to_string(), Value::from("carried"));
    Value::Object(fields)
}

fn request<'a>(
    body: &'a Value,
    prompt: &'a str,
    token_ids: &'a [u32],
    timeout: Timeout,
) -> PrimeRequest<'a, Value, String> {
    PrimeRequest { body, prompt, token_ids, tokenizer: None, canonical_model: None, timeout }
}

/// A generate request in the form of the scripted backend.
#[derive(Debug, PartialEq, Eq)]
struct Proto {
    token_ids: Vec<u32>,
    finalized: bool,
    rank: Option<i32>,
}

/// Runs a prime, with `perform` in the place of the worker.
fn run<'a>(
    worker: &WorkerInfo,
    req: &PrimeRequest<'a, Value, String>,
    mut perform: impl FnMut(Action<'a, Value, String, Proto>) -> Event<Proto>,
) -> PrimeOutcome {
    let (mut stage, mut action) = prime_once(worker, req);
    loop {
        if let Action::Finish(outcome) = action {
            assert!(matches!(stage, Stage::Finished));
            return outcome;
        }
        let event = perform(action);
        assert!(stage.expects(&event));
        let next = prime_worker(worker, req, stage, event);
        stage = next.0;
        action = next.1;
    }
}

/// An HTTP engine that answers every request with `status`.
struct Engine {
    status: u16,
    seen: Vec<HttpRequest>,
    recorded: Vec<u16>,
    discarded: usize,
}

impl Engine {
    fn new(status: u16) -> Engine {
        Engine { status, seen: Vec::new(), recorded: Vec::new(), discarded: 0 }
    }

    fn perform(&mut self, action: Action<'_, Value, String, Proto>) -> Event<Proto> {
        match action {
            Action::SerializeBody { body, canonical_model } => {
                let mut body = body.clone();
                if let Some(model) = canonical_model {
                    body["model"] = Value::from(model);
                }
                Event::BodyReady(serde_json::to_vec(&body).unwrap())
            }
            Action::SendHttp(request) => {
                self.seen.push(request);
                Event::Replied(self.status)
            }
            Action::RecordOutcome(status) => {
                self.recorded.push(status);
                Event::Recorded
            }
            Action::DiscardBody => {
                self.discarded += 1;
                Event::Discarded
            }
            other => panic!("not an HTTP action: {:?}", other),
        }
    }
}

/// A backend that answers from a script and keeps the names of the actions.
struct Backend {
    client: Option<Event<Proto>>,
    build_error: Option<String>,
    generate: Option<Event<Proto>>,
    generated: Vec<Proto>,
    items: Vec<Event<Proto>>,
    log: Vec<String>,
    request_ids: Vec<String>,
}

impl Backend {
    /// A backend whose stream gives `chunks` items and ends.
    fn streaming(chunks: usize) -> Backend {
        let mut items: Vec<Event<Proto>> = vec![Event::StreamEnded];
        for _ in 0..chunks {
            items.push(Event::Chunk);
        }
        Backend {
            client: Some(Event::ClientReady),
            build_error: None,
            generate: Some(Event::Generated { cb_status: 200 }),
            generated: Vec::new(),
            items,
            log: Vec::new(),
            request_ids: Vec::new(),
        }
    }

    fn perform(&mut self, action: Action<'_, Value, String, Proto>) -> Event<Proto> {
        match action {
            Action::AcquireClient => {
                self.log.push("acquire".to_string());
                self.client.take().unwrap()
            }
            Action::BuildRequest { request_id, body, prompt, token_ids } => {
                self.log.push(format!("build {} {:?} {}", prompt, token_ids, body["model"]));
                self.request_ids.push(request_id);
                match self.build_error.take() {
                    Some(e) => Event::BuildFailed(e),
                    None => Event::RequestBuilt(Proto {
                        token_ids,
                        finalized: false,
                        rank: None,
                    }),
                }
            }
            Action::FinalizeRequest { mut request, tokenizer } => {
                self.log.push(format!("finalize {:?}", tokenizer));
                request.finalized = true;
                Event::RequestFinalized(request)
            }
            Action::SetRank { mut request, rank } => {
                self.log.push(format!("rank {}", rank));
                request.rank = Some(rank);
                Event::RankSet(request)
            }
            Action::Generate(request) => {
                self.log.push("generate".to_string());
                self.generated.push(request);
                self.generate.take().unwrap()
            }
            Action::RecordOutcome(status) => {
                self.log.push(format!("record {}", status));
                Event::Recorded
            }
            Action::NextItem => {
                self.log.push("next".to_string());
                self.items.pop().unwrap()
            }
            Action::MarkCompleted => {
                self.log.push("mark".to_string());
                Event::MarkedCompleted
            }
            other => panic!("not a backend action: {:?}", other),
        }
    }
}

fn failure(http_status: u16, message: &str) -> RpcFailure {
    RpcFailure { http_status, message: message.to_string() }
}

fn failed(http_status: Option<u16>, error: &str) -> PrimeOutcome {
    PrimeOutcome { http_status, error: Some(error.to_string()) }
}

#[test]
fn http_prime_forwards_a_normal_non_streaming_serving_body() {
    let body = serving_body("shared prefix");
    let req = request(&body, "shared prefix", &[], Timeout::from_secs(5));
    let mut engine = Engine::new(200);

    let outcome = run(&http_worker(), &req, |action| engine.perform(action));

    assert_eq!(outcome.http_status, Some(200));
    assert!(outcome.error.is_none());

    let sent: Value = serde_json::from_slice(&engine.seen[0].body).unwrap();
    assert_eq!(sent["prompt"], "shared prefix");
    assert_eq!(sent["stream"], false);
    assert_eq!(sent["max_tokens"], 1);
    assert_eq!(sent["some_bench_field"], "carried");
    assert!(sent.get("data_parallel_rank").is_none());
}

#[test]
fn http_prime_reports_the_engine_status_on_failure() {
    let body = serving_body("p");
    let req = request(&body, "p", &[], Timeout::from_secs(5));
    let mut engine = Engine::new(503);

    let outcome = run(&http_worker(), &req, |action| engine.perform(action));

    assert_eq!(outcome.http_status, Some(503));
    assert!(outcome.error.is_some());
    assert_eq!(outcome.error, Some("HTTP 503".to_string()));
    assert_eq!(engine.recorded, vec![503]);
}

#[test]
fn a_hung_target_times_out_with_a_null_status() {
    let body = serving_body("p");
    let req = request(&body, "p", &[], Timeout::new(0, 150_000_000));

    let outcome = run(&http_worker(), &req, |action| match action {
        Action::SerializeBody { .. } => Event::BodyReady(vec![]),
        Action::SendHttp(_) => Event::DeadlineElapsed,
        other => panic!("the engine hangs: {:?}", other),
    });

    assert!(outcome.http_status.is_none());
    assert!(outcome.error.is_some());
    assert_eq!(outcome.error, Some("prime timed out after 150ms".to_string()));
}

#[test]
fn an_unreachable_target_reports_a_null_status() {
    let body = serving_body("p");
    let req = request(&body, "p", &[], Timeout::from_secs(2));

    let outcome = run(&http_worker(), &req, |action| match action {
        Action::SerializeBody { .. } => Event::BodyReady(vec![]),
        Action::SendHttp(_) => Event::SendFailed("connection refused".to_string()),
        other => panic!("nothing listens: {:?}", other),
    });

    assert!(outcome.http_status.is_none());
    assert!(outcome.error.is_some());
    assert_eq!(outcome.error, Some("connection refused".to_string()));
}

#[test]
fn every_target_gets_exactly_one_request() {
    let body = serving_body("shared prefix");
    let req = request(&body, "shared prefix", &[], Timeout::from_secs(5));
    let mut engines = vec![Engine::new(200), Engine::new(200)];

    for engine in engines.iter_mut() {
        let outcome = run(&http_worker(), &req, |action| engine.perform(action));
        assert_eq!(outcome, PrimeOutcome { http_status: Some(200), error: None });
    }

    for engine in &engines {
        assert_eq!(engine.seen.len(), 1);
        assert_eq!(engine.recorded, vec![200]);
        assert_eq!(engine.discarded, 1);
    }
}

#[test]
fn http_request_carries_route_header_timeout_and_key() {
    let body = serving_body("p");
    let mut req = request(&body, "p", &[7], Timeout::new(3, 5));
    req.canonical_model = Some("canonical");
    let target = WorkerInfo {
        connection_mode: ConnectionMode::Http,
        api_key: Some("key".to_string()),
        dp_rank: Some(1),
    };
    let mut engine = Engine::new(204);

    let outcome = run(&target, &req, |action| engine.perform(action));

    assert_eq!(outcome, PrimeOutcome { http_status: Some(204), error: None });
    let sent = &engine.seen[0];
    assert_eq!(sent.method, "POST");
    assert_eq!(sent.route, "/v1/completions");
    assert_eq!(sent.header_name, "content-type");
    assert_eq!(sent.header_value, "application/json");
    assert_eq!((sent.timeout.as_secs(), sent.timeout.subsec_nanos()), (3, 5));
    assert_eq!(sent.bearer, Some("key".to_string()));
    let body: Value = serde_json::from_slice(&sent.body).unwrap();
    assert_eq!(body["model"], "canonical");
}

#[test]
fn http_prime_ignores_the_tokens() {
    let body = serving_body("p");
    let tokenizer = "tok".to_string();
    let bare = request(&body, "", &[], Timeout::from_secs(5));
    let mut full = request(&body, "p", &[1, 2, 3], Timeout::from_secs(5));
    full.tokenizer = Some(&tokenizer);
    let mut first = Engine::new(200);
    let mut second = Engine::new(200);

    let a = run(&http_worker(), &bare, |action| first.perform(action));
    let b = run(&http_worker(), &full, |action| second.perform(action));

    assert_eq!(a, b);
    assert_eq!(first.seen[0].body, second.seen[0].body);
    assert_eq!(first.recorded, second.recorded);
}

#[test]
fn a_prime_takes_few_answers() {
    let body = serving_body("p");
    let req = request(&body, "p", &[1], Timeout::from_secs(5));

    let mut answers = 0;
    let mut engine = Engine::new(200);
    run(&http_worker(), &req, |action| {
        answers += 1;
        engine.perform(action)
    });
    assert_eq!(answers, 4);

    let mut answers = 0;
    let mut backend = Backend::streaming(5);
    let ranked =
        WorkerInfo { connection_mode: ConnectionMode::Zmq, api_key: None, dp_rank: Some(0) };
    run(&ranked, &req, |action| {
        answers += 1;
        backend.perform(action)
    });
    assert_eq!(answers, 8 + 5);
}

#[test]
fn http_body_errors_are_worded() {
    let body = serving_body("p");
    let req = request(&body, "p", &[], Timeout::from_secs(5));

    let outcome = run(&http_worker(), &req, |_| {
        Event::BodyFailed(BodyError::Serialize("bad float".to_string()))
    });
    assert_eq!(outcome, failed(None, "failed to serialize prime body: bad float"));

    let outcome = run(&http_worker(), &req, |_| {
        Event::BodyFailed(BodyError::Prepare("no rank".to_string()))
    });
    assert_eq!(outcome, failed(None, "failed to prepare prime body: no rank"));
}

#[test]
fn a_deadline_while_the_answer_is_read_nulls_the_status() {
    let body = serving_body("p");
    let req = request(&body, "p", &[], Timeout::from_secs(1));
    let mut recorded: Vec<u16> = Vec::new();

    let outcome = run(&http_worker(), &req, |action| match action {
        Action::SerializeBody { .. } => Event::BodyReady(vec![]),
        Action::SendHttp(_) => Event::Replied(200),
        Action::RecordOutcome(status) => {
            recorded.push(status);
            Event::Recorded
        }
        _ => Event::DeadlineElapsed,
    });

    assert_eq!(outcome, failed(None, "prime timed out after 1s"));
    assert_eq!(recorded, vec![200]);
}

#[test]
fn backend_prime_drains_the_stream_and_reports_200() {
    let body = serving_body("shared prefix");
    let tokenizer = "tok".to_string();
    let mut req = request(&body, "shared prefix", &[3, 1, 2], Timeout::from_secs(5));
    req.tokenizer = Some(&tokenizer);
    let mut backend = Backend::streaming(2);

    let outcome = run(&worker(ConnectionMode::Grpc), &req, |action| backend.perform(action));

    assert_eq!(outcome, PrimeOutcome { http_status: Some(200), error: None });
    assert_eq!(
        backend.log,
        vec![
            "acquire",
            "build shared prefix [3, 1, 2] \"m\"",
            "finalize Some(\"tok\")",
            "generate",
            "record 200",
            "next",
            "next",
            "next",
            "mark",
        ]
    );
    assert_eq!(
        backend.generated,
        vec![Proto { token_ids: vec![3, 1, 2], finalized: true, rank: None }]
    );
}

#[test]
fn grpc_and_zmq_are_primed_alike() {
    let body = serving_body("p");
    let req = request(&body, "p", &[1], Timeout::from_secs(5));
    let mut grpc = Backend::streaming(1);
    let mut zmq = Backend::streaming(1);

    let first = run(&worker(ConnectionMode::Grpc), &req, |action| grpc.perform(action));
    let second = run(&worker(ConnectionMode::Zmq), &req, |action| zmq.perform(action));

    assert_eq!(first, second);
    assert_eq!(grpc.log, zmq.log);
}

#[test]
fn ranked_backends_carry_their_rank() {
    let body = serving_body("p");
    let req = request(&body, "p", &[1], Timeout::from_secs(5));
    for rank in 0..2usize {
        let target = WorkerInfo {
            connection_mode: ConnectionMode::Grpc,
            api_key: None,
            dp_rank: Some(rank),
        };
        let mut backend = Backend::streaming(0);
        let outcome = run(&target, &req, |action| backend.perform(action));
        assert_eq!(outcome.http_status, Some(200));
        assert_eq!(backend.log[2], "finalize None");
        assert_eq!(backend.log[3], format!("rank {}", rank));
        assert_eq!(backend.log[4], "generate");
        assert_eq!(
            backend.generated,
            vec![Proto { token_ids: vec![1], finalized: true, rank: Some(rank as i32) }]
        );
    }
}

#[test]
fn request_ids_are_fresh_version_7_uuids() {
    let body = serving_body("p");
    let req = request(&body, "p", &[1], Timeout::from_secs(5));
    let mut ids: Vec<String> = Vec::new();
    for _ in 0..2 {
        let mut backend = Backend::streaming(0);
        run(&worker(ConnectionMode::Grpc), &req, |action| backend.perform(action));
        ids.append(&mut backend.request_ids);
    }
    assert_eq!(ids.len(), 2);
    assert_ne!(ids[0], ids[1]);
    for id in &ids {
        let uuid = id.strip_prefix("prime-").unwrap();
        let chars: Vec<char> = uuid.chars().collect();
        assert_eq!(chars.len(), 36);
        for (i, c) in chars.iter().enumerate() {
            if i == 8 || i == 13 || i == 18 || i == 23 {
                assert_eq!(*c, '-');
            } else {
                assert!(matches!(*c, '0'..='9' | 'a'..='f'));
            }
        }
        assert_eq!(chars[14], '7');
        assert!(matches!(chars[19], '8' | '9' | 'a' | 'b'));
    }
}

#[test]
fn a_given_uuid_names_the_request() {
    let body = serving_body("p");
    let req = request(&body, "p", &[4, 2], Timeout::from_secs(5));
    let (stage, action) = backend_step::<Value, String, Proto>(
        &worker(ConnectionMode::Zmq),
        &req,
        "0190a6f2-0000-7000-8000-000000000000",
        Stage::Acquiring,
        Event::ClientReady,
    );
    assert!(matches!(stage, Stage::Building));
    match action {
        Action::BuildRequest { request_id, prompt, token_ids, .. } => {
            assert_eq!(request_id, "prime-0190a6f2-0000-7000-8000-000000000000");
            assert_eq!(prompt, "p");
            assert_eq!(token_ids, vec![4, 2]);
        }
        other => panic!("unexpected action: {:?}", other),
    }
    assert_eq!(prime_request_id("x"), "prime-x");
}

#[test]
fn backend_without_a_client_fails() {
    let body = serving_body("p");
    let req = request(&body, "p", &[1], Timeout::from_secs(5));

    let mut backend = Backend::streaming(0);
    backend.client = Some(Event::ClientMissing);
    let outcome = run(&worker(ConnectionMode::Grpc), &req, |action| backend.perform(action));
    assert_eq!(outcome, failed(None, "worker has no backend client"));

    let mut backend = Backend::streaming(0);
    backend.client = Some(Event::ClientFailed("handshake pending".to_string()));
    let outcome = run(&worker(ConnectionMode::Zmq), &req, |action| backend.perform(action));
    assert_eq!(outcome, failed(None, "handshake pending"));
    assert_eq!(backend.log, vec!["acquire"]);
}

#[test]
fn backend_build_failure_is_worded() {
    let body = serving_body("p");
    let req = request(&body, "p", &[1], Timeout::from_secs(5));
    let mut backend = Backend::streaming(0);
    backend.build_error = Some("bad stop".to_string());
    let outcome = run(&worker(ConnectionMode::Grpc), &req, |action| backend.perform(action));
    assert_eq!(outcome, failed(None, "failed to build prime request: bad stop"));
}

#[test]
fn backend_generate_failure_is_recorded_then_reported() {
    let body = serving_body("p");
    let req = request(&body, "p", &[1], Timeout::from_secs(5));
    let mut backend = Backend::streaming(0);
    backend.generate =
        Some(Event::GenerateFailed { cb_status: 502, failure: failure(503, "unavailable") });
    let outcome = run(&worker(ConnectionMode::Grpc), &req, |action| backend.perform(action));
    assert_eq!(outcome, failed(Some(503), "generate failed: unavailable"));
    assert_eq!(backend.log.last().unwrap(), "record 502");
}

#[test]
fn backend_stream_failure_leaves_the_stream_unmarked() {
    let body = serving_body("p");
    let req = request(&body, "p", &[1], Timeout::from_secs(5));
    let mut backend = Backend::streaming(0);
    backend.items = vec![Event::StreamFailed(failure(500, "engine died")), Event::Chunk];
    let outcome = run(&worker(ConnectionMode::Grpc), &req, |action| backend.perform(action));
    assert_eq!(outcome, failed(Some(500), "prime stream failed: engine died"));
    assert!(!backend.log.contains(&"mark".to_string()));
}

#[test]
fn backend_deadline_while_draining_leaves_the_stream_unmarked() {
    let body = serving_body("p");
    let req = request(&body, "p", &[1], Timeout::from_secs(PRIME_TIMEOUT_SECS));
    let mut backend = Backend::streaming(0);
    backend.items = vec![Event::DeadlineElapsed, Event::Chunk];
    let outcome = run(&worker(ConnectionMode::Zmq), &req, |action| backend.perform(action));
    assert_eq!(outcome, failed(None, "prime timed out after 300s"));
    assert!(!backend.log.contains(&"mark".to_string()));
}

#[test]
fn success_is_2xx() {
    for status in [100u16, 199, 300, 404, 500, 65535] {
        assert!(!is_success(status));
        assert_eq!(http_outcome(status), failed(Some(status), &format!("HTTP {}", status)));
    }
    for status in [200u16, 204, 299] {
        assert!(is_success(status));
        assert_eq!(http_outcome(status), PrimeOutcome::ok(status));
    }
}

#[test]
fn outcomes_have_the_fields_they_are_made_of() {
    assert_eq!(PrimeOutcome::ok(201), PrimeOutcome { http_status: Some(201), error: None });
    assert_eq!(
        PrimeOutcome::failed(Some(418), "teapot".to_string()),
        failed(Some(418), "teapot")
    );
}

#[test]
fn numbers_and_messages_are_written_out() {
    for n in [0u16, 9, 10, 99, 100, 503, 999, 1000, 65535] {
        assert_eq!(decimal_text(n), n.to_string());
    }
    assert_eq!(join("a: ", "b"), "a: b");
}

#[test]
fn ranks_are_cut_to_32_bits() {
    assert_eq!(wire_rank(0), 0);
    assert_eq!(wire_rank(7), 7);
    assert_eq!(wire_rank(i32::MAX as usize), i32::MAX);
    assert_eq!(wire_rank(0x8000_0000), i32::MIN);
    assert_eq!(wire_rank(0xffff_ffff), -1);
}

#[test]
fn timeouts_keep_their_parts() {
    let t = Timeout::new(1, 2_500_000_000);
    assert_eq!((t.as_secs(), t.subsec_nanos()), (3, 500_000_000));
    let t = Timeout::from_secs(PRIME_TIMEOUT_SECS);
    assert_eq!((t.as_secs(), t.subsec_nanos()), (300, 0));
    assert_eq!(timed_out_after("1ns"), "prime timed out after 1ns");
    assert_eq!(timed_out_text(&Timeout::new(0, 1)), "prime timed out after 1ns");
    assert_eq!(timed_out(&Timeout::new(1, 500_000_000)), failed(None, "prime timed out after 1.5s"));
}

#[test]
fn stages_expect_only_their_own_answers() {
    let deadline: Event<Proto> = Event::DeadlineElapsed;
    let recorded: Event<Proto> = Event::Recorded;
    assert!(Stage::Serializing.expects(&Event::<Proto>::BodyReady(vec![])));
    assert!(!Stage::Serializing.expects(&deadline));
    assert!(!Stage::Serializing.expects(&Event::<Proto>::Replied(200)));
    assert!(Stage::Sending.expects(&deadline));
    assert!(Stage::Discarding { status: 200 }.expects(&Event::<Proto>::Discarded));
    assert!(Stage::RecordingGenerate { failure: None }.expects(&recorded));
    assert!(!Stage::Completing.expects(&deadline));
    assert!(Stage::Draining.expects(&Event::<Proto>::StreamEnded));
    assert!(!Stage::Finished.expects(&recorded));
}
