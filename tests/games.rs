use krumnet::authorization::{AuthorizationUrls, Configuration, GoogleCredentials, KrumiConfiguration};
use krumnet::http::{Response, Uri};
use krumnet::jobs::{Job, JobStore};
use krumnet::records::{Cell, Column, Row};
use krumnet::router::HandlerError;
use krumnet::routes::games::{
    create, create_entry, created_entry, entry_authority, find, find_game, game_summary, log_err,
    members_for_game, rounds_for_game, entry_insert, entry_lookup, lobby_lookup, Body, CreatePayload, CreatedEntry, EntryAuthority,
    EntryPayload, Reply,
};
use krumnet::routes::jobs as job_routes;
use krumnet::{Authority, Context};

const ORIGIN: &str = "https://play.example";

fn user(id: &str) -> Context {
    Context {
        authority: Authority::User {
            id: id.to_string(),
            email: format!("{}@example.com", id),
            name: id.to_string(),
        },
        cors: ORIGIN.to_string(),
        pending: 64,
    }
}

fn anonymous() -> Context {
    Context { authority: Authority::Anonymous, cors: ORIGIN.to_string(), pending: 64 }
}

fn lobby_body(lobby: &str) -> Body<CreatePayload> {
    let text = format!("{{\"lobby_id\":\"{}\"}}", lobby);
    Body { size: text.len(), payload: Some(CreatePayload { lobby_id: lobby.to_string() }) }
}

fn cors_of(r: &Response) -> Option<&str> {
    r.headers
        .iter()
        .find(|(k, _)| k == "Access-Control-Allow-Origin")
        .map(|(_, v)| v.as_str())
}

fn text(name: &str, v: &str) -> Column {
    Column { name: name.to_string(), value: Cell::Text(v.to_string()) }
}

fn time(name: &str, t: i64) -> Column {
    Column { name: name.to_string(), value: Cell::Time(t) }
}

fn null(name: &str) -> Column {
    Column { name: name.to_string(), value: Cell::Null }
}

#[test]
fn create_game_from_joined_lobby_then_poll() {
    let ctx = user("U1");
    let mut jobs = JobStore::new();
    let resp = create(&ctx, &mut jobs, &lobby_body("L1"), true, 100).unwrap();
    assert_eq!(resp.status, 200);
    assert_eq!(resp.body.as_deref(), Some("{\"id\":\"0\",\"result\":null}"));
    assert_eq!(cors_of(&resp), Some(ORIGIN));
    match &jobs.record(0).unwrap().job {
        Job::CreateGame { creator, lobby_id } => {
            assert_eq!(creator, "U1");
            assert_eq!(lobby_id, "L1");
        }
        _ => panic!("wrong job"),
    }
    let poll = job_routes::find(&ctx, &jobs, &Uri::parse("/jobs?ids[]=0"));
    assert_eq!(poll.status, 200);
    assert_eq!(poll.body.as_deref(), Some("{\"id\":\"0\",\"result\":null}"));
}

#[test]
fn create_game_with_unknown_lobby_enqueues_nothing() {
    let ctx = user("U1");
    let mut jobs = JobStore::new();
    let resp = create(&ctx, &mut jobs, &lobby_body("nope"), false, 100).unwrap();
    assert_eq!(resp.status, 404);
    assert!(resp.body.is_none());
    assert_eq!(cors_of(&resp), Some(ORIGIN));
    assert_eq!(jobs.len(), 0);
}

#[test]
fn anonymous_callers_get_not_found() {
    let ctx = anonymous();
    let mut jobs = JobStore::new();
    let resp = create(&ctx, &mut jobs, &lobby_body("L1"), true, 100).unwrap();
    assert_eq!(resp.status, 404);
    assert_eq!(jobs.len(), 0);
    let entry = Body { size: 10, payload: Some(EntryPayload { round_id: "R1".to_string(), entry: "hi".to_string() }) };
    let resp = create_entry(&ctx, &mut jobs, &entry, &None, &None, 100).unwrap();
    assert_eq!(resp.status, 404);
    match find(&ctx, &Uri::parse("/games?ids[]=G1")) {
        Reply::Answer(r) => assert_eq!(r.status, 404),
        Reply::Data(_) => panic!("anonymous lookup"),
    }
    let poll = job_routes::find(&ctx, &jobs, &Uri::parse("/jobs?ids[]=0"));
    assert_eq!(poll.status, 404);
    assert_eq!(cors_of(&poll), Some(ORIGIN));
}

#[test]
fn oversized_body_is_rejected_without_side_effects() {
    let ctx = user("U1");
    let mut jobs = JobStore::new();
    let body = Body { size: 65, payload: Some(CreatePayload { lobby_id: "L1".to_string() }) };
    assert_eq!(create(&ctx, &mut jobs, &body, true, 100).err(), Some(HandlerError::BodyTooLarge));
    assert_eq!(jobs.len(), 0);
    let entry = Body { size: 1000, payload: Some(EntryPayload { round_id: "R1".to_string(), entry: "x".to_string() }) };
    let made = Some(CreatedEntry { entry_id: "E".to_string(), entry: "x".to_string(), round_id: "R1".to_string() });
    assert_eq!(create_entry(&ctx, &mut jobs, &entry, &None, &made, 100).err(), Some(HandlerError::BodyTooLarge));
    assert_eq!(jobs.len(), 0);
}

#[test]
fn malformed_body_is_a_deserialization_error() {
    let ctx = user("U1");
    let mut jobs = JobStore::new();
    let body: Body<CreatePayload> = Body { size: 3, payload: None };
    assert_eq!(create(&ctx, &mut jobs, &body, true, 100).err(), Some(HandlerError::Deserialization));
    assert_eq!(jobs.len(), 0);
}

#[test]
fn entry_enqueues_round_check() {
    let ctx = user("U1");
    let mut jobs = JobStore::new();
    let game_rows = vec![Row { columns: vec![text("l", "L1"), text("g", "G1"), text("r", "R1"), text("m", "M1"), text("u", "U1")] }];
    let placed = entry_authority(&game_rows);
    assert_eq!(placed.as_ref().map(|a| a.member_id.as_str()), Some("M1"));
    let made_rows = vec![Row { columns: vec![text("id", "E1"), text("entry", "hello"), text("round_id", "R1")] }];
    let made = created_entry(&made_rows);
    assert_eq!(made.as_ref().map(|e| e.entry_id.as_str()), Some("E1"));
    let body = Body { size: 30, payload: Some(EntryPayload { round_id: "R1".to_string(), entry: "hello".to_string() }) };
    let resp = create_entry(&ctx, &mut jobs, &body, &placed, &made, 100).unwrap();
    assert_eq!(resp.status, 200);
    assert!(resp.body.is_none());
    assert_eq!(cors_of(&resp), Some(ORIGIN));
    match &jobs.record(0).unwrap().job {
        Job::CheckRoundFulfillment { round_id } => assert_eq!(round_id, "R1"),
        _ => panic!("wrong job"),
    }
}

#[test]
fn entry_for_unknown_round_is_not_found() {
    let ctx = user("U1");
    let mut jobs = JobStore::new();
    assert!(entry_authority(&vec![]).is_none());
    let short = vec![Row { columns: vec![text("l", "L1")] }];
    assert!(entry_authority(&short).is_none());
    let body = Body { size: 30, payload: Some(EntryPayload { round_id: "R9".to_string(), entry: "x".to_string() }) };
    let resp = create_entry(&ctx, &mut jobs, &body, &None, &None, 100).unwrap();
    assert_eq!(resp.status, 404);
    let placed = Some(EntryAuthority {
        lobby_id: "L".to_string(),
        game_id: "G".to_string(),
        round_id: "R".to_string(),
        member_id: "M".to_string(),
        user_id: "U1".to_string(),
    });
    let resp = create_entry(&ctx, &mut jobs, &body, &placed, &None, 100).unwrap();
    assert_eq!(resp.status, 200);
    assert_eq!(jobs.len(), 0);
}

#[test]
fn game_lookup() {
    let ctx = user("U1");
    match find(&ctx, &Uri::parse("/games?ids[]=G1")) {
        Reply::Data(q) => {
            assert_eq!(q.user_id, "U1");
            assert_eq!(q.game_id, "G1");
        }
        Reply::Answer(_) => panic!("expected a lookup"),
    }
    for target in ["/games", "/games?ids[]=G1&ids[]=G2"] {
        match find(&ctx, &Uri::parse(target)) {
            Reply::Answer(r) => assert_eq!(r.status, 404),
            Reply::Data(_) => panic!("expected not-found"),
        }
    }
}

#[test]
fn game_details_from_rows() {
    let ctx = user("U1");
    let game = vec![Row { columns: vec![text("id", "G1"), time("created_at", 1000), text("name", "fun")] }];
    assert_eq!(game_summary(&game), Some(("G1".to_string(), 1000, "fun".to_string())));
    let rounds = vec![Row {
        columns: vec![
            text("id", "R1"),
            Column { name: "pos".to_string(), value: Cell::Int(2) },
            text("prompt", "draw a cat"),
            time("created_at", 5),
            time("started_at", 6),
            null("completed_at"),
            null("fulfilled_at"),
        ],
    }];
    let members = vec![Row {
        columns: vec![
            text("member_id", "M1"),
            time("created_at", 7),
            text("user_id", "U1"),
            text("user_email", "u1@example.com"),
            text("user_name", "One"),
        ],
    }];
    match find_game(&ctx, &game, &rounds, &members).unwrap() {
        Reply::Data(d) => {
            assert_eq!(d.id, "G1");
            assert_eq!(d.name, "fun");
            assert_eq!(d.rounds.len(), 1);
            assert_eq!(d.rounds[0].position, 2);
            assert_eq!(d.rounds[0].prompt.as_deref(), Some("draw a cat"));
            assert_eq!(d.rounds[0].started, Some(6));
            assert_eq!(d.rounds[0].completed, None);
            assert_eq!(d.members[0].joined, 7);
            assert_eq!(d.members[0].email, "u1@example.com");
        }
        Reply::Answer(_) => panic!("expected details"),
    }
    match find_game(&ctx, &vec![], &rounds, &members).unwrap() {
        Reply::Answer(r) => assert_eq!(r.status, 404),
        Reply::Data(_) => panic!("expected not-found"),
    }
}

#[test]
fn unreadable_rows_fail() {
    let bad_member = vec![Row { columns: vec![text("member_id", "M1"), text("created_at", "yesterday")] }];
    assert_eq!(members_for_game(&bad_member).err(), Some(HandlerError::Record));
    let bad_round = vec![Row {
        columns: vec![
            text("id", "R1"),
            Column { name: "pos".to_string(), value: Cell::Int(1 << 40) },
            null("prompt"),
            time("created_at", 5),
            null("started_at"),
            null("completed_at"),
            null("fulfilled_at"),
        ],
    }];
    assert_eq!(rounds_for_game(&bad_round).err(), Some(HandlerError::Record));
    assert!(members_for_game(&vec![]).unwrap().is_empty());
    assert_eq!(log_err(HandlerError::Record), HandlerError::Record);
}

#[test]
fn negative_position_reads_as_unsigned() {
    let rounds = vec![Row {
        columns: vec![
            text("id", "R1"),
            Column { name: "pos".to_string(), value: Cell::Int(-1) },
            null("prompt"),
            time("created_at", 5),
            null("started_at"),
            null("completed_at"),
            null("fulfilled_at"),
        ],
    }];
    assert_eq!(rounds_for_game(&rounds).unwrap()[0].position, u32::MAX);
}

#[test]
fn poll_after_completion_returns_result() {
    let ctx = user("U1");
    let mut jobs = JobStore::new();
    create(&ctx, &mut jobs, &lobby_body("L1"), true, 100).unwrap();
    jobs.complete(0, "{\"game\":\"G7\"}".to_string(), 200).unwrap();
    for _ in 0..2 {
        let poll = job_routes::find(&ctx, &jobs, &Uri::parse("/jobs?ids[]=0"));
        assert_eq!(poll.body.as_deref(), Some("{\"id\":\"0\",\"result\":{\"game\":\"G7\"}}"));
    }
    assert_eq!(job_routes::find(&ctx, &jobs, &Uri::parse("/jobs?ids[]=1")).status, 404);
    assert_eq!(job_routes::find(&ctx, &jobs, &Uri::parse("/jobs?ids[]=x")).status, 404);
    assert_eq!(job_routes::find(&ctx, &jobs, &Uri::parse("/jobs")).status, 404);
}

#[test]
fn poll_several_jobs_in_order() {
    let ctx = user("U1");
    let mut jobs = JobStore::new();
    create(&ctx, &mut jobs, &lobby_body("L1"), true, 100).unwrap();
    create(&ctx, &mut jobs, &lobby_body("L2"), true, 100).unwrap();
    jobs.complete(1, "true".to_string(), 200).unwrap();
    let poll = job_routes::find(&ctx, &jobs, &Uri::parse("/jobs?ids[]=1&ids%5B%5D=0"));
    assert_eq!(poll.status, 200);
    assert_eq!(
        poll.body.as_deref(),
        Some("[{\"id\":\"1\",\"result\":true},{\"id\":\"0\",\"result\":null}]")
    );
    assert_eq!(cors_of(&poll), Some(ORIGIN));
    let mixed = job_routes::find(&ctx, &jobs, &Uri::parse("/jobs?ids[]=0&ids[]=5&ids[]=x"));
    assert_eq!(mixed.status, 200);
    assert_eq!(mixed.body.as_deref(), Some("[{\"id\":\"0\",\"result\":null}]"));
    let none = job_routes::find(&ctx, &jobs, &Uri::parse("/jobs?ids[]=7&ids[]=8"));
    assert_eq!(none.status, 200);
    assert_eq!(none.body.as_deref(), Some("[]"));
    let single_missing = job_routes::find(&ctx, &jobs, &Uri::parse("/jobs?ids[]=5"));
    assert_eq!(single_missing.status, 404);
    assert!(single_missing.body.is_none());
}

#[test]
fn anonymous_poll_reads_completed_result() {
    let mut jobs = JobStore::new();
    create(&user("U1"), &mut jobs, &lobby_body("L1"), true, 100).unwrap();
    jobs.complete(0, "{\"game\":\"G1\"}".to_string(), 200).unwrap();
    let first = job_routes::find(&anonymous(), &jobs, &Uri::parse("/jobs?ids[]=0"));
    let second = job_routes::find(&anonymous(), &jobs, &Uri::parse("/jobs?ids[]=0"));
    assert_eq!(first.status, 200);
    assert_eq!(first.body.as_deref(), Some("{\"id\":\"0\",\"result\":{\"game\":\"G1\"}}"));
    assert_eq!(first.to_wire(), second.to_wire());
    assert_eq!(cors_of(&first), Some(ORIGIN));
}

#[test]
fn lookups_only_for_accepted_requests() {
    let ctx = user("U1");
    assert_eq!(lobby_lookup(&ctx, &lobby_body("L1")), Some(("L1".to_string(), "U1".to_string())));
    assert_eq!(lobby_lookup(&anonymous(), &lobby_body("L1")), None);
    let big = Body { size: 65, payload: Some(CreatePayload { lobby_id: "L1".to_string() }) };
    assert_eq!(lobby_lookup(&ctx, &big), None);
    let bad: Body<CreatePayload> = Body { size: 2, payload: None };
    assert_eq!(lobby_lookup(&ctx, &bad), None);
    let entry = Body { size: 20, payload: Some(EntryPayload { round_id: "R1".to_string(), entry: "hi".to_string() }) };
    assert_eq!(entry_lookup(&ctx, &entry), Some(("R1".to_string(), "U1".to_string())));
    let huge = Body { size: 65, payload: Some(EntryPayload { round_id: "R1".to_string(), entry: "hi".to_string() }) };
    assert_eq!(entry_lookup(&ctx, &huge), None);
    assert_eq!(entry_lookup(&anonymous(), &entry), None);
    let place = Some(EntryAuthority {
        lobby_id: "L".to_string(),
        game_id: "G".to_string(),
        round_id: "R1".to_string(),
        member_id: "M".to_string(),
        user_id: "U1".to_string(),
    });
    let (at, text) = entry_insert(&ctx, &entry, &place).unwrap();
    assert_eq!(at.member_id, "M");
    assert_eq!(text, "hi");
    assert!(entry_insert(&ctx, &entry, &None).is_none());
    assert!(entry_insert(&ctx, &huge, &place).is_none());
    assert!(entry_insert(&anonymous(), &entry, &place).is_none());
}

#[test]
fn sign_in_addresses() {
    let configuration = Configuration {
        addr: "0.0.0.0:8080".to_string(),
        google: GoogleCredentials {
            client_id: "abc.apps".to_string(),
            client_secret: "SECRET-REDACTED".to_string(),
            redirect_uri: "https://api.example/auth/callback?x=1".to_string(),
        },
        krumi: KrumiConfiguration {
            cors_origin: ORIGIN.to_string(),
            auth_uri: "https://play.example/signed-in".to_string(),
        },
    };
    let urls = AuthorizationUrls::open(&configuration);
    assert_eq!(
        urls.init,
        "https://accounts.google.com/o/oauth2/v2/auth?response_type=code&client_id=abc.apps&redirect_uri=https%3A%2F%2Fapi.example%2Fauth%2Fcallback%3Fx%3D1&scope=email+profile"
    );
    assert_eq!(urls.exchange.0, "https://oauth2.googleapis.com/token");
    assert_eq!(urls.exchange.1.client_id, "abc.apps");
    assert_eq!(urls.identify, "https://www.googleapis.com/oauth2/v2/userinfo");
    assert_eq!(urls.callback, "https://play.example/signed-in");
    assert_eq!(urls.cors_origin, ORIGIN);
}
