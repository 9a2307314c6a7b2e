//! Games: creating one from a lobby, reading one, and adding round entries.
use vstd::prelude::*;
use crate::authority::{Authority, user_of};
use crate::context::Context;
use crate::http::{Response, Uri, is_bare, is_json, query_values, uri_values_spec};
use crate::interchange::{GameDetails, GameMember, GameRound};
use crate::jobs::{
    Job, JobHandle, JobStore, can_enqueue, enqueued, handle_json_spec, next_id,
};
use crate::records::{
    Row, opt_text_spec, opt_time_spec, int32_spec, text_at_spec, text_spec, time_at_spec,
    time_spec,
};
use crate::router::HandlerError;

verus! {

/// The body of a request to add an entry to a round.
pub struct EntryPayload {
    pub round_id: String,
    pub entry: String,
}

/// The body of a request to start a game from a lobby.
pub struct CreatePayload {
    pub lobby_id: String,
}

/// A request body as it was read: how many bytes arrived, and the payload
/// they decoded to, if they decoded.
pub struct Body<T> {
    pub size: usize,
    pub payload: Option<T>,
}

/// What a handler decided: data still to be rendered, or a finished answer.
pub enum Reply<T> {
    Data(T),
    Answer(Response),
}

/// The game to load for a signed-in user.
pub struct GameQuery {
    pub user_id: String,
    pub game_id: String,
}

/// Where an entry goes, as the record store resolved it for the caller.
pub struct EntryAuthority {
    pub lobby_id: String,
    pub game_id: String,
    pub round_id: String,
    pub member_id: String,
    pub user_id: String,
}

/// An entry as the record store wrote it.
pub struct CreatedEntry {
    pub entry_id: String,
    pub entry: String,
    pub round_id: String,
}

/// `r` is an empty answer with `status`, readable by `origin`.
pub open spec fn answers_bare(r: Result<Response, HandlerError>, status: u16, origin: Seq<char>) -> bool {
    r matches Ok(resp) && is_bare(resp, status, origin)
}

/// `r` is a success carrying the JSON text `body`, readable by `origin`.
pub open spec fn answers_json(r: Result<Response, HandlerError>, body: Seq<char>, origin: Seq<char>) -> bool {
    r matches Ok(resp) && is_json(resp, body, origin)
}

/// `r` is a finished empty answer with `status`, readable by `origin`.
pub open spec fn replies_bare<T>(r: Reply<T>, status: u16, origin: Seq<char>) -> bool {
    r matches Reply::Answer(resp) && is_bare(resp, status, origin)
}

/// The verdict on a body: `None` when it may be handled.
pub open spec fn body_error<T>(context: Context, body: Body<T>) -> Option<HandlerError> {
    if body.size > context.pending {
        Some(HandlerError::BodyTooLarge)
    } else if body.payload is None {
        Some(HandlerError::Deserialization)
    } else {
        None
    }
}

/// Hands an error back unchanged; the place where a handler notes a failure
/// it passes on or swallows.
pub fn log_err(error: HandlerError) -> (r: HandlerError)
    ensures
        r == error,
{
    error
}

/// Refuses a body larger than the context allows, before it is decoded.
pub fn check_size(context: &Context, size: usize) -> (r: Result<(), HandlerError>)
    ensures
        r is Err <==> size > context.pending,
        r matches Err(e) ==> e == HandlerError::BodyTooLarge,
{
    if size > context.pending() {
        Err(HandlerError::BodyTooLarge)
    } else {
        Ok(())
    }
}

fn check_body<T>(context: &Context, body: &Body<T>) -> (r: Result<(), HandlerError>)
    ensures
        r is Ok <==> body_error(*context, *body) is None,
        r matches Err(e) ==> body_error(*context, *body) == Some(e),
{
    check_size(context, body.size)?;
    match body.payload {
        Some(_) => Ok(()),
        None => Err(HandlerError::Deserialization),
    }
}

/// The member that a row of the members query describes.
pub open spec fn member_spec(row: Row) -> Option<GameMember> {
    match (
        text_spec(row, "member_id"@),
        time_spec(row, "created_at"@),
        text_spec(row, "user_id"@),
        text_spec(row, "user_email"@),
        text_spec(row, "user_name"@),
    ) {
        (Some(member_id), Some(joined), Some(user_id), Some(email), Some(name)) => Some(
            GameMember { member_id, user_id, email, name, joined },
        ),
        _ => None,
    }
}

/// The round that a row of the rounds query describes. Its stored 32-bit
/// position is read as unsigned.
pub open spec fn round_spec(row: Row) -> Option<GameRound> {
    match (
        text_spec(row, "id"@),
        int32_spec(row, "pos"@),
        opt_text_spec(row, "prompt"@),
        time_spec(row, "created_at"@),
        opt_time_spec(row, "started_at"@),
        opt_time_spec(row, "completed_at"@),
        opt_time_spec(row, "fulfilled_at"@),
    ) {
        (
            Some(id),
            Some(pos),
            Some(prompt),
            Some(created),
            Some(started),
            Some(completed),
            Some(fulfilled),
        ) => Some(
            GameRound { id, position: pos as u32, prompt, created, started, fulfilled, completed },
        ),
        _ => None,
    }
}

/// Whether every row describes a member.
pub open spec fn all_members(rows: Seq<Row>) -> bool {
    forall|i: int| 0 <= i < rows.len() ==> (#[trigger] member_spec(rows[i])) is Some
}

/// Whether every row describes a round.
pub open spec fn all_rounds(rows: Seq<Row>) -> bool {
    forall|i: int| 0 <= i < rows.len() ==> (#[trigger] round_spec(rows[i])) is Some
}

fn member_of(row: &Row) -> (r: Result<GameMember, HandlerError>)
    ensures
        r is Ok <==> member_spec(*row) is Some,
        r matches Ok(m) ==> member_spec(*row) == Some(m),
        r matches Err(e) ==> e == HandlerError::Record,
{
    let member_id = row.text("member_id")?;
    let joined = row.time("created_at")?;
    let user_id = row.text("user_id")?;
    let email = row.text("user_email")?;
    let name = row.text("user_name")?;
    Ok(GameMember { member_id, user_id, email, name, joined })
}

fn round_of(row: &Row) -> (r: Result<GameRound, HandlerError>)
    ensures
        r is Ok <==> round_spec(*row) is Some,
        r matches Ok(m) ==> round_spec(*row) == Some(m),
        r matches Err(e) ==> e == HandlerError::Record,
{
    let id = row.text("id")?;
    let position = row.int32("pos")? as u32;
    let prompt = row.opt_text("prompt")?;
    let created = row.time("created_at")?;
    let started = row.opt_time("started_at")?;
    let completed = row.opt_time("completed_at")?;
    let fulfilled = row.opt_time("fulfilled_at")?;
    Ok(GameRound { id, position, prompt, created, started, fulfilled, completed })
}

/// The members of a game, one per row of the members query; a row that
/// lacks a column, or holds one of another type, fails the whole read.
pub fn members_for_game(rows: &Vec<Row>) -> (r: Result<Vec<GameMember>, HandlerError>)
    ensures
        r is Ok <==> all_members(rows@),
        r matches Err(e) ==> e == HandlerError::Record,
        r matches Ok(v) ==> v@.len() == rows@.len() && forall|i: int|
            0 <= i < rows@.len() ==> member_spec(rows@[i]) == Some(#[trigger] v@[i]),
{
    let mut out: Vec<GameMember> = Vec::new();
    let mut i: usize = 0;
    while i < rows.len()
        invariant
            i <= rows@.len(),
            out@.len() == i,
            forall|j: int| 0 <= j < i ==> member_spec(rows@[j]) == Some(#[trigger] out@[j]),
        decreases rows@.len() - i,
    {
        match member_of(&rows[i]) {
            Ok(m) => out.push(m),
            Err(e) => return Err(log_err(e)),
        }
        i = i + 1;
    }
    assert forall|j: int| 0 <= j < rows@.len() implies (#[trigger] member_spec(rows@[j])) is Some by {
        assert(member_spec(rows@[j]) == Some(out@[j]));
    }
    Ok(out)
}

/// The rounds of a game, one per row of the rounds query; a row that lacks
/// a column, or holds one of another type, fails the whole read.
pub fn rounds_for_game(rows: &Vec<Row>) -> (r: Result<Vec<GameRound>, HandlerError>)
    ensures
        r is Ok <==> all_rounds(rows@),
        r matches Err(e) ==> e == HandlerError::Record,
        r matches Ok(v) ==> v@.len() == rows@.len() && forall|i: int|
            0 <= i < rows@.len() ==> round_spec(rows@[i]) == Some(#[trigger] v@[i]),
{
    let mut out: Vec<GameRound> = Vec::new();
    let mut i: usize = 0;
    while i < rows.len()
        invariant
            i <= rows@.len(),
            out@.len() == i,
            forall|j: int| 0 <= j < i ==> round_spec(rows@[j]) == Some(#[trigger] out@[j]),
        decreases rows@.len() - i,
    {
        match round_of(&rows[i]) {
            Ok(m) => out.push(m),
            Err(e) => return Err(log_err(e)),
        }
        i = i + 1;
    }
    assert forall|j: int| 0 <= j < rows@.len() implies (#[trigger] round_spec(rows@[j])) is Some by {
        assert(round_spec(rows@[j]) == Some(out@[j]));
    }
    Ok(out)
}

/// The game that the first row of the game query describes: its id, its
/// creation time and its name, read by position.
pub open spec fn summary_spec(rows: Seq<Row>) -> Option<(String, i64, String)> {
    if rows.len() == 0 {
        None
    } else {
        match (text_at_spec(rows[0], 0), time_at_spec(rows[0], 1), text_at_spec(rows[0], 2)) {
            (Some(id), Some(created), Some(name)) => Some((id, created, name)),
            _ => None,
        }
    }
}

/// The id, creation time and name of the game that the game query found.
pub fn game_summary(rows: &Vec<Row>) -> (r: Option<(String, i64, String)>)
    ensures
        r == summary_spec(rows@),
{
    if rows.len() == 0 {
        return None;
    }
    let row = &rows[0];
    match (row.text_at(0), row.time_at(1), row.text_at(2)) {
        (Some(id), Some(created), Some(name)) => Some((id, created, name)),
        _ => None,
    }
}

/// A game with its rounds and members, from the rows of the game, rounds
/// and members queries. A game the query did not find is answered
/// not-found; a round or member row that cannot be read fails the request.
pub fn find_game(
    context: &Context,
    game_rows: &Vec<Row>,
    round_rows: &Vec<Row>,
    member_rows: &Vec<Row>,
) -> (r: Result<Reply<GameDetails>, HandlerError>)
    ensures
        summary_spec(game_rows@) is None ==> (r matches Ok(reply) && replies_bare(reply, 404, context.cors@)),
        summary_spec(game_rows@) is Some ==> (r is Err <==> !all_rounds(round_rows@) || !all_members(
            member_rows@,
        )),
        r matches Err(e) ==> e == HandlerError::Record,
        summary_spec(game_rows@) is Some && all_rounds(round_rows@) && all_members(member_rows@)
            ==> (r matches Ok(reply) && reply is Data),
        r matches Ok(Reply::Data(d)) ==> ({
            &&& summary_spec(game_rows@) == Some((d.id, d.created, d.name))
            &&& d.rounds@.len() == round_rows@.len()
            &&& forall|i: int| 0 <= i < round_rows@.len() ==> round_spec(round_rows@[i]) == Some(#[trigger] d.rounds@[i])
            &&& d.members@.len() == member_rows@.len()
            &&& forall|i: int| 0 <= i < member_rows@.len() ==> member_spec(member_rows@[i]) == Some(#[trigger] d.members@[i])
        }),
{
    let (id, created, name) = match game_summary(game_rows) {
        Some(found) => found,
        None => return Ok(Reply::Answer(Response::bare_for(404, context.cors()))),
    };
    let rounds = rounds_for_game(round_rows)?;
    let members = members_for_game(member_rows)?;
    Ok(Reply::Data(GameDetails { id, created, name, members, rounds }))
}

/// The lookup that `GET /games` asks for: one game, named by the single
/// `ids[]` value of the query, for a signed-in caller. Anyone else, and any
/// other number of ids, is answered not-found.
pub fn find(context: &Context, uri: &Uri) -> (r: Reply<GameQuery>)
    ensures
        context.authority is Anonymous ==> replies_bare(r, 404, context.cors@),
        context.authority is User && uri_values_spec(*uri, "ids[]"@).len() != 1 ==> replies_bare(r, 404, context.cors@),
        context.authority is User && uri_values_spec(*uri, "ids[]"@).len() == 1 ==> (r matches Reply::Data(q)
            && Some(q.user_id) == user_of(context.authority) && q.game_id@ == uri_values_spec(
            *uri,
            "ids[]"@,
        )[0]),
{
    let user_id = match context.authority() {
        Authority::Anonymous => return Reply::Answer(Response::bare_for(404, context.cors())),
        Authority::User { id, .. } => id.clone(),
    };
    let mut ids = query_values(uri, "ids[]");
    if ids.len() != 1 {
        return Reply::Answer(Response::bare_for(404, context.cors()));
    }
    let game_id = ids.remove(0);
    Reply::Data(GameQuery { user_id, game_id })
}

/// The lobby membership that `POST /games` asks the record store about:
/// the payload's lobby and the caller. `None`, and no lookup, for an
/// anonymous caller or a body that is too large or does not decode.
pub fn lobby_lookup(context: &Context, body: &Body<CreatePayload>) -> (r: Option<(String, String)>)
    ensures
        r is Some <==> context.authority is User && body_error(*context, *body) is None,
        r matches Some(q) ==> q.0 == body.payload->0.lobby_id && Some(q.1) == user_of(
            context.authority,
        ),
{
    let user = match context.authority() {
        Authority::Anonymous => return None,
        Authority::User { id, .. } => id.clone(),
    };
    if check_body(context, body).is_err() {
        return None;
    }
    match &body.payload {
        Some(p) => Some((p.lobby_id.clone(), user)),
        None => None,
    }
}

/// The job that starting a game from the request's lobby enqueues.
pub open spec fn creation_job(context: Context, body: Body<CreatePayload>) -> Job {
    Job::CreateGame { creator: user_of(context.authority)->0, lobby_id: body.payload->0.lobby_id }
}

/// Starts a game from a lobby: `lobby_found` tells whether the record store
/// holds the payload's lobby with the caller as a member, and `now` is the
/// time a job would be enqueued at. A signed-in
/// caller with a readable body and a found lobby gets a handle of a
/// freshly enqueued job, with no result yet; should the job store refuse
/// the enqueue, the failure is noted and the caller still gets an empty
/// success. Anyone else is answered not-found, or fails on the body, and no
/// job is enqueued.
pub fn create(
    context: &Context,
    jobs: &mut JobStore,
    body: &Body<CreatePayload>,
    lobby_found: bool,
    now: i64,
) -> (r: Result<Response, HandlerError>)
    requires
        old(jobs).wf(),
    ensures
        final(jobs).wf(),
        context.authority is Anonymous ==> final(jobs)@ == old(jobs)@ && answers_bare(r, 404, context.cors@),
        context.authority is User && body_error(*context, *body) is Some ==> final(jobs)@ == old(
            jobs,
        )@ && r == Err::<Response, HandlerError>(body_error(*context, *body)->0),
        context.authority is User && body_error(*context, *body) is None && !lobby_found
            ==> final(jobs)@ == old(jobs)@ && answers_bare(r, 404, context.cors@),
        context.authority is User && body_error(*context, *body) is None && lobby_found
            && !can_enqueue(old(jobs)@) ==> final(jobs)@ == old(jobs)@ && answers_bare(r, 200, context.cors@),
        context.authority is User && body_error(*context, *body) is None && lobby_found
            && can_enqueue(old(jobs)@) ==> final(jobs)@ == enqueued(
            old(jobs)@,
            creation_job(*context, *body),
            now,
        ) && answers_json(
            r,
            handle_json_spec(JobHandle { id: next_id(old(jobs)@) as u64, result: None }),
            context.cors@,
        ),
{
    let creator = match context.authority() {
        Authority::Anonymous => return Ok(Response::bare_for(404, context.cors())),
        Authority::User { id, .. } => id.clone(),
    };
    check_body(context, body)?;
    let lobby_id = match &body.payload {
        Some(p) => p.lobby_id.clone(),
        None => return Err(HandlerError::Deserialization),
    };
    if !lobby_found {
        return Ok(Response::bare_for(404, context.cors()));
    }
    let job = Job::CreateGame { creator, lobby_id };
    let id = match jobs.queue(job, now) {
        Ok(id) => id,
        Err(_) => {
            log_err(HandlerError::Persistence);
            return Ok(Response::bare_for(200, context.cors()));
        },
    };
    let handle = JobHandle { id, result: None };
    Ok(Response::json_for(handle.to_json(), context.cors()))
}

/// Where the first row of the entry-game query places the caller's entry:
/// lobby, game, round, member and user ids, by position.
pub open spec fn entry_authority_spec(rows: Seq<Row>) -> Option<EntryAuthority> {
    if rows.len() == 0 {
        None
    } else {
        let row = rows[0];
        match (
            text_at_spec(row, 0),
            text_at_spec(row, 1),
            text_at_spec(row, 2),
            text_at_spec(row, 3),
            text_at_spec(row, 4),
        ) {
            (Some(lobby_id), Some(game_id), Some(round_id), Some(member_id), Some(user_id)) => Some(
                EntryAuthority { lobby_id, game_id, round_id, member_id, user_id },
            ),
            _ => None,
        }
    }
}

/// The entry that the first row of the entry insertion returned: entry id,
/// entry text and round id, by position.
pub open spec fn created_entry_spec(rows: Seq<Row>) -> Option<CreatedEntry> {
    if rows.len() == 0 {
        None
    } else {
        let row = rows[0];
        match (text_at_spec(row, 0), text_at_spec(row, 1), text_at_spec(row, 2)) {
            (Some(entry_id), Some(entry), Some(round_id)) => Some(
                CreatedEntry { entry_id, entry, round_id },
            ),
            _ => None,
        }
    }
}

/// The round that `POST /round-entries` asks the record store to place the
/// caller in: the payload's round and the caller. `None`, and no lookup,
/// for an anonymous caller or a body that is too large or does not decode.
pub fn entry_lookup(context: &Context, body: &Body<EntryPayload>) -> (r: Option<(String, String)>)
    ensures
        r is Some <==> context.authority is User && body_error(*context, *body) is None,
        r matches Some(q) ==> q.0 == body.payload->0.round_id && Some(q.1) == user_of(
            context.authority,
        ),
{
    let user = match context.authority() {
        Authority::Anonymous => return None,
        Authority::User { id, .. } => id.clone(),
    };
    if check_body(context, body).is_err() {
        return None;
    }
    match &body.payload {
        Some(p) => Some((p.round_id.clone(), user)),
        None => None,
    }
}

/// The entry to write once the caller's place is known: the place and the
/// payload's text. `None`, and nothing written, without a place, an
/// authenticated caller and a readable body.
pub fn entry_insert(
    context: &Context,
    body: &Body<EntryPayload>,
    place: &Option<EntryAuthority>,
) -> (r: Option<(EntryAuthority, String)>)
    ensures
        r is Some <==> context.authority is User && body_error(*context, *body) is None && place is Some,
        r matches Some(w) ==> w.0 == place->0 && w.1 == body.payload->0.entry,
{
    if entry_lookup(context, body).is_none() {
        return None;
    }
    match (place, &body.payload) {
        (Some(a), Some(p)) => Some(
            (
                EntryAuthority {
                    lobby_id: a.lobby_id.clone(),
                    game_id: a.game_id.clone(),
                    round_id: a.round_id.clone(),
                    member_id: a.member_id.clone(),
                    user_id: a.user_id.clone(),
                },
                p.entry.clone(),
            ),
        ),
        _ => None,
    }
}

/// Reads where the caller's entry goes from the rows of the entry-game query.
pub fn entry_authority(rows: &Vec<Row>) -> (r: Option<EntryAuthority>)
    ensures
        r == entry_authority_spec(rows@),
{
    if rows.len() == 0 {
        return None;
    }
    let row = &rows[0];
    match (row.text_at(0), row.text_at(1), row.text_at(2), row.text_at(3), row.text_at(4)) {
        (Some(lobby_id), Some(game_id), Some(round_id), Some(member_id), Some(user_id)) => Some(
            EntryAuthority { lobby_id, game_id, round_id, member_id, user_id },
        ),
        _ => None,
    }
}

/// Reads the written entry from the rows the entry insertion returned.
pub fn created_entry(rows: &Vec<Row>) -> (r: Option<CreatedEntry>)
    ensures
        r == created_entry_spec(rows@),
{
    if rows.len() == 0 {
        return None;
    }
    let row = &rows[0];
    match (row.text_at(0), row.text_at(1), row.text_at(2)) {
        (Some(entry_id), Some(entry), Some(round_id)) => Some(
            CreatedEntry { entry_id, entry, round_id },
        ),
        _ => None,
    }
}

/// The job that a written entry enqueues: a check whether its round is now
/// fulfilled.
pub open spec fn fulfillment_job(entry: CreatedEntry) -> Job {
    Job::CheckRoundFulfillment { round_id: entry.round_id }
}

/// Adds an entry to a round. `authority` is where the record store placed
/// the caller's entry (`None`: no such round for the caller), and
/// `created` the entry it wrote, and `now` the time a job would be enqueued
/// at. A written entry enqueues a check of its
/// round; the answer is an empty success whether or not that enqueue could
/// be recorded. Anonymous callers and unknown rounds are answered
/// not-found; a body that is too large or does not decode fails the
/// request. Only a written entry changes the job store.
pub fn create_entry(
    context: &Context,
    jobs: &mut JobStore,
    body: &Body<EntryPayload>,
    authority: &Option<EntryAuthority>,
    created: &Option<CreatedEntry>,
    now: i64,
) -> (r: Result<Response, HandlerError>)
    requires
        old(jobs).wf(),
    ensures
        final(jobs).wf(),
        context.authority is Anonymous ==> final(jobs)@ == old(jobs)@ && answers_bare(r, 404, context.cors@),
        context.authority is User && body_error(*context, *body) is Some ==> final(jobs)@ == old(
            jobs,
        )@ && r == Err::<Response, HandlerError>(body_error(*context, *body)->0),
        context.authority is User && body_error(*context, *body) is None && authority is None
            ==> final(jobs)@ == old(jobs)@ && answers_bare(r, 404, context.cors@),
        context.authority is User && body_error(*context, *body) is None && authority is Some
            ==> answers_bare(r, 200, context.cors@),
        context.authority is User && body_error(*context, *body) is None && authority is Some
            && created is None ==> final(jobs)@ == old(jobs)@,
        context.authority is User && body_error(*context, *body) is None && authority is Some
            && created is Some ==> final(jobs)@ == if can_enqueue(old(jobs)@) {
            enqueued(old(jobs)@, fulfillment_job(created->0), now)
        } else {
            old(jobs)@
        },
{
    match context.authority() {
        Authority::Anonymous => return Ok(Response::bare_for(404, context.cors())),
        Authority::User { .. } => {},
    }
    check_body(context, body)?;
    if authority.is_none() {
        return Ok(Response::bare_for(404, context.cors()));
    }
    match created {
        Some(entry) => {
            let job = Job::CheckRoundFulfillment { round_id: entry.round_id.clone() };
            match jobs.queue(job, now) {
                Ok(_) => {},
                Err(_) => {
                    log_err(HandlerError::Persistence);
                },
            }
            Ok(Response::bare_for(200, context.cors()))
        },
        None => Ok(Response::bare_for(200, context.cors())),
    }
}

} // verus!
