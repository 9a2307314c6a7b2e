//! Polling jobs by identifier.
use vstd::prelude::*;
use crate::context::Context;
use crate::http::{Response, Uri, is_bare, is_json, query_values, uri_values_spec};
use crate::jobs::{
    Job, JobHandle, JobRecord, JobStore, can_enqueue, enqueued, handle_json_spec, handle_of, next_id,
    well_numbered, law_enqueue_fresh_pending,
};
use crate::text::{decimal_spec, is_numeral, law_decimal_round_trip, numeral_value, parse_decimal};

verus! {

/// The handle of the job that the decimal identifier `text` names, if the
/// text is an identifier and such a job was recorded.
pub open spec fn handle_for(s: Seq<JobRecord>, text: Seq<char>) -> Option<JobHandle> {
    if is_numeral(text) && numeral_value(text) <= u64::MAX {
        handle_of(s, numeral_value(text) as u64)
    } else {
        None
    }
}

/// The handles of the recorded jobs among those that `ids` name, in the
/// order asked; an identifier that names no recorded job has no handle.
pub open spec fn known_handles(s: Seq<JobRecord>, ids: Seq<Seq<char>>) -> Seq<JobHandle>
    decreases ids.len(),
{
    if ids.len() == 0 {
        Seq::empty()
    } else {
        let rest = known_handles(s, ids.drop_last());
        match handle_for(s, ids.last()) {
            Some(h) => rest.push(h),
            None => rest,
        }
    }
}

/// The JSON texts of `hs`, separated by commas.
pub open spec fn joined_json(hs: Seq<JobHandle>) -> Seq<char>
    decreases hs.len(),
{
    if hs.len() == 0 {
        Seq::empty()
    } else if hs.len() == 1 {
        handle_json_spec(hs[0])
    } else {
        joined_json(hs.drop_last()) + ","@ + handle_json_spec(hs.last())
    }
}

/// A job just enqueued can be polled by the identifier its creation
/// answered with: polling that decimal identifier, before any worker ran,
/// answers with the same pending handle, `result` null.
pub proof fn law_enqueued_job_polls_back(s: Seq<JobRecord>, job: Job, now: i64)
    requires
        well_numbered(s),
        can_enqueue(s),
    ensures
        ({
            let h = JobHandle { id: next_id(s) as u64, result: None };
            &&& handle_for(enqueued(s, job, now), decimal_spec(next_id(s) as nat)) == Some(h)
        }),
{
    let id = next_id(s) as u64;
    law_decimal_round_trip(id as nat);
    law_enqueue_fresh_pending(s, job, now);
}

fn handle_of_text(jobs: &JobStore, text: &String) -> (r: Option<JobHandle>)
    requires
        jobs.wf(),
    ensures
        r == handle_for(jobs@, text@),
{
    match parse_decimal(text.as_str()) {
        Some(id) => jobs.status(id),
        None => None,
    }
}

/// Answers `GET /jobs`, for any caller: the handle of each job that the
/// `ids[]` values of the query name, as JSON, with `result` null until a job
/// completes. One identifier is answered with its handle, or not-found when
/// it names no recorded job; several with an array of the handles of the
/// recorded jobs among them, in the order asked, an unknown identifier
/// having no entry. A query that names no identifier is answered not-found.
pub fn find(context: &Context, jobs: &JobStore, uri: &Uri) -> (r: Response)
    requires
        jobs.wf(),
    ensures
        ({
            let ids = uri_values_spec(*uri, "ids[]"@);
            if ids.len() == 0 {
                is_bare(r, 404, context.cors@)
            } else if ids.len() == 1 {
                match handle_for(jobs@, ids[0]) {
                    Some(h) => is_json(r, handle_json_spec(h), context.cors@),
                    None => is_bare(r, 404, context.cors@),
                }
            } else {
                is_json(r, "["@ + joined_json(known_handles(jobs@, ids)) + "]"@, context.cors@)
            }
        }),
{
    let ids = query_values(uri, "ids[]");
    let ghost texts = ids@.map_values(|v: String| v@);
    if ids.len() == 0 {
        return Response::bare_for(404, context.cors());
    }
    if ids.len() == 1 {
        assert(texts[0] == ids@[0]@);
        return match handle_of_text(jobs, &ids[0]) {
            Some(handle) => Response::json_for(handle.to_json(), context.cors()),
            None => Response::bare_for(404, context.cors()),
        };
    }
    let ghost mut hs: Seq<JobHandle> = Seq::empty();
    let mut joined = String::new();
    let mut any = false;
    let mut i: usize = 0;
    while i < ids.len()
        invariant
            jobs.wf(),
            i <= ids@.len(),
            texts == ids@.map_values(|v: String| v@),
            known_handles(jobs@, texts.subrange(0, i as int)) == hs,
            joined@ == joined_json(hs),
            any == (hs.len() > 0),
        decreases ids@.len() - i,
    {
        let ghost prefix = texts.subrange(0, i as int + 1);
        assert(prefix.drop_last() =~= texts.subrange(0, i as int));
        assert(prefix.last() == ids@[i as int]@);
        match handle_of_text(jobs, &ids[i]) {
            Some(handle) => {
                if any {
                    joined.append(",");
                }
                any = true;
                joined.append(handle.to_json().as_str());
                proof {
                    let next = hs.push(handle);
                    assert(next.drop_last() =~= hs);
                    hs = next;
                }
            },
            None => {},
        }
        i = i + 1;
    }
    assert(texts.subrange(0, i as int) =~= texts);
    let mut body = "[".to_owned();
    body.append(joined.as_str());
    body.append("]");
    Response::json_for(body, context.cors())
}

} // verus!
