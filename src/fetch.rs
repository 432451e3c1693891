//! One attempt of the fetch: where the request goes, how it authenticates,
//! and how its response is judged.

use crate::retry::{Action, Event, Outcome, Phase, Retry, Transient};
use crate::summary::{RawRepo, RepoSummary, ValidationError, record_valid, record_error, summarises, summarize};
use vstd::prelude::*;

verus! {

/// Which repository listing is fetched.
#[derive(Clone, Copy, Debug, PartialEq, Eq, Structural)]
pub enum Scope {
    /// All repositories of an enterprise.
    Enterprise,
    /// All repositories of an organisation.
    Organization,
}

/// The listing endpoint for an owner of the given scope.
pub open spec fn endpoint_of(scope: Scope, owner: Seq<char>) -> Seq<char> {
    match scope {
        Scope::Enterprise => "https://api.github.com/enterprises/"@ + owner + "/repos"@,
        Scope::Organization => "https://api.github.com/orgs/"@ + owner + "/repos"@,
    }
}

/// The URL that lists the repositories of `owner`.
pub fn endpoint(scope: Scope, owner: &str) -> (url: String)
    ensures
        url@ == endpoint_of(scope, owner@),
{
    let base = match scope {
        Scope::Enterprise => String::from_str("https://api.github.com/enterprises/"),
        Scope::Organization => String::from_str("https://api.github.com/orgs/"),
    };
    base.concat(owner).concat("/repos")
}

/// The `Authorization` header value for a bearer token.
pub fn bearer(token: &str) -> (value: String)
    ensures
        value@ == "Bearer "@ + token@,
{
    String::from_str("Bearer ").concat(token)
}

/// An HTTP status counts as success exactly when it is in the 2xx range.
pub fn is_success_status(code: u16) -> (b: bool)
    ensures
        b == (200 <= code && code < 300),
{
    200 <= code && code < 300
}

/// Why one attempt did not yield summaries.
#[derive(Clone, Copy, Debug, PartialEq, Eq, Structural)]
pub enum AttemptError {
    /// The response had a non-2xx status.
    Status(u16),
    /// The body was not a list of repository records.
    Unparsable,
    /// A record was malformed; the whole batch is refused.
    Invalid(ValidationError),
}

/// `r` is the judgement of a response with the given status and parsed body
/// (`None` where the body could not be parsed): a non-2xx status, then an
/// unparsable body, is reported as such; otherwise the batch is summarised
/// whole, or refused at its first malformed record.
pub open spec fn judged(status: u16, records: Option<Seq<RawRepo>>, r: Result<Vec<RepoSummary>, AttemptError>) -> bool {
    if !(200 <= status < 300) {
        r == Err::<Vec<RepoSummary>, AttemptError>(AttemptError::Status(status))
    } else if records is None {
        r == Err::<Vec<RepoSummary>, AttemptError>(AttemptError::Unparsable)
    } else {
        let rs = records->Some_0;
        &&& r is Ok <==> forall|i: int| 0 <= i < rs.len() ==> record_valid(#[trigger] rs[i])
        &&& r is Ok ==> r->Ok_0@.len() == rs.len() && forall|i: int|
            0 <= i < rs.len() ==> summarises(#[trigger] r->Ok_0@[i], rs[i])
        &&& r is Err ==> exists|k: int|
            0 <= k < rs.len() && !record_valid(#[trigger] rs[k]) && (forall|j: int|
                0 <= j < k ==> record_valid(#[trigger] rs[j])) && r->Err_0 == AttemptError::Invalid(
                record_error(rs[k], k as usize),
            )
    }
}

/// Judges one response: its status, and its body as parsed records (`None`
/// where the body could not be parsed).
pub fn handle_response(status: u16, records: Option<Vec<RawRepo>>) -> (r: Result<
    Vec<RepoSummary>,
    AttemptError,
>)
    ensures
        judged(
            status,
            match records {
                Some(v) => Some(v@),
                None => None,
            },
            r,
        ),
{
    if !is_success_status(status) {
        return Err(AttemptError::Status(status));
    }
    match records {
        None => Err(AttemptError::Unparsable),
        Some(rs) => match summarize(&rs) {
            Ok(v) => Ok(v),
            Err(e) => Err(AttemptError::Invalid(e)),
        },
    }
}

/// The event that an attempt's result reports to the retry machine: a bad
/// status or body is worth retrying, a malformed record is not.
pub open spec fn event_of(r: Result<Vec<RepoSummary>, AttemptError>) -> Event {
    match r {
        Ok(_) => Event::Succeeded,
        Err(AttemptError::Status(c)) => Event::Failed(Transient::Status(c)),
        Err(AttemptError::Unparsable) => Event::Failed(Transient::Unparsable),
        Err(AttemptError::Invalid(v)) => Event::Aborted(v),
    }
}

/// The event that an attempt's result reports to the retry machine.
pub fn event_for(r: &Result<Vec<RepoSummary>, AttemptError>) -> (e: Event)
    ensures
        e == event_of(*r),
{
    match r {
        Ok(_) => Event::Succeeded,
        Err(AttemptError::Status(c)) => Event::Failed(Transient::Status(*c)),
        Err(AttemptError::Unparsable) => Event::Failed(Transient::Unparsable),
        Err(AttemptError::Invalid(v)) => Event::Aborted(*v),
    }
}

/// A 2xx response whose batch holds a record without a name is refused with
/// the validation error of the batch's first malformed record; reported to
/// the retry machine, that error ends the operation at once, with no further
/// attempt, and no summary is handed out.
pub proof fn lemma_nameless_record_aborts(
    s: Retry,
    status: u16,
    rs: Seq<RawRepo>,
    k: int,
    r: Result<Vec<RepoSummary>, AttemptError>,
)
    requires
        s.wf(),
        s.phase is AwaitOperation,
        200 <= status < 300,
        0 <= k < rs.len(),
        rs[k].name is None,
        judged(status, Some(rs), r),
    ensures
        r is Err,
        r->Err_0 is Invalid,
        event_of(r) == Event::Aborted(r->Err_0->Invalid_0),
        s.next(event_of(r)) == (
            Retry { phase: Phase::Finished(Outcome::Aborted(r->Err_0->Invalid_0)), ..s },
            Action::Finish(Outcome::Aborted(r->Err_0->Invalid_0)),
        ),
{
    assert(!record_valid(rs[k]));
}

} // verus!
