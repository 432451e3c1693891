//! The response transform: raw repository records, as the upstream API
//! returns them, become an ordered sequence of secret-scanning summaries.

use vstd::prelude::*;

verus! {

/// The `secret_scanning` object of a raw record.
#[derive(Clone, Debug)]
pub struct SecretScanning {
    pub status: Option<String>,
}

/// The `security_and_analysis` object of a raw record.
#[derive(Clone, Debug)]
pub struct SecurityAnalysis {
    pub secret_scanning: Option<SecretScanning>,
}

/// One repository record as the upstream API returns it; every field may be
/// absent.
#[derive(Clone, Debug)]
pub struct RawRepo {
    pub name: Option<String>,
    pub security_and_analysis: Option<SecurityAnalysis>,
}

/// What is kept of one repository: its name and its secret-scanning status.
#[derive(Clone, Debug)]
pub struct RepoSummary {
    pub name: String,
    pub security_status: String,
}

/// Why a batch of records was rejected; the index is that of the first bad
/// record.
#[derive(Clone, Copy, Debug, PartialEq, Eq, Structural)]
pub enum ValidationError {
    /// The record has no `name`.
    MissingName(usize),
    /// The record's `name` is the empty string.
    EmptyName(usize),
}

/// The status reported for a record whose status path is incomplete.
pub open spec fn not_applicable() -> Seq<char> {
    seq!['N', '/', 'A']
}

/// The record's `security_and_analysis.secret_scanning.status`, or the
/// sentinel where any link of that path is absent.
pub open spec fn status_of(r: RawRepo) -> Seq<char> {
    match r.security_and_analysis {
        Some(sa) => match sa.secret_scanning {
            Some(ss) => match ss.status {
                Some(st) => st@,
                None => not_applicable(),
            },
            None => not_applicable(),
        },
        None => not_applicable(),
    }
}

/// A record can be summarised: it has a non-empty name.
pub open spec fn record_valid(r: RawRepo) -> bool {
    r.name is Some && r.name->0@.len() > 0
}

/// The error that an invalid record gives at index `i`.
pub open spec fn record_error(r: RawRepo, i: usize) -> ValidationError {
    if r.name is Some {
        ValidationError::EmptyName(i)
    } else {
        ValidationError::MissingName(i)
    }
}

/// `s` summarises `r`.
pub open spec fn summarises(s: RepoSummary, r: RawRepo) -> bool {
    &&& r.name is Some
    &&& s.name@ == r.name->0@
    &&& s.security_status@ == status_of(r)
}

/// Secret-scanning status of one record, with the sentinel `"N/A"` where the
/// path to it is incomplete.
pub fn security_status(r: &RawRepo) -> (s: String)
    ensures
        s@ == status_of(*r),
{
    proof {
        reveal_strlit("N/A");
    }
    match &r.security_and_analysis {
        Some(sa) => match &sa.secret_scanning {
            Some(ss) => match &ss.status {
                Some(st) => st.clone(),
                None => String::from_str("N/A"),
            },
            None => String::from_str("N/A"),
        },
        None => String::from_str("N/A"),
    }
}

/// Summarises one record, or says why it cannot be.
pub fn summarize_record(r: &RawRepo, index: usize) -> (res: Result<RepoSummary, ValidationError>)
    ensures
        record_valid(*r) ==> res is Ok && summarises(res->Ok_0, *r),
        !record_valid(*r) ==> res == Err::<RepoSummary, ValidationError>(record_error(*r, index)),
{
    match &r.name {
        None => Err(ValidationError::MissingName(index)),
        Some(name) => {
            if name.as_str().unicode_len() == 0 {
                Err(ValidationError::EmptyName(index))
            } else {
                Ok(RepoSummary { name: name.clone(), security_status: security_status(r) })
            }
        },
    }
}

/// Summarises a whole batch, in order. The batch fails as a whole, at its
/// first invalid record, if any record lacks a non-empty name.
pub fn summarize(records: &Vec<RawRepo>) -> (res: Result<Vec<RepoSummary>, ValidationError>)
    ensures
        res is Ok <==> forall|i: int| 0 <= i < records@.len() ==> record_valid(#[trigger] records@[i]),
        res is Ok ==> res->Ok_0@.len() == records@.len() && forall|i: int|
            0 <= i < records@.len() ==> summarises(#[trigger] res->Ok_0@[i], records@[i]),
        res is Err ==> exists|k: int|
            0 <= k < records@.len() && !record_valid(#[trigger] records@[k]) && (forall|j: int|
                0 <= j < k ==> record_valid(#[trigger] records@[j])) && res->Err_0 == record_error(
                records@[k],
                k as usize,
            ),
{
    let mut out: Vec<RepoSummary> = Vec::new();
    let mut i: usize = 0;
    while i < records.len()
        invariant
            i <= records@.len(),
            out@.len() == i,
            forall|j: int| 0 <= j < i ==> record_valid(#[trigger] records@[j]),
            forall|j: int| 0 <= j < i ==> summarises(#[trigger] out@[j], records@[j]),
        decreases records@.len() - i,
    {
        match summarize_record(&records[i], i) {
            Ok(s) => out.push(s),
            Err(e) => {
                assert(!record_valid(records@[i as int]));
                return Err(e);
            },
        }
        i = i + 1;
    }
    Ok(out)
}

} // verus!
