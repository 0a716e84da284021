//! Setup scripts as they are taken from and reported to their authors.

use vstd::prelude::*;
use vstd::string::*;
use crate::error::{APIError, APIErrorView, ErrorKind, failure};

verus! {

/// What an author sends to create or replace a script.
#[derive(Clone, Debug, PartialEq, Eq)]
pub struct CreateSetupScriptRequest {
    pub title: String,
    pub description: Option<String>,
    pub script: String,
}

/// `CreateSetupScriptRequest` as sequences of characters.
pub struct CreateSetupScriptRequestView {
    pub title: Seq<char>,
    pub description: Option<Seq<char>>,
    pub script: Seq<char>,
}

impl DeepView for CreateSetupScriptRequest {
    type V = CreateSetupScriptRequestView;

    open spec fn deep_view(&self) -> CreateSetupScriptRequestView {
        CreateSetupScriptRequestView {
            title: self.title@,
            description: self.description.deep_view(),
            script: self.script@,
        }
    }
}

/// A script as it is reported.
#[derive(Clone, Debug, PartialEq, Eq)]
pub struct GetSetupScriptResponse {
    pub id: i32,
    pub title: String,
    pub description: Option<String>,
    pub script: String,
    pub author_id: i32,
}

/// `GetSetupScriptResponse` as sequences of characters.
pub struct GetSetupScriptResponseView {
    pub id: i32,
    pub title: Seq<char>,
    pub description: Option<Seq<char>>,
    pub script: Seq<char>,
    pub author_id: i32,
}

impl DeepView for GetSetupScriptResponse {
    type V = GetSetupScriptResponseView;

    open spec fn deep_view(&self) -> GetSetupScriptResponseView {
        GetSetupScriptResponseView {
            id: self.id,
            title: self.title@,
            description: self.description.deep_view(),
            script: self.script@,
            author_id: self.author_id,
        }
    }
}

/// The report of the script with an id, from what is stored of it: title,
/// description, body and author.
pub open spec fn script_report(
    id: i32,
    stored: (Seq<char>, Option<Seq<char>>, Seq<char>, i32),
) -> GetSetupScriptResponseView {
    GetSetupScriptResponseView {
        id,
        title: stored.0,
        description: stored.1,
        script: stored.2,
        author_id: stored.3,
    }
}

/// What a lookup of one script is answered with: its report, or an internal
/// failure where there is no script with that id.
pub open spec fn script_lookup(
    id: i32,
    stored: Option<(Seq<char>, Option<Seq<char>>, Seq<char>, i32)>,
) -> Result<GetSetupScriptResponseView, APIErrorView> {
    match stored {
        Some(row) => Ok(script_report(id, row)),
        None => Err(failure(ErrorKind::Internal, "Script not found"@)),
    }
}

/// The reports of stored scripts, in order. Each row holds id, title,
/// description, body and author.
pub open spec fn script_reports(
    rows: Seq<(i32, Seq<char>, Option<Seq<char>>, Seq<char>, i32)>,
) -> Seq<GetSetupScriptResponseView> {
    Seq::new(
        rows.len(),
        |i: int| script_report(rows[i].0, (rows[i].1, rows[i].2, rows[i].3, rows[i].4)),
    )
}

/// Answers a lookup of one script.
pub fn get_script_by_id(
    script_id: i32,
    stored: Option<(String, Option<String>, String, i32)>,
) -> (r: Result<GetSetupScriptResponse, APIError>)
    ensures
        match r {
            Ok(report) => script_lookup(script_id, stored.deep_view()) == Ok::<
                GetSetupScriptResponseView,
                APIErrorView,
            >(report.deep_view()),
            Err(e) => script_lookup(script_id, stored.deep_view()) == Err::<
                GetSetupScriptResponseView,
                APIErrorView,
            >(e.deep_view()),
        },
{
    match stored {
        Some((title, description, script, author_id)) => Ok(
            GetSetupScriptResponse { id: script_id, title, description, script, author_id },
        ),
        None => Err(APIError::internal_server_error("Script not found")),
    }
}

/// Reports all stored scripts, in order.
pub fn get_all_setup_scripts(rows: Vec<(i32, String, Option<String>, String, i32)>) -> (r: Vec<
    GetSetupScriptResponse,
>)
    ensures
        r.deep_view() == script_reports(rows.deep_view()),
{
    let ghost all = rows.deep_view();
    let ghost stored = rows@;
    let mut reports: Vec<GetSetupScriptResponse> = Vec::new();
    for row in it: rows
        invariant
            it.seq() == stored,
            all == stored.map_values(
                |r: (i32, String, Option<String>, String, i32)| r.deep_view(),
            ),
            reports@.len() == it.index(),
            forall|j: int|
                0 <= j < reports@.len() ==> (#[trigger] reports@[j]).deep_view() == script_reports(
                    all,
                )[j],
    {
        let (id, title, description, script, author_id) = row;
        reports.push(GetSetupScriptResponse { id, title, description, script, author_id });
    }
    proof {
        assert(reports.deep_view() =~= script_reports(all));
    }
    reports
}

} // verus!
