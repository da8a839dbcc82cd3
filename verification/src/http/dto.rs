//! Request and response bodies of the HTTP API, and the shaping of stored
//! alert data into response fields.

use vstd::prelude::*;

use crate::raw_config::Config;
use crate::text::{split_on_spaces, split_spaces, strings_view};

verus! {

/// Request body for creating a new alert.
#[derive(Clone, Debug)]
pub struct CreateAlertRequest {
    pub identifier: String,
    pub sender: String,
    /// RFC 3339 timestamp, e.g. "2002-05-24T16:49:00-00:00".
    pub sent: String,
    pub status: String,
    pub msg_type: String,
    pub source: Option<String>,
    pub scope: String,
    /// Each reference must be in the form `sender,identifier,sent`.
    pub references: Vec<String>,
}

/// Request body for replacing an existing alert; the identifier comes from
/// the URL path.
#[derive(Clone, Debug)]
pub struct UpdateAlertRequest {
    pub sender: String,
    /// RFC 3339 timestamp, e.g. "2002-05-24T16:49:00-00:00".
    pub sent: String,
    pub status: String,
    pub msg_type: String,
    pub source: Option<String>,
    pub scope: String,
    /// Each reference must be in the form `sender,identifier,sent`.
    pub references: Vec<String>,
}

/// Request body for partially updating an existing alert. The outer `None`
/// leaves a field untouched; `Some(None)` is an explicit `null`, which clears
/// `source` or `references` and is refused for the required fields.
#[derive(Clone, Debug)]
pub struct PatchAlertRequest {
    pub sender: Option<Option<String>>,
    /// RFC 3339 timestamp, e.g. "2002-05-24T16:49:00-00:00".
    pub sent: Option<Option<String>>,
    pub status: Option<Option<String>>,
    pub msg_type: Option<Option<String>>,
    pub source: Option<Option<String>>,
    pub scope: Option<Option<String>>,
    pub references: Option<Option<Vec<String>>>,
}

/// A single alert as the API returns it.
#[derive(Clone, Debug)]
pub struct AlertSchema {
    pub identifier: String,
    pub sender: String,
    pub sent: String,
    pub status: String,
    pub msg_type: String,
    pub source: Option<String>,
    pub scope: String,
    pub references: Vec<String>,
}

/// A page of alerts.
#[derive(Clone, Debug)]
pub struct AlertsListResponse {
    pub total: u64,
    pub count: u64,
    pub limit: u64,
    pub offset: u64,
    pub alerts: Vec<AlertSchema>,
}

/// The raw configuration dump returned by `/conf/raw`.
#[derive(Clone, Debug)]
pub struct RawConfResponse {
    pub raw_conf: Config,
}

/// The body of a metadata request.
#[derive(Clone, Debug)]
pub struct GetMetaHttpRequestBody {
    pub name: String,
    pub email_address: String,
}

/// The data of a successful metadata response.
#[derive(Clone, Debug)]
pub struct GetMetaResponseData {
    pub id: String,
}

/// A JSON request body; a malformed body is refused with
/// `ApiErrorResponse::from_body_rejection`.
pub struct JsonBody<T>(pub T);

/// The references of an alert as the API lists them: the stored
/// space-separated text split at each space, or none when nothing is stored.
pub open spec fn references_of(db: Option<Seq<char>>) -> Seq<Seq<char>> {
    match db {
        Some(s) => split_spaces(s),
        None => Seq::<Seq<char>>::empty(),
    }
}

/// Splits the stored references of an alert into the list the API returns.
pub fn references_from_db_string(db: Option<&str>) -> (r: Vec<String>)
    ensures
        strings_view(r@) == references_of(
            match db {
                Some(s) => Some(s@),
                None => None,
            },
        ),
{
    match db {
        Some(s) => split_on_spaces(s),
        None => {
            let r: Vec<String> = Vec::new();
            assert(strings_view(r@) =~= Seq::<Seq<char>>::empty());
            r
        },
    }
}

} // verus!
