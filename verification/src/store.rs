//! The store adapter's decisions: the table name, the classification of write
//! failures, and the decoding of scanned rows into archive items.
//!
//! The store itself is an external service; issuing the write and the scan is
//! the caller's part. Everything decided here — which diagnostic each failure
//! class gets, which opaque message reaches the caller, and when a scanned
//! table decodes — is verified.

use vstd::prelude::*;
use vstd::string::StringExecFns;

use crate::item::{from_fields, opt_view, spec_decode, ArchiveItem, ArchiveItemView};
use crate::responses::FailureResponse;

verus! {

/// The fixed name of the backing table.
pub fn table_name() -> (r: &'static str)
    ensures
        r@ == "LibraryOfAlexandria"@,
{
    "LibraryOfAlexandria"
}

/// Whether an environment toggle's value selects the local development
/// endpoint: exactly when it is the text `true`.
pub fn localstack_selected(toggle: &String) -> (r: bool)
    ensures
        r == (toggle@ == "true"@),
{
    *toggle == "true".to_owned()
}

/// The internal classification of a failed write: diagnostics only, never
/// surfaced to the caller.
#[derive(Debug, Clone, Copy, PartialEq, Eq, Structural)]
pub enum StoreErrorKind {
    /// The table does not exist.
    ResourceNotFound,
    /// The store endpoint is misconfigured.
    InvalidEndpoint,
    /// A transient backend fault.
    InternalServerError,
    /// A failure the store reported but did not classify.
    Unhandled,
    /// Anything else.
    Other,
}

/// The diagnostic prefix logged for each failure class.
pub open spec fn diagnostic_prefix(kind: StoreErrorKind) -> Seq<char> {
    match kind {
        StoreErrorKind::ResourceNotFound => "Resource not found - "@,
        StoreErrorKind::InvalidEndpoint => "Invalid endpoint - "@,
        StoreErrorKind::InternalServerError => "Internal server error - "@,
        StoreErrorKind::Unhandled => "Unhandled error - "@,
        StoreErrorKind::Other => "Unhandled  by lambda"@,
    }
}

/// The diagnostic text for a failed write: the class's prefix followed by the
/// store's own account, except for the unclassified case, which carries none.
pub fn put_error_diagnostic(kind: &StoreErrorKind, detail: &str) -> (r: String)
    ensures
        *kind is Other ==> r@ == diagnostic_prefix(*kind),
        !(*kind is Other) ==> r@ == diagnostic_prefix(*kind) + detail@,
{
    match kind {
        StoreErrorKind::ResourceNotFound => "Resource not found - ".to_owned().concat(detail),
        StoreErrorKind::InvalidEndpoint => "Invalid endpoint - ".to_owned().concat(detail),
        StoreErrorKind::InternalServerError => "Internal server error - ".to_owned().concat(
            detail,
        ),
        StoreErrorKind::Unhandled => "Unhandled error - ".to_owned().concat(detail),
        StoreErrorKind::Other => "Unhandled  by lambda".to_owned(),
    }
}

/// The opaque failure returned for any failed write, whatever its internal
/// diagnostic: no classification reaches the caller.
pub fn log_dynamodb_error(dynamodb_error: String) -> (r: FailureResponse)
    ensures
        r.body@ == "The lambda encountered an error and your message was not saved"@,
{
    let _ = dynamodb_error;
    FailureResponse {
        body: "The lambda encountered an error and your message was not saved".to_owned(),
    }
}

/// The opaque failure returned when the item could not be converted to the
/// store's attribute representation.
pub fn item_conversion_failure() -> (r: FailureResponse)
    ensures
        r.body@ == "The lambda encountered an error and could not parse item"@,
{
    FailureResponse {
        body: "The lambda encountered an error and could not parse item".to_owned(),
    }
}

/// The opaque failure returned when the scan itself failed.
pub fn scan_failure() -> (r: FailureResponse)
    ensures
        r.body@ == "The lambda encountered an error and could not retrieve table contents"@,
{
    FailureResponse {
        body: "The lambda encountered an error and could not retrieve table contents".to_owned(),
    }
}

/// The three wire fields of one scanned row, each absent when the row lacks
/// the attribute or holds it with a non-string value.
#[derive(Debug)]
pub struct RowFields {
    pub category: Option<String>,
    pub url: Option<String>,
    pub title: Option<String>,
}

/// The mathematical value of a scanned row.
pub struct RowFieldsView {
    pub category: Option<Seq<char>>,
    pub url: Option<Seq<char>>,
    pub title: Option<Seq<char>>,
}

impl View for RowFields {
    type V = RowFieldsView;

    open spec fn view(&self) -> RowFieldsView {
        RowFieldsView {
            category: opt_view(self.category),
            url: opt_view(self.url),
            title: opt_view(self.title),
        }
    }
}

/// What decoding one scanned row yields.
pub open spec fn row_decode(r: RowFieldsView) -> Result<ArchiveItemView, crate::item::DecodeError> {
    spec_decode(r.category, r.url, r.title)
}

/// A row holding exactly a record's wire fields decodes back to that record.
/// A written item therefore comes back from any scan whose rows all decode:
/// by [`decode_rows`]'s contract, the decoded list holds it at the row's
/// position.
pub proof fn lemma_stored_row_decodes_back(row: RowFieldsView, v: ArchiveItemView)
    requires
        row.category == Some(crate::category::label(v.category)),
        row.url == Some(v.url),
        row.title == Some(v.title),
    ensures
        row_decode(row) == Ok::<_, crate::item::DecodeError>(v),
{
    crate::item::lemma_fields_round_trip(v);
}

fn clone_field(o: &Option<String>) -> (r: Option<String>)
    ensures
        opt_view(r) == opt_view(*o),
{
    match o {
        Option::Some(s) => Option::Some(s.clone()),
        Option::None => Option::None,
    }
}

/// Decodes every scanned row into an archive item. Succeeds exactly when
/// every row decodes — in particular, an empty table decodes to the empty
/// list, not an error — and fails whole on the first undecodable row, with
/// the opaque scan-parse message.
pub fn decode_rows(rows: &Vec<RowFields>) -> (r: Result<Vec<ArchiveItem>, FailureResponse>)
    ensures
        r is Ok <==> (forall|i: int| 0 <= i < rows@.len() ==> #[trigger] row_decode(rows@[i]@) is Ok),
        r is Ok ==> r->Ok_0@.len() == rows@.len(),
        r is Ok ==> (forall|i: int|
            0 <= i < rows@.len() ==> Ok::<_, crate::item::DecodeError>(
                #[trigger] r->Ok_0@[i]@,
            ) == row_decode(rows@[i]@)),
        rows@.len() == 0 ==> r is Ok && r->Ok_0@.len() == 0,
        r is Err ==> r->Err_0.body@
            == "The lambda encountered an error and could not parse table contents"@,
{
    let mut out: Vec<ArchiveItem> = Vec::new();
    let n = rows.len();
    let mut i: usize = 0;
    while i < n
        invariant
            i <= n,
            n == rows@.len(),
            out@.len() == i,
            forall|j: int| 0 <= j < i ==> #[trigger] row_decode(rows@[j]@) is Ok,
            forall|j: int|
                0 <= j < i ==> Ok::<_, crate::item::DecodeError>(#[trigger] out@[j]@) == row_decode(
                    rows@[j]@,
                ),
        decreases n - i,
    {
        let row = &rows[i];
        let decoded = from_fields(
            clone_field(&row.category),
            clone_field(&row.url),
            clone_field(&row.title),
        );
        match decoded {
            Result::Ok(item) => {
                out.push(item);
            },
            Result::Err(_) => {
                assert(row_decode(rows@[i as int]@) is Err);
                return Result::Err(
                    FailureResponse {
                        body: "The lambda encountered an error and could not parse table contents".to_owned(),
                    },
                );
            },
        }
        i = i + 1;
    }
    Result::Ok(out)
}

} // verus!
