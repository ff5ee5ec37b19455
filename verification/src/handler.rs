//! The request handler's pure half: building the response envelopes for each
//! of the two supported methods, and the body answered to any other method.
//!
//! The handler's outside half — reading the HTTP request, issuing the write
//! or the scan, and sending the answer — hands this module plain values:
//! the platform request id, the store's acknowledgement text, and the
//! decoded rows.

use vstd::prelude::*;
use vstd::string::StringExecFns;

use crate::encode::{encode_items, encode_success, items_json, success_json};
use crate::item::ArchiveItem;
use crate::responses::SuccessResponse;

verus! {

/// The text answered, with success status, to any method other than GET and
/// POST.
pub fn unsupported_method_body() -> (r: String)
    ensures
        r@ == "Unsupported method"@,
{
    "Unsupported method".to_owned()
}

/// The envelope answering a successful POST: the request id, and a body
/// describing the stored item by echoing the store's acknowledgement.
pub fn post_success_response(req_id: String, upload_ack: &str) -> (r: SuccessResponse)
    ensures
        r.req_id@ == req_id@,
        r.body@ == "Successfully uploaded to DynamoDB with result "@ + upload_ack@,
{
    SuccessResponse {
        req_id,
        body: "Successfully uploaded to DynamoDB with result ".to_owned().concat(upload_ack),
    }
}

/// The serialized envelope answering a successful POST.
pub fn post_success_body(req_id: String, upload_ack: &str) -> (r: String)
    ensures
        r@ == success_json(req_id@, "Successfully uploaded to DynamoDB with result "@ + upload_ack@),
{
    let resp = post_success_response(req_id, upload_ack);
    encode_success(&resp)
}

/// The envelope answering a GET: the request id, and as body the JSON array
/// of every stored item — always an array, possibly empty, never absent.
pub fn get_success_response(req_id: String, items: &Vec<ArchiveItem>) -> (r: SuccessResponse)
    ensures
        r.req_id@ == req_id@,
        r.body@ == items_json(items@),
        r.body@.len() >= 2,
        r.body@[0] == '[',
{
    let body = encode_items(items);
    SuccessResponse { req_id, body }
}

/// The serialized envelope answering a GET. The item list rides inside the
/// envelope as a JSON-encoded string, exactly as the wire format has it.
pub fn get_success_body(req_id: String, items: &Vec<ArchiveItem>) -> (r: String)
    ensures
        r@ == success_json(req_id@, items_json(items@)),
{
    let resp = get_success_response(req_id, items);
    encode_success(&resp)
}

} // verus!
