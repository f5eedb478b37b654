use vstd::prelude::*;
use vstd::string::StringExecFns;

pub mod create;
pub mod delete;
pub mod list;
pub mod view;

verus! {

/// The collection-level path every record operation starts from.
pub open spec fn records_path(c: Seq<char>) -> Seq<char> {
    "collections/"@ + c + "/records"@
}

/// The path of one record within a collection.
pub open spec fn record_path(c: Seq<char>, id: Seq<char>) -> Seq<char> {
    records_path(c) + "/"@ + id
}

/// Build `collections/{collection}/records`.
pub fn build_records_path(collection: &str) -> (r: String)
    ensures
        r@ == records_path(collection@),
{
    let mut p = "collections/".to_owned();
    p.append(collection);
    p.append("/records");
    p
}

/// Build `collections/{collection}/records/{id}`.
pub fn build_record_path(collection: &str, id: &str) -> (r: String)
    ensures
        r@ == record_path(collection@, id@),
{
    let mut p = build_records_path(collection);
    p.append("/");
    p.append(id);
    p
}

} // verus!
