//! Pre-flight validation of vector-database requests and the errors of each
//! operation. A request goes out only after its operation's validation has
//! passed; the first violation, in a fixed order, is what is reported.

use crate::pinecone_data::{IdList, PineconeRequest, Vector};
use vstd::utf8::encode_utf8;
use vstd::prelude::*;

verus! {

/// The operations of the vector-database service.
#[derive(Debug, Clone, Copy, PartialEq, Eq, Structural)]
pub enum VectorOperation {
    Upsert,
    Query,
    Update,
    Fetch,
    Delete,
}

impl VectorOperation {
    /// The endpoint of the operation, relative to the index's base address.
    pub fn path(&self) -> (r: &'static str)
        ensures
            r@ == operation_path(*self),
    {
        match self {
            VectorOperation::Upsert => "vectors/upsert",
            VectorOperation::Query => "query",
            VectorOperation::Update => "vectors/update",
            VectorOperation::Fetch => "vectors/fetch",
            VectorOperation::Delete => "vectors/delete",
        }
    }
}

/// The endpoint of each operation.
pub open spec fn operation_path(op: VectorOperation) -> Seq<char> {
    match op {
        VectorOperation::Upsert => "vectors/upsert"@,
        VectorOperation::Query => "query"@,
        VectorOperation::Update => "vectors/update"@,
        VectorOperation::Fetch => "vectors/fetch"@,
        VectorOperation::Delete => "vectors/delete"@,
    }
}

/// The error of `op` when the service answers with a status that is not a
/// success; `status` is the status as text.
pub fn status_error(op: VectorOperation, status: &str) -> (e: PineconeApiError)
    ensures
        e.operation() == op,
        e.cause() == "Error status: "@ + status@,
{
    PineconeApiError::for_operation(op, String::from_str("Error status: ").concat(status))
}

/// The error of one operation: a validation message, or the text of a
/// transport or decoding failure.
#[derive(Debug, Clone)]
pub enum PineconeApiError {
    UpsertError(String),
    QueryError(String),
    UpdateError(String),
    FetchError(String),
    DeleteError(String),
}

impl PineconeApiError {
    /// The operation that failed.
    pub open spec fn operation(&self) -> VectorOperation {
        match self {
            PineconeApiError::UpsertError(_) => VectorOperation::Upsert,
            PineconeApiError::QueryError(_) => VectorOperation::Query,
            PineconeApiError::UpdateError(_) => VectorOperation::Update,
            PineconeApiError::FetchError(_) => VectorOperation::Fetch,
            PineconeApiError::DeleteError(_) => VectorOperation::Delete,
        }
    }

    /// The cause carried by the error.
    pub open spec fn cause(&self) -> Seq<char> {
        match self {
            PineconeApiError::UpsertError(m) => m@,
            PineconeApiError::QueryError(m) => m@,
            PineconeApiError::UpdateError(m) => m@,
            PineconeApiError::FetchError(m) => m@,
            PineconeApiError::DeleteError(m) => m@,
        }
    }

    /// The error of `op` carrying `cause`, as for a transport or decoding
    /// failure.
    pub fn for_operation(op: VectorOperation, cause: String) -> (e: PineconeApiError)
        ensures
            e.operation() == op,
            e.cause() == cause@,
    {
        match op {
            VectorOperation::Upsert => PineconeApiError::UpsertError(cause),
            VectorOperation::Query => PineconeApiError::QueryError(cause),
            VectorOperation::Update => PineconeApiError::UpdateError(cause),
            VectorOperation::Fetch => PineconeApiError::FetchError(cause),
            VectorOperation::Delete => PineconeApiError::DeleteError(cause),
        }
    }

    /// The human-readable text: the operation's name, a colon, the cause.
    pub fn message(&self) -> (r: String)
        ensures
            r@ == operation_label(self.operation()) + ": "@ + self.cause(),
    {
        let (label, cause) = match self {
            PineconeApiError::UpsertError(m) => ("UpsertError", m),
            PineconeApiError::QueryError(m) => ("QueryError", m),
            PineconeApiError::UpdateError(m) => ("UpdateError", m),
            PineconeApiError::FetchError(m) => ("FetchError", m),
            PineconeApiError::DeleteError(m) => ("DeleteError", m),
        };
        let r = String::from_str(label);
        let r = r.concat(": ");
        r.concat(cause.as_str())
    }
}

/// The name under which an operation's errors are reported.
pub open spec fn operation_label(op: VectorOperation) -> Seq<char> {
    match op {
        VectorOperation::Upsert => "UpsertError"@,
        VectorOperation::Query => "QueryError"@,
        VectorOperation::Update => "UpdateError"@,
        VectorOperation::Fetch => "FetchError"@,
        VectorOperation::Delete => "DeleteError"@,
    }
}

/// Length of a text in UTF-8 bytes.
pub open spec fn byte_len(s: Seq<char>) -> nat {
    encode_utf8(s).len()
}

/// Number of sparse positions of a vector; none given counts as zero.
pub open spec fn indices_len(v: Vector) -> nat {
    match v.indices {
        Some(ix) => ix@.len(),
        None => 0,
    }
}

/// `Ok` when `v` is `None`, else an error of `op` with cause `v`.
pub open spec fn verdict_holds(
    r: Result<(), PineconeApiError>,
    op: VectorOperation,
    v: Option<Seq<char>>,
) -> bool {
    match v {
        None => r is Ok,
        Some(m) => r is Err && r->Err_0.operation() == op && r->Err_0.cause() == m,
    }
}

/// The first reason an upsert request is refused, if any.
pub open spec fn upsert_violation(q: PineconeRequest) -> Option<Seq<char>> {
    match q.vectors {
        Some(vs) if vs@.len() > 0 => None,
        _ => Some("vectors cannot be empty"@),
    }
}

/// The first reason a query request is refused, if any.
pub open spec fn query_violation(q: PineconeRequest) -> Option<Seq<char>> {
    if q.vector is None {
        Some("vector cannot be empty"@)
    } else if q.top_k is None {
        Some("top_k cannot be empty"@)
    } else if q.top_k->0 < 1 {
        Some("top_k must be at least 1"@)
    } else if q.id is Some && byte_len(q.id->0@) > 512 {
        Some("id length must be 512 or less"@)
    } else if q.sparse_vector is Some && indices_len(q.sparse_vector->0) == 0 {
        Some("indices cannot be empty when providing a sparse_vector"@)
    } else if q.sparse_vector is Some && indices_len(q.sparse_vector->0)
        != q.sparse_vector->0.values@.len() {
        Some("indices and values must have the same length when providing a sparse_vector"@)
    } else {
        None
    }
}

/// The first reason an update request is refused, if any.
pub open spec fn update_violation(q: PineconeRequest) -> Option<Seq<char>> {
    let id_len = match q.id {
        Some(id) => byte_len(id@),
        None => 0,
    };
    if id_len <= 1 || id_len > 512 {
        Some("id is required and must have a length between 1 and 512"@)
    } else if q.sparse_values is None && q.set_metadata is None {
        Some(
            "You must provide something to update! Provide either a sparse_values or set_metadata field"@,
        )
    } else if q.sparse_values is Some && (q.sparse_values->0.values@.len() == 0 || indices_len(
        q.sparse_values->0,
    ) == 0 || q.sparse_values->0.values@.len() != indices_len(q.sparse_values->0)) {
        Some("sparse indices and values cannot be empty and must have the same length."@)
    } else {
        None
    }
}

/// The first reason a delete request is refused, if any.
pub open spec fn delete_violation(q: PineconeRequest) -> Option<Seq<char>> {
    match q.ids {
        None => if q.delete_all is None {
            Some("You must provide either delete_all or ids to delete"@)
        } else {
            None
        },
        Some(IdList::IntegerIds(_)) => Some("ids must be Strings"@),
        Some(IdList::TextIds(v)) => if v@.len() == 0 {
            Some("ids cannot be empty"@)
        } else {
            None
        },
    }
}

/// One `ids=<id>` query parameter per identifier, in order, the first after
/// `?` and the others after `&`.
pub open spec fn id_params(ids: Seq<Seq<char>>) -> Seq<char>
    decreases ids.len(),
{
    if ids.len() == 0 {
        Seq::empty()
    } else {
        id_params(ids.drop_last()) + (if ids.len() == 1 {
            "?"@
        } else {
            "&"@
        }) + "ids="@ + ids.last()
    }
}

/// The fetch address: the base, the fetch path, the identifiers, and the
/// namespace as a last parameter when one is given.
pub open spec fn fetch_url_of(base: Seq<char>, ids: Seq<Seq<char>>, ns: Option<Seq<char>>) -> Seq<
    char,
> {
    base + "vectors/fetch"@ + id_params(ids) + match ns {
        None => Seq::empty(),
        Some(n) => (if ids.len() == 0 {
            "?"@
        } else {
            "&"@
        }) + "namespace="@ + n,
    }
}

/// The texts of a list of strings.
pub open spec fn texts(v: Seq<String>) -> Seq<Seq<char>> {
    v.map_values(|s: String| s@)
}

/// The text of an optional string.
pub open spec fn opt_text(s: Option<String>) -> Option<Seq<char>> {
    match s {
        Some(t) => Some(t@),
        None => None,
    }
}

/// A query without `vector` is refused, whatever its other fields hold.
pub proof fn lemma_query_needs_vector(q: PineconeRequest)
    requires
        q.vector is None,
    ensures
        query_violation(q) == Some("vector cannot be empty"@),
{
}

/// A query with `vector` and a `top_k` below one is refused for its `top_k`.
pub proof fn lemma_query_top_k_at_least_one(q: PineconeRequest)
    requires
        q.vector is Some,
        q.top_k matches Some(k) && k < 1,
    ensures
        query_violation(q) == Some("top_k must be at least 1"@),
{
}

/// A query that passes every earlier check but whose sparse vector has a
/// different number of indices and values is refused for that mismatch.
pub proof fn lemma_query_sparse_lengths_differ(q: PineconeRequest)
    requires
        q.vector is Some,
        q.top_k matches Some(k) && k >= 1,
        q.id matches Some(id) ==> byte_len(id@) <= 512,
        q.sparse_vector matches Some(sv) && indices_len(sv) > 0 && indices_len(sv)
            != sv.values@.len(),
    ensures
        query_violation(q) == Some(
            "indices and values must have the same length when providing a sparse_vector"@,
        ),
{
}

/// An update whose `id` is absent or at most one byte long is refused,
/// whatever its other fields hold.
pub proof fn lemma_update_needs_id(q: PineconeRequest)
    requires
        q.id matches Some(id) ==> byte_len(id@) <= 1,
    ensures
        update_violation(q) == Some("id is required and must have a length between 1 and 512"@),
{
}

/// An update with a valid `id` but nothing to change is refused.
pub proof fn lemma_update_needs_change(q: PineconeRequest)
    requires
        q.id matches Some(id) && 1 < byte_len(id@) <= 512,
        q.sparse_values is None,
        q.set_metadata is None,
    ensures
        update_violation(q) == Some(
            "You must provide something to update! Provide either a sparse_values or set_metadata field"@,
        ),
{
}

/// A delete with neither `ids` nor `delete_all` is refused.
pub proof fn lemma_delete_needs_target(q: PineconeRequest)
    requires
        q.ids is None,
        q.delete_all is None,
    ensures
        delete_violation(q) == Some("You must provide either delete_all or ids to delete"@),
{
}

/// A delete with numeric identifiers is refused, whatever else it holds.
pub proof fn lemma_delete_needs_text_ids(q: PineconeRequest, ids: Vec<i64>)
    requires
        q.ids == Some(IdList::IntegerIds(ids)),
    ensures
        delete_violation(q) == Some("ids must be Strings"@),
{
}

fn id_byte_len(id: &String) -> (n: usize)
    ensures
        n == byte_len(id@),
{
    id.as_str().as_bytes().len()
}

fn opt_indices_len(v: &Vector) -> (n: usize)
    ensures
        n == indices_len(*v),
{
    match &v.indices {
        Some(ix) => ix.len(),
        None => 0,
    }
}

impl PineconeRequest {
    /// An upsert needs a non-empty `vectors`.
    pub fn validate_upsert_request(&self) -> (r: Result<(), PineconeApiError>)
        ensures
            verdict_holds(r, VectorOperation::Upsert, upsert_violation(*self)),
    {
        let empty = match &self.vectors {
            Some(vs) => vs.len() == 0,
            None => true,
        };
        if empty {
            return Err(PineconeApiError::UpsertError(String::from_str("vectors cannot be empty")));
        }
        Ok(())
    }

    /// A query needs `vector` and `top_k >= 1`; an `id` of at most 512 bytes;
    /// and a `sparse_vector`, if given, with as many indices as values, at
    /// least one.
    pub fn validate_query_request(&self) -> (r: Result<(), PineconeApiError>)
        ensures
            verdict_holds(r, VectorOperation::Query, query_violation(*self)),
    {
        if self.vector.is_none() {
            return Err(PineconeApiError::QueryError(String::from_str("vector cannot be empty")));
        }
        match self.top_k {
            None => {
                return Err(PineconeApiError::QueryError(String::from_str("top_k cannot be empty")));
            },
            Some(k) => {
                if k < 1 {
                    return Err(
                        PineconeApiError::QueryError(String::from_str("top_k must be at least 1")),
                    );
                }
            },
        }
        if let Some(id) = &self.id {
            if id_byte_len(id) > 512 {
                return Err(
                    PineconeApiError::QueryError(String::from_str("id length must be 512 or less")),
                );
            }
        }
        if let Some(sparse) = &self.sparse_vector {
            let n_indices = opt_indices_len(sparse);
            if n_indices == 0 {
                return Err(
                    PineconeApiError::QueryError(
                        String::from_str("indices cannot be empty when providing a sparse_vector"),
                    ),
                );
            } else if n_indices != sparse.values.len() {
                return Err(
                    PineconeApiError::QueryError(
                        String::from_str(
                            "indices and values must have the same length when providing a sparse_vector",
                        ),
                    ),
                );
            }
        }
        Ok(())
    }

    /// An update needs an `id` of 2 to 512 bytes, something to change
    /// (`sparse_values` or `set_metadata`), and `sparse_values`, if given,
    /// with as many indices as values, at least one.
    pub fn validate_update_request(&self) -> (r: Result<(), PineconeApiError>)
        ensures
            verdict_holds(r, VectorOperation::Update, update_violation(*self)),
    {
        let id_len: usize = match &self.id {
            Some(id) => id_byte_len(id),
            None => 0,
        };
        if id_len <= 1 || id_len > 512 {
            return Err(
                PineconeApiError::UpdateError(
                    String::from_str("id is required and must have a length between 1 and 512"),
                ),
            );
        }
        if self.sparse_values.is_none() && self.set_metadata.is_none() {
            return Err(
                PineconeApiError::UpdateError(
                    String::from_str(
                        "You must provide something to update! Provide either a sparse_values or set_metadata field",
                    ),
                ),
            );
        }
        if let Some(sparse) = &self.sparse_values {
            let n_indices = opt_indices_len(sparse);
            let n_values = sparse.values.len();
            if n_values == 0 || n_indices == 0 || n_values != n_indices {
                return Err(
                    PineconeApiError::UpdateError(
                        String::from_str(
                            "sparse indices and values cannot be empty and must have the same length.",
                        ),
                    ),
                );
            }
        }
        Ok(())
    }

    /// A fetch needs `ids` as text identifiers; the result is the address
    /// that carries them, under `base_url`.
    pub fn fetch_url(&self, base_url: &str) -> (r: Result<String, PineconeApiError>)
        ensures
            match self.ids {
                Some(IdList::TextIds(v)) => r is Ok && r->Ok_0@ == fetch_url_of(
                    base_url@,
                    texts(v@),
                    opt_text(self.namespace),
                ),
                _ => r is Err && r->Err_0.operation() == VectorOperation::Fetch
                    && r->Err_0.cause() == "ids cannot be empty"@,
            },
    {
        let ids = match &self.ids {
            Some(IdList::TextIds(v)) => v,
            _ => {
                return Err(PineconeApiError::FetchError(String::from_str("ids cannot be empty")));
            },
        };
        let ghost all = texts(ids@);
        let mut url = String::from_str(base_url);
        url.append("vectors/fetch");
        let mut i: usize = 0;
        while i < ids.len()
            invariant
                i <= ids@.len(),
                all == texts(ids@),
                url@ == base_url@ + "vectors/fetch"@ + id_params(all.subrange(0, i as int)),
            decreases ids@.len() - i,
        {
            let ghost before = url@;
            if i == 0 {
                url.append("?");
            } else {
                url.append("&");
            }
            url.append("ids=");
            url.append(ids[i].as_str());
            proof {
                let next = all.subrange(0, i + 1);
                assert(next.drop_last() =~= all.subrange(0, i as int));
                assert(next.last() == ids@[i as int]@);
                assert(url@ =~= base_url@ + "vectors/fetch"@ + id_params(next));
            }
            i = i + 1;
        }
        assert(all.subrange(0, ids@.len() as int) =~= all);
        if let Some(ns) = &self.namespace {
            if ids.len() == 0 {
                url.append("?");
            } else {
                url.append("&");
            }
            url.append("namespace=");
            url.append(ns.as_str());
        }
        assert(url@ =~= fetch_url_of(base_url@, all, opt_text(self.namespace)));
        Ok(url)
    }

    /// A delete needs `delete_all` or `ids`; `ids`, if given, must be a
    /// non-empty list of text identifiers.
    pub fn validate_delete_request(&self) -> (r: Result<(), PineconeApiError>)
        ensures
            verdict_holds(r, VectorOperation::Delete, delete_violation(*self)),
    {
        match &self.ids {
            None => {
                if self.delete_all.is_none() {
                    return Err(
                        PineconeApiError::DeleteError(
                            String::from_str("You must provide either delete_all or ids to delete"),
                        ),
                    );
                }
            },
            Some(IdList::IntegerIds(_)) => {
                return Err(PineconeApiError::DeleteError(String::from_str("ids must be Strings")));
            },
            Some(IdList::TextIds(v)) => {
                if v.len() == 0 {
                    return Err(
                        PineconeApiError::DeleteError(String::from_str("ids cannot be empty")),
                    );
                }
            },
        }
        Ok(())
    }
}

} // verus!
