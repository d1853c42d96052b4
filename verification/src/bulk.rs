//! Bulk operations: the entity a bulk-operation-start reply carries, and
//! the builder that wraps a mutation document into a bulk run request.
//! Long-running job polling is outside the core; only starting a run and
//! decoding its reply shape belong here.

use vstd::prelude::*;
use vstd::string::*;
use crate::common::Id;
use crate::error::{ShopifyGqlError, ShopifyResult};
use crate::render::{escape_str, escape_str_spec};

verus! {

/// The lifecycle states a bulk operation reports.
#[derive(Clone, Copy, Debug, PartialEq, Eq, Structural)]
#[allow(non_camel_case_types)]
pub enum BulkOperationStatus {
    CANCELED,
    CANCELING,
    COMPLETED,
    CREATED,
    EXPIRED,
    FAILED,
    RUNNING,
}

impl BulkOperationStatus {
    /// The bare tag under which this status travels on the wire.
    pub open spec fn tag_spec(&self) -> Seq<char> {
        match self {
            BulkOperationStatus::CANCELED => "CANCELED"@,
            BulkOperationStatus::CANCELING => "CANCELING"@,
            BulkOperationStatus::COMPLETED => "COMPLETED"@,
            BulkOperationStatus::CREATED => "CREATED"@,
            BulkOperationStatus::EXPIRED => "EXPIRED"@,
            BulkOperationStatus::FAILED => "FAILED"@,
            BulkOperationStatus::RUNNING => "RUNNING"@,
        }
    }

    pub fn tag(&self) -> (r: &'static str)
        ensures
            r@ == self.tag_spec(),
    {
        match self {
            BulkOperationStatus::CANCELED => "CANCELED",
            BulkOperationStatus::CANCELING => "CANCELING",
            BulkOperationStatus::COMPLETED => "COMPLETED",
            BulkOperationStatus::CREATED => "CREATED",
            BulkOperationStatus::EXPIRED => "EXPIRED",
            BulkOperationStatus::FAILED => "FAILED",
            BulkOperationStatus::RUNNING => "RUNNING",
        }
    }

    /// Whether a tag names one of the seven states.
    pub open spec fn tag_known(tag: Seq<char>) -> bool {
        ||| tag == "CANCELED"@
        ||| tag == "CANCELING"@
        ||| tag == "COMPLETED"@
        ||| tag == "CREATED"@
        ||| tag == "EXPIRED"@
        ||| tag == "FAILED"@
        ||| tag == "RUNNING"@
    }

    /// Decode a status tag; an unrecognized tag fails rather than
    /// defaulting.
    pub fn parse(tag: &str) -> (r: ShopifyResult<BulkOperationStatus>)
        ensures
            r matches Ok(s) ==> s.tag_spec() == tag@,
            r is Err <==> !BulkOperationStatus::tag_known(tag@),
            r matches Err(e) ==> e matches ShopifyGqlError::InvalidScalar(raw) && raw@ == tag@,
    {
        if crate::common::str_eq(tag, "CANCELED") {
            Ok(BulkOperationStatus::CANCELED)
        } else if crate::common::str_eq(tag, "CANCELING") {
            Ok(BulkOperationStatus::CANCELING)
        } else if crate::common::str_eq(tag, "COMPLETED") {
            Ok(BulkOperationStatus::COMPLETED)
        } else if crate::common::str_eq(tag, "CREATED") {
            Ok(BulkOperationStatus::CREATED)
        } else if crate::common::str_eq(tag, "EXPIRED") {
            Ok(BulkOperationStatus::EXPIRED)
        } else if crate::common::str_eq(tag, "FAILED") {
            Ok(BulkOperationStatus::FAILED)
        } else if crate::common::str_eq(tag, "RUNNING") {
            Ok(BulkOperationStatus::RUNNING)
        } else {
            Err(ShopifyGqlError::InvalidScalar(String::from_str(tag)))
        }
    }
}

/// A started bulk operation, as a bulk-operation-start reply reports it.
#[derive(Debug)]
pub struct BulkOperation {
    id: Id,
    status: BulkOperationStatus,
    url: Option<String>,
}

impl BulkOperation {
    pub closed spec fn id_spec(&self) -> Seq<char> {
        self.id@
    }

    pub closed spec fn status_spec(&self) -> BulkOperationStatus {
        self.status
    }

    pub closed spec fn url_spec(&self) -> Option<Seq<char>> {
        match self.url {
            Option::Some(ref u) => Option::Some(u@),
            Option::None => Option::None,
        }
    }

    /// Assemble an entity from already-decoded parts.
    pub fn assemble(id: Id, status: BulkOperationStatus, url: Option<String>) -> (r:
        BulkOperation)
        ensures
            r.id_spec() == id@,
            r.status_spec() == status,
            r.url_spec() == (match url {
                Option::Some(u) => Option::Some(u@),
                Option::None => Option::<Seq<char>>::None,
            }),
    {
        BulkOperation { id, status, url }
    }

    pub fn id(&self) -> (r: &Id)
        ensures
            r@ == self.id_spec(),
    {
        &self.id
    }

    pub fn status(&self) -> (r: &BulkOperationStatus)
        ensures
            *r == self.status_spec(),
    {
        &self.status
    }

    pub fn url(&self) -> (r: Option<&String>)
        ensures
            r matches Some(u) ==> self.url_spec() == Some(u@),
            r is None <==> self.url_spec() is None,
    {
        self.url.as_ref()
    }
}

/// Which kind of document a bulk run wraps.
#[derive(Clone, Copy, Debug, PartialEq, Eq, Structural)]
pub enum BulkRunKind {
    Query,
    Mutation,
}

/// The document a bulk run request compiles to: the wrapped document is
/// inlined as an escaped string literal under the argument its kind calls
/// for.
pub open spec fn bulk_doc_spec(kind: BulkRunKind, document: Seq<char>) -> Seq<char> {
    match kind {
        BulkRunKind::Query => "mutation { bulkOperationRunQuery(query: \""@ + escape_str_spec(
            document,
        ) + "\") { bulkOperation { id status url } } }"@,
        BulkRunKind::Mutation => "mutation { bulkOperationRunMutation(mutation: \""@
            + escape_str_spec(document) + "\") { bulkOperation { id status url } } }"@,
    }
}

/// Wraps one already-compiled document into a request that starts a bulk
/// run of it.
#[derive(Debug)]
pub struct BulkOperationBuilder {
    document: String,
    kind: BulkRunKind,
}

impl BulkOperationBuilder {
    /// The wrapped document.
    pub closed spec fn document_view(&self) -> Seq<char> {
        self.document@
    }

    /// Whether this run wraps a query or a mutation.
    pub closed spec fn kind_spec(&self) -> BulkRunKind {
        self.kind
    }

    /// Start from the query document that the bulk run shall execute.
    pub fn query(document: String) -> (r: Self)
        ensures
            r.document_view() == document@,
            r.kind_spec() == BulkRunKind::Query,
    {
        BulkOperationBuilder { document, kind: BulkRunKind::Query }
    }

    /// Start from the mutation document that the bulk run shall execute.
    pub fn mutation(document: String) -> (r: Self)
        ensures
            r.document_view() == document@,
            r.kind_spec() == BulkRunKind::Mutation,
    {
        BulkOperationBuilder { document, kind: BulkRunKind::Mutation }
    }

    /// Compile the bulk run request document.
    pub fn build(&self) -> (r: String)
        ensures
            r@ == bulk_doc_spec(self.kind_spec(), self.document_view()),
    {
        let escaped = escape_str(self.document.as_str());
        match self.kind {
            BulkRunKind::Query => String::from_str("mutation { bulkOperationRunQuery(query: \"")
                .concat(escaped.as_str()).concat("\") { bulkOperation { id status url } } }"),
            BulkRunKind::Mutation => String::from_str(
                "mutation { bulkOperationRunMutation(mutation: \"",
            ).concat(escaped.as_str()).concat("\") { bulkOperation { id status url } } }"),
        }
    }
}

} // verus!
