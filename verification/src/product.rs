//! The Product entity, its field-selection builder, and its document
//! compiler.

use vstd::prelude::*;
use vstd::string::*;
use crate::common::{Edges, Id};
use crate::error::{ShopifyGqlError, ShopifyResult};
use crate::render::{
    add_token,
    escape_str,
    escape_str_spec,
    join_spec,
    join_strs,
    lemma_add_token_distinct,
    push_token,
    some_or_empty,
    str_views,
    string_views,
    tokens_distinct,
    u32_to_string,
};
use crate::product_variant::{
    connection_arg_spec,
    variants_token_spec,
    ProductVariant,
    ProductVariantQueryBuilder,
    ProductVariantQueryType,
};
use crate::common::ProductsConnection;

verus! {

/// The publication status of a product.
#[derive(Clone, Copy, Debug, PartialEq, Eq, Structural)]
#[allow(non_camel_case_types)]
pub enum ProductStatus {
    /// Ready to sell and publishable to sales channels and apps.
    ACTIVE,
    /// No longer sold and unavailable to customers.
    ARCHIVED,
    /// Not yet ready to sell.
    DRAFT,
}

impl ProductStatus {
    /// The bare tag under which this status travels on the wire.
    pub open spec fn tag_spec(&self) -> Seq<char> {
        match self {
            ProductStatus::ACTIVE => "ACTIVE"@,
            ProductStatus::ARCHIVED => "ARCHIVED"@,
            ProductStatus::DRAFT => "DRAFT"@,
        }
    }

    pub fn tag(&self) -> (r: &'static str)
        ensures
            r@ == self.tag_spec(),
    {
        match self {
            ProductStatus::ACTIVE => "ACTIVE",
            ProductStatus::ARCHIVED => "ARCHIVED",
            ProductStatus::DRAFT => "DRAFT",
        }
    }

    /// Decode a status tag; an unrecognized tag fails rather than
    /// defaulting.
    pub fn parse(tag: &str) -> (r: ShopifyResult<ProductStatus>)
        ensures
            r matches Ok(s) ==> s.tag_spec() == tag@,
            r is Err <==> (tag@ != "ACTIVE"@ && tag@ != "ARCHIVED"@ && tag@ != "DRAFT"@),
            r matches Err(e) ==> e matches ShopifyGqlError::InvalidScalar(raw) && raw@ == tag@,
    {
        if crate::common::str_eq(tag, "ACTIVE") {
            Ok(ProductStatus::ACTIVE)
        } else if crate::common::str_eq(tag, "ARCHIVED") {
            Ok(ProductStatus::ARCHIVED)
        } else if crate::common::str_eq(tag, "DRAFT") {
            Ok(ProductStatus::DRAFT)
        } else {
            Err(ShopifyGqlError::InvalidScalar(String::from_str(tag)))
        }
    }
}

/// The finished, typed Product entity. A field is `None` exactly when it was
/// never selected or the remote returned it as absent: "not fetched" is
/// observable, and distinct from any real value.
#[derive(Debug)]
pub struct Product {
    id: Id,
    title: Option<String>,
    status: Option<ProductStatus>,
    vendor: Option<String>,
    variants: Option<Edges<ProductVariant>>,
}

impl Product {
    pub closed spec fn id_spec(&self) -> Seq<char> {
        self.id@
    }

    pub closed spec fn title_spec(&self) -> Option<Seq<char>> {
        match self.title {
            Option::Some(ref t) => Option::Some(t@),
            Option::None => Option::None,
        }
    }

    pub closed spec fn status_spec(&self) -> Option<ProductStatus> {
        self.status
    }

    pub closed spec fn vendor_spec(&self) -> Option<Seq<char>> {
        match self.vendor {
            Option::Some(ref v) => Option::Some(v@),
            Option::None => Option::None,
        }
    }

    pub closed spec fn variants_spec(&self) -> Option<Seq<ProductVariant>> {
        match self.variants {
            Option::Some(ref e) => Option::Some(e.nodes_spec()),
            Option::None => Option::None,
        }
    }

    /// Assemble an entity from already-decoded parts.
    pub fn assemble(
        id: Id,
        title: Option<String>,
        status: Option<ProductStatus>,
        vendor: Option<String>,
        variants: Option<Edges<ProductVariant>>,
    ) -> (r: Product)
        ensures
            r.id_spec() == id@,
            r.title_spec() == (match title {
                Option::Some(t) => Option::Some(t@),
                Option::None => Option::<Seq<char>>::None,
            }),
            r.status_spec() == status,
            r.vendor_spec() == (match vendor {
                Option::Some(v) => Option::Some(v@),
                Option::None => Option::<Seq<char>>::None,
            }),
            r.variants_spec() == (match variants {
                Option::Some(e) => Option::Some(e.nodes_spec()),
                Option::None => Option::<Seq<ProductVariant>>::None,
            }),
    {
        Product { id, title, status, vendor, variants }
    }

    pub fn id(&self) -> (r: &Id)
        ensures
            r@ == self.id_spec(),
    {
        &self.id
    }

    pub fn status(&self) -> (r: Option<&ProductStatus>)
        ensures
            r matches Some(s) ==> self.status_spec() == Some(*s),
            r is None <==> self.status_spec() is None,
    {
        self.status.as_ref()
    }

    pub fn vendor(&self) -> (r: Option<&String>)
        ensures
            r matches Some(v) ==> self.vendor_spec() == Some(v@),
            r is None <==> self.vendor_spec() is None,
    {
        self.vendor.as_ref()
    }

    pub fn title(&self) -> (r: Option<&String>)
        ensures
            r matches Some(t) ==> self.title_spec() == Some(t@),
            r is None <==> self.title_spec() is None,
    {
        self.title.as_ref()
    }

    pub fn variants(&self) -> (r: Option<&Edges<ProductVariant>>)
        ensures
            r matches Some(e) ==> self.variants_spec() == Some(e.nodes_spec()),
            r is None <==> self.variants_spec() is None,
    {
        self.variants.as_ref()
    }
}

/// All possible queries and mutations on a Product.
#[derive(Debug)]
pub enum ProductQueryType {
    Product,
    ProductUpdate(Id),
}

/// An in-progress Product request: the fields selected so far, the input
/// assignments of an update, and the operation kind.
#[derive(Debug)]
pub struct ProductQueryBuilder {
    id: Id,
    fields: Vec<String>,
    inputs: Option<Vec<String>>,
    query_type: ProductQueryType,
    has_variants_sub: bool,
}

impl ProductQueryBuilder {
    /// The canonical string of the identifier this request addresses.
    pub closed spec fn id_view(&self) -> Seq<char> {
        self.id@
    }

    /// The selected field tokens, in first-insertion order.
    pub closed spec fn fields_view(&self) -> Seq<Seq<char>> {
        string_views(self.fields@)
    }

    /// The input assignments, present exactly on update builders.
    pub closed spec fn inputs_view(&self) -> Option<Seq<Seq<char>>> {
        match self.inputs {
            Option::Some(ref v) => Option::Some(string_views(v@)),
            Option::None => Option::None,
        }
    }

    pub closed spec fn is_update(&self) -> bool {
        self.query_type is ProductUpdate
    }

    /// The operation name this builder was created for.
    pub closed spec fn op_name_spec(&self) -> Seq<char> {
        if self.query_type is ProductUpdate {
            "productUpdate"@
        } else {
            "product"@
        }
    }

    /// Whether this selection embeds a variant sub-selection.
    pub closed spec fn embeds_variants(&self) -> bool {
        self.has_variants_sub
    }

    /// Structural validity: tokens are duplicate-free and the input
    /// assignment set exists exactly on update builders.
    pub open spec fn wf(&self) -> bool {
        &&& tokens_distinct(self.fields_view())
        &&& self.is_update() <==> self.inputs_view() is Some
        &&& match self.inputs_view() {
            Option::Some(iv) => tokens_distinct(iv),
            Option::None => true,
        }
    }

    /// Everything a field selector leaves untouched.
    pub open spec fn same_core(&self, other: &Self) -> bool {
        &&& self.id_view() == other.id_view()
        &&& self.inputs_view() == other.inputs_view()
        &&& self.is_update() == other.is_update()
        &&& self.embeds_variants() == other.embeds_variants()
    }

    /// Read one product by identifier; the `id` field is always selected.
    pub fn product(id: Id) -> (r: Self)
        ensures
            r.wf(),
            !r.is_update(),
            !r.embeds_variants(),
            r.id_view() == id@,
            r.fields_view() =~= seq!["id"@],
            r.inputs_view() is None,
    {
        let fields = vec![String::from_str("id")];
        let r = ProductQueryBuilder {
            id,
            fields,
            inputs: None,
            query_type: ProductQueryType::Product,
            has_variants_sub: false,
        };
        proof {
            assert(r.fields_view() =~= seq!["id"@]);
        }
        r
    }

    /// Update one product: opens the input assignment set, seeded with the
    /// identifier as the first assignment. Only this builder accepts the
    /// `update_*` calls.
    pub fn product_update(id: Id) -> (r: Self)
        ensures
            r.wf(),
            r.is_update(),
            !r.embeds_variants(),
            r.id_view() == id@,
            r.fields_view() =~= seq!["id"@],
            r.inputs_view() matches Some(iv) && iv =~= seq!["id: \""@ + id@ + "\""@],
    {
        let fields = vec![String::from_str("id")];
        let first_input = String::from_str("id: \"").concat(id.inner().as_str()).concat("\"");
        let inputs = vec![first_input];
        let query_type = ProductQueryType::ProductUpdate(id.clone());
        let r = ProductQueryBuilder {
            id,
            fields,
            inputs: Some(inputs),
            query_type,
            has_variants_sub: false,
        };
        proof {
            assert(r.fields_view() =~= seq!["id"@]);
            assert(r.inputs_view() matches Some(iv) && iv =~= seq!["id: \""@ + r.id@ + "\""@]);
        }
        r
    }

    /// Add one scalar field token; selecting a field twice is the same as
    /// selecting it once.
    fn with_field(self, name: &'static str) -> (r: Self)
        requires
            self.wf(),
        ensures
            r.wf(),
            r.fields_view() == add_token(self.fields_view(), name@),
            self.same_core(&r),
    {
        let mut s = self;
        proof {
            lemma_add_token_distinct(s.fields_view(), name@);
        }
        push_token(&mut s.fields, String::from_str(name));
        s
    }

    /// Add one input assignment; fails with `BuilderMisuse` on any builder
    /// that carries no input assignment set.
    fn with_input(self, call: &'static str, token: String) -> (r: ShopifyResult<Self>)
        requires
            self.wf(),
        ensures
            r is Ok <==> self.is_update(),
            r matches Ok(b) ==> {
                &&& b.wf()
                &&& b.fields_view() == self.fields_view()
                &&& b.id_view() == self.id_view()
                &&& b.is_update()
                &&& b.embeds_variants() == self.embeds_variants()
                &&& b.inputs_view() matches Some(iv) && iv == add_token(
                    some_or_empty(self.inputs_view()),
                    token@,
                )
            },
            r matches Err(e) ==> e matches ShopifyGqlError::BuilderMisuse {
                operation,
                attempted_call,
            } && operation@ == self.op_name_spec() && attempted_call@ == call@,
    {
        let op = self.op_name();
        let mut s = self;
        match &mut s.inputs {
            Some(v) => {
                proof {
                    lemma_add_token_distinct(string_views(v@), token@);
                }
                push_token(v, token);
                Ok(s)
            },
            None => Err(
                ShopifyGqlError::BuilderMisuse {
                    operation: String::from_str(op),
                    attempted_call: String::from_str(call),
                },
            ),
        }
    }

    pub fn status(self) -> (r: Self)
        requires
            self.wf(),
        ensures
            r.wf(),
            r.fields_view() == add_token(self.fields_view(), "status"@),
            self.same_core(&r),
    {
        self.with_field("status")
    }

    pub fn update_status(self, status: ProductStatus) -> (r: ShopifyResult<Self>)
        requires
            self.wf(),
        ensures
            r is Ok <==> self.is_update(),
            r matches Ok(b) ==> {
                &&& b.wf()
                &&& b.fields_view() == self.fields_view()
                &&& b.inputs_view() matches Some(iv) && iv == add_token(
                    some_or_empty(self.inputs_view()),
                    "status: "@ + status.tag_spec(),
                )
                &&& b.id_view() == self.id_view()
                &&& b.is_update()
                &&& b.embeds_variants() == self.embeds_variants()
            },
            r matches Err(e) ==> e matches ShopifyGqlError::BuilderMisuse {
                operation,
                attempted_call,
            } && operation@ == self.op_name_spec() && attempted_call@ == "update_status"@,
    {
        let token = String::from_str("status: ").concat(status.tag());
        self.with_input("update_status", token)
    }

    pub fn vendor(self) -> (r: Self)
        requires
            self.wf(),
        ensures
            r.wf(),
            r.fields_view() == add_token(self.fields_view(), "vendor"@),
            self.same_core(&r),
    {
        self.with_field("vendor")
    }

    pub fn update_vendor(self, vendor: &str) -> (r: ShopifyResult<Self>)
        requires
            self.wf(),
        ensures
            r is Ok <==> self.is_update(),
            r matches Ok(b) ==> {
                &&& b.wf()
                &&& b.fields_view() == self.fields_view()
                &&& b.inputs_view() matches Some(iv) && iv == add_token(
                    some_or_empty(self.inputs_view()),
                    "vendor: \""@ + escape_str_spec(vendor@) + "\""@,
                )
                &&& b.id_view() == self.id_view()
                &&& b.is_update()
                &&& b.embeds_variants() == self.embeds_variants()
            },
            r matches Err(e) ==> e matches ShopifyGqlError::BuilderMisuse {
                operation,
                attempted_call,
            } && operation@ == self.op_name_spec() && attempted_call@ == "update_vendor"@,
    {
        let token = String::from_str("vendor: \"").concat(escape_str(vendor).as_str()).concat(
            "\"",
        );
        self.with_input("update_vendor", token)
    }

    pub fn title(self) -> (r: Self)
        requires
            self.wf(),
        ensures
            r.wf(),
            r.fields_view() == add_token(self.fields_view(), "title"@),
            self.same_core(&r),
    {
        self.with_field("title")
    }

    pub fn update_title(self, title: &str) -> (r: ShopifyResult<Self>)
        requires
            self.wf(),
        ensures
            r is Ok <==> self.is_update(),
            r matches Ok(b) ==> {
                &&& b.wf()
                &&& b.fields_view() == self.fields_view()
                &&& b.inputs_view() matches Some(iv) && iv == add_token(
                    some_or_empty(self.inputs_view()),
                    "title: \""@ + escape_str_spec(title@) + "\""@,
                )
                &&& b.id_view() == self.id_view()
                &&& b.is_update()
                &&& b.embeds_variants() == self.embeds_variants()
            },
            r matches Err(e) ==> e matches ShopifyGqlError::BuilderMisuse {
                operation,
                attempted_call,
            } && operation@ == self.op_name_spec() && attempted_call@ == "update_title"@,
    {
        let token = String::from_str("title: \"").concat(escape_str(title).as_str()).concat("\"");
        self.with_input("update_title", token)
    }

    /// Embed a variant sub-selection as one composite token. The
    /// sub-selection must be a bounded-list read selection, and must not
    /// itself embed a Product sub-selection: a selection that selects back
    /// into the entity kind embedding it is rejected as a cycle, which makes
    /// mutual Product/variant embedding impossible at any depth.
    pub fn variants(self, variants_query: ProductVariantQueryBuilder) -> (r: ShopifyResult<Self>)
        requires
            self.wf(),
        ensures
            r is Ok <==> (variants_query.is_connection() && !variants_query.embeds_product()),
            r matches Ok(b) ==> {
                &&& b.wf()
                &&& b.fields_view() == add_token(
                    self.fields_view(),
                    variants_token_spec(variants_query.conn_spec(), variants_query.fields_view()),
                )
                &&& b.embeds_variants()
                &&& b.id_view() == self.id_view()
                &&& b.inputs_view() == self.inputs_view()
                &&& b.is_update() == self.is_update()
            },
            !variants_query.is_connection() ==> (r matches Err(e) && e matches
                ShopifyGqlError::BuilderMisuse { operation, attempted_call } && operation@
                == variants_query.op_name_spec() && attempted_call@ == "variants"@),
            variants_query.is_connection() && variants_query.embeds_product() ==> (r matches Err(
                e,
            ) && e matches ShopifyGqlError::CycleRejected(k) && k@ == "Product"@),
    {
        let sub_op = variants_query.op_name();
        let conn = match variants_query.query_type() {
            ProductVariantQueryType::ProductVariants(conn) => *conn,
            _ => {
                return Err(
                    ShopifyGqlError::BuilderMisuse {
                        operation: String::from_str(sub_op),
                        attempted_call: String::from_str("variants"),
                    },
                );
            },
        };
        if variants_query.has_product_sub() {
            return Err(ShopifyGqlError::CycleRejected(String::from_str("Product")));
        }
        let arg = match conn {
            ProductsConnection::First(n) => String::from_str("first: ").concat(
                u32_to_string(n).as_str(),
            ),
            ProductsConnection::Last(n) => String::from_str("last: ").concat(
                u32_to_string(n).as_str(),
            ),
        };
        let sub_fields = variants_query.fields();
        let joined = join_strs(&sub_fields, ",");
        let token = String::from_str("variants(").concat(arg.as_str()).concat(
            ") { edges { node { ",
        ).concat(joined.as_str()).concat(" } } }");
        let mut s = self;
        proof {
            lemma_add_token_distinct(s.fields_view(), token@);
        }
        push_token(&mut s.fields, token);
        s.has_variants_sub = true;
        Ok(s)
    }

    /// Whether the update calls are valid on this builder.
    pub fn is_update_query(&self) -> (r: bool)
        ensures
            r == self.is_update(),
    {
        match self.query_type {
            ProductQueryType::ProductUpdate(_) => true,
            ProductQueryType::Product => false,
        }
    }

    /// The operation name this builder was created for.
    pub fn op_name(&self) -> (r: &'static str)
        ensures
            r@ == self.op_name_spec(),
    {
        match self.query_type {
            ProductQueryType::ProductUpdate(_) => "productUpdate",
            ProductQueryType::Product => "product",
        }
    }

    /// Whether this selection embeds a variant sub-selection.
    pub fn has_variants_sub(&self) -> (r: bool)
        ensures
            r == self.embeds_variants(),
    {
        self.has_variants_sub
    }

    /// The selected field tokens, in first-insertion order.
    pub fn fields(&self) -> (r: Vec<&str>)
        ensures
            str_views(r@) == self.fields_view(),
    {
        let mut out: Vec<&str> = Vec::new();
        let mut i: usize = 0;
        while i < self.fields.len()
            invariant
                0 <= i <= self.fields@.len(),
                out@.len() == i,
                forall|j: int| 0 <= j < i ==> #[trigger] out@[j]@ == self.fields@[j]@,
            decreases self.fields@.len() - i,
        {
            out.push(self.fields[i].as_str());
            i += 1;
        }
        proof {
            assert(str_views(out@) =~= self.fields_view());
        }
        out
    }

    /// The input assignments, in insertion order, present exactly on update
    /// builders.
    pub fn inputs(&self) -> (r: Option<Vec<&str>>)
        ensures
            r is Some <==> self.inputs_view() is Some,
            r matches Some(v) ==> self.inputs_view() matches Some(iv) && str_views(v@) == iv,
    {
        match &self.inputs {
            None => None,
            Some(ins) => {
                let mut out: Vec<&str> = Vec::new();
                let mut i: usize = 0;
                while i < ins.len()
                    invariant
                        0 <= i <= ins@.len(),
                        out@.len() == i,
                        forall|j: int| 0 <= j < i ==> #[trigger] out@[j]@ == ins@[j]@,
                    decreases ins@.len() - i,
                {
                    out.push(ins[i].as_str());
                    i += 1;
                }
                proof {
                    assert(str_views(out@) =~= string_views(ins@));
                }
                Some(out)
            },
        }
    }

    /// The document this builder compiles to.
    pub open spec fn doc_spec(&self) -> Seq<char> {
        if self.is_update() {
            "mutation { productUpdate(input: { "@ + join_spec(
                some_or_empty(self.inputs_view()),
                ", "@,
            ) + " }) { product { "@ + join_spec(self.fields_view(), ","@) + " } } }"@
        } else {
            "query { product(id: \""@ + self.id_view() + "\") { "@ + join_spec(
                self.fields_view(),
                ","@,
            ) + " } }"@
        }
    }

    /// Compile the accumulated selection into its document. Deterministic:
    /// the document is a function of the builder's state alone, and field
    /// order is first-insertion order.
    pub fn compile(&self) -> (r: String)
        requires
            self.wf(),
        ensures
            r@ == self.doc_spec(),
    {
        let fields = self.fields();
        let joined_fields = join_strs(&fields, ",");
        match &self.query_type {
            ProductQueryType::Product => {
                String::from_str("query { product(id: \"").concat(self.id.inner().as_str()).concat(
                    "\") { ",
                ).concat(joined_fields.as_str()).concat(" } }")
            },
            ProductQueryType::ProductUpdate(_) => {
                let ins = match self.inputs() {
                    Some(v) => v,
                    None => Vec::new(),
                };
                let joined_inputs = join_strs(&ins, ", ");
                String::from_str("mutation { productUpdate(input: { ").concat(
                    joined_inputs.as_str(),
                ).concat(" }) { product { ").concat(joined_fields.as_str()).concat(" } } }")
            },
        }
    }
}

/// Determinism of compilation: the document is a function of the builder's
/// accumulated state alone, so the same selector-call sequence always
/// compiles to the same text, and field order is first-insertion order by
/// `doc_spec`'s construction.
pub proof fn lemma_compile_deterministic(a: &ProductQueryBuilder, b: &ProductQueryBuilder)
    requires
        a.id_view() == b.id_view(),
        a.fields_view() == b.fields_view(),
        a.inputs_view() == b.inputs_view(),
        a.is_update() == b.is_update(),
    ensures
        a.doc_spec() == b.doc_spec(),
{
}

/// Idempotence of field selection: a builder that selected some token twice
/// compiles to the very document of one that selected it once, since the
/// second addition finds the token present and changes nothing.
pub proof fn lemma_selector_idempotent_document(
    a: &ProductQueryBuilder,
    b: &ProductQueryBuilder,
    fields: Seq<Seq<char>>,
    t: Seq<char>,
)
    requires
        a.fields_view() == add_token(add_token(fields, t), t),
        b.fields_view() == add_token(fields, t),
        a.id_view() == b.id_view(),
        a.inputs_view() == b.inputs_view(),
        a.is_update() == b.is_update(),
    ensures
        a.doc_spec() == b.doc_spec(),
{
    crate::render::lemma_add_token_idempotent(fields, t);
}

} // verus!
