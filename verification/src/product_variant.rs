//! The ProductVariant field-selection builder and its document compiler.

use vstd::prelude::*;
use vstd::string::*;
use crate::common::{
    is_decimal_str,
    check_decimal,
    Id,
    Money,
    ProductsConnection,
    WeightUnit,
};
use crate::error::{ShopifyGqlError, ShopifyResult};
use crate::render::{
    add_token,
    dec_str,
    escape_str,
    escape_str_spec,
    join_spec,
    join_strs,
    lemma_add_token_distinct,
    push_token,
    some_or_empty,
    str_views,
    string_views,
    tokens_distinct,
    u32_to_string,
};
use crate::product::{Product, ProductQueryBuilder};

verus! {

/// The finished, typed ProductVariant entity. A field is `None` exactly when
/// it was never selected or the remote returned it as absent: "not fetched"
/// is observable, and distinct from any real value.
#[derive(Debug)]
pub struct ProductVariant {
    id: Id,
    compare_at_price: Option<Money>,
    inventory_quantity: Option<i32>,
    price: Option<Money>,
    product: Option<Product>,
    sku: Option<String>,
    title: Option<String>,
    weight: Option<String>,
    weight_unit: Option<WeightUnit>,
}

impl ProductVariant {
    pub closed spec fn id_spec(&self) -> Seq<char> {
        self.id@
    }

    pub closed spec fn compare_at_price_spec(&self) -> Option<Seq<char>> {
        match self.compare_at_price {
            Option::Some(ref m) => Option::Some(m@),
            Option::None => Option::None,
        }
    }

    pub closed spec fn inventory_quantity_spec(&self) -> Option<i32> {
        self.inventory_quantity
    }

    pub closed spec fn price_spec(&self) -> Option<Seq<char>> {
        match self.price {
            Option::Some(ref m) => Option::Some(m@),
            Option::None => Option::None,
        }
    }

    pub closed spec fn product_spec(&self) -> Option<Product> {
        self.product
    }

    pub closed spec fn sku_spec(&self) -> Option<Seq<char>> {
        match self.sku {
            Option::Some(ref s) => Option::Some(s@),
            Option::None => Option::None,
        }
    }

    pub closed spec fn title_spec(&self) -> Option<Seq<char>> {
        match self.title {
            Option::Some(ref t) => Option::Some(t@),
            Option::None => Option::None,
        }
    }

    /// The weight, as the decimal wire string it arrived in.
    pub closed spec fn weight_spec(&self) -> Option<Seq<char>> {
        match self.weight {
            Option::Some(ref w) => Option::Some(w@),
            Option::None => Option::None,
        }
    }

    pub closed spec fn weight_unit_spec(&self) -> Option<WeightUnit> {
        self.weight_unit
    }

    /// Assemble an entity from already-decoded parts.
    pub fn assemble(
        id: Id,
        compare_at_price: Option<Money>,
        inventory_quantity: Option<i32>,
        price: Option<Money>,
        product: Option<Product>,
        sku: Option<String>,
        title: Option<String>,
        weight: Option<String>,
        weight_unit: Option<WeightUnit>,
    ) -> (r: ProductVariant)
        ensures
            r.id_spec() == id@,
            r.compare_at_price_spec() == (match compare_at_price {
                Option::Some(m) => Option::Some(m@),
                Option::None => Option::<Seq<char>>::None,
            }),
            r.inventory_quantity_spec() == inventory_quantity,
            r.price_spec() == (match price {
                Option::Some(m) => Option::Some(m@),
                Option::None => Option::<Seq<char>>::None,
            }),
            r.product_spec() == product,
            r.sku_spec() == (match sku {
                Option::Some(s) => Option::Some(s@),
                Option::None => Option::<Seq<char>>::None,
            }),
            r.title_spec() == (match title {
                Option::Some(t) => Option::Some(t@),
                Option::None => Option::<Seq<char>>::None,
            }),
            r.weight_spec() == (match weight {
                Option::Some(w) => Option::Some(w@),
                Option::None => Option::<Seq<char>>::None,
            }),
            r.weight_unit_spec() == weight_unit,
    {
        ProductVariant {
            id,
            compare_at_price,
            inventory_quantity,
            price,
            product,
            sku,
            title,
            weight,
            weight_unit,
        }
    }

    pub fn id(&self) -> (r: &Id)
        ensures
            r@ == self.id_spec(),
    {
        &self.id
    }

    pub fn compare_at_price(&self) -> (r: Option<&Money>)
        ensures
            r matches Some(m) ==> self.compare_at_price_spec() == Some(m@),
            r is None <==> self.compare_at_price_spec() is None,
    {
        self.compare_at_price.as_ref()
    }

    pub fn inventory_quantity(&self) -> (r: Option<i32>)
        ensures
            r == self.inventory_quantity_spec(),
    {
        self.inventory_quantity
    }

    pub fn price(&self) -> (r: Option<&Money>)
        ensures
            r matches Some(m) ==> self.price_spec() == Some(m@),
            r is None <==> self.price_spec() is None,
    {
        self.price.as_ref()
    }

    pub fn product(&self) -> (r: Option<&Product>)
        ensures
            r matches Some(p) ==> self.product_spec() == Some(*p),
            r is None <==> self.product_spec() is None,
    {
        self.product.as_ref()
    }

    pub fn sku(&self) -> (r: Option<&String>)
        ensures
            r matches Some(s) ==> self.sku_spec() == Some(s@),
            r is None <==> self.sku_spec() is None,
    {
        self.sku.as_ref()
    }

    pub fn title(&self) -> (r: Option<&String>)
        ensures
            r matches Some(t) ==> self.title_spec() == Some(t@),
            r is None <==> self.title_spec() is None,
    {
        self.title.as_ref()
    }

    /// The weight, as the decimal wire string it arrived in.
    pub fn weight(&self) -> (r: Option<&String>)
        ensures
            r matches Some(w) ==> self.weight_spec() == Some(w@),
            r is None <==> self.weight_spec() is None,
    {
        self.weight.as_ref()
    }

    pub fn weight_unit(&self) -> (r: Option<&WeightUnit>)
        ensures
            r matches Some(u) ==> self.weight_unit_spec() == Some(*u),
            r is None <==> self.weight_unit_spec() is None,
    {
        self.weight_unit.as_ref()
    }
}

/// All possible queries and mutations on a ProductVariant.
#[derive(Debug)]
pub enum ProductVariantQueryType {
    ProductVariant,
    ProductVariants(ProductsConnection),
    ProductVariantUpdate(Id),
}

/// The argument rendered into a bounded-list operation header.
pub open spec fn connection_arg_spec(c: ProductsConnection) -> Seq<char> {
    match c {
        ProductsConnection::First(n) => "first: "@ + dec_str(n as nat),
        ProductsConnection::Last(n) => "last: "@ + dec_str(n as nat),
    }
}

/// The composite token a Product selection holds when it embeds a variant
/// sub-selection.
pub open spec fn variants_token_spec(conn: ProductsConnection, fields: Seq<Seq<char>>) -> Seq<
    char,
> {
    "variants("@ + connection_arg_spec(conn) + ") { edges { node { "@ + join_spec(fields, ","@)
        + " } } }"@
}

/// An in-progress ProductVariant request: the fields selected so far, the
/// input assignments of an update, and the operation kind.
#[derive(Debug)]
pub struct ProductVariantQueryBuilder {
    id: Id,
    fields: Vec<String>,
    inputs: Option<Vec<String>>,
    query_type: ProductVariantQueryType,
    has_product_sub: bool,
}

impl ProductVariantQueryBuilder {
    /// The canonical string of the identifier this request addresses.
    pub closed spec fn id_view(&self) -> Seq<char> {
        self.id@
    }

    /// The selected field tokens, in first-insertion order.
    pub closed spec fn fields_view(&self) -> Seq<Seq<char>> {
        string_views(self.fields@)
    }

    /// The input assignments, present exactly on update builders.
    pub closed spec fn inputs_view(&self) -> Option<Seq<Seq<char>>> {
        match self.inputs {
            Option::Some(ref v) => Option::Some(string_views(v@)),
            Option::None => Option::None,
        }
    }

    pub closed spec fn is_update(&self) -> bool {
        self.query_type is ProductVariantUpdate
    }

    /// The operation name this builder was created for.
    pub closed spec fn op_name_spec(&self) -> Seq<char> {
        match self.query_type {
            ProductVariantQueryType::ProductVariant => "productVariant"@,
            ProductVariantQueryType::ProductVariants(_) => "productVariants"@,
            ProductVariantQueryType::ProductVariantUpdate(_) => "productVariantUpdate"@,
        }
    }

    pub closed spec fn is_connection(&self) -> bool {
        self.query_type is ProductVariants
    }

    /// The connection bound of a bounded-list builder.
    pub closed spec fn conn_spec(&self) -> ProductsConnection {
        match self.query_type {
            ProductVariantQueryType::ProductVariants(c) => c,
            _ => ProductsConnection::First(0),
        }
    }

    /// Whether this selection embeds a Product sub-selection.
    pub closed spec fn embeds_product(&self) -> bool {
        self.has_product_sub
    }

    /// Structural validity: tokens are duplicate-free, the input assignment
    /// set exists exactly on update builders, and a connection bound is
    /// positive.
    pub open spec fn wf(&self) -> bool {
        &&& tokens_distinct(self.fields_view())
        &&& self.is_update() <==> self.inputs_view() is Some
        &&& match self.inputs_view() {
            Option::Some(iv) => tokens_distinct(iv),
            Option::None => true,
        }
        &&& self.is_connection() ==> self.conn_spec().valid()
        &&& !(self.is_update() && self.is_connection())
    }

    /// Everything a field selector leaves untouched.
    pub open spec fn same_core(&self, other: &Self) -> bool {
        &&& self.id_view() == other.id_view()
        &&& self.inputs_view() == other.inputs_view()
        &&& self.is_update() == other.is_update()
        &&& self.is_connection() == other.is_connection()
        &&& self.conn_spec() == other.conn_spec()
        &&& self.embeds_product() == other.embeds_product()
    }

    /// Read one variant by identifier; the `id` field is always selected.
    pub fn product_variant(id: Id) -> (r: Self)
        ensures
            r.wf(),
            !r.is_update(),
            !r.is_connection(),
            !r.embeds_product(),
            r.id_view() == id@,
            r.fields_view() =~= seq!["id"@],
            r.inputs_view() is None,
    {
        let fields = vec![String::from_str("id")];
        let r = ProductVariantQueryBuilder {
            id,
            fields,
            inputs: None,
            query_type: ProductVariantQueryType::ProductVariant,
            has_product_sub: false,
        };
        proof {
            assert(r.fields_view() =~= seq!["id"@]);
        }
        r
    }

    /// Read a bounded list of variants; the bound's count must be positive.
    pub fn product_variants(conn: ProductsConnection) -> (r: ShopifyResult<Self>)
        ensures
            r is Ok <==> conn.valid(),
            r matches Ok(b) ==> {
                &&& b.wf()
                &&& !b.is_update()
                &&& b.is_connection()
                &&& b.conn_spec() == conn
                &&& !b.embeds_product()
                &&& b.id_view() == Seq::<char>::empty()
                &&& b.fields_view() =~= seq!["id"@]
                &&& b.inputs_view() is None
            },
            r matches Err(e) ==> e matches ShopifyGqlError::BuilderMisuse {
                operation,
                attempted_call,
            } && operation@ == "productVariants"@ && attempted_call@ == "product_variants"@,
    {
        let positive = match conn {
            ProductsConnection::First(n) => n > 0,
            ProductsConnection::Last(n) => n > 0,
        };
        if !positive {
            return Err(
                ShopifyGqlError::BuilderMisuse {
                    operation: String::from_str("productVariants"),
                    attempted_call: String::from_str("product_variants"),
                },
            );
        }
        let fields = vec![String::from_str("id")];
        let r = ProductVariantQueryBuilder {
            id: Id::default(),
            fields,
            inputs: None,
            query_type: ProductVariantQueryType::ProductVariants(conn),
            has_product_sub: false,
        };
        proof {
            assert(r.fields_view() =~= seq!["id"@]);
        }
        Ok(r)
    }

    /// Update one variant: opens the input assignment set, seeded with the
    /// identifier as the first assignment. Only this builder accepts the
    /// `update_*` calls.
    pub fn product_variant_update(id: Id) -> (r: Self)
        ensures
            r.wf(),
            r.is_update(),
            !r.is_connection(),
            !r.embeds_product(),
            r.id_view() == id@,
            r.fields_view() =~= seq!["id"@],
            r.inputs_view() matches Some(iv) && iv =~= seq!["id: \""@ + id@ + "\""@],
    {
        let fields = vec![String::from_str("id")];
        let first_input = String::from_str("id: \"").concat(id.inner().as_str()).concat("\"");
        let inputs = vec![first_input];
        let query_type = ProductVariantQueryType::ProductVariantUpdate(id.clone());
        let r = ProductVariantQueryBuilder {
            id,
            fields,
            inputs: Some(inputs),
            query_type,
            has_product_sub: false,
        };
        proof {
            assert(r.fields_view() =~= seq!["id"@]);
            assert(r.inputs_view() matches Some(iv) && iv =~= seq!["id: \""@ + r.id@ + "\""@]);
        }
        r
    }

    /// Add one scalar field token; selecting a field twice is the same as
    /// selecting it once.
    fn with_field(self, name: &'static str) -> (r: Self)
        requires
            self.wf(),
        ensures
            r.wf(),
            r.fields_view() == add_token(self.fields_view(), name@),
            self.same_core(&r),
    {
        let mut s = self;
        proof {
            lemma_add_token_distinct(s.fields_view(), name@);
        }
        push_token(&mut s.fields, String::from_str(name));
        s
    }

    /// Add one input assignment; fails with `BuilderMisuse` on any builder
    /// that carries no input assignment set.
    fn with_input(self, call: &'static str, token: String) -> (r: ShopifyResult<Self>)
        requires
            self.wf(),
        ensures
            r is Ok <==> self.is_update(),
            r matches Ok(b) ==> {
                &&& b.wf()
                &&& b.fields_view() == self.fields_view()
                &&& b.id_view() == self.id_view()
                &&& b.is_update()
                &&& b.is_connection() == self.is_connection()
                &&& b.conn_spec() == self.conn_spec()
                &&& b.embeds_product() == self.embeds_product()
                &&& b.inputs_view() matches Some(iv) && iv == add_token(
                    some_or_empty(self.inputs_view()),
                    token@,
                )
            },
            r matches Err(e) ==> e matches ShopifyGqlError::BuilderMisuse {
                operation,
                attempted_call,
            } && operation@ == self.op_name_spec() && attempted_call@ == call@,
    {
        let op = self.op_name();
        let mut s = self;
        match &mut s.inputs {
            Some(v) => {
                proof {
                    lemma_add_token_distinct(string_views(v@), token@);
                }
                push_token(v, token);
                Ok(s)
            },
            None => Err(
                ShopifyGqlError::BuilderMisuse {
                    operation: String::from_str(op),
                    attempted_call: String::from_str(call),
                },
            ),
        }
    }

    pub fn compare_at_price(self) -> (r: Self)
        requires
            self.wf(),
        ensures
            r.wf(),
            r.fields_view() == add_token(self.fields_view(), "compareAtPrice"@),
            self.same_core(&r),
    {
        self.with_field("compareAtPrice")
    }

    pub fn update_compare_at_price(self, compare_at_price: Money) -> (r: ShopifyResult<Self>)
        requires
            self.wf(),
        ensures
            r is Ok <==> self.is_update(),
            r matches Ok(b) ==> {
                &&& b.wf()
                &&& b.fields_view() == self.fields_view()
                &&& b.inputs_view() matches Some(iv) && iv == add_token(
                    some_or_empty(self.inputs_view()),
                    "compareAtPrice: "@ + compare_at_price@,
                )
                &&& b.id_view() == self.id_view()
                &&& b.is_update()
                &&& b.embeds_product() == self.embeds_product()
            },
            r matches Err(e) ==> e matches ShopifyGqlError::BuilderMisuse {
                operation,
                attempted_call,
            } && operation@ == self.op_name_spec() && attempted_call@ == "update_compare_at_price"@,
    {
        let token = String::from_str("compareAtPrice: ").concat(compare_at_price.inner().as_str());
        self.with_input("update_compare_at_price", token)
    }

    pub fn inventory_quantity(self) -> (r: Self)
        requires
            self.wf(),
        ensures
            r.wf(),
            r.fields_view() == add_token(self.fields_view(), "inventoryQuantity"@),
            self.same_core(&r),
    {
        self.with_field("inventoryQuantity")
    }

    pub fn price(self) -> (r: Self)
        requires
            self.wf(),
        ensures
            r.wf(),
            r.fields_view() == add_token(self.fields_view(), "price"@),
            self.same_core(&r),
    {
        self.with_field("price")
    }

    pub fn update_price(self, price: Money) -> (r: ShopifyResult<Self>)
        requires
            self.wf(),
        ensures
            r is Ok <==> self.is_update(),
            r matches Ok(b) ==> {
                &&& b.wf()
                &&& b.fields_view() == self.fields_view()
                &&& b.inputs_view() matches Some(iv) && iv == add_token(
                    some_or_empty(self.inputs_view()),
                    "price: "@ + price@,
                )
                &&& b.id_view() == self.id_view()
                &&& b.is_update()
                &&& b.embeds_product() == self.embeds_product()
            },
            r matches Err(e) ==> e matches ShopifyGqlError::BuilderMisuse {
                operation,
                attempted_call,
            } && operation@ == self.op_name_spec() && attempted_call@ == "update_price"@,
    {
        let token = String::from_str("price: ").concat(price.inner().as_str());
        self.with_input("update_price", token)
    }

    /// Embed a Product sub-selection. The sub-selection must be a read
    /// selection, and must not itself embed a variant sub-selection: that
    /// would re-introduce the entity kind being embedded here, and is
    /// rejected as a cycle.
    pub fn product(self, product_query: ProductQueryBuilder) -> (r: ShopifyResult<Self>)
        requires
            self.wf(),
        ensures
            r is Ok <==> (!product_query.is_update() && !product_query.embeds_variants()),
            r matches Ok(b) ==> {
                &&& b.wf()
                &&& b.fields_view() == add_token(
                    self.fields_view(),
                    product_token_spec(product_query.fields_view()),
                )
                &&& b.embeds_product()
                &&& b.id_view() == self.id_view()
                &&& b.inputs_view() == self.inputs_view()
                &&& b.is_update() == self.is_update()
                &&& b.is_connection() == self.is_connection()
                &&& b.conn_spec() == self.conn_spec()
            },
            product_query.is_update() ==> (r matches Err(e) && e matches
                ShopifyGqlError::BuilderMisuse { operation, attempted_call } && operation@
                == product_query.op_name_spec() && attempted_call@ == "product"@),
            !product_query.is_update() && product_query.embeds_variants() ==> (r matches Err(e)
                && e matches ShopifyGqlError::CycleRejected(k) && k@ == "ProductVariant"@),
    {
        if product_query.is_update_query() {
            return Err(
                ShopifyGqlError::BuilderMisuse {
                    operation: String::from_str(product_query.op_name()),
                    attempted_call: String::from_str("product"),
                },
            );
        }
        if product_query.has_variants_sub() {
            return Err(ShopifyGqlError::CycleRejected(String::from_str("ProductVariant")));
        }
        let sub_fields = product_query.fields();
        let joined = join_strs(&sub_fields, ",");
        let token = String::from_str("product { ").concat(joined.as_str()).concat(" }");
        let mut s = self;
        proof {
            lemma_add_token_distinct(s.fields_view(), token@);
        }
        push_token(&mut s.fields, token);
        s.has_product_sub = true;
        Ok(s)
    }

    pub fn sku(self) -> (r: Self)
        requires
            self.wf(),
        ensures
            r.wf(),
            r.fields_view() == add_token(self.fields_view(), "sku"@),
            self.same_core(&r),
    {
        self.with_field("sku")
    }

    pub fn update_sku(self, sku: &str) -> (r: ShopifyResult<Self>)
        requires
            self.wf(),
        ensures
            r is Ok <==> self.is_update(),
            r matches Ok(b) ==> {
                &&& b.wf()
                &&& b.fields_view() == self.fields_view()
                &&& b.inputs_view() matches Some(iv) && iv == add_token(
                    some_or_empty(self.inputs_view()),
                    "sku: \""@ + escape_str_spec(sku@) + "\""@,
                )
                &&& b.id_view() == self.id_view()
                &&& b.is_update()
                &&& b.embeds_product() == self.embeds_product()
            },
            r matches Err(e) ==> e matches ShopifyGqlError::BuilderMisuse {
                operation,
                attempted_call,
            } && operation@ == self.op_name_spec() && attempted_call@ == "update_sku"@,
    {
        let token = String::from_str("sku: \"").concat(escape_str(sku).as_str()).concat("\"");
        self.with_input("update_sku", token)
    }

    pub fn title(self) -> (r: Self)
        requires
            self.wf(),
        ensures
            r.wf(),
            r.fields_view() == add_token(self.fields_view(), "title"@),
            self.same_core(&r),
    {
        self.with_field("title")
    }

    pub fn weight(self) -> (r: Self)
        requires
            self.wf(),
        ensures
            r.wf(),
            r.fields_view() == add_token(self.fields_view(), "weight"@),
            self.same_core(&r),
    {
        self.with_field("weight")
    }

    /// Assign a new weight, given as a plain decimal literal.
    pub fn update_weight(self, weight: &str) -> (r: ShopifyResult<Self>)
        requires
            self.wf(),
        ensures
            r is Ok <==> (self.is_update() && is_decimal_str(weight@)),
            r matches Ok(b) ==> {
                &&& b.wf()
                &&& b.fields_view() == self.fields_view()
                &&& b.inputs_view() matches Some(iv) && iv == add_token(
                    some_or_empty(self.inputs_view()),
                    "weight: "@ + weight@,
                )
                &&& b.id_view() == self.id_view()
                &&& b.is_update()
                &&& b.embeds_product() == self.embeds_product()
            },
            !self.is_update() ==> (r matches Err(e) && e matches ShopifyGqlError::BuilderMisuse {
                operation,
                attempted_call,
            } && operation@ == self.op_name_spec() && attempted_call@ == "update_weight"@),
            self.is_update() && !is_decimal_str(weight@) ==> (r matches Err(e) && e matches
                ShopifyGqlError::InvalidScalar(raw) && raw@ == weight@),
    {
        if !self.is_update_query() {
            return Err(
                ShopifyGqlError::BuilderMisuse {
                    operation: String::from_str(self.op_name()),
                    attempted_call: String::from_str("update_weight"),
                },
            );
        }
        if !check_decimal(weight) {
            return Err(ShopifyGqlError::InvalidScalar(String::from_str(weight)));
        }
        let token = String::from_str("weight: ").concat(weight);
        self.with_input("update_weight", token)
    }

    pub fn weight_unit(self) -> (r: Self)
        requires
            self.wf(),
        ensures
            r.wf(),
            r.fields_view() == add_token(self.fields_view(), "weightUnit"@),
            self.same_core(&r),
    {
        self.with_field("weightUnit")
    }

    pub fn update_weight_unit(self, weight_unit: WeightUnit) -> (r: ShopifyResult<Self>)
        requires
            self.wf(),
        ensures
            r is Ok <==> self.is_update(),
            r matches Ok(b) ==> {
                &&& b.wf()
                &&& b.fields_view() == self.fields_view()
                &&& b.inputs_view() matches Some(iv) && iv == add_token(
                    some_or_empty(self.inputs_view()),
                    "weightUnit: "@ + weight_unit.tag_spec(),
                )
                &&& b.id_view() == self.id_view()
                &&& b.is_update()
                &&& b.embeds_product() == self.embeds_product()
            },
            r matches Err(e) ==> e matches ShopifyGqlError::BuilderMisuse {
                operation,
                attempted_call,
            } && operation@ == self.op_name_spec() && attempted_call@ == "update_weight_unit"@,
    {
        let token = String::from_str("weightUnit: ").concat(weight_unit.tag());
        self.with_input("update_weight_unit", token)
    }

    /// Whether the update calls are valid on this builder.
    pub fn is_update_query(&self) -> (r: bool)
        ensures
            r == self.is_update(),
    {
        match self.query_type {
            ProductVariantQueryType::ProductVariantUpdate(_) => true,
            _ => false,
        }
    }

    /// The operation name this builder was created for.
    pub fn op_name(&self) -> (r: &'static str)
        ensures
            r@ == self.op_name_spec(),
    {
        match self.query_type {
            ProductVariantQueryType::ProductVariant => "productVariant",
            ProductVariantQueryType::ProductVariants(_) => "productVariants",
            ProductVariantQueryType::ProductVariantUpdate(_) => "productVariantUpdate",
        }
    }

    /// Whether this selection embeds a Product sub-selection.
    pub fn has_product_sub(&self) -> (r: bool)
        ensures
            r == self.embeds_product(),
    {
        self.has_product_sub
    }

    /// The selected field tokens, in first-insertion order.
    pub fn fields(&self) -> (r: Vec<&str>)
        ensures
            str_views(r@) == self.fields_view(),
    {
        let mut out: Vec<&str> = Vec::new();
        let mut i: usize = 0;
        while i < self.fields.len()
            invariant
                0 <= i <= self.fields@.len(),
                out@.len() == i,
                forall|j: int| 0 <= j < i ==> #[trigger] out@[j]@ == self.fields@[j]@,
            decreases self.fields@.len() - i,
        {
            out.push(self.fields[i].as_str());
            i += 1;
        }
        proof {
            assert(str_views(out@) =~= self.fields_view());
        }
        out
    }

    /// The input assignments, in insertion order, present exactly on update
    /// builders.
    pub fn inputs(&self) -> (r: Option<Vec<&str>>)
        ensures
            r is Some <==> self.inputs_view() is Some,
            r matches Some(v) ==> self.inputs_view() matches Some(iv) && str_views(v@) == iv,
    {
        match &self.inputs {
            None => None,
            Some(ins) => {
                let mut out: Vec<&str> = Vec::new();
                let mut i: usize = 0;
                while i < ins.len()
                    invariant
                        0 <= i <= ins@.len(),
                        out@.len() == i,
                        forall|j: int| 0 <= j < i ==> #[trigger] out@[j]@ == ins@[j]@,
                    decreases ins@.len() - i,
                {
                    out.push(ins[i].as_str());
                    i += 1;
                }
                proof {
                    assert(str_views(out@) =~= string_views(ins@));
                }
                Some(out)
            },
        }
    }

    /// The operation this builder was created for.
    pub fn query_type(&self) -> (r: &ProductVariantQueryType)
        ensures
            *r is ProductVariantUpdate <==> self.is_update(),
            *r is ProductVariants <==> self.is_connection(),
            *r matches ProductVariantQueryType::ProductVariants(c) ==> c == self.conn_spec(),
    {
        &self.query_type
    }

    /// The document this builder compiles to.
    pub open spec fn doc_spec(&self) -> Seq<char> {
        if self.is_update() {
            "mutation { productVariantUpdate(input: { "@ + join_spec(
                some_or_empty(self.inputs_view()),
                ", "@,
            ) + " }) { productVariant { "@ + join_spec(self.fields_view(), ","@) + " } } }"@
        } else if self.is_connection() {
            "query { productVariant("@ + connection_arg_spec(self.conn_spec())
                + ") { edges { node { "@ + join_spec(self.fields_view(), ","@) + " } } } }"@
        } else {
            "query { productVariant(id: \""@ + self.id_view() + "\") { "@ + join_spec(
                self.fields_view(),
                ","@,
            ) + " } }"@
        }
    }

    /// Compile the accumulated selection into its document. Deterministic:
    /// the document is a function of the builder's state alone, and field
    /// order is first-insertion order.
    pub fn compile(&self) -> (r: String)
        requires
            self.wf(),
        ensures
            r@ == self.doc_spec(),
    {
        let fields = self.fields();
        let joined_fields = join_strs(&fields, ",");
        match &self.query_type {
            ProductVariantQueryType::ProductVariant => {
                String::from_str("query { productVariant(id: \"").concat(
                    self.id.inner().as_str(),
                ).concat("\") { ").concat(joined_fields.as_str()).concat(" } }")
            },
            ProductVariantQueryType::ProductVariants(conn) => {
                let arg = match conn {
                    ProductsConnection::First(n) => String::from_str("first: ").concat(
                        u32_to_string(*n).as_str(),
                    ),
                    ProductsConnection::Last(n) => String::from_str("last: ").concat(
                        u32_to_string(*n).as_str(),
                    ),
                };
                String::from_str("query { productVariant(").concat(arg.as_str()).concat(
                    ") { edges { node { ",
                ).concat(joined_fields.as_str()).concat(" } } } }")
            },
            ProductVariantQueryType::ProductVariantUpdate(_) => {
                let ins = match self.inputs() {
                    Some(v) => v,
                    None => Vec::new(),
                };
                let joined_inputs = join_strs(&ins, ", ");
                String::from_str("mutation { productVariantUpdate(input: { ").concat(
                    joined_inputs.as_str(),
                ).concat(" }) { productVariant { ").concat(joined_fields.as_str()).concat(
                    " } } }",
                )
            },
        }
    }
}

/// The composite token a variant selection holds when it embeds a Product
/// sub-selection.
pub open spec fn product_token_spec(fields: Seq<Seq<char>>) -> Seq<char> {
    "product { "@ + join_spec(fields, ","@) + " }"@
}

/// Determinism of compilation: the document is a function of the builder's
/// accumulated state alone, so the same selector-call sequence always
/// compiles to the same text, and field order is first-insertion order by
/// `doc_spec`'s construction.
pub proof fn lemma_variant_compile_deterministic(
    a: &ProductVariantQueryBuilder,
    b: &ProductVariantQueryBuilder,
)
    requires
        a.id_view() == b.id_view(),
        a.fields_view() == b.fields_view(),
        a.inputs_view() == b.inputs_view(),
        a.is_update() == b.is_update(),
        a.is_connection() == b.is_connection(),
        a.conn_spec() == b.conn_spec(),
    ensures
        a.doc_spec() == b.doc_spec(),
{
}

/// Idempotence of field selection: a variant builder that selected some
/// token twice compiles to the very document of one that selected it once,
/// since the second addition finds the token present and changes nothing.
pub proof fn lemma_variant_selector_idempotent_document(
    a: &ProductVariantQueryBuilder,
    b: &ProductVariantQueryBuilder,
    fields: Seq<Seq<char>>,
    t: Seq<char>,
)
    requires
        a.fields_view() == add_token(add_token(fields, t), t),
        b.fields_view() == add_token(fields, t),
        a.id_view() == b.id_view(),
        a.inputs_view() == b.inputs_view(),
        a.is_update() == b.is_update(),
        a.is_connection() == b.is_connection(),
        a.conn_spec() == b.conn_spec(),
    ensures
        a.doc_spec() == b.doc_spec(),
{
    crate::render::lemma_add_token_idempotent(fields, t);
}

} // verus!
