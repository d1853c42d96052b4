//! The response envelope decoder and the entity materializer.
//!
//! Decoding proceeds in two steps: the reply bytes are parsed into the
//! document grammar of `crate::json`, and the resulting envelope is held
//! against the operation that was sent. A reply tagged for a different
//! known operation fails with a shape mismatch rather than materializing a
//! wrong-typed value; a reply matching no known shape fails carrying the
//! raw body; a reply carrying the remote's error member is surfaced as a
//! remote error.
//!
//! Materialization turns a matched payload into the typed entity. A field
//! absent from the payload (or null) becomes the entity's unset state.
//! Nesting is bounded by what selections can request: a Product may carry
//! variants whose nodes may carry a product, and that innermost product may
//! not carry variants again — the builders' cycle rejection makes a deeper
//! selection impossible, so a deeper reply is a shape error.

use vstd::prelude::*;
use vstd::string::*;
use crate::bulk::{BulkOperation, BulkOperationStatus};
use crate::common::{
    int_str_val,
    is_decimal_str,
    is_int_str,
    parse_i32,
    Edges,
    Id,
    Money,
    OperationKind,
    WeightUnit,
};
use crate::error::{ShopifyGqlError, ShopifyResult};
use crate::json::{
    json_pairs_view,
    json_seq_view,
    obj_get,
    obj_lookup_spec,
    parse_json,
    spec_parse_json,
    Json,
    JsonV,
};
use crate::product::{Product, ProductStatus};
use crate::product_variant::ProductVariant;

verus! {

/// The tagged union of known success payloads, one per operation.
#[derive(Debug)]
pub enum ResponseTypes {
    Product(Product),
    ProductVariant(ProductVariant),
    ProductUpdate { product: Product },
    ProductVariantUpdate { product_variant: ProductVariant },
    BulkOperationRunQuery { bulk_operation: BulkOperation },
}

/// A decoded reply: the payload of exactly one known operation.
#[derive(Debug)]
pub struct QueryResponse {
    pub data: ResponseTypes,
}

/// A member read with an explicit `null` counting as absent.
pub open spec fn opt_member(ps: Seq<(Seq<char>, JsonV)>, k: Seq<char>) -> Option<JsonV> {
    match obj_lookup_spec(ps, k) {
        Option::Some(JsonV::Null) => Option::None,
        Option::Some(v) => Option::Some(v),
        Option::None => Option::None,
    }
}

/// An optional member that must be a string when present.
pub open spec fn opt_str_ok(ps: Seq<(Seq<char>, JsonV)>, k: Seq<char>) -> bool {
    match opt_member(ps, k) {
        Option::None => true,
        Option::Some(v) => v is Str,
    }
}

/// The contents of an optional string member.
pub open spec fn opt_str_of(ps: Seq<(Seq<char>, JsonV)>, k: Seq<char>) -> Option<Seq<char>> {
    match opt_member(ps, k) {
        Option::Some(JsonV::Str(t)) => Option::Some(t),
        _ => Option::None,
    }
}

/// The required identifier member: a string under `id`.
pub open spec fn req_id_ok(ps: Seq<(Seq<char>, JsonV)>) -> bool {
    obj_lookup_spec(ps, "id"@) matches Some(JsonV::Str(_))
}

/// An optional money member: a string holding a plain decimal literal.
pub open spec fn money_ok(ps: Seq<(Seq<char>, JsonV)>, k: Seq<char>) -> bool {
    match opt_member(ps, k) {
        Option::None => true,
        Option::Some(JsonV::Str(t)) => is_decimal_str(t),
        _ => false,
    }
}

pub open spec fn money_matches(
    ps: Seq<(Seq<char>, JsonV)>,
    k: Seq<char>,
    m: Option<Seq<char>>,
) -> bool {
    match opt_member(ps, k) {
        Option::None => m is None,
        Option::Some(JsonV::Str(t)) => m == Option::Some(t),
        _ => false,
    }
}

/// An optional inventory count: a number lexeme holding a 32-bit integer.
pub open spec fn qty_ok(ps: Seq<(Seq<char>, JsonV)>) -> bool {
    match opt_member(ps, "inventoryQuantity"@) {
        Option::None => true,
        Option::Some(JsonV::Num(t)) => is_int_str(t) && i32::MIN <= int_str_val(t) <= i32::MAX,
        _ => false,
    }
}

pub open spec fn qty_matches(ps: Seq<(Seq<char>, JsonV)>, q: Option<i32>) -> bool {
    match opt_member(ps, "inventoryQuantity"@) {
        Option::None => q is None,
        Option::Some(JsonV::Num(t)) => q matches Some(n) && n as int == int_str_val(t),
        _ => false,
    }
}

/// An optional weight: any number lexeme, kept verbatim.
pub open spec fn weight_ok(ps: Seq<(Seq<char>, JsonV)>) -> bool {
    match opt_member(ps, "weight"@) {
        Option::None => true,
        Option::Some(JsonV::Num(_)) => true,
        _ => false,
    }
}

pub open spec fn weight_matches(ps: Seq<(Seq<char>, JsonV)>, w: Option<Seq<char>>) -> bool {
    match opt_member(ps, "weight"@) {
        Option::None => w is None,
        Option::Some(JsonV::Num(t)) => w == Option::Some(t),
        _ => false,
    }
}

/// An optional product status: a string naming one of the three states.
pub open spec fn status_ok(ps: Seq<(Seq<char>, JsonV)>) -> bool {
    match opt_member(ps, "status"@) {
        Option::None => true,
        Option::Some(JsonV::Str(t)) => t == "ACTIVE"@ || t == "ARCHIVED"@ || t == "DRAFT"@,
        _ => false,
    }
}

pub open spec fn status_matches(ps: Seq<(Seq<char>, JsonV)>, st: Option<ProductStatus>) -> bool {
    match opt_member(ps, "status"@) {
        Option::None => st is None,
        Option::Some(JsonV::Str(t)) => st matches Some(u) && u.tag_spec() == t,
        _ => false,
    }
}

/// An optional weight unit: a string naming one of the four units.
pub open spec fn weight_unit_ok(ps: Seq<(Seq<char>, JsonV)>) -> bool {
    match opt_member(ps, "weightUnit"@) {
        Option::None => true,
        Option::Some(JsonV::Str(t)) => t == "GRAMS"@ || t == "KILOGRAMS"@ || t == "OUNCES"@ || t
            == "POUNDS"@,
        _ => false,
    }
}

pub open spec fn weight_unit_matches(
    ps: Seq<(Seq<char>, JsonV)>,
    wu: Option<WeightUnit>,
) -> bool {
    match opt_member(ps, "weightUnit"@) {
        Option::None => wu is None,
        Option::Some(JsonV::Str(t)) => wu matches Some(u) && u.tag_spec() == t,
        _ => false,
    }
}

/// A required bulk status: a string naming one of the seven states.
pub open spec fn bulk_status_ok(ps: Seq<(Seq<char>, JsonV)>) -> bool {
    match obj_lookup_spec(ps, "status"@) {
        Option::Some(JsonV::Str(t)) => BulkOperationStatus::tag_known(t),
        _ => false,
    }
}

/// An innermost product payload: scalar members only — a `variants` member
/// here would mean a selection deeper than the builders can express.
pub open spec fn product_inner_payload_ok(v: JsonV) -> bool {
    match v {
        JsonV::Obj(ps) => {
            &&& req_id_ok(ps)
            &&& opt_str_ok(ps, "title"@)
            &&& status_ok(ps)
            &&& opt_str_ok(ps, "vendor"@)
            &&& opt_member(ps, "variants"@) is None
        },
        _ => false,
    }
}

pub open spec fn product_inner_matches(v: JsonV, p: Product) -> bool {
    match v {
        JsonV::Obj(ps) => {
            &&& (match obj_lookup_spec(ps, "id"@) {
                Option::Some(JsonV::Str(t)) => p.id_spec() == t,
                _ => false,
            })
            &&& p.title_spec() == opt_str_of(ps, "title"@)
            &&& status_matches(ps, p.status_spec())
            &&& p.vendor_spec() == opt_str_of(ps, "vendor"@)
            &&& p.variants_spec() is None
        },
        _ => false,
    }
}

/// A variant payload: scalar members, and possibly an innermost product.
pub open spec fn variant_payload_ok(v: JsonV) -> bool {
    match v {
        JsonV::Obj(ps) => {
            &&& req_id_ok(ps)
            &&& money_ok(ps, "compareAtPrice"@)
            &&& qty_ok(ps)
            &&& money_ok(ps, "price"@)
            &&& (match opt_member(ps, "product"@) {
                Option::None => true,
                Option::Some(pv) => product_inner_payload_ok(pv),
            })
            &&& opt_str_ok(ps, "sku"@)
            &&& opt_str_ok(ps, "title"@)
            &&& weight_ok(ps)
            &&& weight_unit_ok(ps)
        },
        _ => false,
    }
}

pub open spec fn variant_matches(v: JsonV, var: ProductVariant) -> bool {
    match v {
        JsonV::Obj(ps) => {
            &&& (match obj_lookup_spec(ps, "id"@) {
                Option::Some(JsonV::Str(t)) => var.id_spec() == t,
                _ => false,
            })
            &&& money_matches(ps, "compareAtPrice"@, var.compare_at_price_spec())
            &&& qty_matches(ps, var.inventory_quantity_spec())
            &&& money_matches(ps, "price"@, var.price_spec())
            &&& (match opt_member(ps, "product"@) {
                Option::None => var.product_spec() is None,
                Option::Some(pv) => var.product_spec() matches Some(p) && product_inner_matches(
                    pv,
                    p,
                ),
            })
            &&& var.sku_spec() == opt_str_of(ps, "sku"@)
            &&& var.title_spec() == opt_str_of(ps, "title"@)
            &&& weight_matches(ps, var.weight_spec())
            &&& weight_unit_matches(ps, var.weight_unit_spec())
        },
        _ => false,
    }
}

/// The variant payload carried by one connection edge: an object whose
/// `node` member is the payload.
pub open spec fn node_of(item: JsonV) -> JsonV {
    match item {
        JsonV::Obj(nps) => match obj_lookup_spec(nps, "node"@) {
            Option::Some(nv) => nv,
            Option::None => JsonV::Null,
        },
        _ => JsonV::Null,
    }
}

pub open spec fn edge_ok(item: JsonV) -> bool {
    match item {
        JsonV::Obj(nps) => obj_lookup_spec(nps, "node"@) is Some && variant_payload_ok(
            node_of(item),
        ),
        _ => false,
    }
}

/// A `variants` member: an object whose `edges` member is an array of
/// well-formed edges.
pub open spec fn variants_member_ok(ps: Seq<(Seq<char>, JsonV)>) -> bool {
    match opt_member(ps, "variants"@) {
        Option::None => true,
        Option::Some(JsonV::Obj(vps)) => match obj_lookup_spec(vps, "edges"@) {
            Option::Some(JsonV::Arr(items)) => forall|i: int|
                0 <= i < items.len() ==> edge_ok(#[trigger] items[i]),
            _ => false,
        },
        _ => false,
    }
}

pub open spec fn variants_member_matches(
    ps: Seq<(Seq<char>, JsonV)>,
    vs: Option<Seq<ProductVariant>>,
) -> bool {
    match opt_member(ps, "variants"@) {
        Option::None => vs is None,
        Option::Some(JsonV::Obj(vps)) => match obj_lookup_spec(vps, "edges"@) {
            Option::Some(JsonV::Arr(items)) => vs matches Some(nodes) && nodes.len()
                == items.len() && (forall|i: int|
                0 <= i < items.len() ==> variant_matches(node_of(#[trigger] items[i]), nodes[i])),
            _ => false,
        },
        _ => false,
    }
}

/// A top-level product payload: scalar members and possibly a bounded list
/// of variants.
pub open spec fn product_payload_ok(v: JsonV) -> bool {
    match v {
        JsonV::Obj(ps) => {
            &&& req_id_ok(ps)
            &&& opt_str_ok(ps, "title"@)
            &&& status_ok(ps)
            &&& opt_str_ok(ps, "vendor"@)
            &&& variants_member_ok(ps)
        },
        _ => false,
    }
}

pub open spec fn product_matches(v: JsonV, p: Product) -> bool {
    match v {
        JsonV::Obj(ps) => {
            &&& (match obj_lookup_spec(ps, "id"@) {
                Option::Some(JsonV::Str(t)) => p.id_spec() == t,
                _ => false,
            })
            &&& p.title_spec() == opt_str_of(ps, "title"@)
            &&& status_matches(ps, p.status_spec())
            &&& p.vendor_spec() == opt_str_of(ps, "vendor"@)
            &&& variants_member_matches(ps, p.variants_spec())
        },
        _ => false,
    }
}

/// A bulk-operation-start payload.
pub open spec fn bulk_payload_ok(v: JsonV) -> bool {
    match v {
        JsonV::Obj(ps) => {
            &&& req_id_ok(ps)
            &&& bulk_status_ok(ps)
            &&& opt_str_ok(ps, "url"@)
        },
        _ => false,
    }
}

pub open spec fn bulk_matches(v: JsonV, b: BulkOperation) -> bool {
    match v {
        JsonV::Obj(ps) => {
            &&& (match obj_lookup_spec(ps, "id"@) {
                Option::Some(JsonV::Str(t)) => b.id_spec() == t,
                _ => false,
            })
            &&& (match obj_lookup_spec(ps, "status"@) {
                Option::Some(JsonV::Str(t)) => b.status_spec().tag_spec() == t,
                _ => false,
            })
            &&& b.url_spec() == opt_str_of(ps, "url"@)
        },
        _ => false,
    }
}

/// The member of an operation payload that wraps the entity of a mutation
/// reply (a mutation's reply mirrors its selection, so the entity sits one
/// member deeper than in a read reply).
pub open spec fn member_payload(v: JsonV, k: Seq<char>) -> Option<JsonV> {
    match v {
        JsonV::Obj(ps) => obj_lookup_spec(ps, k),
        _ => Option::None,
    }
}

/// Which payload a reply shape is expected to hold, per operation.
pub open spec fn payload_ok_for(v: JsonV, k: OperationKind) -> bool {
    match k {
        OperationKind::Product => product_payload_ok(v),
        OperationKind::ProductUpdate => match member_payload(v, "product"@) {
            Option::Some(pv) => product_payload_ok(pv),
            Option::None => false,
        },
        OperationKind::ProductVariant => variant_payload_ok(v),
        OperationKind::ProductVariantUpdate => match member_payload(v, "productVariant"@) {
            Option::Some(pv) => variant_payload_ok(pv),
            Option::None => false,
        },
        OperationKind::BulkOperationRunQuery => match member_payload(v, "bulkOperation"@) {
            Option::Some(bv) => bulk_payload_ok(bv),
            Option::None => false,
        },
    }
}

/// The decoded data carries the entity the payload describes, tagged for
/// the operation that was sent.
pub open spec fn response_matches(v: JsonV, k: OperationKind, data: ResponseTypes) -> bool {
    match k {
        OperationKind::Product => data matches ResponseTypes::Product(p) && product_matches(v, p),
        OperationKind::ProductUpdate => data matches ResponseTypes::ProductUpdate { product } && (
        match member_payload(v, "product"@) {
            Option::Some(pv) => product_matches(pv, product),
            Option::None => false,
        }),
        OperationKind::ProductVariant => data matches ResponseTypes::ProductVariant(var)
            && variant_matches(v, var),
        OperationKind::ProductVariantUpdate => data matches ResponseTypes::ProductVariantUpdate {
            product_variant,
        } && (match member_payload(v, "productVariant"@) {
            Option::Some(pv) => variant_matches(pv, product_variant),
            Option::None => false,
        }),
        OperationKind::BulkOperationRunQuery => data matches ResponseTypes::BulkOperationRunQuery {
            bulk_operation,
        } && (match member_payload(v, "bulkOperation"@) {
            Option::Some(bv) => bulk_matches(bv, bulk_operation),
            Option::None => false,
        }),
    }
}

/// The entity member of a mutation reply's payload, executable form.
fn unwrap_member<'a>(payload: &'a Json, k: &str) -> (r: Option<&'a Json>)
    ensures
        r matches Some(v) ==> member_payload(payload@, k@) == Option::Some(v@),
        r is None <==> member_payload(payload@, k@) is None,
{
    match payload.as_obj() {
        Some(m) => obj_get(m, k),
        None => None,
    }
}

/// The members of the reply's root object, when the reply parses to one.
pub open spec fn root_members(s: Seq<char>) -> Option<Seq<(Seq<char>, JsonV)>> {
    match spec_parse_json(s) {
        Option::Some(JsonV::Obj(ps)) => Option::Some(ps),
        _ => Option::None,
    }
}

/// Whether the reply's root object carries the remote's `errors` member.
pub open spec fn has_remote_errors(s: Seq<char>) -> bool {
    match root_members(s) {
        Option::Some(ps) => obj_lookup_spec(ps, "errors"@) is Some,
        Option::None => false,
    }
}

/// The members of the object under `data`, when the reply has one.
pub open spec fn data_members(s: Seq<char>) -> Option<Seq<(Seq<char>, JsonV)>> {
    match root_members(s) {
        Option::Some(ps) => match obj_lookup_spec(ps, "data"@) {
            Option::Some(JsonV::Obj(ds)) => Option::Some(ds),
            _ => Option::None,
        },
        Option::None => Option::None,
    }
}

/// The first operation, in a fixed order, whose key the data object holds.
pub open spec fn first_present(ds: Seq<(Seq<char>, JsonV)>) -> Option<OperationKind> {
    if obj_lookup_spec(ds, "product"@) is Some {
        Option::Some(OperationKind::Product)
    } else if obj_lookup_spec(ds, "productUpdate"@) is Some {
        Option::Some(OperationKind::ProductUpdate)
    } else if obj_lookup_spec(ds, "productVariant"@) is Some {
        Option::Some(OperationKind::ProductVariant)
    } else if obj_lookup_spec(ds, "productVariantUpdate"@) is Some {
        Option::Some(OperationKind::ProductVariantUpdate)
    } else if obj_lookup_spec(ds, "bulkOperationRunQuery"@) is Some {
        Option::Some(OperationKind::BulkOperationRunQuery)
    } else {
        Option::None
    }
}

/// A member read with `null` counting as absent, executable form.
fn get_member<'a>(m: &'a Vec<(String, Json)>, k: &str) -> (r: Option<&'a Json>)
    ensures
        r matches Some(v) ==> opt_member(json_pairs_view(m@), k@) == Option::Some(v@),
        r is None <==> opt_member(json_pairs_view(m@), k@) is None,
{
    match obj_get(m, k) {
        Some(v) => {
            if v.is_null() {
                None
            } else {
                Some(v)
            }
        },
        None => None,
    }
}

/// Read an optional string member.
fn take_opt_string(m: &Vec<(String, Json)>, k: &str) -> (r: ShopifyResult<Option<String>>)
    ensures
        r is Ok <==> opt_str_ok(json_pairs_view(m@), k@),
        r matches Ok(o) ==> opt_str_of(json_pairs_view(m@), k@) == (match o {
            Option::Some(t) => Option::Some(t@),
            Option::None => Option::<Seq<char>>::None,
        }),
        r matches Err(e) ==> e is TransportDecodeError,
{
    match get_member(m, k) {
        None => Ok(None),
        Some(v) => match v.as_str() {
            Some(t) => Ok(Some(t.clone())),
            None => Err(ShopifyGqlError::TransportDecodeError(String::new())),
        },
    }
}

/// Read the required identifier member.
fn take_req_id(m: &Vec<(String, Json)>) -> (r: ShopifyResult<Id>)
    ensures
        r is Ok <==> req_id_ok(json_pairs_view(m@)),
        r matches Ok(id) ==> (match obj_lookup_spec(json_pairs_view(m@), "id"@) {
            Option::Some(JsonV::Str(t)) => id@ == t,
            _ => false,
        }),
        r matches Err(e) ==> e is TransportDecodeError,
{
    match obj_get(m, "id") {
        Some(v) => match v.as_str() {
            Some(t) => Ok(Id::from_wire(t.clone())),
            None => Err(ShopifyGqlError::TransportDecodeError(String::new())),
        },
        None => Err(ShopifyGqlError::TransportDecodeError(String::new())),
    }
}

/// Read an optional money member.
fn take_opt_money(m: &Vec<(String, Json)>, k: &str) -> (r: ShopifyResult<Option<Money>>)
    ensures
        r is Ok <==> money_ok(json_pairs_view(m@), k@),
        r matches Ok(o) ==> money_matches(json_pairs_view(m@), k@, (match o {
            Option::Some(mn) => Option::Some(mn@),
            Option::None => Option::<Seq<char>>::None,
        })),
        r matches Err(e) ==> (e is TransportDecodeError || e is InvalidScalar),
{
    match get_member(m, k) {
        None => Ok(None),
        Some(v) => match v.as_str() {
            Some(t) => match Money::try_from(t.clone()) {
                Ok(mn) => Ok(Some(mn)),
                Err(e) => Err(e),
            },
            None => Err(ShopifyGqlError::TransportDecodeError(String::new())),
        },
    }
}

/// Read the optional inventory count.
fn take_opt_qty(m: &Vec<(String, Json)>) -> (r: ShopifyResult<Option<i32>>)
    ensures
        r is Ok <==> qty_ok(json_pairs_view(m@)),
        r matches Ok(o) ==> qty_matches(json_pairs_view(m@), o),
        r matches Err(e) ==> (e is TransportDecodeError || e is InvalidScalar),
{
    match get_member(m, "inventoryQuantity") {
        None => Ok(None),
        Some(v) => match v.as_num() {
            Some(t) => match parse_i32(t.as_str()) {
                Ok(n) => Ok(Some(n)),
                Err(e) => Err(e),
            },
            None => Err(ShopifyGqlError::TransportDecodeError(String::new())),
        },
    }
}

/// Read the optional weight, keeping its lexeme.
fn take_opt_weight(m: &Vec<(String, Json)>) -> (r: ShopifyResult<Option<String>>)
    ensures
        r is Ok <==> weight_ok(json_pairs_view(m@)),
        r matches Ok(o) ==> weight_matches(json_pairs_view(m@), (match o {
            Option::Some(t) => Option::Some(t@),
            Option::None => Option::<Seq<char>>::None,
        })),
        r matches Err(e) ==> e is TransportDecodeError,
{
    match get_member(m, "weight") {
        None => Ok(None),
        Some(v) => match v.as_num() {
            Some(t) => Ok(Some(t.clone())),
            None => Err(ShopifyGqlError::TransportDecodeError(String::new())),
        },
    }
}

/// Read the optional product status.
fn take_opt_status(m: &Vec<(String, Json)>) -> (r: ShopifyResult<Option<ProductStatus>>)
    ensures
        r is Ok <==> status_ok(json_pairs_view(m@)),
        r matches Ok(o) ==> status_matches(json_pairs_view(m@), o),
        r matches Err(e) ==> (e is TransportDecodeError || e is InvalidScalar),
{
    match get_member(m, "status") {
        None => Ok(None),
        Some(v) => match v.as_str() {
            Some(t) => match ProductStatus::parse(t.as_str()) {
                Ok(st) => Ok(Some(st)),
                Err(e) => Err(e),
            },
            None => Err(ShopifyGqlError::TransportDecodeError(String::new())),
        },
    }
}

/// Read the optional weight unit.
fn take_opt_weight_unit(m: &Vec<(String, Json)>) -> (r: ShopifyResult<Option<WeightUnit>>)
    ensures
        r is Ok <==> weight_unit_ok(json_pairs_view(m@)),
        r matches Ok(o) ==> weight_unit_matches(json_pairs_view(m@), o),
        r matches Err(e) ==> (e is TransportDecodeError || e is InvalidScalar),
{
    match get_member(m, "weightUnit") {
        None => Ok(None),
        Some(v) => match v.as_str() {
            Some(t) => match WeightUnit::parse(t.as_str()) {
                Ok(u) => Ok(Some(u)),
                Err(e) => Err(e),
            },
            None => Err(ShopifyGqlError::TransportDecodeError(String::new())),
        },
    }
}

/// Materialize an innermost product payload.
fn materialize_product_inner(payload: &Json) -> (r: ShopifyResult<Product>)
    ensures
        r is Ok <==> product_inner_payload_ok(payload@),
        r matches Ok(p) ==> product_inner_matches(payload@, p),
        r matches Err(e) ==> (e is TransportDecodeError || e is InvalidScalar),
{
    let m = match payload.as_obj() {
        Some(m) => m,
        None => {
            return Err(ShopifyGqlError::TransportDecodeError(String::new()));
        },
    };
    let id = match take_req_id(m) {
        Ok(v) => v,
        Err(e) => {
            return Err(e);
        },
    };
    let title = match take_opt_string(m, "title") {
        Ok(v) => v,
        Err(e) => {
            return Err(e);
        },
    };
    let status = match take_opt_status(m) {
        Ok(v) => v,
        Err(e) => {
            return Err(e);
        },
    };
    let vendor = match take_opt_string(m, "vendor") {
        Ok(v) => v,
        Err(e) => {
            return Err(e);
        },
    };
    match get_member(m, "variants") {
        Some(_) => Err(ShopifyGqlError::TransportDecodeError(String::new())),
        None => Ok(Product::assemble(id, title, status, vendor, None)),
    }
}

/// Materialize a variant payload, with its possible innermost product.
fn materialize_variant(payload: &Json) -> (r: ShopifyResult<ProductVariant>)
    ensures
        r is Ok <==> variant_payload_ok(payload@),
        r matches Ok(var) ==> variant_matches(payload@, var),
        r matches Err(e) ==> (e is TransportDecodeError || e is InvalidScalar),
{
    let m = match payload.as_obj() {
        Some(m) => m,
        None => {
            return Err(ShopifyGqlError::TransportDecodeError(String::new()));
        },
    };
    let id = match take_req_id(m) {
        Ok(v) => v,
        Err(e) => {
            return Err(e);
        },
    };
    let compare_at_price = match take_opt_money(m, "compareAtPrice") {
        Ok(v) => v,
        Err(e) => {
            return Err(e);
        },
    };
    let inventory_quantity = match take_opt_qty(m) {
        Ok(v) => v,
        Err(e) => {
            return Err(e);
        },
    };
    let price = match take_opt_money(m, "price") {
        Ok(v) => v,
        Err(e) => {
            return Err(e);
        },
    };
    let product = match get_member(m, "product") {
        None => None,
        Some(pv) => match materialize_product_inner(pv) {
            Ok(p) => Some(p),
            Err(e) => {
                return Err(e);
            },
        },
    };
    let sku = match take_opt_string(m, "sku") {
        Ok(v) => v,
        Err(e) => {
            return Err(e);
        },
    };
    let title = match take_opt_string(m, "title") {
        Ok(v) => v,
        Err(e) => {
            return Err(e);
        },
    };
    let weight = match take_opt_weight(m) {
        Ok(v) => v,
        Err(e) => {
            return Err(e);
        },
    };
    let weight_unit = match take_opt_weight_unit(m) {
        Ok(v) => v,
        Err(e) => {
            return Err(e);
        },
    };
    Ok(
        ProductVariant::assemble(
            id,
            compare_at_price,
            inventory_quantity,
            price,
            product,
            sku,
            title,
            weight,
            weight_unit,
        ),
    )
}

/// Materialize the nodes of a `variants` member.
fn materialize_variants(v: &Json) -> (r: ShopifyResult<Edges<ProductVariant>>)
    ensures
        r is Ok <==> (v@ matches JsonV::Obj(vps) && match obj_lookup_spec(vps, "edges"@) {
            Option::Some(JsonV::Arr(items)) => forall|i: int|
                0 <= i < items.len() ==> edge_ok(#[trigger] items[i]),
            _ => false,
        }),
        r matches Ok(es) ==> (v@ matches JsonV::Obj(vps) && match obj_lookup_spec(
            vps,
            "edges"@,
        ) {
            Option::Some(JsonV::Arr(items)) => es.nodes_spec().len() == items.len() && (
            forall|i: int|
                0 <= i < items.len() ==> variant_matches(
                    node_of(#[trigger] items[i]),
                    es.nodes_spec()[i],
                )),
            _ => false,
        }),
        r matches Err(e) ==> (e is TransportDecodeError || e is InvalidScalar),
{
    let vm = match v.as_obj() {
        Some(m) => m,
        None => {
            return Err(ShopifyGqlError::TransportDecodeError(String::new()));
        },
    };
    let edges = match obj_get(vm, "edges") {
        Some(e) => e,
        None => {
            return Err(ShopifyGqlError::TransportDecodeError(String::new()));
        },
    };
    let items = match edges.as_arr() {
        Some(a) => a,
        None => {
            return Err(ShopifyGqlError::TransportDecodeError(String::new()));
        },
    };
    let ghost items_v = json_seq_view(items@);
    let mut nodes: Vec<ProductVariant> = Vec::new();
    let mut i: usize = 0;
    while i < items.len()
        invariant
            v@ == JsonV::Obj(json_pairs_view(vm@)),
            obj_lookup_spec(json_pairs_view(vm@), "edges"@) == Option::Some(
                JsonV::Arr(items_v),
            ),
            items_v == json_seq_view(items@),
            items_v.len() == items@.len(),
            0 <= i <= items@.len(),
            nodes@.len() == i,
            forall|j: int| 0 <= j < i ==> edge_ok(#[trigger] items_v[j]),
            forall|j: int|
                0 <= j < i ==> variant_matches(node_of(#[trigger] items_v[j]), nodes@[j]),
        decreases items@.len() - i,
    {
        let item = &items[i];
        proof {
            assert(items_v[i as int] == items@[i as int]@);
        }
        let nm = match item.as_obj() {
            Some(m) => m,
            None => {
                proof {
                    assert(!edge_ok(items_v[i as int]));
                }
                return Err(ShopifyGqlError::TransportDecodeError(String::new()));
            },
        };
        let node = match obj_get(nm, "node") {
            Some(n) => n,
            None => {
                proof {
                    assert(!edge_ok(items_v[i as int]));
                }
                return Err(ShopifyGqlError::TransportDecodeError(String::new()));
            },
        };
        let var = match materialize_variant(node) {
            Ok(v) => v,
            Err(e) => {
                proof {
                    assert(node_of(items_v[i as int]) == node@);
                    assert(!edge_ok(items_v[i as int]));
                }
                return Err(e);
            },
        };
        proof {
            assert(node_of(items_v[i as int]) == node@);
            assert(edge_ok(items_v[i as int]));
        }
        nodes.push(var);
        i += 1;
    }
    Ok(Edges::new(nodes))
}

/// Materialize a top-level product payload.
fn materialize_product(payload: &Json) -> (r: ShopifyResult<Product>)
    ensures
        r is Ok <==> product_payload_ok(payload@),
        r matches Ok(p) ==> product_matches(payload@, p),
        r matches Err(e) ==> (e is TransportDecodeError || e is InvalidScalar),
{
    let m = match payload.as_obj() {
        Some(m) => m,
        None => {
            return Err(ShopifyGqlError::TransportDecodeError(String::new()));
        },
    };
    let id = match take_req_id(m) {
        Ok(v) => v,
        Err(e) => {
            return Err(e);
        },
    };
    let title = match take_opt_string(m, "title") {
        Ok(v) => v,
        Err(e) => {
            return Err(e);
        },
    };
    let status = match take_opt_status(m) {
        Ok(v) => v,
        Err(e) => {
            return Err(e);
        },
    };
    let vendor = match take_opt_string(m, "vendor") {
        Ok(v) => v,
        Err(e) => {
            return Err(e);
        },
    };
    let variants = match get_member(m, "variants") {
        None => None,
        Some(vv) => match materialize_variants(vv) {
            Ok(es) => Some(es),
            Err(e) => {
                return Err(e);
            },
        },
    };
    Ok(Product::assemble(id, title, status, vendor, variants))
}

/// Materialize a bulk-operation-start payload.
fn materialize_bulk(payload: &Json) -> (r: ShopifyResult<BulkOperation>)
    ensures
        r is Ok <==> bulk_payload_ok(payload@),
        r matches Ok(b) ==> bulk_matches(payload@, b),
        r matches Err(e) ==> (e is TransportDecodeError || e is InvalidScalar),
{
    let m = match payload.as_obj() {
        Some(m) => m,
        None => {
            return Err(ShopifyGqlError::TransportDecodeError(String::new()));
        },
    };
    let id = match take_req_id(m) {
        Ok(v) => v,
        Err(e) => {
            return Err(e);
        },
    };
    let status = match obj_get(m, "status") {
        Some(v) => match v.as_str() {
            Some(t) => match BulkOperationStatus::parse(t.as_str()) {
                Ok(st) => st,
                Err(e) => {
                    return Err(e);
                },
            },
            None => {
                return Err(ShopifyGqlError::TransportDecodeError(String::new()));
            },
        },
        None => {
            return Err(ShopifyGqlError::TransportDecodeError(String::new()));
        },
    };
    let url = match take_opt_string(m, "url") {
        Ok(v) => v,
        Err(e) => {
            return Err(e);
        },
    };
    Ok(BulkOperation::assemble(id, status, url))
}

/// Replace the placeholder body of a shape failure with the raw reply, so
/// the caller gets the bytes that matched no known shape.
fn with_raw_body(e: ShopifyGqlError, raw: &str) -> (r: ShopifyGqlError)
    ensures
        e is TransportDecodeError ==> (r matches ShopifyGqlError::TransportDecodeError(b) && b@
            == raw@),
        !(e is TransportDecodeError) ==> r == e,
{
    match e {
        ShopifyGqlError::TransportDecodeError(_) => ShopifyGqlError::TransportDecodeError(
            String::from_str(raw),
        ),
        other => other,
    }
}

/// Decode a reply against the operation that was sent.
///
/// The reply is parsed, the remote's `errors` member is surfaced as a
/// remote error, the payload under `data` is cross-checked against
/// `expected`, a payload tagged for a different known operation fails with
/// a shape mismatch naming both, and bytes matching no known shape fail
/// carrying the raw body.
pub fn decode_response(raw: &str, expected: OperationKind) -> (r: ShopifyResult<QueryResponse>)
    ensures
        has_remote_errors(raw@) ==> (r matches Err(e) && e matches ShopifyGqlError::RemoteError(
            b,
        ) && b@ == raw@),
        !has_remote_errors(raw@) && data_members(raw@) is None ==> (r matches Err(e)
            && e matches ShopifyGqlError::TransportDecodeError(b) && b@ == raw@),
        !has_remote_errors(raw@) ==> (match data_members(raw@) {
            Option::None => true,
            Option::Some(ds) => match obj_lookup_spec(ds, expected.name_spec()) {
            Option::Some(payload) => {
                &&& (r is Ok <==> payload_ok_for(payload, expected))
                &&& (r matches Ok(q) ==> response_matches(payload, expected, q.data))
                &&& (r matches Err(e) ==> (e is TransportDecodeError || e is InvalidScalar))
                &&& (r matches Err(ShopifyGqlError::TransportDecodeError(b)) ==> b@ == raw@)
            },
            Option::None => (match first_present(ds) {
                Option::Some(actual) => r matches Err(e) && e matches
                    ShopifyGqlError::ResponseShapeMismatch { expected: ex, actual: ac } && ex
                    == expected && ac == actual,
                Option::None => r matches Err(e) && e matches
                    ShopifyGqlError::TransportDecodeError(b) && b@ == raw@,
            }),
            },
        }),
{
    let parsed = match parse_json(raw) {
        Some(v) => v,
        None => {
            return Err(ShopifyGqlError::TransportDecodeError(String::from_str(raw)));
        },
    };
    let root = match parsed.as_obj() {
        Some(m) => m,
        None => {
            return Err(ShopifyGqlError::TransportDecodeError(String::from_str(raw)));
        },
    };
    match obj_get(root, "errors") {
        Some(_) => {
            return Err(ShopifyGqlError::RemoteError(String::from_str(raw)));
        },
        None => {},
    };
    let data = match obj_get(root, "data") {
        Some(d) => d,
        None => {
            return Err(ShopifyGqlError::TransportDecodeError(String::from_str(raw)));
        },
    };
    let ds = match data.as_obj() {
        Some(m) => m,
        None => {
            return Err(ShopifyGqlError::TransportDecodeError(String::from_str(raw)));
        },
    };
    match obj_get(ds, expected.name()) {
        Some(payload) => match expected {
            OperationKind::Product => match materialize_product(payload) {
                Ok(p) => Ok(QueryResponse { data: ResponseTypes::Product(p) }),
                Err(e) => Err(with_raw_body(e, raw)),
            },
            OperationKind::ProductUpdate => match unwrap_member(payload, "product") {
                Some(pv) => match materialize_product(pv) {
                    Ok(p) => Ok(
                        QueryResponse { data: ResponseTypes::ProductUpdate { product: p } },
                    ),
                    Err(e) => Err(with_raw_body(e, raw)),
                },
                None => Err(ShopifyGqlError::TransportDecodeError(String::from_str(raw))),
            },
            OperationKind::ProductVariant => match materialize_variant(payload) {
                Ok(v) => Ok(QueryResponse { data: ResponseTypes::ProductVariant(v) }),
                Err(e) => Err(with_raw_body(e, raw)),
            },
            OperationKind::ProductVariantUpdate => match unwrap_member(
                payload,
                "productVariant",
            ) {
                Some(pv) => match materialize_variant(pv) {
                    Ok(v) => Ok(
                        QueryResponse {
                            data: ResponseTypes::ProductVariantUpdate { product_variant: v },
                        },
                    ),
                    Err(e) => Err(with_raw_body(e, raw)),
                },
                None => Err(ShopifyGqlError::TransportDecodeError(String::from_str(raw))),
            },
            OperationKind::BulkOperationRunQuery => match unwrap_member(
                payload,
                "bulkOperation",
            ) {
                Some(bv) => match materialize_bulk(bv) {
                    Ok(b) => Ok(
                        QueryResponse {
                            data: ResponseTypes::BulkOperationRunQuery { bulk_operation: b },
                        },
                    ),
                    Err(e) => Err(with_raw_body(e, raw)),
                },
                None => Err(ShopifyGqlError::TransportDecodeError(String::from_str(raw))),
            },
        },
        None => {
            let actual = if obj_get(ds, "product").is_some() {
                Some(OperationKind::Product)
            } else if obj_get(ds, "productUpdate").is_some() {
                Some(OperationKind::ProductUpdate)
            } else if obj_get(ds, "productVariant").is_some() {
                Some(OperationKind::ProductVariant)
            } else if obj_get(ds, "productVariantUpdate").is_some() {
                Some(OperationKind::ProductVariantUpdate)
            } else if obj_get(ds, "bulkOperationRunQuery").is_some() {
                Some(OperationKind::BulkOperationRunQuery)
            } else {
                None
            };
            match actual {
                Some(actual) => Err(ShopifyGqlError::ResponseShapeMismatch { expected, actual }),
                None => Err(ShopifyGqlError::TransportDecodeError(String::from_str(raw))),
            }
        },
    }
}

} // verus!
