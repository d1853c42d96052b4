use shopify_gql::common::{Id, OperationKind, ProductsConnection, WeightUnit};
use shopify_gql::envelope::{decode_response, QueryResponse, ResponseTypes};
use shopify_gql::error::ShopifyGqlError;
use shopify_gql::json::{parse_json, Json};
use shopify_gql::product::{ProductQueryBuilder, ProductStatus};
use shopify_gql::product_variant::ProductVariantQueryBuilder;

fn reply_for(kind: OperationKind) -> &'static str {
    match kind {
        OperationKind::Product => r#"{"data":{"product":{"id":"gid://shopify/Product/1"}}}"#,
        OperationKind::ProductUpdate => {
            r#"{"data":{"productUpdate":{"product":{"id":"gid://shopify/Product/1"}}}}"#
        }
        OperationKind::ProductVariant => {
            r#"{"data":{"productVariant":{"id":"gid://shopify/ProductVariant/2"}}}"#
        }
        OperationKind::ProductVariantUpdate => {
            r#"{"data":{"productVariantUpdate":{"productVariant":{"id":"gid://shopify/ProductVariant/2"}}}}"#
        }
        OperationKind::BulkOperationRunQuery => {
            r#"{"data":{"bulkOperationRunQuery":{"bulkOperation":{"id":"gid://shopify/BulkOperation/3","status":"CREATED","url":null}}}}"#
        }
    }
}

fn all_kinds() -> [OperationKind; 5] {
    [
        OperationKind::Product,
        OperationKind::ProductUpdate,
        OperationKind::ProductVariant,
        OperationKind::ProductVariantUpdate,
        OperationKind::BulkOperationRunQuery,
    ]
}

#[test]
fn dispatch_matrix_rejects_every_wrong_pairing() {
    for tagged in all_kinds() {
        for expected in all_kinds() {
            let r = decode_response(reply_for(tagged), expected);
            if tagged == expected {
                assert!(r.is_ok(), "matching reply failed for {:?}", tagged);
            } else {
                match r {
                    Err(ShopifyGqlError::ResponseShapeMismatch { expected: e, actual: a }) => {
                        assert_eq!(e, expected);
                        assert_eq!(a, tagged);
                    }
                    other => panic!(
                        "expected shape mismatch for {:?}/{:?}, got {:?}",
                        expected,
                        tagged,
                        other.is_ok()
                    ),
                }
            }
        }
    }
}

#[test]
fn dispatch_matrix_materializes_every_matching_pairing() {
    let r = decode_response(reply_for(OperationKind::Product), OperationKind::Product).unwrap();
    assert!(matches!(r.data, ResponseTypes::Product(_)));
    let r = decode_response(
        reply_for(OperationKind::ProductUpdate),
        OperationKind::ProductUpdate,
    )
    .unwrap();
    assert!(matches!(r.data, ResponseTypes::ProductUpdate { .. }));
    let r = decode_response(
        reply_for(OperationKind::ProductVariant),
        OperationKind::ProductVariant,
    )
    .unwrap();
    assert!(matches!(r.data, ResponseTypes::ProductVariant(_)));
    let r = decode_response(
        reply_for(OperationKind::ProductVariantUpdate),
        OperationKind::ProductVariantUpdate,
    )
    .unwrap();
    assert!(matches!(r.data, ResponseTypes::ProductVariantUpdate { .. }));
    let r = decode_response(
        reply_for(OperationKind::BulkOperationRunQuery),
        OperationKind::BulkOperationRunQuery,
    )
    .unwrap();
    match r.data {
        ResponseTypes::BulkOperationRunQuery { bulk_operation } => {
            assert_eq!(bulk_operation.id().inner(), "gid://shopify/BulkOperation/3");
            assert_eq!(bulk_operation.status().tag(), "CREATED");
            assert!(bulk_operation.url().is_none());
        }
        _ => panic!("wrong shape"),
    }
}

#[test]
fn can_run_product_query() {
    let builder = ProductQueryBuilder::product(Id::product("7343141159089").unwrap())
        .status()
        .vendor()
        .title();
    let doc = builder.compile();
    assert_eq!(
        doc,
        "query { product(id: \"gid://shopify/Product/7343141159089\") { id,status,vendor,title } }"
    );

    let reply = r#"{"data":{"product":{"id":"gid://shopify/Product/7343141159089","status":"DRAFT","vendor":"TEST","title":"MY TITLE"}}}"#;
    let res = decode_response(reply, OperationKind::Product).unwrap();
    let prod = match res.data {
        ResponseTypes::Product(p) => p,
        _ => panic!("wrong shape"),
    };
    assert_eq!(prod.id(), &Id::product("7343141159089").unwrap());
    assert_eq!(prod.status().unwrap(), &ProductStatus::DRAFT);
    assert_eq!(prod.vendor().unwrap(), "TEST");
    assert_eq!(prod.title().unwrap(), "MY TITLE");
    assert!(prod.variants().is_none());
}

#[test]
fn can_run_product_query_with_variants() {
    let builder = ProductQueryBuilder::product(Id::product("7343141159089").unwrap())
        .status()
        .vendor()
        .title()
        .variants(
            ProductVariantQueryBuilder::product_variants(ProductsConnection::First(1))
                .unwrap()
                .compare_at_price()
                .inventory_quantity()
                .price()
                .sku()
                .title()
                .weight()
                .weight_unit(),
        )
        .unwrap();
    let doc = builder.compile();
    assert_eq!(
        doc,
        "query { product(id: \"gid://shopify/Product/7343141159089\") { id,status,vendor,title,variants(first: 1) { edges { node { id,compareAtPrice,inventoryQuantity,price,sku,title,weight,weightUnit } } } } }"
    );

    let reply = r#"{"data":{"product":{"id":"gid://shopify/Product/7343141159089","status":"DRAFT","vendor":"TEST","title":"MY TITLE","variants":{"edges":[{"node":{"id":"gid://shopify/ProductVariant/42235355201713","compareAtPrice":"22","inventoryQuantity":10,"price":"42.99","sku":"12345-red","title":"Red","weight":10,"weightUnit":"POUNDS"}}]}}}}"#;
    let res = decode_response(reply, OperationKind::Product).unwrap();
    let prod = match res.data {
        ResponseTypes::Product(p) => p,
        _ => panic!("wrong shape"),
    };
    assert_eq!(prod.id(), &Id::product("7343141159089").unwrap());
    assert_eq!(prod.status().unwrap(), &ProductStatus::DRAFT);
    assert_eq!(prod.vendor().unwrap(), "TEST");
    assert_eq!(prod.title().unwrap(), "MY TITLE");

    let edges = prod.variants().unwrap();
    assert_eq!(edges.len(), 1);
    assert_eq!(edges.to_inner_vec().len(), 1);
    let var = edges.get_node(0);
    assert_eq!(var.id(), &Id::product_variant("42235355201713").unwrap());
    assert_eq!(var.compare_at_price().unwrap().inner(), "22");
    assert_eq!(var.inventory_quantity(), Some(10));
    assert_eq!(var.price().unwrap().inner(), "42.99");
    assert_eq!(var.sku().unwrap(), "12345-red");
    assert_eq!(var.title().unwrap(), "Red");
    assert_eq!(var.weight().unwrap(), "10");
    assert_eq!(var.weight_unit().unwrap(), &WeightUnit::POUNDS);
    assert!(var.product().is_none());
}

#[test]
fn can_update_product() {
    let builder = ProductQueryBuilder::product_update(Id::product("7343141159089").unwrap())
        .update_title("MY TITLE")
        .unwrap()
        .update_vendor("TEST")
        .unwrap()
        .update_status(ProductStatus::DRAFT)
        .unwrap();
    let doc = builder.compile();
    assert_eq!(
        doc,
        "mutation { productUpdate(input: { id: \"gid://shopify/Product/7343141159089\", title: \"MY TITLE\", vendor: \"TEST\", status: DRAFT }) { product { id } } }"
    );

    let reply =
        r#"{"data":{"productUpdate":{"product":{"id":"gid://shopify/Product/7343141159089"}}}}"#;
    let res = decode_response(reply, OperationKind::ProductUpdate).unwrap();
    let prod = match res.data {
        ResponseTypes::ProductUpdate { product } => product,
        _ => panic!("wrong shape"),
    };
    assert_eq!(prod.id(), &Id::product("7343141159089").unwrap());
    assert!(prod.title().is_none());
}

#[test]
fn variant_reply_materializes_nested_product() {
    let reply = r#"{"data":{"productVariant":{"id":"gid://shopify/ProductVariant/2","product":{"id":"gid://shopify/Product/1","vendor":"NTP Dev Env"}}}}"#;
    let res = decode_response(reply, OperationKind::ProductVariant).unwrap();
    let var = match res.data {
        ResponseTypes::ProductVariant(v) => v,
        _ => panic!("wrong shape"),
    };
    let prod = var.product().unwrap();
    assert_eq!(prod.vendor().unwrap(), "NTP Dev Env");
    assert!(prod.title().is_none());
}

#[test]
fn bytes_matching_no_shape_fail_with_the_raw_body() {
    for raw in [
        "",
        "not json",
        "[1,2,3]",
        r#"{"nodata":true}"#,
        r#"{"data":{"somethingElse":{}}}"#,
        r#"{"data":{"product":{"title":"no id"}}}"#,
        r#"{"data":{"product":{"id":"x","title":5}}}"#,
    ] {
        let e = decode_response(raw, OperationKind::Product).unwrap_err();
        assert!(
            matches!(e, ShopifyGqlError::TransportDecodeError(ref b) if b == raw),
            "expected raw-body decode failure for {:?}",
            raw
        );
    }
}

#[test]
fn remote_errors_surface_as_remote_errors() {
    let raw = r#"{"errors":[{"message":"boom"}]}"#;
    let e = decode_response(raw, OperationKind::Product).unwrap_err();
    assert!(matches!(e, ShopifyGqlError::RemoteError(ref b) if b == raw));
}

#[test]
fn scalar_failures_carry_the_offending_string() {
    let raw = r#"{"data":{"product":{"id":"x","status":"UNKNOWN"}}}"#;
    let e = decode_response(raw, OperationKind::Product).unwrap_err();
    assert!(matches!(e, ShopifyGqlError::InvalidScalar(ref t) if t == "UNKNOWN"));

    let raw = r#"{"data":{"productVariant":{"id":"x","price":"cheap"}}}"#;
    let e = decode_response(raw, OperationKind::ProductVariant).unwrap_err();
    assert!(matches!(e, ShopifyGqlError::InvalidScalar(ref t) if t == "cheap"));

    let raw = r#"{"data":{"productVariant":{"id":"x","weightUnit":"STONES"}}}"#;
    let e = decode_response(raw, OperationKind::ProductVariant).unwrap_err();
    assert!(matches!(e, ShopifyGqlError::InvalidScalar(ref t) if t == "STONES"));

    let raw = r#"{"data":{"productVariant":{"id":"x","inventoryQuantity":2147483648}}}"#;
    let e = decode_response(raw, OperationKind::ProductVariant).unwrap_err();
    assert!(matches!(e, ShopifyGqlError::InvalidScalar(_)));
}

#[test]
fn absent_and_null_fields_stay_unset() {
    let raw = r#"{"data":{"product":{"id":"gid://shopify/Product/1","title":null}}}"#;
    let res = decode_response(raw, OperationKind::Product).unwrap();
    let prod = match res.data {
        ResponseTypes::Product(p) => p,
        _ => panic!("wrong shape"),
    };
    assert!(prod.title().is_none());
    assert!(prod.status().is_none());
    assert!(prod.vendor().is_none());
    assert!(prod.variants().is_none());
}

#[test]
fn parser_accepts_the_grammar() {
    assert!(matches!(parse_json("null"), Some(Json::Null)));
    assert!(matches!(parse_json(" true "), Some(Json::Bool(true))));
    assert!(matches!(parse_json("false"), Some(Json::Bool(false))));
    match parse_json("-12.5e+3") {
        Some(Json::Num(t)) => assert_eq!(t, "-12.5e+3"),
        _ => panic!("number"),
    }
    match parse_json(r#""a\"b\\c\nd""#) {
        Some(Json::Str(t)) => assert_eq!(t, "a\"b\\c\nd"),
        _ => panic!("string"),
    }
    match parse_json(" [ 1 , [ ] , { \"k\" : \"v\" } ] ") {
        Some(Json::Arr(items)) => assert_eq!(items.len(), 3),
        _ => panic!("array"),
    }
}

#[test]
fn parser_rejects_what_the_grammar_excludes() {
    for bad in [
        "",
        "nul",
        "tru",
        "{",
        "[1,",
        "[1 2]",
        "{\"k\" 1}",
        "{\"k\":1,}",
        "1 2",
        "\"unterminated",
        r#""bad \x escape""#,
        "\"\\u0041\"",
        "01x",
        "- 1",
        "+1",
    ] {
        assert!(parse_json(bad).is_none(), "expected rejection of {:?}", bad);
    }
}

#[test]
fn decoded_response_is_a_query_response() {
    let res: QueryResponse =
        decode_response(reply_for(OperationKind::Product), OperationKind::Product).unwrap();
    assert!(matches!(res.data, ResponseTypes::Product(_)));
}

#[test]
fn remote_error_takes_precedence_over_data() {
    let raw = r#"{"errors":[{"message":"throttled"}],"data":{"product":{"id":"x"}}}"#;
    let e = decode_response(raw, OperationKind::Product).unwrap_err();
    assert!(matches!(e, ShopifyGqlError::RemoteError(ref b) if b == raw));
}

#[test]
fn escaped_strings_decode_through_the_envelope() {
    let raw = r#"{"data":{"product":{"id":"gid://shopify/Product/1","title":"say \"hi\"\nto\ta\\b"}}}"#;
    let res = decode_response(raw, OperationKind::Product).unwrap();
    let prod = match res.data {
        ResponseTypes::Product(p) => p,
        _ => panic!("wrong shape"),
    };
    assert_eq!(prod.title().unwrap(), "say \"hi\"\nto\ta\\b");
}

#[test]
fn edges_hand_out_nodes_in_reply_order() {
    let raw = r#"{"data":{"product":{"id":"gid://shopify/Product/1","variants":{"edges":[{"node":{"id":"gid://shopify/ProductVariant/1","sku":"a"}},{"node":{"id":"gid://shopify/ProductVariant/2","sku":"b"}}]}}}}"#;
    let res = decode_response(raw, OperationKind::Product).unwrap();
    let prod = match res.data {
        ResponseTypes::Product(p) => p,
        _ => panic!("wrong shape"),
    };
    let edges = prod.variants().unwrap();
    assert_eq!(edges.len(), 2);
    let nodes = edges.to_inner_vec();
    assert_eq!(nodes[0].sku().unwrap(), "a");
    assert_eq!(nodes[1].sku().unwrap(), "b");
    assert_eq!(edges.get_node(1).sku().unwrap(), "b");
}

#[test]
fn numeric_fields_keep_sign_and_lexeme() {
    let raw = r#"{"data":{"productVariant":{"id":"x","inventoryQuantity":-5,"weight":"#;
    let raw = format!("{}{}", raw, "1.5e2}}}");
    let res = decode_response(&raw, OperationKind::ProductVariant).unwrap();
    let var = match res.data {
        ResponseTypes::ProductVariant(v) => v,
        _ => panic!("wrong shape"),
    };
    assert_eq!(var.inventory_quantity(), Some(-5));
    assert_eq!(var.weight().unwrap(), "1.5e2");
}
