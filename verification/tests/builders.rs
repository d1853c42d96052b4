use shopify_gql::bulk::BulkOperationBuilder;
use shopify_gql::common::{Id, Money, ProductsConnection, WeightUnit};
use shopify_gql::error::ShopifyGqlError;
use shopify_gql::product::{ProductQueryBuilder, ProductStatus};
use shopify_gql::product_variant::ProductVariantQueryBuilder;

#[test]
fn read_selection_compiles_in_insertion_order() {
    let doc = ProductQueryBuilder::product(Id::product("7343141159089").unwrap())
        .title()
        .vendor()
        .compile();
    assert_eq!(
        doc,
        "query { product(id: \"gid://shopify/Product/7343141159089\") { id,title,vendor } }"
    );
}

#[test]
fn same_call_sequence_compiles_identically() {
    let a = ProductQueryBuilder::product(Id::product("7").unwrap())
        .status()
        .title()
        .compile();
    let b = ProductQueryBuilder::product(Id::product("7").unwrap())
        .status()
        .title()
        .compile();
    assert_eq!(a, b);
}

#[test]
fn field_order_follows_first_insertion() {
    let a = ProductQueryBuilder::product(Id::product("7").unwrap())
        .title()
        .vendor()
        .compile();
    let b = ProductQueryBuilder::product(Id::product("7").unwrap())
        .vendor()
        .title()
        .compile();
    assert_eq!(a, "query { product(id: \"gid://shopify/Product/7\") { id,title,vendor } }");
    assert_eq!(b, "query { product(id: \"gid://shopify/Product/7\") { id,vendor,title } }");
    assert_ne!(a, b);
}

#[test]
fn selecting_a_field_twice_is_idempotent() {
    let once = ProductQueryBuilder::product(Id::product("7").unwrap())
        .title()
        .compile();
    let twice = ProductQueryBuilder::product(Id::product("7").unwrap())
        .title()
        .title()
        .compile();
    assert_eq!(once, twice);

    let vonce = ProductVariantQueryBuilder::product_variant(Id::product_variant("9").unwrap())
        .sku()
        .compile();
    let vtwice = ProductVariantQueryBuilder::product_variant(Id::product_variant("9").unwrap())
        .sku()
        .sku()
        .compile();
    assert_eq!(vonce, vtwice);
}

#[test]
fn update_selection_compiles_to_mutation() {
    let doc = ProductQueryBuilder::product_update(Id::product("7343141159089").unwrap())
        .update_title("MY TITLE")
        .unwrap()
        .compile();
    assert_eq!(
        doc,
        "mutation { productUpdate(input: { id: \"gid://shopify/Product/7343141159089\", title: \"MY TITLE\" }) { product { id } } }"
    );
}

#[test]
fn update_inputs_keep_insertion_order() {
    let b = ProductQueryBuilder::product_update(Id::product("7343141159089").unwrap())
        .update_title("MY TITLE")
        .unwrap();
    let inputs = b.inputs().unwrap();
    assert_eq!(inputs.len(), 2);
    assert_eq!(inputs[0], "id: \"gid://shopify/Product/7343141159089\"");
    assert_eq!(inputs[1], "title: \"MY TITLE\"");
}

#[test]
fn update_calls_fail_on_read_builders() {
    let e = ProductQueryBuilder::product(Id::product("7").unwrap())
        .update_title("X")
        .unwrap_err();
    assert!(matches!(e, ShopifyGqlError::BuilderMisuse { ref attempted_call, .. } if attempted_call == "update_title"));

    let e = ProductQueryBuilder::product(Id::product("7").unwrap())
        .update_status(ProductStatus::DRAFT)
        .unwrap_err();
    assert!(matches!(e, ShopifyGqlError::BuilderMisuse { .. }));

    let conn = ProductVariantQueryBuilder::product_variants(ProductsConnection::First(1)).unwrap();
    let e = conn
        .update_sku("12345")
        .unwrap_err();
    assert!(matches!(e, ShopifyGqlError::BuilderMisuse { ref attempted_call, .. } if attempted_call == "update_sku"));

    let read = ProductVariantQueryBuilder::product_variant(Id::product_variant("9").unwrap());
    let e = read
        .update_price(Money::try_from(String::from("10")).unwrap())
        .unwrap_err();
    assert!(matches!(e, ShopifyGqlError::BuilderMisuse { .. }));
}

#[test]
fn connection_bound_must_be_positive() {
    assert!(matches!(
        ProductVariantQueryBuilder::product_variants(ProductsConnection::First(0)),
        Err(ShopifyGqlError::BuilderMisuse { .. })
    ));
    assert!(matches!(
        ProductVariantQueryBuilder::product_variants(ProductsConnection::Last(0)),
        Err(ShopifyGqlError::BuilderMisuse { .. })
    ));
    assert!(ProductVariantQueryBuilder::product_variants(ProductsConnection::Last(3)).is_ok());
}

#[test]
fn embedding_variants_compiles_one_composite_token() {
    let variants = ProductVariantQueryBuilder::product_variants(ProductsConnection::First(1))
        .unwrap()
        .sku()
        .price();
    let doc = ProductQueryBuilder::product(Id::product("7").unwrap())
        .title()
        .variants(variants)
        .unwrap()
        .compile();
    assert_eq!(
        doc,
        "query { product(id: \"gid://shopify/Product/7\") { id,title,variants(first: 1) { edges { node { id,sku,price } } } } }"
    );
}

#[test]
fn embedding_a_product_that_selects_variants_is_a_cycle() {
    let inner_variants =
        ProductVariantQueryBuilder::product_variants(ProductsConnection::First(1)).unwrap();
    let product_with_variants = ProductQueryBuilder::product(Id::product("7").unwrap())
        .variants(inner_variants)
        .unwrap();
    let e = ProductVariantQueryBuilder::product_variant(Id::product_variant("9").unwrap())
        .product(product_with_variants)
        .unwrap_err();
    assert!(matches!(e, ShopifyGqlError::CycleRejected(ref k) if k == "ProductVariant"));
}

#[test]
fn embedding_a_variant_that_selects_its_product_is_a_cycle() {
    let product_sub = ProductQueryBuilder::product(Id::product("7").unwrap()).vendor();
    let variants_with_product =
        ProductVariantQueryBuilder::product_variants(ProductsConnection::First(1))
            .unwrap()
            .product(product_sub)
            .unwrap();
    let e = ProductQueryBuilder::product(Id::product("7").unwrap())
        .variants(variants_with_product)
        .unwrap_err();
    assert!(matches!(e, ShopifyGqlError::CycleRejected(ref k) if k == "Product"));
}

#[test]
fn only_connection_selections_embed_as_variants() {
    let single = ProductVariantQueryBuilder::product_variant(Id::product_variant("9").unwrap());
    let e = ProductQueryBuilder::product(Id::product("7").unwrap())
        .variants(single)
        .unwrap_err();
    assert!(matches!(e, ShopifyGqlError::BuilderMisuse { ref attempted_call, .. } if attempted_call == "variants"));
}

#[test]
fn update_selections_do_not_embed() {
    let upd = ProductQueryBuilder::product_update(Id::product("7").unwrap());
    let e = ProductVariantQueryBuilder::product_variant(Id::product_variant("9").unwrap())
        .product(upd)
        .unwrap_err();
    assert!(matches!(e, ShopifyGqlError::BuilderMisuse { ref attempted_call, .. } if attempted_call == "product"));
}

#[test]
fn variant_read_and_connection_documents() {
    let read = ProductVariantQueryBuilder::product_variant(Id::product_variant("9").unwrap())
        .title()
        .compile();
    assert_eq!(
        read,
        "query { productVariant(id: \"gid://shopify/ProductVariant/9\") { id,title } }"
    );

    let conn = ProductVariantQueryBuilder::product_variants(ProductsConnection::Last(25))
        .unwrap()
        .weight()
        .compile();
    assert_eq!(
        conn,
        "query { productVariant(last: 25) { edges { node { id,weight } } } }"
    );
}

#[test]
fn variant_update_document_renders_all_scalar_kinds() {
    let doc = ProductVariantQueryBuilder::product_variant_update(
        Id::product_variant("42235355201713").unwrap(),
    )
    .update_sku("12345-red")
    .unwrap()
    .update_price(Money::try_from(String::from("42.99")).unwrap())
    .unwrap()
    .update_weight("10.5")
    .unwrap()
    .update_weight_unit(WeightUnit::POUNDS)
    .unwrap()
    .compile();
    assert_eq!(
        doc,
        "mutation { productVariantUpdate(input: { id: \"gid://shopify/ProductVariant/42235355201713\", sku: \"12345-red\", price: 42.99, weight: 10.5, weightUnit: POUNDS }) { productVariant { id } } }"
    );
}

#[test]
fn update_weight_rejects_non_decimal_strings() {
    let b = ProductVariantQueryBuilder::product_variant_update(
        Id::product_variant("9").unwrap(),
    );
    let e = b.update_weight("heavy").unwrap_err();
    assert!(matches!(e, ShopifyGqlError::InvalidScalar(ref raw) if raw == "heavy"));
}

#[test]
fn string_values_are_escaped_in_documents() {
    let doc = ProductQueryBuilder::product_update(Id::product("7").unwrap())
        .update_title("say \"hi\"\\now")
        .unwrap()
        .compile();
    assert_eq!(
        doc,
        "mutation { productUpdate(input: { id: \"gid://shopify/Product/7\", title: \"say \\\"hi\\\"\\\\now\" }) { product { id } } }"
    );
}

#[test]
fn bulk_builder_wraps_an_escaped_document() {
    let inner = ProductQueryBuilder::product_update(Id::product("7").unwrap())
        .update_title("T")
        .unwrap()
        .compile();
    let doc = BulkOperationBuilder::mutation(inner).build();
    assert_eq!(
        doc,
        "mutation { bulkOperationRunMutation(mutation: \"mutation { productUpdate(input: { id: \\\"gid://shopify/Product/7\\\", title: \\\"T\\\" }) { product { id } } }\") { bulkOperation { id status url } } }"
    );

    let inner = ProductQueryBuilder::product(Id::product("7").unwrap())
        .title()
        .compile();
    let doc = BulkOperationBuilder::query(inner).build();
    assert_eq!(
        doc,
        "mutation { bulkOperationRunQuery(query: \"query { product(id: \\\"gid://shopify/Product/7\\\") { id,title } }\") { bulkOperation { id status url } } }"
    );
}
