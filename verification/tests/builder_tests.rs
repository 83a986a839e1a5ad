use master_data::sql::SqlParam;
use master_data::update_customer::{build_customer_update, UpdateCustomerInput};
use master_data::update_product::{build_product_update, UpdateProductInput};

fn count_occurrences(haystack: &str, needle: &str) -> usize {
    haystack.matches(needle).count()
}

#[test]
fn product_builder_empty_subset_builds_nothing() {
    let input = UpdateProductInput::new(1, None, None, None, None, None);
    assert!(build_product_update(&input).is_none());
}

#[test]
fn product_builder_all_subsets() {
    for mask in 0u32..32 {
        let input = UpdateProductInput::new(
            7,
            if mask & 1 != 0 { Some(String::from("n")) } else { None },
            if mask & 2 != 0 { Some(String::from("c")) } else { None },
            if mask & 4 != 0 { Some(String::from("u")) } else { None },
            if mask & 8 != 0 { Some(5) } else { None },
            if mask & 16 != 0 { Some(6) } else { None },
        );
        let k = mask.count_ones() as usize;
        match build_product_update(&input) {
            None => assert_eq!(k, 0),
            Some(stmt) => {
                assert!(k > 0);
                assert_eq!(stmt.params().len(), k + 1);
                assert!(matches!(stmt.params()[k], SqlParam::Int(7)));
                assert_eq!(count_occurrences(stmt.sql(), " = ?"), k + 1);
                assert_eq!(count_occurrences(stmt.sql(), ","), k - 1);
                assert!(stmt.sql().starts_with("UPDATE m_products SET "));
                assert!(stmt.sql().ends_with(" WHERE id = ?"));
            }
        }
    }
}

#[test]
fn product_builder_declaration_order() {
    let input = UpdateProductInput::new(9, None, Some(String::from("c")), None, None, Some(6));
    let stmt = build_product_update(&input).unwrap();
    assert_eq!(
        stmt.sql(),
        "UPDATE m_products SET code = ?, standard_stock_quantity = ? WHERE id = ?"
    );
    assert_eq!(stmt.params().len(), 3);
    assert!(matches!(&stmt.params()[0], SqlParam::Text(s) if s == "c"));
    assert!(matches!(stmt.params()[1], SqlParam::Int(6)));
    assert!(matches!(stmt.params()[2], SqlParam::Int(9)));
}

#[test]
fn product_builder_full_subset() {
    let input = UpdateProductInput::new(
        3,
        Some(String::from("n")),
        Some(String::from("c")),
        Some(String::from("u")),
        Some(4),
        Some(5),
    );
    let stmt = build_product_update(&input).unwrap();
    assert_eq!(
        stmt.sql(),
        "UPDATE m_products SET name = ?, code = ?, unit = ?, default_price = ?, \
         standard_stock_quantity = ? WHERE id = ?"
    );
    assert_eq!(stmt.params().len(), 6);
}

#[test]
fn product_builder_value_resembling_separator_stays_out_of_text() {
    let tricky = UpdateProductInput::new(2, Some(String::from("x = ?, y")), None, None, None, None);
    let stmt = build_product_update(&tricky).unwrap();
    assert_eq!(stmt.sql(), "UPDATE m_products SET name = ? WHERE id = ?");
    assert!(matches!(&stmt.params()[0], SqlParam::Text(s) if s == "x = ?, y"));
}

#[test]
fn customer_builder_empty_subset_builds_nothing() {
    let input = UpdateCustomerInput::new(1, None, None, None);
    assert!(build_customer_update(&input).is_none());
}

#[test]
fn customer_builder_all_subsets() {
    for mask in 0u32..8 {
        let input = UpdateCustomerInput::new(
            11,
            if mask & 1 != 0 { Some(String::from("n")) } else { None },
            if mask & 2 != 0 { Some(42) } else { None },
            if mask & 4 != 0 { Some(String::from("a")) } else { None },
        );
        let k = mask.count_ones() as usize;
        match build_customer_update(&input) {
            None => assert_eq!(k, 0),
            Some(stmt) => {
                assert!(k > 0);
                assert_eq!(stmt.params().len(), k + 1);
                assert!(matches!(stmt.params()[k], SqlParam::Int(11)));
                assert_eq!(count_occurrences(stmt.sql(), " = ?"), k + 1);
                assert_eq!(count_occurrences(stmt.sql(), ","), k - 1);
                assert!(stmt.sql().starts_with("UPDATE m_customers SET "));
                assert!(stmt.sql().ends_with(" WHERE id = ?"));
            }
        }
    }
}

#[test]
fn customer_builder_declaration_order() {
    let input = UpdateCustomerInput::new(
        8,
        Some(String::from("sample")),
        None,
        Some(String::from("Tokyo")),
    );
    let stmt = build_customer_update(&input).unwrap();
    assert_eq!(
        stmt.sql(),
        "UPDATE m_customers SET name = ?, address = ? WHERE id = ?"
    );
    assert_eq!(stmt.params().len(), 3);
    assert!(matches!(&stmt.params()[0], SqlParam::Text(s) if s == "sample"));
    assert!(matches!(&stmt.params()[1], SqlParam::Text(s) if s == "Tokyo"));
    assert!(matches!(stmt.params()[2], SqlParam::Int(8)));
}
