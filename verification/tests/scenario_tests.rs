use master_data::create_customer::CreateCustomerInput;
use master_data::create_product::CreateProductInput;
use master_data::customer_repository::CustomerRepository;
use master_data::product::ProductId;
use master_data::product_repository::ProductRepository;
use master_data::search_product::SearchProductInput;
use master_data::sql::SqlParam;
use master_data::update_customer::UpdateCustomerInput;
use master_data::update_product::{build_product_update, UpdateProductInput};
use master_data::UpdateOutcome;

const NOW: i64 = 1_700_000_000;

fn widget_input() -> CreateProductInput {
    CreateProductInput::new(
        String::from("Widget"),
        String::from("W1"),
        String::from("ea"),
        500,
        10,
    )
}

#[test]
fn widget_scenario() {
    let mut repo = ProductRepository::new();
    let created = repo.create(&widget_input(), NOW);
    assert_eq!(created.product_id().value(), 1);

    let update = UpdateProductInput::new(1, Some(String::from("Widget2")), None, None, None, None);
    let stmt = build_product_update(&update).unwrap();
    assert_eq!(stmt.sql(), "UPDATE m_products SET name = ? WHERE id = ?");
    assert_eq!(stmt.params().len(), 2);
    assert!(matches!(&stmt.params()[0], SqlParam::Text(s) if s == "Widget2"));
    assert!(matches!(stmt.params()[1], SqlParam::Int(1)));

    let outcome = repo.update(&update);
    assert_eq!(outcome, UpdateOutcome::Executed { rows_affected: 1 });

    let product = repo.find_by_id(&ProductId::new(&1)).unwrap();
    assert_eq!(product.name(), "Widget2");
    assert_eq!(product.code(), "W1");
    assert_eq!(product.unit(), "ea");
    assert_eq!(product.default_price(), 500);
    assert_eq!(product.standard_stock_quantity(), 10);
}

#[test]
fn create_then_find_round_trip() {
    let mut repo = ProductRepository::new();
    let created = repo.create(&widget_input(), NOW);
    let product = repo.find_by_id(created.product_id()).unwrap();

    assert_eq!(product.id(), 1);
    assert_eq!(product.name(), "Widget");
    assert_eq!(product.code(), "W1");
    assert_eq!(product.unit(), "ea");
    assert_eq!(product.default_price(), 500);
    assert_eq!(product.standard_stock_quantity(), 10);
    assert_eq!(product.created_at(), NOW);
    assert_eq!(product.updated_at(), NOW);
    assert_eq!(*product.deleted_at(), None);
}

#[test]
fn noop_update_is_idempotent() {
    let mut repo = ProductRepository::new();
    repo.create(&widget_input(), NOW);
    let empty = UpdateProductInput::new(1, None, None, None, None, None);

    assert!(build_product_update(&empty).is_none());
    for _ in 0..3 {
        let outcome = repo.update(&empty);
        assert_eq!(outcome, UpdateOutcome::NoFieldsSupplied);
    }
    let product = repo.find_by_id(&ProductId::new(&1)).unwrap();
    assert_eq!(product.name(), "Widget");
    assert_eq!(product.code(), "W1");
}

#[test]
fn update_then_read_leaves_other_rows_alone() {
    let mut repo = ProductRepository::new();
    repo.create(&widget_input(), NOW);
    repo.create(
        &CreateProductInput::new(
            String::from("Gadget"),
            String::from("G1"),
            String::from("ea"),
            900,
            4,
        ),
        NOW,
    );

    let update = UpdateProductInput::new(1, Some(String::from("X")), None, None, None, None);
    repo.update(&update);

    let first = repo.find_by_id(&ProductId::new(&1)).unwrap();
    assert_eq!(first.name(), "X");
    assert_eq!(first.code(), "W1");
    let second = repo.find_by_id(&ProductId::new(&2)).unwrap();
    assert_eq!(second.name(), "Gadget");
    assert_eq!(second.code(), "G1");
}

#[test]
fn update_missing_identity_affects_no_row() {
    let mut repo = ProductRepository::new();
    repo.create(&widget_input(), NOW);
    let update = UpdateProductInput::new(99, Some(String::from("X")), None, None, None, None);
    let outcome = repo.update(&update);

    assert_eq!(outcome, UpdateOutcome::Executed { rows_affected: 0 });
    let product = repo.find_by_id(&ProductId::new(&1)).unwrap();
    assert_eq!(product.name(), "Widget");
}

#[test]
fn empty_string_overwrites() {
    let mut repo = ProductRepository::new();
    repo.create(&widget_input(), NOW);
    let update = UpdateProductInput::new(1, Some(String::new()), None, None, None, None);
    let outcome = repo.update(&update);

    assert_eq!(outcome, UpdateOutcome::Executed { rows_affected: 1 });
    let product = repo.find_by_id(&ProductId::new(&1)).unwrap();
    assert_eq!(product.name(), "");
    assert_eq!(product.code(), "W1");
}

#[test]
fn delete_semantics() {
    let mut repo = ProductRepository::new();
    let created = repo.create(&widget_input(), NOW);

    let missing = repo.delete(&ProductId::new(&99));
    assert_eq!(*missing.result(), false);
    assert!(repo.find_by_id(&ProductId::new(&1)).is_some());

    let removed = repo.delete(created.product_id());
    assert_eq!(*removed.result(), true);
    assert!(repo.find_by_id(&ProductId::new(&1)).is_none());

    let again = repo.delete(&ProductId::new(&1));
    assert_eq!(*again.result(), false);
}

fn seeded_three() -> ProductRepository {
    let mut repo = ProductRepository::new();
    repo.create(
        &CreateProductInput::new(
            String::from("A"),
            String::from("a1"),
            String::from("ea"),
            1,
            1,
        ),
        NOW,
    );
    repo.create(
        &CreateProductInput::new(
            String::from("B"),
            String::from("b1"),
            String::from("ea"),
            2,
            2,
        ),
        NOW,
    );
    repo.create(
        &CreateProductInput::new(
            String::from("A"),
            String::from("a2"),
            String::from("ea"),
            3,
            3,
        ),
        NOW,
    );
    repo
}

#[test]
fn search_defaults_return_everything_in_store_order() {
    let repo = seeded_three();
    let all = repo.search(&SearchProductInput::new(None, None, None, None));
    assert_eq!(all.len(), 3);
    assert_eq!(all[0].code(), "a1");
    assert_eq!(all[1].code(), "b1");
    assert_eq!(all[2].code(), "a2");
}

#[test]
fn search_filters_match_exactly() {
    let repo = seeded_three();
    let named = repo.search(&SearchProductInput::new(
        None,
        None,
        Some(String::from("A")),
        None,
    ));
    assert_eq!(named.len(), 2);
    assert_eq!(named[0].code(), "a1");
    assert_eq!(named[1].code(), "a2");

    let both = repo.search(&SearchProductInput::new(
        None,
        None,
        Some(String::from("A")),
        Some(String::from("a2")),
    ));
    assert_eq!(both.len(), 1);
    assert_eq!(both[0].code(), "a2");

    let none = repo.search(&SearchProductInput::new(
        None,
        None,
        Some(String::from("Z")),
        None,
    ));
    assert_eq!(none.len(), 0);
}

#[test]
fn search_pagination() {
    let repo = seeded_three();
    let page = repo.search(&SearchProductInput::new(Some(1), Some(1), None, None));
    assert_eq!(page.len(), 1);
    assert_eq!(page[0].code(), "b1");

    let beyond = repo.search(&SearchProductInput::new(Some(5), None, None, None));
    assert_eq!(beyond.len(), 0);

    let zero_limit = repo.search(&SearchProductInput::new(None, Some(0), None, None));
    assert_eq!(zero_limit.len(), 0);

    let negative_limit = repo.search(&SearchProductInput::new(None, Some(-1), None, None));
    assert_eq!(negative_limit.len(), 3);

    let negative_offset = repo.search(&SearchProductInput::new(Some(-3), Some(2), None, None));
    assert_eq!(negative_offset.len(), 2);
    assert_eq!(negative_offset[0].code(), "a1");
}

#[test]
fn search_default_limit_is_one_hundred() {
    let mut repo = ProductRepository::new();
    for i in 0..105 {
        repo.create(
            &CreateProductInput::new(
                format!("P{i}"),
                format!("c{i}"),
                String::from("ea"),
                i,
                1,
            ),
            NOW,
        );
    }
    let page = repo.search(&SearchProductInput::new(None, None, None, None));
    assert_eq!(page.len(), 100);
    assert_eq!(page[0].code(), "c0");
    assert_eq!(page[99].code(), "c99");
}

#[test]
fn customer_update_then_read() {
    let mut repo = CustomerRepository::new();
    let created = repo.create(
        CreateCustomerInput::new(String::from("sample.inc"), 1234567, String::from("東京都")),
        NOW,
    );

    let empty = UpdateCustomerInput::new(created.customer_id(), None, None, None);
    assert_eq!(repo.update(&empty), UpdateOutcome::NoFieldsSupplied);

    let update = UpdateCustomerInput::new(
        created.customer_id(),
        Some(String::from("renamed.inc")),
        None,
        None,
    );
    assert_eq!(
        repo.update(&update),
        UpdateOutcome::Executed { rows_affected: 1 }
    );

    let customer = repo.find_by_id(&created.customer_id()).unwrap();
    assert_eq!(customer.name(), "renamed.inc");
    assert_eq!(*customer.postal(), 1234567);
    assert_eq!(customer.address(), "東京都");
}

#[test]
fn customer_find_missing_is_none() {
    let repo = CustomerRepository::new();
    assert!(repo.find_by_id(&1).is_none());
}
