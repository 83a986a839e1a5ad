use master_data::create_product::CreateProductInput;
use master_data::product::ProductId;
use master_data::product_repository::ProductRepository;
use master_data::search_product::SearchProductInput;
use master_data::update_product::UpdateProductInput;
use master_data::UpdateOutcome;

fn sample_input() -> CreateProductInput {
    CreateProductInput::new(
        String::from("商品1"),
        String::from("product001"),
        String::from("個"),
        2000,
        10,
    )
}

#[test]
fn product_repository_find_by_id_test() {
    let mut repository = ProductRepository::new();
    let result = repository.create(&sample_input(), 1_700_000_000);
    repository.create(&sample_input(), 1_700_000_000);
    let product_id = ProductId::new(&result.product_id().value());
    let product = repository.find_by_id(&product_id);

    match product {
        Some(product) => {
            assert_eq!(product.code().to_string(), String::from("product001"));
        }
        None => {
            panic!();
        }
    }
}

#[test]
fn product_repository_search_test() {
    let mut repository = ProductRepository::new();
    repository.create(&sample_input(), 1_700_000_000);
    let product_name = String::from("商品1");
    let input = SearchProductInput::new(None, None, Some(product_name), None);
    let products = repository.search(&input);

    assert_eq!(products[0].code().to_string(), String::from("product001"));
}

#[test]
fn product_repository_create_test() {
    let mut repository = ProductRepository::new();
    let result = repository.create(&sample_input(), 1_700_000_000);

    assert_eq!(result.product_id().value(), 1);
}

#[test]
fn product_repository_update_test() {
    let mut repository = ProductRepository::new();
    let create_product_result = repository.create(&sample_input(), 1_700_000_000);
    repository.create(&sample_input(), 1_700_000_000);
    let params = UpdateProductInput::new(
        create_product_result.product_id().value(),
        Some(String::from("商品1更新後")),
        Some(String::from("product001更新後")),
        Some(String::from("個更新後")),
        None,
        None,
    );
    let outcome = repository.update(&params);

    assert_eq!(outcome, UpdateOutcome::Executed { rows_affected: 1 });
    let updated = repository
        .find_by_id(create_product_result.product_id())
        .unwrap();
    assert_eq!(updated.name(), "商品1更新後");
    assert_eq!(updated.code(), "product001更新後");
    assert_eq!(updated.unit(), "個更新後");
    assert_eq!(updated.default_price(), 2000);
    assert_eq!(updated.standard_stock_quantity(), 10);
}

#[test]
fn delete() {
    let mut repository = ProductRepository::new();
    let result = repository.create(&sample_input(), 1_700_000_000);
    let product_id = result.product_id();
    let result = repository.delete(product_id);

    assert_eq!(*result.result(), true);
}
