use master_data::create_product::CreateProductInput;
use master_data::product::ProductId;
use master_data::product_repository::ProductRepository;
use master_data::search_product::{SearchProductInput, SearchProductOutput};
use master_data::update_product::UpdateProductInput;
use master_data::UpdateOutcome;

fn seeded_repository() -> ProductRepository {
    let mut repository = ProductRepository::new();
    let input = CreateProductInput::new(
        String::from("商品1"),
        String::from("product001"),
        String::from("個"),
        2000,
        10,
    );
    repository.create(&input, 1_700_000_000);
    repository
}

#[test]
fn find_by_id_product_find_by_id_test() {
    let mut repository = seeded_repository();
    let input = CreateProductInput::new(
        String::from("商品1"),
        String::from("product001"),
        String::from("個"),
        2000,
        10,
    );
    let result = repository.create(&input, 1_700_000_000);
    let product_id = ProductId::new(&result.product_id().value());
    let output = repository.find_by_id(&product_id);

    assert!(output.is_some());
}

#[test]
fn search_product_search_test() {
    let repository = seeded_repository();

    let offset: Option<i64> = None;
    let limit: Option<i64> = None;
    let name: Option<String> = Some(String::from("商品1"));
    let code: Option<String> = None;

    let input = SearchProductInput::new(offset, limit, name, code);
    let outputs = SearchProductOutput::new(repository.search(&input));

    assert_eq!(outputs.products.len(), 1);
}

#[test]
fn update_product_update_test() {
    let mut repository = seeded_repository();

    let input = UpdateProductInput::new(
        1,
        Some(String::from("更新された商品")),
        None,
        None,
        None,
        None,
    );

    let outcome = repository.update(&input);

    assert_eq!(outcome, UpdateOutcome::Executed { rows_affected: 1 });
    let product = repository.find_by_id(&ProductId::new(&1)).unwrap();
    assert_eq!(product.name(), "更新された商品");
}
