use master_data::create_customer::CreateCustomerInput;
use master_data::customer_repository::CustomerRepository;

#[test]
fn customer_repository_find_by_id_test() {
    let mut repository = CustomerRepository::new();
    let input = CreateCustomerInput::new(String::from("sample.inc"), 1234567, String::from("東京都"));
    let result = repository.create(input, 1_700_000_000);

    assert_eq!(result.customer_id(), 1);
}

#[test]
fn customer_repository_create_test() {
    let mut repository = CustomerRepository::new();
    let input = CreateCustomerInput::new(String::from("sample.inc"), 1234567, String::from("東京都"));
    let result = repository.create(input, 1_700_000_000);
    let customer = repository.find_by_id(&result.customer_id());

    assert_eq!(customer.is_some(), true);
}
