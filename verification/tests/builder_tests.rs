use chrono::Local;
use krx_rs::Client;
use krx_rs::api::common::latest_workday_string;

// Mock client for testing builders
fn create_test_client() -> Client {
    Client::builder()
        .auth_key("test_key")
        .base_url("http://test.example.com")
        .build()
        .unwrap()
}

#[test]
fn test_stock_api_kospi_daily_builder() {
    let client = create_test_client();
    let stock_api = client.stock();

    let builder = stock_api.stock_daily();

    let _builder_with_date = builder.date("20240105");

    let client2 = create_test_client();
    let _builder_with_latest = client2.stock().stock_daily().latest();

    let client3 = create_test_client();
    let _chained_builder = client3.stock().stock_daily().date("20240105");
}

#[test]
fn test_stock_api_kosdaq_daily_builder() {
    let client = create_test_client();
    let stock_api = client.stock();

    let builder = stock_api.kosdaq_daily();
    let _builder_with_date = builder.date("20240105");

    let client2 = create_test_client();
    let _chained_builder = client2.stock().kosdaq_daily().latest();
}

#[test]
fn test_stock_api_konex_daily_builder() {
    let client = create_test_client();
    let stock_api = client.stock();

    let builder = stock_api.konex_daily();
    let _builder_with_date = builder.date("20240105");

    let client2 = create_test_client();
    let _chained_builder = client2.stock().konex_daily().date("20231215").latest();
}

#[test]
fn test_stock_api_warrant_and_right_builders() {
    let client = create_test_client();
    let stock_api = client.stock();

    let _warrant_builder = stock_api.stock_warrant_daily().date("20240105");

    let _right_builder = stock_api.stock_right_daily().date("20240105");
}

#[test]
fn test_stock_api_base_info_builders() {
    let client = create_test_client();
    let stock_api = client.stock();

    let _kospi_base_builder = stock_api.stock_base_info().date("20240105");
    let _kosdaq_base_builder = stock_api.kosdaq_base_info().latest();
    let _konex_base_builder = stock_api.konex_base_info().date("20240105");
}

#[test]
fn test_index_api_builders() {
    let client = create_test_client();
    let index_api = client.index();

    let _krx_builder = index_api.krx_daily().date("20240105");

    let _kospi_builder = index_api.kospi_daily().latest();

    let _kosdaq_builder = index_api.kosdaq_daily().date("20240105");

    let _bond_builder = index_api.bond_daily().date("20240105");

    let _derivative_builder = index_api.derivative_daily().date("20240105");
}

#[test]
fn test_bond_api_builders() {
    let client = create_test_client();
    let bond_api = client.bond();

    let _kts_builder = bond_api.kts_daily().date("20240105");

    let _bond_builder = bond_api.bond_daily().latest();

    let _small_bond_builder = bond_api.small_bond_daily().date("20240105");
}

#[test]
fn test_etp_api_builders() {
    let client = create_test_client();
    let etp_api = client.etp();

    let _etf_builder = etp_api.etf_daily().date("20240105");

    let _etn_builder = etp_api.etn_daily().latest();

    let _elw_builder = etp_api.elw_daily().date("20240105");
}

#[test]
fn test_derivative_api_builders() {
    let client = create_test_client();
    let derivative_api = client.derivative();

    let _futures_builder = derivative_api.futures_daily().date("20240105");

    let _equity_stock_futures_builder = derivative_api.equity_stock_futures_daily().latest();

    let _equity_kosdaq_futures_builder = derivative_api
        .equity_kosdaq_futures_daily()
        .date("20240105");

    let _options_builder = derivative_api.options_daily().date("20240105");

    let _equity_stock_options_builder = derivative_api.equity_stock_options_daily().latest();

    let _equity_kosdaq_options_builder = derivative_api
        .equity_kosdaq_options_daily()
        .date("20240105");
}

#[test]
fn test_general_api_builders() {
    let client = create_test_client();
    let general_api = client.general();

    let _oil_builder = general_api.oil_daily().date("20240105");

    let _gold_builder = general_api.gold_daily().latest();

    let _emissions_builder = general_api.emissions_daily().date("20240105");
}

#[test]
fn test_esg_api_builders() {
    let client = create_test_client();
    let esg_api = client.esg();

    let _sri_builder = esg_api.sri_bond_info().latest();
}

#[test]
fn test_builder_date_method_accepts_different_types() {
    let client = create_test_client();

    let _builder1 = client.stock().stock_daily().date(&String::from("20240105"));

    let _builder2 = client.stock().stock_daily().date("20240105");

    let client2 = create_test_client();
    let date_string = "20240105".to_string();
    let _builder3 = client2.stock().stock_daily().date(date_string.as_str());
}

#[test]
fn test_latest_method_consistency() {
    let client = create_test_client();

    let _expected_latest = (Local::now() - chrono::Duration::days(1))
        .format("%Y%m%d")
        .to_string();

    let _builder = client.stock().stock_daily().latest();
    let _builder2 = client.index().krx_daily().latest();
    let _builder3 = client.bond().kts_daily().latest();
}

#[test]
fn test_multiple_api_access() {
    let client = create_test_client();

    let _stock_api = client.stock();
    let _index_api = client.index();
    let _bond_api = client.bond();
    let _etp_api = client.etp();
    let _derivative_api = client.derivative();
    let _general_api = client.general();
    let _esg_api = client.esg();

    let _stock_api2 = client.stock();
    let _builder1 = _stock_api2.stock_daily();
    let _builder2 = _stock_api2.kosdaq_daily();
}

#[test]
fn test_builder_method_chaining_order() {
    let client = create_test_client();

    let _builder1 = client.stock().stock_daily().date("20240105");

    let client2 = create_test_client();
    let _builder2 = client2.stock().stock_daily().latest().date("20240105");

    let client3 = create_test_client();
    let _builder3 = client3
        .index()
        .krx_daily()
        .date("20240101")
        .latest()
        .date("20240105"); // the last call wins
}

#[test]
fn test_kts_daily_builder_creation() {
    let client = Client::new("test_key");
    let builder = client.bond().kts_daily();
    assert!(builder.base_date.is_none());
}

#[test]
fn test_kts_daily_builder_with_date() {
    let client = Client::new("test_key");
    let builder = client.bond().kts_daily().date("20240105");
    assert_eq!(builder.base_date, Some("20240105".to_string()));
}

#[test]
fn test_kts_daily_builder_with_latest() {
    let client = Client::new("test_key");
    let builder = client.bond().kts_daily().latest();
    assert!(builder.base_date.is_some());
    assert_eq!(builder.base_date, Some(latest_workday_string()));
}

#[test]
fn test_bond_daily_builder_creation() {
    let client = Client::new("test_key");
    let builder = client.bond().bond_daily();
    assert!(builder.base_date.is_none());
}

#[test]
fn test_bond_daily_builder_with_date() {
    let client = Client::new("test_key");
    let builder = client.bond().bond_daily().date("20240105");
    assert_eq!(builder.base_date, Some("20240105".to_string()));
}

#[test]
fn test_bond_daily_builder_with_latest() {
    let client = Client::new("test_key");
    let builder = client.bond().bond_daily().latest();
    assert!(builder.base_date.is_some());
    assert_eq!(builder.base_date, Some(latest_workday_string()));
}

#[test]
fn test_small_bond_daily_builder_creation() {
    let client = Client::new("test_key");
    let builder = client.bond().small_bond_daily();
    assert!(builder.base_date.is_none());
}

#[test]
fn test_small_bond_daily_builder_with_date() {
    let client = Client::new("test_key");
    let builder = client.bond().small_bond_daily().date("20240105");
    assert_eq!(builder.base_date, Some("20240105".to_string()));
}

#[test]
fn test_small_bond_daily_builder_with_latest() {
    let client = Client::new("test_key");
    let builder = client.bond().small_bond_daily().latest();
    assert!(builder.base_date.is_some());
    assert_eq!(builder.base_date, Some(latest_workday_string()));
}

#[test]
fn test_bond_api_creation() {
    let client = Client::new("test_key");
    let _bond_api = client.bond();
    // This test ensures BondApi can be created successfully
}

#[test]
fn test_builder_date_overwrite() {
    let client = Client::new("test_key");
    let builder = client.bond().kts_daily().date("20240105").date("20240106");
    assert_eq!(builder.base_date, Some("20240106".to_string()));
}

#[test]
fn test_builder_latest_overwrite() {
    let client = Client::new("test_key");
    let builder = client.bond().kts_daily().date("20240105").latest();
    assert_eq!(builder.base_date, Some(latest_workday_string()));
}

#[test]
fn test_date_overwrites_latest() {
    let client = Client::new("test_key");
    let builder = client.stock().stock_daily().latest().date("20240105");
    assert_eq!(builder.base_date, Some("20240105".to_string()));
}
