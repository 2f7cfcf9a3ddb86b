use krx_rs::Client;
use krx_rs::api::general::OilDailyBuilder;
use krx_rs::api::stock::StockDailyBuilder;
use krx_rs::client::{HttpOutcome, classify_response};
use krx_rs::data::deserialize_f64;
use krx_rs::error::Error;
use krx_rs::num::Decimal;

fn pd(s: &str) -> Decimal {
    deserialize_f64(s).unwrap()
}

fn response(status: u16, retry_after: Option<&str>, body: &str) -> HttpOutcome {
    HttpOutcome::Response {
        status,
        retry_after: retry_after.map(|s| s.to_string()),
        body: body.to_string(),
    }
}

#[test]
fn test_client_creation() {
    let client = Client::new("test_auth_key");
    assert_eq!(client.get_base_url(), "http://data-dbg.krx.co.kr/svc/apis");
}

#[test]
fn test_client_builder() {
    let client = Client::builder()
        .auth_key("test_key")
        .base_url("http://test.example.com")
        .timeout(10)
        .user_agent("test-agent")
        .build()
        .unwrap();
    assert_eq!(client.get_base_url(), "http://test.example.com");
    assert_eq!(client.timeout_secs, 10);
    assert_eq!(client.user_agent, "test-agent");
}

#[test]
fn test_client_builder_missing_auth_key() {
    let result = Client::builder().build();
    assert!(matches!(result, Err(Error::InvalidInput(_))));
}

#[test]
fn test_client_builder_rejects_control_chars_in_auth_key() {
    let result = Client::builder().auth_key("bad\nkey").build();
    match result {
        Err(Error::InvalidInput(msg)) => assert_eq!(msg, "Invalid auth_key format"),
        _ => panic!("Expected InvalidInput error"),
    }
}

#[test]
fn test_api_error_404() {
    let outcome = response(404, None, "Not Found");
    match classify_response(outcome) {
        Err(Error::ApiError {
            status_code,
            message,
        }) => {
            assert_eq!(status_code, 404);
            assert_eq!(message, "Not Found");
        }
        _ => panic!("Expected ApiError"),
    }
}

#[test]
fn test_rate_limit_with_header() {
    let outcome = response(429, Some("60"), "");
    match classify_response(outcome) {
        Err(Error::RateLimit { retry_after }) => assert_eq!(retry_after, 60),
        _ => panic!("Expected RateLimit"),
    }
}

#[test]
fn test_rate_limit_without_header_defaults_to_60() {
    let outcome = response(429, None, "");
    match classify_response(outcome) {
        Err(Error::RateLimit { retry_after }) => assert_eq!(retry_after, 60),
        _ => panic!("Expected RateLimit"),
    }
}

#[test]
fn test_rate_limit_with_unreadable_header_defaults_to_60() {
    let outcome = response(429, Some("soon"), "");
    match classify_response(outcome) {
        Err(Error::RateLimit { retry_after }) => assert_eq!(retry_after, 60),
        _ => panic!("Expected RateLimit"),
    }
}

#[test]
fn test_rate_limit_with_custom_header() {
    let outcome = response(429, Some("120"), "");
    match classify_response(outcome) {
        Err(Error::RateLimit { retry_after }) => assert_eq!(retry_after, 120),
        _ => panic!("Expected RateLimit"),
    }
}

#[test]
fn test_network_error_classification() {
    let outcome = HttpOutcome::TransportError("connection refused".to_string());
    match classify_response(outcome) {
        Err(Error::Network(msg)) => assert_eq!(msg, "connection refused"),
        _ => panic!("Expected Network"),
    }
}

#[test]
fn test_parsing_error_carries_exact_body() {
    let body = "this is not json";
    let result = StockDailyBuilder::finish(response(200, None, body));
    match result {
        Err(Error::Parsing { response_body, .. }) => assert_eq!(response_body, body),
        _ => panic!("Expected Parsing"),
    }
}

#[test]
fn test_end_to_end_one_record() {
    let body = r#"{"OutBlock_1":[{"BAS_DD":"20240105","ISU_CD":"005930","ISU_NM":"삼성전자","MKT_NM":"KOSPI","SECT_TP_NM":"우량기업부","TDD_CLSPRC":"75000","CMPPREVDD_PRC":"-500","FLUC_RT":"-0.66","TDD_OPNPRC":"75500","TDD_HGPRC":"75600","TDD_LWPRC":"74900","ACC_TRDVOL":"13,000,000","ACC_TRDVAL":"975000000000","MKTCAP":"447718000000000","LIST_SHRS":"5,969,782,550"}]}"#;

    let table = StockDailyBuilder::finish(response(200, None, body)).unwrap();

    assert_eq!(table.shape(), (1, 15));
    assert_eq!(table.column("종목코드").unwrap().text().unwrap()[0], "005930");
    assert_eq!(table.column("종목명").unwrap().text().unwrap()[0], "삼성전자");
    assert_eq!(table.column("날짜").unwrap().text().unwrap()[0], "2024-01-05");
    assert_eq!(
        table.column("종가").unwrap().dec().unwrap()[0],
        Some(pd("75000"))
    );
    assert_eq!(
        table.column("대비").unwrap().dec().unwrap()[0],
        Some(pd("-500"))
    );
    assert_eq!(
        table.column("등락률").unwrap().dec().unwrap()[0],
        Some(pd("-0.66"))
    );
    // comma-grouped and plain integers decode alike
    assert_eq!(
        table.column("거래량").unwrap().uint().unwrap()[0],
        Some(13000000)
    );
    assert_eq!(
        table.column("거래대금").unwrap().uint().unwrap()[0],
        Some(975000000000)
    );
    assert_eq!(
        table.column("상장주식수").unwrap().uint().unwrap()[0],
        Some(5969782550)
    );
}

#[test]
fn test_end_to_end_sentinel_fields_become_absent() {
    let body = r#"{"OutBlock_1":[{"BAS_DD":"20240105","ISU_CD":"005930","ISU_NM":"삼성전자","MKT_NM":"KOSPI","SECT_TP_NM":"-","TDD_CLSPRC":"-","CMPPREVDD_PRC":"","FLUC_RT":"-","TDD_OPNPRC":"0","TDD_HGPRC":"-","TDD_LWPRC":"-","ACC_TRDVOL":"0","ACC_TRDVAL":"-","MKTCAP":"","LIST_SHRS":"-"}]}"#;

    let table = StockDailyBuilder::finish(response(200, None, body)).unwrap();

    assert_eq!(table.shape(), (1, 15));
    assert!(table.column("종가").unwrap().dec().unwrap()[0].is_none());
    assert!(table.column("대비").unwrap().dec().unwrap()[0].is_none());
    assert!(table.column("등락률").unwrap().dec().unwrap()[0].is_none());
    // a literal "0" decodes as present zero, not as absent
    assert_eq!(
        table.column("시가").unwrap().dec().unwrap()[0],
        Some(pd("0"))
    );
    assert_eq!(table.column("거래량").unwrap().uint().unwrap()[0], Some(0));
    assert!(table.column("거래대금").unwrap().uint().unwrap()[0].is_none());
    assert!(table.column("시가총액").unwrap().uint().unwrap()[0].is_none());
}

#[test]
fn test_end_to_end_empty_array() {
    let body = r#"{"OutBlock_1":[]}"#;

    let table = StockDailyBuilder::finish(response(200, None, body)).unwrap();

    assert_eq!(table.shape(), (0, 0));
}

#[test]
fn test_end_to_end_missing_block_is_a_parsing_error() {
    let body = r#"{"SomethingElse":[]}"#;

    let result = StockDailyBuilder::finish(response(200, None, body));
    match result {
        Err(Error::Parsing { response_body, .. }) => assert_eq!(response_body, body),
        _ => panic!("Expected Parsing"),
    }
}

#[test]
fn test_end_to_end_missing_field_is_a_parsing_error() {
    // the record lacks BAS_DD
    let body = r#"{"OutBlock_1":[{"ISU_CD":"005930"}]}"#;

    let result = StockDailyBuilder::finish(response(200, None, body));
    match result {
        Err(Error::Parsing { response_body, .. }) => assert_eq!(response_body, body),
        _ => panic!("Expected Parsing"),
    }
}

#[test]
fn test_end_to_end_invalid_date_field_is_a_parsing_error() {
    let body = r#"{"OutBlock_1":[{"BAS_DD":"20230229","ISU_CD":"005930","ISU_NM":"삼성전자","MKT_NM":"KOSPI","SECT_TP_NM":"x","TDD_CLSPRC":"-","CMPPREVDD_PRC":"-","FLUC_RT":"-","TDD_OPNPRC":"-","TDD_HGPRC":"-","TDD_LWPRC":"-","ACC_TRDVOL":"-","ACC_TRDVAL":"-","MKTCAP":"-","LIST_SHRS":"-"}]}"#;

    let result = StockDailyBuilder::finish(response(200, None, body));
    assert!(matches!(result, Err(Error::Parsing { .. })));
}

#[test]
fn test_fetch_without_date_is_rejected_before_any_request() {
    let client = Client::new("test_key");
    let builder = client.stock().stock_daily();
    // prepare is the only step that could yield a request to send; it fails
    // with InvalidInput, so no request for this call can ever exist
    let result = builder.prepare();
    match result {
        Err(Error::InvalidInput(msg)) => {
            assert_eq!(msg, "date is required, call `date()` or `latest()`");
        }
        _ => panic!("Expected InvalidInput"),
    }
}

#[test]
fn test_fetch_with_malformed_date_is_rejected_before_any_request() {
    let client = Client::new("test_key");
    for bad in ["2024-01-05", "240105", "2024010a"] {
        let result = client.stock().stock_daily().date(bad).prepare();
        match result {
            Err(Error::InvalidInput(msg)) => {
                assert_eq!(msg, "date must be in YYYYMMDD format");
            }
            _ => panic!("Expected InvalidInput for {bad}"),
        }
    }
    // a calendar-impossible but eight-digit date passes the syntactic layer
    assert!(client.stock().stock_daily().date("20231301").prepare().is_ok());
}

#[test]
fn test_prepare_carries_path_and_date() {
    let client = Client::new("test_key");
    let req = client
        .stock()
        .stock_daily()
        .date("20240105")
        .prepare()
        .unwrap();
    assert_eq!(req.path, "/sto/stk_bydd_trd");
    assert_eq!(req.base_date, "20240105");

    let req = client.general().oil_daily().date("20240105").prepare().unwrap();
    assert_eq!(req.path, "/gen/oil_bydd_trd");

    let req = client.esg().sri_bond_info().date("20240105").prepare().unwrap();
    assert_eq!(req.path, "/esg/sri_bond_info");
}

#[test]
fn test_oil_daily_pipeline() {
    let body = r#"{"OutBlock_1":[{"BAS_DD":"20240105","OIL_NM":"경유","WT_AVG_PRC":"1,391.25","WT_DIS_AVG_PRC":"1,350.50","ACC_TRDVOL":"1000000","ACC_TRDVAL":"1391250000"}]}"#;
    let table = OilDailyBuilder::parse_response(body).unwrap();
    assert_eq!(table.shape(), (1, 6));
    assert_eq!(table.column("유종명").unwrap().text().unwrap()[0], "경유");
    assert_eq!(
        table.column("가중평균가격").unwrap().dec().unwrap()[0],
        Some(pd("1391.25"))
    );
    assert_eq!(
        table.column("거래량").unwrap().uint().unwrap()[0],
        Some(1000000)
    );
}
