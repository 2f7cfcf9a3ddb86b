use krx_rs::data::ApiResponse;
use krx_rs::data::{bond, derivative, esg, general, index};
use krx_rs::data::esg::{SriBondInfoRecord, parse_sri_bond_info};
use krx_rs::data::{etp, stock};
use krx_rs::data::etp::{EtfDailyRecord, parse_etf_daily};
use krx_rs::data::stock::{
    KospiDailyRecord, StockBaseInfoRecord, parse_kospi_daily, parse_stock_base_info,
};
use krx_rs::data::deserialize_f64;
use krx_rs::date::Date;
use krx_rs::num::Decimal;

fn pd(s: &str) -> Decimal {
    deserialize_f64(s).unwrap()
}

#[test]
fn test_parse_kospi_daily() {
    let record = KospiDailyRecord {
        base_date: Date::from_ymd_opt(2024, 1, 5).unwrap(),
        issue_code: "005930".to_string(),
        issue_name: "삼성전자".to_string(),
        market_name: "KOSPI".to_string(),
        sector_type: "우량기업부".to_string(),
        close_price: Some(pd("79500.0")),
        price_change: Some(pd("100.0")),
        fluctuation_rate: Some(pd("0.13")),
        open_price: Some(pd("79000.0")),
        high_price: Some(pd("80000.0")),
        low_price: Some(pd("78000.0")),
        trading_volume: Some(1000000),
        trading_value: Some(79500000000),
        market_cap: Some(474500000000000),
        listed_shares: Some(5969782550),
    };
    let response = ApiResponse { data: vec![record] };

    let df = parse_kospi_daily(response).unwrap();

    assert_eq!(df.shape(), (1, 15));
    assert_eq!(
        df.column("종가").unwrap().dec().unwrap()[0],
        Some(pd("79500.0"))
    );
}

#[test]
fn test_parse_stock_base_info() {
    let record = StockBaseInfoRecord {
        issue_code: "005930".to_string(),
        issue_short_code: "KR7005930003".to_string(),
        issue_name: "삼성전자".to_string(),
        issue_abbreviation: "삼성전자".to_string(),
        issue_english_name: "SamsungElec".to_string(),
        listing_date: "19750611".to_string(),
        market_type: "KOSPI".to_string(),
        security_group: "주권".to_string(),
        sector_type: "우량기업부".to_string(),
        stock_type: "보통주".to_string(),
        par_value: Some(pd("100.0")),
        listed_shares: Some(5969782550),
    };
    let response = ApiResponse { data: vec![record] };

    let df = parse_stock_base_info(response).unwrap();

    assert_eq!(df.shape(), (1, 12));
    assert_eq!(
        df.column("액면가").unwrap().dec().unwrap()[0],
        Some(pd("100.0"))
    );
    assert_eq!(
        df.column("상장주식수").unwrap().uint().unwrap()[0],
        Some(5969782550)
    );
}

#[test]
fn test_parse_etf_daily() {
    let record = EtfDailyRecord {
        base_date: Date::from_ymd_opt(2024, 1, 5).unwrap(),
        issue_code: "069500".to_string(),
        issue_name: "KODEX 200".to_string(),
        close_price: Some(pd("35000.0")),
        price_change: Some(pd("150.0")),
        fluctuation_rate: Some(pd("0.43")),
        nav: Some(pd("35010.0")),
        open_price: Some(pd("34850.0")),
        high_price: Some(pd("35100.0")),
        low_price: Some(pd("34800.0")),
        trading_volume: Some(1000000),
        trading_value: Some(35000000000),
        market_cap: Some(5000000000000),
        listed_shares: Some(142857142),
        index_indicator_name: "KOSPI 200".to_string(),
        objective_stock_price_index: Some(pd("350.10")),
        index_change: Some(pd("1.50")),
        index_fluctuation_rate: Some(pd("0.43")),
        investment_asset_net_total_amount: Some(5000100000000),
    };
    let response = ApiResponse { data: vec![record] };
    let df = parse_etf_daily(response).unwrap();

    assert_eq!(df.shape(), (1, 19));
    assert_eq!(
        df.column("종가").unwrap().dec().unwrap()[0],
        Some(pd("35000.0"))
    );
    assert_eq!(
        df.column("NAV").unwrap().dec().unwrap()[0],
        Some(pd("35010.0"))
    );
    assert_eq!(
        df.column("기초지수명").unwrap().text().unwrap()[0],
        "KOSPI 200"
    );
}

#[test]
fn test_every_assembler_yields_the_empty_table_for_zero_records() {
    let t = stock::parse_kospi_daily(ApiResponse { data: vec![] }).unwrap();
    assert_eq!(t.shape(), (0, 0));
    let t = stock::parse_kosdaq_daily(ApiResponse { data: vec![] }).unwrap();
    assert_eq!(t.shape(), (0, 0));
    let t = stock::parse_konex_daily(ApiResponse { data: vec![] }).unwrap();
    assert_eq!(t.shape(), (0, 0));
    let t = stock::parse_stock_warrant_daily(ApiResponse { data: vec![] }).unwrap();
    assert_eq!(t.shape(), (0, 0));
    let t = stock::parse_stock_right_daily(ApiResponse { data: vec![] }).unwrap();
    assert_eq!(t.shape(), (0, 0));
    let t = stock::parse_stock_base_info(ApiResponse { data: vec![] }).unwrap();
    assert_eq!(t.shape(), (0, 0));
    let t = index::parse_krx_index_daily(ApiResponse { data: vec![] }).unwrap();
    assert_eq!(t.shape(), (0, 0));
    let t = index::parse_kospi_index_daily(ApiResponse { data: vec![] }).unwrap();
    assert_eq!(t.shape(), (0, 0));
    let t = index::parse_kosdaq_index_daily(ApiResponse { data: vec![] }).unwrap();
    assert_eq!(t.shape(), (0, 0));
    let t = index::parse_bond_index_daily(ApiResponse { data: vec![] }).unwrap();
    assert_eq!(t.shape(), (0, 0));
    let t = index::parse_derivative_index_daily(ApiResponse { data: vec![] }).unwrap();
    assert_eq!(t.shape(), (0, 0));
    let t = bond::parse_bond_daily(ApiResponse { data: vec![] }).unwrap();
    assert_eq!(t.shape(), (0, 0));
    let t = bond::parse_small_bond_daily(ApiResponse { data: vec![] }).unwrap();
    assert_eq!(t.shape(), (0, 0));
    let t = bond::parse_kts_daily(ApiResponse { data: vec![] }).unwrap();
    assert_eq!(t.shape(), (0, 0));
    let t = etp::parse_etf_daily(ApiResponse { data: vec![] }).unwrap();
    assert_eq!(t.shape(), (0, 0));
    let t = etp::parse_etn_daily(ApiResponse { data: vec![] }).unwrap();
    assert_eq!(t.shape(), (0, 0));
    let t = etp::parse_elw_daily(ApiResponse { data: vec![] }).unwrap();
    assert_eq!(t.shape(), (0, 0));
    let t = derivative::parse_futures_daily(ApiResponse { data: vec![] }).unwrap();
    assert_eq!(t.shape(), (0, 0));
    let t = derivative::parse_options_daily(ApiResponse { data: vec![] }).unwrap();
    assert_eq!(t.shape(), (0, 0));
    let t = derivative::parse_equity_stock_futures_daily(ApiResponse { data: vec![] }).unwrap();
    assert_eq!(t.shape(), (0, 0));
    let t = derivative::parse_equity_kosdaq_futures_daily(ApiResponse { data: vec![] }).unwrap();
    assert_eq!(t.shape(), (0, 0));
    let t = derivative::parse_equity_stock_options_daily(ApiResponse { data: vec![] }).unwrap();
    assert_eq!(t.shape(), (0, 0));
    let t = derivative::parse_equity_kosdaq_options_daily(ApiResponse { data: vec![] }).unwrap();
    assert_eq!(t.shape(), (0, 0));
    let t = general::parse_oil_daily(ApiResponse { data: vec![] }).unwrap();
    assert_eq!(t.shape(), (0, 0));
    let t = general::parse_gold_daily(ApiResponse { data: vec![] }).unwrap();
    assert_eq!(t.shape(), (0, 0));
    let t = general::parse_emissions_daily(ApiResponse { data: vec![] }).unwrap();
    assert_eq!(t.shape(), (0, 0));
    let t = esg::parse_sri_bond_info(ApiResponse { data: vec![] }).unwrap();
    assert_eq!(t.shape(), (0, 0));
}

#[test]
fn test_sri_bond_optional_dates_render_iso_or_stay_absent() {
    let record = SriBondInfoRecord {
        base_date: Date::from_ymd_opt(2024, 1, 5).unwrap(),
        issuer_name: "한국산업은행".to_string(),
        issue_code: "KR350101GA31".to_string(),
        sri_bond_type: "녹색채권".to_string(),
        issue_name: "산금23신녹색0351-1231-1".to_string(),
        listing_date: Some(Date::from_ymd_opt(2023, 1, 2).unwrap()),
        issue_date: None,
        redemption_date: Some(Date::from_ymd_opt(2031, 12, 31).unwrap()),
        issue_rate: Some(pd("3.51")),
        issue_amount: Some(300000000000),
        listing_amount: Some(300000000000),
        bond_type: "산업금융채권".to_string(),
    };
    let t = parse_sri_bond_info(ApiResponse { data: vec![record] }).unwrap();
    assert_eq!(t.shape(), (1, 12));
    assert_eq!(
        t.column("상장일").unwrap().opt_text().unwrap()[0],
        Some("2023-01-02".to_string())
    );
    assert_eq!(t.column("발행일").unwrap().opt_text().unwrap()[0], None);
    assert_eq!(
        t.column("상환일").unwrap().opt_text().unwrap()[0],
        Some("2031-12-31".to_string())
    );
}
