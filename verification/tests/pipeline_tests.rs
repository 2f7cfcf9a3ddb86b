use krx_rs::api::bond::KtsDailyBuilder;
use krx_rs::api::derivative::OptionsDailyBuilder;
use krx_rs::api::esg::SriBondInfoBuilder;
use krx_rs::api::etp::ElwDailyBuilder;
use krx_rs::api::index::KrxIndexDailyBuilder;
use krx_rs::data::deserialize_f64;
use krx_rs::num::Decimal;

fn pd(s: &str) -> Decimal {
    deserialize_f64(s).unwrap()
}

#[test]
fn test_index_pipeline_two_rows_keep_order() {
    let body = r#"{"OutBlock_1":[
        {"BAS_DD":"20240105","IDX_CLSS":"KRX","IDX_NM":"KRX 300","CLSPRC_IDX":"1,513.23","CMPPREVDD_IDX":"-5.12","FLUC_RT":"-0.34","OPNPRC_IDX":"1,518.35","HGPRC_IDX":"1,520.00","LWPRC_IDX":"1,510.11","ACC_TRDVOL":"350000000","ACC_TRDVAL":"9000000000000","MKTCAP":"2000000000000000"},
        {"BAS_DD":"20240105","IDX_CLSS":"KRX","IDX_NM":"KTOP 30","CLSPRC_IDX":"9,876.54","CMPPREVDD_IDX":"12.34","FLUC_RT":"0.13","OPNPRC_IDX":"9,864.20","HGPRC_IDX":"9,880.00","LWPRC_IDX":"9,860.00","ACC_TRDVOL":"-","ACC_TRDVAL":"-","MKTCAP":"-"}
    ]}"#;
    let t = KrxIndexDailyBuilder::parse_response(body).unwrap();
    assert_eq!(t.shape(), (2, 12));
    // row order equals input order
    assert_eq!(t.column("지수명").unwrap().text().unwrap()[0], "KRX 300");
    assert_eq!(t.column("지수명").unwrap().text().unwrap()[1], "KTOP 30");
    assert_eq!(
        t.column("종가").unwrap().dec().unwrap()[0],
        Some(pd("1513.23"))
    );
    assert_eq!(
        t.column("대비").unwrap().dec().unwrap()[0],
        Some(pd("-5.12"))
    );
    assert!(t.column("거래량").unwrap().uint().unwrap()[1].is_none());
}

#[test]
fn test_bond_kts_pipeline() {
    let body = r#"{"OutBlock_1":[{"BAS_DD":"20240105","ISU_CD":"KR103503GD97","ISU_NM":"국고03625-2509(23-8)","MKT_NM":"국채전문유통시장","GOVBND_ISU_TP_NM":"지표","BND_EXP_TP_NM":"2","CLSPRC":"10,158.0","CLSPRC_YD":"3.381","OPNPRC":"10,157.0","OPNPRC_YD":"3.388","HGPRC":"10,158.5","HGPRC_YD":"3.378","LWPRC":"10,155.5","LWPRC_YD":"3.397","CMPPREVDD_PRC":"-","ACC_TRDVOL":"103000000000","ACC_TRDVAL":"104622050000"}]}"#;
    let t = KtsDailyBuilder::parse_response(body).unwrap();
    assert_eq!(t.shape(), (1, 17));
    assert_eq!(
        t.column("종가").unwrap().dec().unwrap()[0],
        Some(pd("10158.0"))
    );
    assert_eq!(
        t.column("종가수익률").unwrap().dec().unwrap()[0],
        Some(pd("3.381"))
    );
    assert!(t.column("대비").unwrap().dec().unwrap()[0].is_none());
    assert_eq!(
        t.column("거래대금").unwrap().uint().unwrap()[0],
        Some(104622050000)
    );
}

#[test]
fn test_etp_elw_pipeline_keeps_opaque_text() {
    let body = r#"{"OutBlock_1":[{"BAS_DD":"20240105","ISU_CD":"58J297","ISU_NM":"한국JP297삼성전자콜","TDD_CLSPRC":"45","TDD_OPNPRC":"50","TDD_HGPRC":"50","TDD_LWPRC":"45","CMPPREVDD_PRC":"-5","ACC_TRDVOL":"10000","ACC_TRDVAL":"450000","MKTCAP":"450000000","LIST_SHRS":"10000000","ULY_NM":"삼성전자","ULY_PRC":"75,000","CMPPREVDD_PRC_ULY":"-500","FLUC_RT_ULY":"-0.66"}]}"#;
    let t = ElwDailyBuilder::parse_response(body).unwrap();
    assert_eq!(t.shape(), (1, 16));
    // the underlying price is carried as the literal text it arrived as
    assert_eq!(
        t.column("기초자산가격").unwrap().text().unwrap()[0],
        "75,000"
    );
    assert_eq!(
        t.column("기초자산대비").unwrap().dec().unwrap()[0],
        Some(pd("-500"))
    );
}

#[test]
fn test_derivative_options_pipeline_keeps_opaque_prices() {
    let body = r#"{"OutBlock_1":[{"BAS_DD":"20240105","ISU_CD":"201S3250","ISU_NM":"KOSPI200 C 202403 325.0","PROD_NM":"코스피200 옵션","RGHT_TP_NM":"CALL","TDD_CLSPRC":"-","TDD_OPNPRC":"-","TDD_HGPRC":"-","TDD_LWPRC":"-","CMPPREVDD_PRC":"-","ACC_TRDVOL":"0","ACC_TRDVAL":"0","ACC_OPNINT_QTY":"125","IMP_VOLT":"15.30","NXTDD_BAS_PRC":"0.01"}]}"#;
    let t = OptionsDailyBuilder::parse_response(body).unwrap();
    assert_eq!(t.shape(), (1, 12));
    // option price fields stay text, sentinels included
    assert_eq!(t.column("종가").unwrap().text().unwrap()[0], "-");
    assert_eq!(t.column("권리구분").unwrap().text().unwrap()[0], "CALL");
    assert_eq!(
        t.column("미결제약정수량").unwrap().uint().unwrap()[0],
        Some(125)
    );
    assert_eq!(
        t.column("내재변동성").unwrap().dec().unwrap()[0],
        Some(pd("15.30"))
    );
}

#[test]
fn test_esg_sri_bond_pipeline_with_absent_dates() {
    let body = r#"{"OutBlock_1":[{"BAS_DD":"20240105","ISUR_NM":"한국산업은행","ISU_CD":"KR350101GA31","SRI_BND_TP_NM":"녹색채권","ISU_NM":"산금23신녹색0351-1231-1","LIST_DD":"20230102","ISU_DD":"-","REDMPT_DD":"","ISU_RT":"3.51","ISU_AMT":"300,000,000,000","LIST_AMT":"300000000000","BND_TP_NM":"산업금융채권"}]}"#;
    let t = SriBondInfoBuilder::parse_response(body).unwrap();
    assert_eq!(t.shape(), (1, 12));
    assert_eq!(t.column("기준일자").unwrap().text().unwrap()[0], "2024-01-05");
    assert_eq!(
        t.column("상장일").unwrap().opt_text().unwrap()[0],
        Some("2023-01-02".to_string())
    );
    // both sentinels decode to absent dates
    assert_eq!(t.column("발행일").unwrap().opt_text().unwrap()[0], None);
    assert_eq!(t.column("상환일").unwrap().opt_text().unwrap()[0], None);
    assert_eq!(
        t.column("발행금액").unwrap().uint().unwrap()[0],
        Some(300000000000)
    );
}

#[test]
fn test_unknown_record_fields_are_tolerated() {
    // a record may carry more fields than the shape needs
    let body = r#"{"OutBlock_1":[{"BAS_DD":"20240105","IDX_CLSS":"KRX","IDX_NM":"KRX 300","CLSPRC_IDX":"1513.23","CMPPREVDD_IDX":"-5.12","FLUC_RT":"-0.34","OPNPRC_IDX":"1518.35","HGPRC_IDX":"1520.00","LWPRC_IDX":"1510.11","ACC_TRDVOL":"1","ACC_TRDVAL":"1","MKTCAP":"1","SOMETHING_NEW":"ignored"}]}"#;
    let t = KrxIndexDailyBuilder::parse_response(body).unwrap();
    assert_eq!(t.shape(), (1, 12));
}

#[test]
fn test_record_field_of_wrong_json_type_is_a_parsing_error() {
    // the wire convention is all-strings; a bare number breaks the envelope
    let body = r#"{"OutBlock_1":[{"BAS_DD":20240105}]}"#;
    let result = KrxIndexDailyBuilder::parse_response(body);
    assert!(matches!(
        result,
        Err(krx_rs::Error::Parsing { .. })
    ));
}
