use urn_acoustics::decimal::decimal_string;
use urn_acoustics::handlers::{
    alerts_response, broadcast_test_response, gain_curve_frequencies, health_check,
    localizations_response, medium_properties_response, sensor_data_response, ApiResponse,
    PaginationQuery, GAIN_CURVE_POINTS,
};

#[test]
fn ok_response_carries_data() {
    let r = ApiResponse::ok(42u32);
    assert!(r.success);
    assert_eq!(r.data, Some(42));
    assert!(r.error.is_none());
}

#[test]
fn err_response_carries_text() {
    let r: ApiResponse<u32> = ApiResponse::err("boom");
    assert!(!r.success);
    assert!(r.data.is_none());
    assert_eq!(r.error.as_deref(), Some("boom"));
}

#[test]
fn health_check_says_ok() {
    let r = health_check();
    assert!(r.success);
    assert_eq!(r.data.as_deref(), Some("ok"));
    assert!(r.error.is_none());
}

#[test]
fn pagination_defaults() {
    let none = PaginationQuery { limit: None, device_id: None };
    assert_eq!(none.sensor_data_limit(), 100);
    assert_eq!(none.event_limit(), 50);
    let some = PaginationQuery { limit: Some(7), device_id: Some(3) };
    assert_eq!(some.sensor_data_limit(), 7);
    assert_eq!(some.event_limit(), 7);
    let zero = PaginationQuery { limit: Some(0), device_id: None };
    assert_eq!(zero.sensor_data_limit(), 0);
}

#[test]
fn query_answers_pass_rows_through() {
    let r = sensor_data_response::<Vec<u32>>(Ok(vec![1, 2]));
    assert!(r.success);
    assert_eq!(r.data, Some(vec![1, 2]));
    assert!(r.error.is_none());
}

#[test]
fn query_answers_name_the_failure() {
    let e = || Err::<Vec<u32>, String>("connection refused".to_string());
    assert_eq!(
        sensor_data_response(e()).error.as_deref(),
        Some("查询传感器数据失败: connection refused")
    );
    assert_eq!(
        localizations_response(e()).error.as_deref(),
        Some("查询定位结果失败: connection refused")
    );
    assert_eq!(alerts_response(e()).error.as_deref(), Some("查询告警失败: connection refused"));
    assert_eq!(
        medium_properties_response(e()).error.as_deref(),
        Some("查询介质参数失败: connection refused")
    );
    let r = alerts_response(e());
    assert!(!r.success);
    assert!(r.data.is_none());
}

#[test]
fn broadcast_answers() {
    let r = broadcast_test_response(Ok(3));
    assert!(r.success);
    assert_eq!(r.data.as_deref(), Some("已广播给 3 个订阅者"));
    let r = broadcast_test_response(Ok(0));
    assert_eq!(r.data.as_deref(), Some("已广播给 0 个订阅者"));
    let r = broadcast_test_response(Ok(1024));
    assert_eq!(r.data.as_deref(), Some("已广播给 1024 个订阅者"));
    let r = broadcast_test_response(Err("channel closed".to_string()));
    assert!(!r.success);
    assert_eq!(r.error.as_deref(), Some("广播失败: channel closed"));
}

#[test]
fn gain_curve_grid() {
    let f = gain_curve_frequencies();
    assert_eq!(f.len(), GAIN_CURVE_POINTS);
    assert_eq!(f[0], 20);
    assert_eq!(f[1], 30);
    assert_eq!(f[99], 1010);
}

#[test]
fn decimal_rendering() {
    assert_eq!(decimal_string(0), "0");
    assert_eq!(decimal_string(7), "7");
    assert_eq!(decimal_string(10), "10");
    assert_eq!(decimal_string(12345), "12345");
    assert_eq!(decimal_string(u64::MAX), u64::MAX.to_string());
}

#[test]
fn decimal_reads_back() {
    for n in [0u64, 9, 10, 99, 100, 65535, 4294967296, u64::MAX] {
        assert_eq!(decimal_string(n).parse::<u64>().unwrap(), n);
    }
}

#[test]
fn every_answer_is_well_formed() {
    let answers: Vec<ApiResponse<String>> = vec![
        health_check(),
        broadcast_test_response(Ok(2)),
        broadcast_test_response(Err("x".to_string())),
        sensor_data_response(Ok("rows".to_string())),
        sensor_data_response(Err("x".to_string())),
    ];
    for a in answers {
        assert_eq!(a.success, a.data.is_some());
        assert_eq!(a.success, a.error.is_none());
    }
}
