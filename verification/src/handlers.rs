use vstd::prelude::*;

use crate::decimal::{decimal, push_decimal};
use crate::device::{
    device_from_body, device_lookup, lists_exactly, CreateDeviceBody, DeviceRegistry, UrnDevice,
};

verus! {

/// HTTP status: the request succeeded.
pub const STATUS_OK: u16 = 200;

/// HTTP status: a new resource was registered.
pub const STATUS_CREATED: u16 = 201;

/// HTTP status: the addressed resource does not exist.
pub const STATUS_NOT_FOUND: u16 = 404;

/// HTTP status: the server could not complete the request.
pub const STATUS_INTERNAL_SERVER_ERROR: u16 = 500;

/// The envelope of every answer of the HTTP API: either a successful answer
/// carrying data, or a failed one carrying an error text.
pub struct ApiResponse<T> {
    pub success: bool,
    pub data: Option<T>,
    pub error: Option<String>,
}

impl<T> ApiResponse<T> {
    /// An envelope is well formed when it carries data exactly if it
    /// succeeded and an error text exactly if it failed.
    pub open spec fn well_formed(&self) -> bool {
        &&& self.success == self.data.is_some()
        &&& self.success == self.error.is_none()
    }

    /// The envelope is a success carrying exactly `data`.
    pub open spec fn is_ok_with(&self, data: T) -> bool {
        &&& self.success
        &&& self.data == Some(data)
        &&& self.error.is_none()
    }

    /// The envelope is a failure whose error text is exactly `msg`.
    pub open spec fn is_err_with(&self, msg: Seq<char>) -> bool {
        &&& !self.success
        &&& self.data.is_none()
        &&& self.error matches Some(e) && e@ == msg
    }

    /// A successful answer carrying `data`.
    pub fn ok(data: T) -> (r: Self)
        ensures
            r.is_ok_with(data),
            r.well_formed(),
    {
        ApiResponse { success: true, data: Some(data), error: None }
    }

    /// A failed answer carrying the error text `msg`.
    pub fn err(msg: &str) -> (r: Self)
        ensures
            r.is_err_with(msg@),
            r.well_formed(),
    {
        ApiResponse { success: false, data: None, error: Some(String::from_str(msg)) }
    }
}


/// The query string of the listing endpoints.
pub struct PaginationQuery {
    pub limit: Option<u32>,
    pub device_id: Option<u32>,
}

/// How many recent sensor readings a listing returns unless asked otherwise.
pub const DEFAULT_SENSOR_DATA_LIMIT: u32 = 100;

/// How many recent localizations or alerts a listing returns unless asked
/// otherwise.
pub const DEFAULT_EVENT_LIMIT: u32 = 50;

/// The requested limit, or `default` when none was requested.
pub open spec fn limit_or(q: PaginationQuery, default: u32) -> u32 {
    match q.limit {
        Some(l) => l,
        None => default,
    }
}

impl PaginationQuery {
    /// The number of sensor readings to list.
    pub fn sensor_data_limit(&self) -> (r: u32)
        ensures
            r == limit_or(*self, DEFAULT_SENSOR_DATA_LIMIT),
            self.limit matches Some(l) ==> r == l,
            self.limit is None ==> r == 100,
    {
        match self.limit {
            Some(l) => l,
            None => DEFAULT_SENSOR_DATA_LIMIT,
        }
    }

    /// The number of localizations or alerts to list.
    pub fn event_limit(&self) -> (r: u32)
        ensures
            r == limit_or(*self, DEFAULT_EVENT_LIMIT),
            self.limit matches Some(l) ==> r == l,
            self.limit is None ==> r == 50,
    {
        match self.limit {
            Some(l) => l,
            None => DEFAULT_EVENT_LIMIT,
        }
    }
}

/// A requested limit is used exactly as given, the default applies only
/// when none is requested, and the device filter never changes the limit:
/// sensor readings default to 100, localizations and alerts to 50.
pub proof fn law_listing_limits(q: PaginationQuery, other: PaginationQuery, default: u32)
    ensures
        q.limit matches Some(l) ==> limit_or(q, default) == l,
        q.limit is None ==> limit_or(q, default) == default,
        q.limit == other.limit ==> limit_or(q, default) == limit_or(other, default),
        DEFAULT_SENSOR_DATA_LIMIT == 100,
        DEFAULT_EVENT_LIMIT == 50,
{
}

/// The answer of the health endpoint: success carrying "ok".
pub fn health_check() -> (r: ApiResponse<String>)
    ensures
        r.success,
        r.error.is_none(),
        r.data matches Some(s) && s@ == "ok"@,
        r.well_formed(),
{
    ApiResponse::ok(String::from_str("ok"))
}

/// The answer to a store query: its rows on success, otherwise a failure
/// whose text is `prefix` followed by the store's error text.
fn query_answer<T>(outcome: Result<T, String>, prefix: &str) -> (r: ApiResponse<T>)
    ensures
        r.well_formed(),
        match outcome {
            Ok(rows) => r.is_ok_with(rows),
            Err(e) => r.is_err_with(prefix@ + e@),
        },
{
    match outcome {
        Ok(rows) => ApiResponse::ok(rows),
        Err(e) => {
            let msg = String::from_str(prefix).concat(e.as_str());
            ApiResponse::err(msg.as_str())
        },
    }
}

/// The answer of the sensor-data listing to the store's outcome.
pub fn sensor_data_response<T>(outcome: Result<T, String>) -> (r: ApiResponse<T>)
    ensures
        r.well_formed(),
        match outcome {
            Ok(rows) => r.is_ok_with(rows),
            Err(e) => r.is_err_with("查询传感器数据失败: "@ + e@),
        },
{
    query_answer(outcome, "查询传感器数据失败: ")
}

/// The answer of the localization listing to the store's outcome.
pub fn localizations_response<T>(outcome: Result<T, String>) -> (r: ApiResponse<T>)
    ensures
        r.well_formed(),
        match outcome {
            Ok(rows) => r.is_ok_with(rows),
            Err(e) => r.is_err_with("查询定位结果失败: "@ + e@),
        },
{
    query_answer(outcome, "查询定位结果失败: ")
}

/// The answer of the alert listing to the store's outcome.
pub fn alerts_response<T>(outcome: Result<T, String>) -> (r: ApiResponse<T>)
    ensures
        r.well_formed(),
        match outcome {
            Ok(rows) => r.is_ok_with(rows),
            Err(e) => r.is_err_with("查询告警失败: "@ + e@),
        },
{
    query_answer(outcome, "查询告警失败: ")
}

/// The answer of the medium-property listing to the store's outcome.
pub fn medium_properties_response<T>(outcome: Result<T, String>) -> (r: ApiResponse<T>)
    ensures
        r.well_formed(),
        match outcome {
            Ok(rows) => r.is_ok_with(rows),
            Err(e) => r.is_err_with("查询介质参数失败: "@ + e@),
        },
{
    query_answer(outcome, "查询介质参数失败: ")
}

/// The answer to a device registration: the registry then holds the device
/// described by `body` under its id, replacing any earlier device with that
/// id, and the answer is 201 carrying that device.
pub fn create_device(registry: &mut DeviceRegistry, body: CreateDeviceBody) -> (r: (
    u16,
    ApiResponse<UrnDevice>,
))
    requires
        old(registry).well_formed(),
    ensures
        final(registry).well_formed(),
        final(registry)@ == old(registry)@.insert(body.device_id, device_from_body(body)),
        r.0 == STATUS_CREATED,
        r.1.is_ok_with(device_from_body(body)),
        r.1.well_formed(),
        final(registry)@.contains_key(body.device_id),
        r.1.data matches Some(d) && d == final(registry)@[body.device_id] && d.device_id
            == body.device_id && d.device_name == body.device_name && d.deployment_x
            == body.deployment_x && d.deployment_y == body.deployment_y && d.deployment_z
            == body.deployment_z && d.urn_volume == body.urn_volume && d.neck_radius
            == body.neck_radius && d.neck_length == body.neck_length,
{
    let device = UrnDevice {
        device_id: body.device_id,
        device_name: body.device_name,
        deployment_x: body.deployment_x,
        deployment_y: body.deployment_y,
        deployment_z: body.deployment_z,
        urn_volume: body.urn_volume,
        neck_radius: body.neck_radius,
        neck_length: body.neck_length,
    };
    registry.register(device.duplicate());
    (STATUS_CREATED, ApiResponse::ok(device))
}

/// The answer to a device lookup: 200 carrying the device registered under
/// `device_id`, or 404 with the text "设备不存在" when there is none.
pub fn get_device(registry: &DeviceRegistry, device_id: u32) -> (r: (u16, ApiResponse<UrnDevice>))
    requires
        registry.well_formed(),
    ensures
        r.1.well_formed(),
        match device_lookup(registry@, device_id) {
            Some(d) => r.0 == STATUS_OK && r.1.is_ok_with(d),
            None => r.0 == STATUS_NOT_FOUND && r.1.is_err_with("设备不存在"@),
        },
{
    match registry.lookup(device_id) {
        Some(d) => (STATUS_OK, ApiResponse::ok(d)),
        None => (STATUS_NOT_FOUND, ApiResponse::err("设备不存在")),
    }
}

/// The answer to the device listing: success carrying every registered
/// device exactly once.
pub fn get_devices(registry: &DeviceRegistry) -> (r: ApiResponse<Vec<UrnDevice>>)
    requires
        registry.well_formed(),
    ensures
        r.well_formed(),
        r.success,
        r.data matches Some(ds) && lists_exactly(registry@, ds@),
{
    ApiResponse::ok(registry.devices())
}

/// The answer to a test broadcast: on delivery, success with the text
/// "已广播给 N 个订阅者" naming the number of subscribers reached; otherwise a
/// failure with "广播失败: " followed by the channel's error text.
pub fn broadcast_test_response(outcome: Result<usize, String>) -> (r: ApiResponse<String>)
    ensures
        r.well_formed(),
        match outcome {
            Ok(n) => r.success && (r.data matches Some(s) && s@ == "已广播给 "@ + decimal(n as nat)
                + " 个订阅者"@),
            Err(e) => r.is_err_with("广播失败: "@ + e@),
        },
{
    match outcome {
        Ok(n) => {
            let mut text = String::from_str("已广播给 ");
            push_decimal(&mut text, n as u64);
            text.append(" 个订阅者");
            ApiResponse::ok(text)
        },
        Err(e) => {
            let msg = String::from_str("广播失败: ").concat(e.as_str());
            ApiResponse::err(msg.as_str())
        },
    }
}

/// How many points the resonance calculator's gain curve has.
pub const GAIN_CURVE_POINTS: usize = 100;

/// The frequencies, in hertz, at which the resonance calculator samples the
/// gain curve: 20, 30, ..., 1010.
pub fn gain_curve_frequencies() -> (r: Vec<u32>)
    ensures
        r@.len() == GAIN_CURVE_POINTS,
        forall|i: int| 0 <= i < r@.len() ==> #[trigger] r@[i] == 20 + 10 * i,
{
    let mut r: Vec<u32> = Vec::new();
    let mut i: u32 = 0;
    while i < 100
        invariant
            i <= 100,
            r@.len() == i,
            forall|j: int| 0 <= j < r@.len() ==> #[trigger] r@[j] == 20 + 10 * j,
        decreases 100 - i,
    {
        r.push(20 + i * 10);
        i = i + 1;
    }
    r
}

} // verus!
