use vstd::prelude::*;

use crate::json::{obj_get, get_field, JsonNumber, JsonValue};

verus! {

// What a response object holds under one key, read the way the typed
// response fields need it. `None` stands for a shape mismatch.
/// A required integer field.
pub open spec fn field_int(v: JsonValue, key: Seq<char>) -> Option<i64> {
    match obj_get(v, key) {
        Some(JsonValue::Num(JsonNumber::Int(i))) => Some(i),
        _ => None,
    }
}

/// A required text field.
pub open spec fn field_text(v: JsonValue, key: Seq<char>) -> Option<String> {
    match obj_get(v, key) {
        Some(JsonValue::Text(s)) => Some(s),
        _ => None,
    }
}

/// A required numeric field, of either unit scale.
pub open spec fn field_num(v: JsonValue, key: Seq<char>) -> Option<JsonNumber> {
    match obj_get(v, key) {
        Some(JsonValue::Num(n)) => Some(n),
        _ => None,
    }
}

/// An optional numeric field: a missing key and a null both read as
/// unset; any other non-numeric value is a shape mismatch.
pub open spec fn field_opt_num(v: JsonValue, key: Seq<char>) -> Option<Option<JsonNumber>> {
    match obj_get(v, key) {
        None => Some(None),
        Some(JsonValue::Null) => Some(None),
        Some(JsonValue::Num(n)) => Some(Some(n)),
        Some(_) => None,
    }
}

pub fn get_int(v: &JsonValue, key: &str) -> (r: Option<i64>)
    ensures
        r == field_int(*v, key@),
{
    match get_field(v, key) {
        Some(JsonValue::Num(JsonNumber::Int(i))) => Some(*i),
        _ => None,
    }
}

pub fn get_text(v: &JsonValue, key: &str) -> (r: Option<String>)
    ensures
        r == field_text(*v, key@),
{
    match get_field(v, key) {
        Some(JsonValue::Text(s)) => Some(s.clone()),
        _ => None,
    }
}

pub fn get_num(v: &JsonValue, key: &str) -> (r: Option<JsonNumber>)
    ensures
        r == field_num(*v, key@),
{
    match get_field(v, key) {
        Some(JsonValue::Num(n)) => Some(n.dup()),
        _ => None,
    }
}

pub fn get_opt_num(v: &JsonValue, key: &str) -> (r: Option<Option<JsonNumber>>)
    ensures
        r == field_opt_num(*v, key@),
{
    match get_field(v, key) {
        None => Some(None),
        Some(JsonValue::Null) => Some(None),
        Some(JsonValue::Num(n)) => Some(Some(n.dup())),
        Some(_) => None,
    }
}

/// The system information block. Every field is required; the
/// geolocation readings may be of either numeric shape.
#[derive(Debug, PartialEq)]
pub struct SystemGetSysInfoResponse {
    pub errcode: i64,
    pub sw_ver: String,
    pub hw_ver: String,
    pub hw_type: String,
    pub model: String,
    pub mac: String,
    pub device_id: String,
    pub hw_id: String,
    pub fw_id: String,
    pub oem_id: String,
    pub alias: String,
    pub dev_name: String,
    pub icon_hash: String,
    pub relay_state: i64,
    pub on_time: i64,
    pub active_mode: String,
    pub feature: String,
    pub updating: i64,
    pub rssi: i64,
    pub led_off: i64,
    pub latitude: JsonNumber,
    pub longitude: JsonNumber,
}

pub open spec fn sysinfo_ok(v: JsonValue) -> bool {
    &&& field_int(v, "errcode"@) is Some
    &&& field_text(v, "sw_ver"@) is Some
    &&& field_text(v, "hw_ver"@) is Some
    &&& field_text(v, "type"@) is Some
    &&& field_text(v, "model"@) is Some
    &&& field_text(v, "mac"@) is Some
    &&& field_text(v, "deviceId"@) is Some
    &&& field_text(v, "hwId"@) is Some
    &&& field_text(v, "fwId"@) is Some
    &&& field_text(v, "oemId"@) is Some
    &&& field_text(v, "alias"@) is Some
    &&& field_text(v, "dev_name"@) is Some
    &&& field_text(v, "icon_hash"@) is Some
    &&& field_int(v, "relay_state"@) is Some
    &&& field_int(v, "on_time"@) is Some
    &&& field_text(v, "active_mode"@) is Some
    &&& field_text(v, "feature"@) is Some
    &&& field_int(v, "updating"@) is Some
    &&& field_int(v, "rssi"@) is Some
    &&& field_int(v, "led_off"@) is Some
    &&& field_num(v, "latitude"@) is Some
    &&& field_num(v, "longitude"@) is Some
}

pub open spec fn sysinfo_matches(t: SystemGetSysInfoResponse, v: JsonValue) -> bool {
    &&& Some(t.errcode) == field_int(v, "errcode"@)
    &&& Some(t.sw_ver) == field_text(v, "sw_ver"@)
    &&& Some(t.hw_ver) == field_text(v, "hw_ver"@)
    &&& Some(t.hw_type) == field_text(v, "type"@)
    &&& Some(t.model) == field_text(v, "model"@)
    &&& Some(t.mac) == field_text(v, "mac"@)
    &&& Some(t.device_id) == field_text(v, "deviceId"@)
    &&& Some(t.hw_id) == field_text(v, "hwId"@)
    &&& Some(t.fw_id) == field_text(v, "fwId"@)
    &&& Some(t.oem_id) == field_text(v, "oemId"@)
    &&& Some(t.alias) == field_text(v, "alias"@)
    &&& Some(t.dev_name) == field_text(v, "dev_name"@)
    &&& Some(t.icon_hash) == field_text(v, "icon_hash"@)
    &&& Some(t.relay_state) == field_int(v, "relay_state"@)
    &&& Some(t.on_time) == field_int(v, "on_time"@)
    &&& Some(t.active_mode) == field_text(v, "active_mode"@)
    &&& Some(t.feature) == field_text(v, "feature"@)
    &&& Some(t.updating) == field_int(v, "updating"@)
    &&& Some(t.rssi) == field_int(v, "rssi"@)
    &&& Some(t.led_off) == field_int(v, "led_off"@)
    &&& Some(t.latitude) == field_num(v, "latitude"@)
    &&& Some(t.longitude) == field_num(v, "longitude"@)
}

impl SystemGetSysInfoResponse {
    /// Read the block out of a parsed response document.
    pub fn from_json(v: &JsonValue) -> (r: Option<Self>)
        ensures
            (r is Some) == sysinfo_ok(*v),
            r matches Some(t) ==> sysinfo_matches(t, *v),
    {
        let errcode = match get_int(v, "errcode") {
            Some(x) => x,
            None => return None,
        };
        let sw_ver = match get_text(v, "sw_ver") {
            Some(x) => x,
            None => return None,
        };
        let hw_ver = match get_text(v, "hw_ver") {
            Some(x) => x,
            None => return None,
        };
        let hw_type = match get_text(v, "type") {
            Some(x) => x,
            None => return None,
        };
        let model = match get_text(v, "model") {
            Some(x) => x,
            None => return None,
        };
        let mac = match get_text(v, "mac") {
            Some(x) => x,
            None => return None,
        };
        let device_id = match get_text(v, "deviceId") {
            Some(x) => x,
            None => return None,
        };
        let hw_id = match get_text(v, "hwId") {
            Some(x) => x,
            None => return None,
        };
        let fw_id = match get_text(v, "fwId") {
            Some(x) => x,
            None => return None,
        };
        let oem_id = match get_text(v, "oemId") {
            Some(x) => x,
            None => return None,
        };
        let alias = match get_text(v, "alias") {
            Some(x) => x,
            None => return None,
        };
        let dev_name = match get_text(v, "dev_name") {
            Some(x) => x,
            None => return None,
        };
        let icon_hash = match get_text(v, "icon_hash") {
            Some(x) => x,
            None => return None,
        };
        let relay_state = match get_int(v, "relay_state") {
            Some(x) => x,
            None => return None,
        };
        let on_time = match get_int(v, "on_time") {
            Some(x) => x,
            None => return None,
        };
        let active_mode = match get_text(v, "active_mode") {
            Some(x) => x,
            None => return None,
        };
        let feature = match get_text(v, "feature") {
            Some(x) => x,
            None => return None,
        };
        let updating = match get_int(v, "updating") {
            Some(x) => x,
            None => return None,
        };
        let rssi = match get_int(v, "rssi") {
            Some(x) => x,
            None => return None,
        };
        let led_off = match get_int(v, "led_off") {
            Some(x) => x,
            None => return None,
        };
        let latitude = match get_num(v, "latitude") {
            Some(x) => x,
            None => return None,
        };
        let longitude = match get_num(v, "longitude") {
            Some(x) => x,
            None => return None,
        };
        Some(
            SystemGetSysInfoResponse {
                errcode,
                sw_ver,
                hw_ver,
                hw_type,
                model,
                mac,
                device_id,
                hw_id,
                fw_id,
                oem_id,
                alias,
                dev_name,
                icon_hash,
                relay_state,
                on_time,
                active_mode,
                feature,
                updating,
                rssi,
                led_off,
                latitude,
                longitude,
            },
        )
    }
}

/// The system namespace of a response.
#[derive(Debug, PartialEq)]
pub struct SystemResponse {
    pub get_sysinfo: SystemGetSysInfoResponse,
}

pub open spec fn system_ok(v: JsonValue) -> bool {
    match obj_get(v, "get_sysinfo"@) {
        Some(w) => sysinfo_ok(w),
        None => false,
    }
}

pub open spec fn system_matches(t: SystemResponse, v: JsonValue) -> bool {
    match obj_get(v, "get_sysinfo"@) {
        Some(w) => sysinfo_matches(t.get_sysinfo, w),
        None => false,
    }
}

impl SystemResponse {
    /// Read the block out of a parsed response document.
    pub fn from_json(v: &JsonValue) -> (r: Option<Self>)
        ensures
            (r is Some) == system_ok(*v),
            r matches Some(t) ==> system_matches(t, *v),
    {
        match get_field(v, "get_sysinfo") {
            Some(w) => match SystemGetSysInfoResponse::from_json(w) {
                Some(x) => Some(SystemResponse { get_sysinfo: x }),
                None => None,
            },
            None => None,
        }
    }
}

/// The instantaneous energy-meter readings. Every reading is optional:
/// devices omit the scale they do not use, or the whole set.
#[derive(Debug, PartialEq)]
pub struct EmeterGetRealtimeResponse {
    pub current: Option<JsonNumber>,
    pub current_ma: Option<JsonNumber>,
    pub voltage: Option<JsonNumber>,
    pub voltage_mv: Option<JsonNumber>,
    pub power: Option<JsonNumber>,
    pub power_mw: Option<JsonNumber>,
    pub total: Option<JsonNumber>,
    pub total_wh: Option<JsonNumber>,
    pub err_code: i64,
}

pub open spec fn realtime_ok(v: JsonValue) -> bool {
    &&& field_opt_num(v, "current"@) is Some
    &&& field_opt_num(v, "current_ma"@) is Some
    &&& field_opt_num(v, "voltage"@) is Some
    &&& field_opt_num(v, "voltage_mv"@) is Some
    &&& field_opt_num(v, "power"@) is Some
    &&& field_opt_num(v, "power_mw"@) is Some
    &&& field_opt_num(v, "total"@) is Some
    &&& field_opt_num(v, "total_wh"@) is Some
    &&& field_int(v, "err_code"@) is Some
}

pub open spec fn realtime_matches(t: EmeterGetRealtimeResponse, v: JsonValue) -> bool {
    &&& Some(t.current) == field_opt_num(v, "current"@)
    &&& Some(t.current_ma) == field_opt_num(v, "current_ma"@)
    &&& Some(t.voltage) == field_opt_num(v, "voltage"@)
    &&& Some(t.voltage_mv) == field_opt_num(v, "voltage_mv"@)
    &&& Some(t.power) == field_opt_num(v, "power"@)
    &&& Some(t.power_mw) == field_opt_num(v, "power_mw"@)
    &&& Some(t.total) == field_opt_num(v, "total"@)
    &&& Some(t.total_wh) == field_opt_num(v, "total_wh"@)
    &&& Some(t.err_code) == field_int(v, "err_code"@)
}

impl EmeterGetRealtimeResponse {
    /// Read the block out of a parsed response document.
    pub fn from_json(v: &JsonValue) -> (r: Option<Self>)
        ensures
            (r is Some) == realtime_ok(*v),
            r matches Some(t) ==> realtime_matches(t, *v),
    {
        let current = match get_opt_num(v, "current") {
            Some(x) => x,
            None => return None,
        };
        let current_ma = match get_opt_num(v, "current_ma") {
            Some(x) => x,
            None => return None,
        };
        let voltage = match get_opt_num(v, "voltage") {
            Some(x) => x,
            None => return None,
        };
        let voltage_mv = match get_opt_num(v, "voltage_mv") {
            Some(x) => x,
            None => return None,
        };
        let power = match get_opt_num(v, "power") {
            Some(x) => x,
            None => return None,
        };
        let power_mw = match get_opt_num(v, "power_mw") {
            Some(x) => x,
            None => return None,
        };
        let total = match get_opt_num(v, "total") {
            Some(x) => x,
            None => return None,
        };
        let total_wh = match get_opt_num(v, "total_wh") {
            Some(x) => x,
            None => return None,
        };
        let err_code = match get_int(v, "err_code") {
            Some(x) => x,
            None => return None,
        };
        Some(
            EmeterGetRealtimeResponse {
                current,
                current_ma,
                voltage,
                voltage_mv,
                power,
                power_mw,
                total,
                total_wh,
                err_code,
            },
        )
    }
}

/// The energy-meter calibration gains.
#[derive(Debug, PartialEq)]
pub struct EmeterGetVGainIGainResponse {
    pub vgain: i64,
    pub igain: i64,
    pub err_code: i64,
}

pub open spec fn vgain_ok(v: JsonValue) -> bool {
    &&& field_int(v, "vgain"@) is Some
    &&& field_int(v, "igain"@) is Some
    &&& field_int(v, "err_code"@) is Some
}

pub open spec fn vgain_matches(t: EmeterGetVGainIGainResponse, v: JsonValue) -> bool {
    &&& Some(t.vgain) == field_int(v, "vgain"@)
    &&& Some(t.igain) == field_int(v, "igain"@)
    &&& Some(t.err_code) == field_int(v, "err_code"@)
}

impl EmeterGetVGainIGainResponse {
    /// Read the block out of a parsed response document.
    pub fn from_json(v: &JsonValue) -> (r: Option<Self>)
        ensures
            (r is Some) == vgain_ok(*v),
            r matches Some(t) ==> vgain_matches(t, *v),
    {
        let vgain = match get_int(v, "vgain") {
            Some(x) => x,
            None => return None,
        };
        let igain = match get_int(v, "igain") {
            Some(x) => x,
            None => return None,
        };
        let err_code = match get_int(v, "err_code") {
            Some(x) => x,
            None => return None,
        };
        Some(EmeterGetVGainIGainResponse { vgain, igain, err_code })
    }
}

/// One day's energy aggregate.
#[derive(Debug, PartialEq)]
pub struct EmeterGetDaystatItem {
    pub year: i64,
    pub month: i64,
    pub day: i64,
    pub energy: JsonNumber,
}

pub open spec fn item_ok(v: JsonValue) -> bool {
    &&& field_int(v, "year"@) is Some
    &&& field_int(v, "month"@) is Some
    &&& field_int(v, "day"@) is Some
    &&& field_num(v, "energy"@) is Some
}

pub open spec fn item_matches(t: EmeterGetDaystatItem, v: JsonValue) -> bool {
    &&& Some(t.year) == field_int(v, "year"@)
    &&& Some(t.month) == field_int(v, "month"@)
    &&& Some(t.day) == field_int(v, "day"@)
    &&& Some(t.energy) == field_num(v, "energy"@)
}

impl EmeterGetDaystatItem {
    /// Read one aggregate out of a parsed response document.
    pub fn from_json(v: &JsonValue) -> (r: Option<Self>)
        ensures
            (r is Some) == item_ok(*v),
            r matches Some(t) ==> item_matches(t, *v),
    {
        let year = match get_int(v, "year") {
            Some(x) => x,
            None => return None,
        };
        let month = match get_int(v, "month") {
            Some(x) => x,
            None => return None,
        };
        let day = match get_int(v, "day") {
            Some(x) => x,
            None => return None,
        };
        let energy = match get_num(v, "energy") {
            Some(x) => x,
            None => return None,
        };
        Some(EmeterGetDaystatItem { year, month, day, energy })
    }
}

/// The daily aggregates block.
#[derive(Debug, PartialEq)]
pub struct EmeterGetDaystatResponse {
    pub day_list: Vec<EmeterGetDaystatItem>,
    pub err_code: i64,
}

/// The list of aggregates a daystat block carries, if it is a list.
pub open spec fn day_arr(v: JsonValue) -> Option<Vec<JsonValue>> {
    match obj_get(v, "day_list"@) {
        Some(JsonValue::Arr(a)) => Some(a),
        _ => None,
    }
}

pub open spec fn items_ok(s: Seq<JsonValue>) -> bool {
    forall|i: int| 0 <= i < s.len() ==> item_ok(#[trigger] s[i])
}

pub open spec fn daystat_ok(v: JsonValue) -> bool {
    &&& match day_arr(v) {
        Some(a) => items_ok(a@),
        None => false,
    }
    &&& field_int(v, "err_code"@) is Some
}

pub open spec fn daystat_matches(t: EmeterGetDaystatResponse, v: JsonValue) -> bool {
    &&& match day_arr(v) {
        Some(a) => t.day_list@.len() == a@.len() && (forall|i: int|
            0 <= i < a@.len() ==> item_matches(#[trigger] t.day_list@[i], a@[i])),
        None => false,
    }
    &&& Some(t.err_code) == field_int(v, "err_code"@)
}

impl EmeterGetDaystatResponse {
    /// Read the block out of a parsed response document.
    pub fn from_json(v: &JsonValue) -> (r: Option<Self>)
        ensures
            (r is Some) == daystat_ok(*v),
            r matches Some(t) ==> daystat_matches(t, *v),
    {
        let arr = match get_field(v, "day_list") {
            Some(JsonValue::Arr(a)) => a,
            _ => {
                return None;
            },
        };
        let ghost varr = day_arr(*v);
        let mut day_list: Vec<EmeterGetDaystatItem> = Vec::new();
        let mut i: usize = 0;
        while i < arr.len()
            invariant
                i <= arr@.len(),
                day_arr(*v) == Some(*arr),
                day_list@.len() == i,
                forall|j: int| 0 <= j < i ==> item_ok(#[trigger] arr@[j]),
                forall|j: int| 0 <= j < i ==> item_matches(#[trigger] day_list@[j], arr@[j]),
            decreases arr@.len() - i,
        {
            match EmeterGetDaystatItem::from_json(&arr[i]) {
                Some(it) => day_list.push(it),
                None => {
                    return None;
                },
            }
            i = i + 1;
        }
        let err_code = match get_int(v, "err_code") {
            Some(x) => x,
            None => return None,
        };
        Some(EmeterGetDaystatResponse { day_list, err_code })
    }
}

/// The energy-meter namespace of a response. Every block is optional.
#[derive(Debug, PartialEq)]
pub struct EmeterResponse {
    pub get_realtime: Option<EmeterGetRealtimeResponse>,
    pub get_vgain_igain: Option<EmeterGetVGainIGainResponse>,
    pub get_daystat: Option<EmeterGetDaystatResponse>,
}

pub open spec fn emeter_ok(v: JsonValue) -> bool {
    &&& v is Obj
    &&& match obj_get(v, "get_realtime"@) {
        None => true,
        Some(JsonValue::Null) => true,
        Some(w) => realtime_ok(w),
    }
    &&& match obj_get(v, "get_vgain_igain"@) {
        None => true,
        Some(JsonValue::Null) => true,
        Some(w) => vgain_ok(w),
    }
    &&& match obj_get(v, "get_daystat"@) {
        None => true,
        Some(JsonValue::Null) => true,
        Some(w) => daystat_ok(w),
    }
}

pub open spec fn emeter_matches(t: EmeterResponse, v: JsonValue) -> bool {
    &&& match obj_get(v, "get_realtime"@) {
        None => t.get_realtime is None,
        Some(JsonValue::Null) => t.get_realtime is None,
        Some(w) => match t.get_realtime {
            Some(x) => realtime_matches(x, w),
            None => false,
        },
    }
    &&& match obj_get(v, "get_vgain_igain"@) {
        None => t.get_vgain_igain is None,
        Some(JsonValue::Null) => t.get_vgain_igain is None,
        Some(w) => match t.get_vgain_igain {
            Some(x) => vgain_matches(x, w),
            None => false,
        },
    }
    &&& match obj_get(v, "get_daystat"@) {
        None => t.get_daystat is None,
        Some(JsonValue::Null) => t.get_daystat is None,
        Some(w) => match t.get_daystat {
            Some(x) => daystat_matches(x, w),
            None => false,
        },
    }
}

impl EmeterResponse {
    /// Read the block out of a parsed response document.
    pub fn from_json(v: &JsonValue) -> (r: Option<Self>)
        ensures
            (r is Some) == emeter_ok(*v),
            r matches Some(t) ==> emeter_matches(t, *v),
    {
        if !(matches!(v, JsonValue::Obj(_))) {
            return None;
        }
        let get_realtime = match get_field(v, "get_realtime") {
            None => None,
            Some(JsonValue::Null) => None,
            Some(w) => match EmeterGetRealtimeResponse::from_json(w) {
                Some(x) => Some(x),
                None => return None,
            },
        };
        let get_vgain_igain = match get_field(v, "get_vgain_igain") {
            None => None,
            Some(JsonValue::Null) => None,
            Some(w) => match EmeterGetVGainIGainResponse::from_json(w) {
                Some(x) => Some(x),
                None => return None,
            },
        };
        let get_daystat = match get_field(v, "get_daystat") {
            None => None,
            Some(JsonValue::Null) => None,
            Some(w) => match EmeterGetDaystatResponse::from_json(w) {
                Some(x) => Some(x),
                None => return None,
            },
        };
        Some(EmeterResponse { get_realtime, get_vgain_igain, get_daystat })
    }
}

/// A whole response document: the namespaces the device answered in,
/// each optional.
#[derive(Debug, PartialEq)]
pub struct PlugResponse {
    pub system: Option<SystemResponse>,
    pub emeter: Option<EmeterResponse>,
}

pub open spec fn plug_ok(v: JsonValue) -> bool {
    &&& v is Obj
    &&& match obj_get(v, "system"@) {
        None => true,
        Some(JsonValue::Null) => true,
        Some(w) => system_ok(w),
    }
    &&& match obj_get(v, "emeter"@) {
        None => true,
        Some(JsonValue::Null) => true,
        Some(w) => emeter_ok(w),
    }
}

pub open spec fn plug_matches(t: PlugResponse, v: JsonValue) -> bool {
    &&& match obj_get(v, "system"@) {
        None => t.system is None,
        Some(JsonValue::Null) => t.system is None,
        Some(w) => match t.system {
            Some(x) => system_matches(x, w),
            None => false,
        },
    }
    &&& match obj_get(v, "emeter"@) {
        None => t.emeter is None,
        Some(JsonValue::Null) => t.emeter is None,
        Some(w) => match t.emeter {
            Some(x) => emeter_matches(x, w),
            None => false,
        },
    }
}

impl PlugResponse {
    /// Read a whole parsed response document into its typed shape.
    pub fn from_json(v: &JsonValue) -> (r: Option<Self>)
        ensures
            (r is Some) == plug_ok(*v),
            r matches Some(t) ==> plug_matches(t, *v),
    {
        if !(matches!(v, JsonValue::Obj(_))) {
            return None;
        }
        let system = match get_field(v, "system") {
            None => None,
            Some(JsonValue::Null) => None,
            Some(w) => match SystemResponse::from_json(w) {
                Some(x) => Some(x),
                None => return None,
            },
        };
        let emeter = match get_field(v, "emeter") {
            None => None,
            Some(JsonValue::Null) => None,
            Some(w) => match EmeterResponse::from_json(w) {
                Some(x) => Some(x),
                None => return None,
            },
        };
        Some(PlugResponse { system, emeter })
    }
}

/// A realtime block that names an error code but none of the eight
/// energy readings is still accepted.
pub proof fn lemma_sparse_realtime_accepted(v: JsonValue)
    requires
        field_int(v, "err_code"@) is Some,
        obj_get(v, "current"@) is None,
        obj_get(v, "current_ma"@) is None,
        obj_get(v, "voltage"@) is None,
        obj_get(v, "voltage_mv"@) is None,
        obj_get(v, "power"@) is None,
        obj_get(v, "power_mw"@) is None,
        obj_get(v, "total"@) is None,
        obj_get(v, "total_wh"@) is None,
    ensures
        realtime_ok(v),
{
}

/// Whatever is read out of such a sparse realtime block leaves every
/// energy reading unset rather than failing.
pub proof fn lemma_sparse_realtime_unset(t: EmeterGetRealtimeResponse, v: JsonValue)
    requires
        obj_get(v, "current"@) is None,
        obj_get(v, "current_ma"@) is None,
        obj_get(v, "voltage"@) is None,
        obj_get(v, "voltage_mv"@) is None,
        obj_get(v, "power"@) is None,
        obj_get(v, "power_mw"@) is None,
        obj_get(v, "total"@) is None,
        obj_get(v, "total_wh"@) is None,
        realtime_matches(t, v),
    ensures
        t.current is None,
        t.current_ma is None,
        t.voltage is None,
        t.voltage_mv is None,
        t.power is None,
        t.power_mw is None,
        t.total is None,
        t.total_wh is None,
{
}

/// A response document that carries no energy-meter namespace at all is
/// still accepted, and reads as a response with the namespace unset.
pub proof fn lemma_missing_emeter_accepted(t: PlugResponse, v: JsonValue)
    requires
        v is Obj,
        obj_get(v, "system"@) is None,
        obj_get(v, "emeter"@) is None,
    ensures
        plug_ok(v),
        plug_matches(t, v) ==> t.emeter is None && t.system is None,
{
}

} // verus!
