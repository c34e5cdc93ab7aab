use tplink_plug::json::parse_json;
use tplink_plug::{
    EmeterGetDaystatResponse, EmeterGetRealtimeResponse, EmeterGetVGainIGainResponse, JsonNumber,
    JsonValue, PlugResponse, SystemGetSysInfoResponse,
};

fn parse_plug(text: &str) -> Option<PlugResponse> {
    PlugResponse::from_json(&parse_json(text).ok()?)
}

#[test]
fn empty_document_reads_as_all_unset() {
    let r = parse_plug("{}").unwrap();
    assert!(r.system.is_none());
    assert!(r.emeter.is_none());
}

#[test]
fn sparse_realtime_reads_with_every_reading_unset() {
    let r = parse_plug("{\"emeter\":{\"get_realtime\":{\"err_code\":0}}}").unwrap();
    let rt = r.emeter.unwrap().get_realtime.unwrap();
    assert!(rt.current.is_none());
    assert!(rt.current_ma.is_none());
    assert!(rt.voltage.is_none());
    assert!(rt.voltage_mv.is_none());
    assert!(rt.power.is_none());
    assert!(rt.power_mw.is_none());
    assert!(rt.total.is_none());
    assert!(rt.total_wh.is_none());
    assert_eq!(rt.err_code, 0);
}

#[test]
fn realtime_reads_both_unit_scales() {
    let r = parse_plug(
        "{\"emeter\":{\"get_realtime\":{\"current\":0.52,\"voltage_mv\":230500,\"err_code\":0}}}",
    )
    .unwrap();
    let rt = r.emeter.unwrap().get_realtime.unwrap();
    assert_eq!(rt.current, Some(JsonNumber::Dec(String::from("0.52"))));
    assert_eq!(rt.voltage_mv, Some(JsonNumber::Int(230500)));
    assert!(rt.power.is_none());
}

#[test]
fn realtime_null_reading_is_unset() {
    let r = parse_plug("{\"emeter\":{\"get_realtime\":{\"voltage\":null,\"err_code\":0}}}")
        .unwrap();
    let rt = r.emeter.unwrap().get_realtime.unwrap();
    assert!(rt.voltage.is_none());
}

#[test]
fn realtime_missing_err_code_is_rejected() {
    assert!(parse_plug("{\"emeter\":{\"get_realtime\":{\"voltage\":230.1}}}").is_none());
}

#[test]
fn realtime_text_reading_is_rejected() {
    assert!(
        parse_plug("{\"emeter\":{\"get_realtime\":{\"voltage\":\"230\",\"err_code\":0}}}")
            .is_none()
    );
}

#[test]
fn non_object_document_is_rejected() {
    assert!(parse_plug("5").is_none());
    assert!(parse_plug("[1,2]").is_none());
    assert!(parse_plug("\"system\"").is_none());
}

#[test]
fn vgain_block_reads() {
    let r = parse_plug(
        "{\"emeter\":{\"get_vgain_igain\":{\"vgain\":13462,\"igain\":16835,\"err_code\":0}}}",
    )
    .unwrap();
    let vg = r.emeter.unwrap().get_vgain_igain.unwrap();
    assert_eq!(
        vg,
        EmeterGetVGainIGainResponse { vgain: 13462, igain: 16835, err_code: 0 }
    );
}

#[test]
fn daystat_block_reads_every_item() {
    let text = "{\"emeter\":{\"get_daystat\":{\"day_list\":[\
        {\"year\":2020,\"month\":1,\"day\":1,\"energy\":0.41},\
        {\"year\":2020,\"month\":1,\"day\":2,\"energy\":12}],\"err_code\":0}}}";
    let r = parse_plug(text).unwrap();
    let ds: EmeterGetDaystatResponse = r.emeter.unwrap().get_daystat.unwrap();
    assert_eq!(ds.day_list.len(), 2);
    assert_eq!(ds.day_list[0].year, 2020);
    assert_eq!(ds.day_list[0].energy, JsonNumber::Dec(String::from("0.41")));
    assert_eq!(ds.day_list[1].day, 2);
    assert_eq!(ds.day_list[1].energy, JsonNumber::Int(12));
    assert_eq!(ds.err_code, 0);
}

#[test]
fn daystat_bad_item_is_rejected() {
    let text = "{\"emeter\":{\"get_daystat\":{\"day_list\":[\
        {\"year\":2020,\"month\":1,\"day\":1,\"energy\":0.41},\
        {\"year\":2020}],\"err_code\":0}}}";
    assert!(parse_plug(text).is_none());
}

fn sysinfo_text() -> String {
    String::from(
        "{\"system\":{\"get_sysinfo\":{\
         \"errcode\":0,\"sw_ver\":\"1.2.5\",\"hw_ver\":\"1.0\",\"type\":\"IOT.SMARTPLUGSWITCH\",\
         \"model\":\"HS110(EU)\",\"mac\":\"50:C7:BF:00:00:00\",\"deviceId\":\"8006\",\
         \"hwId\":\"45E2\",\"fwId\":\"00000000\",\"oemId\":\"3D34\",\"alias\":\"plug\",\
         \"dev_name\":\"Wi-Fi Smart Plug With Energy Monitoring\",\"icon_hash\":\"\",\
         \"relay_state\":1,\"on_time\":5,\"active_mode\":\"schedule\",\"feature\":\"TIM:ENE\",\
         \"updating\":0,\"rssi\":-60,\"led_off\":0,\"latitude\":49.1,\"longitude\":8.4}}}",
    )
}

#[test]
fn sysinfo_block_reads_every_field() {
    let r = parse_plug(&sysinfo_text()).unwrap();
    let si: SystemGetSysInfoResponse = r.system.unwrap().get_sysinfo;
    assert_eq!(si.errcode, 0);
    assert_eq!(si.sw_ver, "1.2.5");
    assert_eq!(si.hw_type, "IOT.SMARTPLUGSWITCH");
    assert_eq!(si.device_id, "8006");
    assert_eq!(si.relay_state, 1);
    assert_eq!(si.rssi, -60);
    assert_eq!(si.latitude, JsonNumber::Dec(String::from("49.1")));
    assert_eq!(si.longitude, JsonNumber::Dec(String::from("8.4")));
}

#[test]
fn sysinfo_missing_field_is_rejected() {
    let text = sysinfo_text().replace("\"rssi\":-60,", "");
    assert!(parse_plug(&text).is_none());
}

#[test]
fn unknown_fields_are_ignored() {
    let r = parse_plug("{\"emeter\":{\"get_realtime\":{\"err_code\":0,\"slot_id\":0}},\"extra\":1}")
        .unwrap();
    assert!(r.emeter.unwrap().get_realtime.is_some());
}

#[test]
fn realtime_equality_follows_fields() {
    let a = EmeterGetRealtimeResponse {
        current: None,
        current_ma: Some(JsonNumber::Int(120)),
        voltage: None,
        voltage_mv: None,
        power: None,
        power_mw: None,
        total: None,
        total_wh: None,
        err_code: 0,
    };
    let r = parse_plug("{\"emeter\":{\"get_realtime\":{\"current_ma\":120,\"err_code\":0}}}")
        .unwrap();
    assert_eq!(r.emeter.unwrap().get_realtime.unwrap(), a);
}

#[test]
fn tree_reads_nested_objects() {
    let v = parse_json("{\"a\":{\"b\":true},\"c\":[null,\"x\"]}").unwrap();
    match &v {
        JsonValue::Obj(entries) => assert_eq!(entries.len(), 2),
        _ => panic!("expected an object"),
    }
    let parse_err = parse_json("{not json").unwrap_err();
    assert!(!parse_err.is_empty());
}
