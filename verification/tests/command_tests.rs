use tplink_plug::TpLinkDevice;

fn dev() -> TpLinkDevice {
    TpLinkDevice::new("192.168.1.115:9999")
}

#[test]
fn device_keeps_its_address() {
    assert_eq!(dev().address(), "192.168.1.115:9999");
}

#[test]
fn relay_commands() {
    assert_eq!(dev().on(), "{\"system\":{\"set_relay_state\":{\"state\":1}}}");
    assert_eq!(dev().off(), "{\"system\":{\"set_relay_state\":{\"state\":0}}}");
}

#[test]
fn system_commands() {
    let d = dev();
    assert_eq!(d.get_realtime(), "{\"emeter\":{\"get_realtime\":{}}}");
    assert_eq!(d.reboot(), "{\"system\":{\"reboot\":{\"delay\":1}}}");
    assert_eq!(d.reset_to_factory(), "{\"system\":{\"reset\":{\"delay\":1}}}");
    assert_eq!(d.turn_led_off(), "{\"system\":{\"set_led_off\":{\"off\":1}}}");
    assert_eq!(d.uboot_bootloader_check(), "{\"system\":{\"test_check_uboot\":null}}");
    assert_eq!(d.get_device_icon(), "{\"system\":{\"get_dev_icon\":null}}");
    assert_eq!(d.set_test_mode(), "{\"system\":{\"set_test_mode\":{\"enable\":1}}}");
    assert_eq!(d.get_download_state(), "{\"system\":{\"get_download_state\":{}}}");
    assert_eq!(d.flash_downloaded_firmware(), "{\"system\":{\"flash_firmware\":{}}}");
    assert_eq!(d.check_config(), "{\"system\":{\"check_new_config\":null}}");
    assert_eq!(d.get_meter_info(), "{\"system\":{\"get_sysinfo\":{}}}");
}

#[test]
fn identity_commands() {
    let d = dev();
    assert_eq!(
        d.set_device_alias("kitchen"),
        "{\"system\":{\"set_dev_alias\":{\"alias\":\"kitchen\"}}}"
    );
    assert_eq!(
        d.set_mac_address("50:C7:BF:11:22:33"),
        "{\"system\":{\"set_mac_addr\":{\"mac\":\"50:C7:BF:11:22:33\"}}}"
    );
    assert_eq!(
        d.set_device_id("8006000A"),
        "{\"system\":{\"set_device_id\":{\"deviceId\":\"8006000A\"}}}"
    );
    assert_eq!(
        d.set_hardware_id("45E29DA8"),
        "{\"system\":{\"set_hw_id\":{\"hwId\":\"45E29DA8\"}}}"
    );
    assert_eq!(
        d.set_device_icon("sun", "abc123"),
        "{\"system\":{\"set_dev_icon\":{\"hash\":\"abc123\",\"icon\":\"sun\"}}}"
    );
    assert_eq!(
        d.set_location("49.02", "8.39"),
        "{\"system\":{\"set_dev_location\":{\"latitude\":49.02,\"longitude\":8.39}}}"
    );
}

#[test]
fn network_and_cloud_commands() {
    let d = dev();
    assert_eq!(d.scan_available_aps(), "{\"netif\":{\"get_scaninfo\":{\"refresh\":1}}}");
    assert_eq!(
        d.connect_to_ap("home", "hunter2"),
        "{\"netif\":{\"set_stainfo\":{\"key_type\":3,\"password\":\"hunter2\",\"ssid\":\"home\"}}}"
    );
    assert_eq!(d.get_cloud_info(), "{\"cnCloud\":{\"get_info\":null}}");
    assert_eq!(d.get_firmware_list(), "{\"cnCloud\":{\"get_intl_fw_list\":{}}}");
    assert_eq!(
        d.set_server_url("devs.tplinkcloud.com"),
        "{\"cnCloud\":{\"set_server_url\":{\"server\":\"devs.tplinkcloud.com\"}}}"
    );
    assert_eq!(
        d.connect_to_cloud("user@example.com", "pw"),
        "{\"cnCloud\":{\"bind\":{\"password\":\"pw\",\"username\":\"user@example.com\"}}}"
    );
    assert_eq!(d.unregister_device(), "{\"cnCloud\":{\"unbind\":null}}");
    assert_eq!(
        d.download_firmware_from_url("http://example.com/fw.bin"),
        "{\"system\":{\"download_firmware\":{\"url\":\"http://example.com/fw.bin\"}}}"
    );
}

#[test]
fn time_commands() {
    let d = dev();
    assert_eq!(d.get_time(), "{\"time\":{\"get_time\":null}}");
    assert_eq!(d.get_timezone(), "{\"time\":{\"get_timezone\":null}}");
    assert_eq!(
        d.set_timezone(),
        "{\"time\":{\"set_timezone\":{\"hour\":4,\"index\":42,\"mday\":3,\"min\":5,\"month\":2,\"sec\":6,\"year\":1}}}"
    );
}

#[test]
fn string_arguments_are_escaped_as_the_serializer_writes_them() {
    let d = dev();
    assert_eq!(
        d.set_device_alias("a\"b\\c"),
        "{\"system\":{\"set_dev_alias\":{\"alias\":\"a\\\"b\\\\c\"}}}"
    );
    assert_eq!(
        d.set_device_alias("line\nbreak\ttab"),
        "{\"system\":{\"set_dev_alias\":{\"alias\":\"line\\nbreak\\ttab\"}}}"
    );
    assert_eq!(
        d.set_device_alias("bell\u{7}end\u{1f}"),
        "{\"system\":{\"set_dev_alias\":{\"alias\":\"bell\\u0007end\\u001f\"}}}"
    );
    assert_eq!(
        d.set_device_alias("caf\u{e9} \u{1F50C}"),
        "{\"system\":{\"set_dev_alias\":{\"alias\":\"caf\u{e9} \u{1F50C}\"}}}"
    );
}
