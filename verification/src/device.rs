use vstd::prelude::*;
use vstd::string::StringExecFns;

use crate::text::{fmt_u8, json_escape, spec_digits, spec_escape};

verus! {

/// The kinds of device this protocol family covers.
pub enum DeviceType {
    Plug,
    Bulb,
    Strip,
    Unknown,
}

/// One device on the local network, named by its `host:port` address.
/// The handle holds nothing else: every operation builds a fresh
/// request document for one exchange.
pub struct TpLinkDevice {
    ip: String,
}

impl View for TpLinkDevice {
    type V = Seq<char>;

    closed spec fn view(&self) -> Seq<char> {
        self.ip@
    }
}

// The request document of each operation, spelled out. An operation
// with a caller-supplied text splices it in escaped, between quotes.
pub open spec fn spec_set_relay_state(state: u8) -> Seq<char> {
    "{\"system\":{\"set_relay_state\":{\"state\":"@ + spec_digits(state as nat) + "}}}"@
}

pub open spec fn spec_set_dev_alias(name: Seq<char>) -> Seq<char> {
    "{\"system\":{\"set_dev_alias\":{\"alias\":\""@ + spec_escape(name) + "\"}}}"@
}

pub open spec fn spec_set_mac_addr(mac: Seq<char>) -> Seq<char> {
    "{\"system\":{\"set_mac_addr\":{\"mac\":\""@ + spec_escape(mac) + "\"}}}"@
}

pub open spec fn spec_set_device_id(device_id: Seq<char>) -> Seq<char> {
    "{\"system\":{\"set_device_id\":{\"deviceId\":\""@ + spec_escape(device_id) + "\"}}}"@
}

pub open spec fn spec_set_hw_id(hardware_id: Seq<char>) -> Seq<char> {
    "{\"system\":{\"set_hw_id\":{\"hwId\":\""@ + spec_escape(hardware_id) + "\"}}}"@
}

pub open spec fn spec_set_dev_location(latitude: Seq<char>, longitude: Seq<char>) -> Seq<char> {
    "{\"system\":{\"set_dev_location\":{\"latitude\":"@ + latitude + ",\"longitude\":"@
        + longitude + "}}}"@
}

pub open spec fn spec_set_dev_icon(icon: Seq<char>, hash: Seq<char>) -> Seq<char> {
    "{\"system\":{\"set_dev_icon\":{\"hash\":\""@ + spec_escape(hash) + "\",\"icon\":\""@
        + spec_escape(icon) + "\"}}}"@
}

pub open spec fn spec_download_firmware(url: Seq<char>) -> Seq<char> {
    "{\"system\":{\"download_firmware\":{\"url\":\""@ + spec_escape(url) + "\"}}}"@
}

pub open spec fn spec_set_stainfo(ssid: Seq<char>, password: Seq<char>) -> Seq<char> {
    "{\"netif\":{\"set_stainfo\":{\"key_type\":3,\"password\":\""@ + spec_escape(password)
        + "\",\"ssid\":\""@ + spec_escape(ssid) + "\"}}}"@
}

pub open spec fn spec_set_server_url(server_url: Seq<char>) -> Seq<char> {
    "{\"cnCloud\":{\"set_server_url\":{\"server\":\""@ + spec_escape(server_url) + "\"}}}"@
}

pub open spec fn spec_cloud_bind(user: Seq<char>, password: Seq<char>) -> Seq<char> {
    "{\"cnCloud\":{\"bind\":{\"password\":\""@ + spec_escape(password) + "\",\"username\":\""@
        + spec_escape(user) + "\"}}}"@
}

impl TpLinkDevice {
    pub fn new(ip: &'static str) -> (r: TpLinkDevice)
        ensures
            r@ == ip@,
    {
        TpLinkDevice { ip: ip.to_owned() }
    }

    /// The `host:port` address the handle was built from.
    pub fn address(&self) -> (r: &str)
        ensures
            r@ == self@,
    {
        self.ip.as_str()
    }

    fn set_relay_state(&self, state: u8) -> (r: String)
        ensures
            r@ == spec_set_relay_state(state),
    {
        let mut out: String = "{\"system\":{\"set_relay_state\":{\"state\":".to_owned();
        out.append(fmt_u8(state).as_str());
        out.append("}}}");
        out
    }

    /// Switch the relay on.
    pub fn on(&self) -> (r: String)
        ensures
            r@ == spec_set_relay_state(1),
    {
        self.set_relay_state(1)
    }

    /// Switch the relay off.
    pub fn off(&self) -> (r: String)
        ensures
            r@ == spec_set_relay_state(0),
    {
        self.set_relay_state(0)
    }

    /// Query the instantaneous energy-meter readings.
    pub fn get_realtime(&self) -> (r: String)
        ensures
            r@ == "{\"emeter\":{\"get_realtime\":{}}}"@,
    {
        "{\"emeter\":{\"get_realtime\":{}}}".to_owned()
    }

    /// Reboot the device after one second.
    pub fn reboot(&self) -> (r: String)
        ensures
            r@ == "{\"system\":{\"reboot\":{\"delay\":1}}}"@,
    {
        "{\"system\":{\"reboot\":{\"delay\":1}}}".to_owned()
    }

    /// Reset the device to factory state after one second.
    pub fn reset_to_factory(&self) -> (r: String)
        ensures
            r@ == "{\"system\":{\"reset\":{\"delay\":1}}}"@,
    {
        "{\"system\":{\"reset\":{\"delay\":1}}}".to_owned()
    }

    /// Switch the status light off.
    pub fn turn_led_off(&self) -> (r: String)
        ensures
            r@ == "{\"system\":{\"set_led_off\":{\"off\":1}}}"@,
    {
        "{\"system\":{\"set_led_off\":{\"off\":1}}}".to_owned()
    }

    /// Name the device.
    pub fn set_device_alias(&self, name: &str) -> (r: String)
        ensures
            r@ == spec_set_dev_alias(name@),
    {
        let mut out: String = "{\"system\":{\"set_dev_alias\":{\"alias\":\"".to_owned();
        out.append(json_escape(name).as_str());
        out.append("\"}}}");
        out
    }

    /// Overwrite the device's hardware address.
    pub fn set_mac_address(&self, mac: &str) -> (r: String)
        ensures
            r@ == spec_set_mac_addr(mac@),
    {
        let mut out: String = "{\"system\":{\"set_mac_addr\":{\"mac\":\"".to_owned();
        out.append(json_escape(mac).as_str());
        out.append("\"}}}");
        out
    }

    /// Overwrite the device identifier.
    pub fn set_device_id(&self, device_id: &str) -> (r: String)
        ensures
            r@ == spec_set_device_id(device_id@),
    {
        let mut out: String = "{\"system\":{\"set_device_id\":{\"deviceId\":\"".to_owned();
        out.append(json_escape(device_id).as_str());
        out.append("\"}}}");
        out
    }

    /// Overwrite the hardware identifier.
    pub fn set_hardware_id(&self, hardware_id: &str) -> (r: String)
        ensures
            r@ == spec_set_hw_id(hardware_id@),
    {
        let mut out: String = "{\"system\":{\"set_hw_id\":{\"hwId\":\"".to_owned();
        out.append(json_escape(hardware_id).as_str());
        out.append("\"}}}");
        out
    }

    /// Record the device's geolocation. The coordinates arrive as the
    /// decimal text to splice into the document.
    pub fn set_location(&self, latitude: &str, longitude: &str) -> (r: String)
        ensures
            r@ == spec_set_dev_location(latitude@, longitude@),
    {
        let mut out: String = "{\"system\":{\"set_dev_location\":{\"latitude\":".to_owned();
        out.append(latitude);
        out.append(",\"longitude\":");
        out.append(longitude);
        out.append("}}}");
        out
    }

    /// Ask the device about its boot loader.
    pub fn uboot_bootloader_check(&self) -> (r: String)
        ensures
            r@ == "{\"system\":{\"test_check_uboot\":null}}"@,
    {
        "{\"system\":{\"test_check_uboot\":null}}".to_owned()
    }

    /// Query the device icon.
    pub fn get_device_icon(&self) -> (r: String)
        ensures
            r@ == "{\"system\":{\"get_dev_icon\":null}}"@,
    {
        "{\"system\":{\"get_dev_icon\":null}}".to_owned()
    }

    /// Store a device icon and its hash.
    pub fn set_device_icon(&self, icon: &str, hash: &str) -> (r: String)
        ensures
            r@ == spec_set_dev_icon(icon@, hash@),
    {
        let mut out: String = "{\"system\":{\"set_dev_icon\":{\"hash\":\"".to_owned();
        out.append(json_escape(hash).as_str());
        out.append("\",\"icon\":\"");
        out.append(json_escape(icon).as_str());
        out.append("\"}}}");
        out
    }

    /// Put the device in test mode.
    pub fn set_test_mode(&self) -> (r: String)
        ensures
            r@ == "{\"system\":{\"set_test_mode\":{\"enable\":1}}}"@,
    {
        "{\"system\":{\"set_test_mode\":{\"enable\":1}}}".to_owned()
    }

    /// Have the device fetch a firmware image.
    pub fn download_firmware_from_url(&self, url: &str) -> (r: String)
        ensures
            r@ == spec_download_firmware(url@),
    {
        let mut out: String = "{\"system\":{\"download_firmware\":{\"url\":\"".to_owned();
        out.append(json_escape(url).as_str());
        out.append("\"}}}");
        out
    }

    /// Query the progress of a firmware download.
    pub fn get_download_state(&self) -> (r: String)
        ensures
            r@ == "{\"system\":{\"get_download_state\":{}}}"@,
    {
        "{\"system\":{\"get_download_state\":{}}}".to_owned()
    }

    /// Flash the downloaded firmware image.
    pub fn flash_downloaded_firmware(&self) -> (r: String)
        ensures
            r@ == "{\"system\":{\"flash_firmware\":{}}}"@,
    {
        "{\"system\":{\"flash_firmware\":{}}}".to_owned()
    }

    /// Ask the device to check its new configuration.
    pub fn check_config(&self) -> (r: String)
        ensures
            r@ == "{\"system\":{\"check_new_config\":null}}"@,
    {
        "{\"system\":{\"check_new_config\":null}}".to_owned()
    }

    /// Scan for reachable wireless networks.
    pub fn scan_available_aps(&self) -> (r: String)
        ensures
            r@ == "{\"netif\":{\"get_scaninfo\":{\"refresh\":1}}}"@,
    {
        "{\"netif\":{\"get_scaninfo\":{\"refresh\":1}}}".to_owned()
    }

    /// Join a wireless network.
    pub fn connect_to_ap(&self, ssid: &str, password: &str) -> (r: String)
        ensures
            r@ == spec_set_stainfo(ssid@, password@),
    {
        let mut out: String = "{\"netif\":{\"set_stainfo\":{\"key_type\":3,\"password\":\"".to_owned();
        out.append(json_escape(password).as_str());
        out.append("\",\"ssid\":\"");
        out.append(json_escape(ssid).as_str());
        out.append("\"}}}");
        out
    }

    /// Query the cloud-binding state.
    pub fn get_cloud_info(&self) -> (r: String)
        ensures
            r@ == "{\"cnCloud\":{\"get_info\":null}}"@,
    {
        "{\"cnCloud\":{\"get_info\":null}}".to_owned()
    }

    /// Query the list of firmware images the cloud offers.
    pub fn get_firmware_list(&self) -> (r: String)
        ensures
            r@ == "{\"cnCloud\":{\"get_intl_fw_list\":{}}}"@,
    {
        "{\"cnCloud\":{\"get_intl_fw_list\":{}}}".to_owned()
    }

    /// Point the device at another cloud server.
    pub fn set_server_url(&self, server_url: &str) -> (r: String)
        ensures
            r@ == spec_set_server_url(server_url@),
    {
        let mut out: String = "{\"cnCloud\":{\"set_server_url\":{\"server\":\"".to_owned();
        out.append(json_escape(server_url).as_str());
        out.append("\"}}}");
        out
    }

    /// Bind the device to a cloud account.
    pub fn connect_to_cloud(&self, user: &str, password: &str) -> (r: String)
        ensures
            r@ == spec_cloud_bind(user@, password@),
    {
        let mut out: String = "{\"cnCloud\":{\"bind\":{\"password\":\"".to_owned();
        out.append(json_escape(password).as_str());
        out.append("\",\"username\":\"");
        out.append(json_escape(user).as_str());
        out.append("\"}}}");
        out
    }

    /// Unbind the device from its cloud account.
    pub fn unregister_device(&self) -> (r: String)
        ensures
            r@ == "{\"cnCloud\":{\"unbind\":null}}"@,
    {
        "{\"cnCloud\":{\"unbind\":null}}".to_owned()
    }

    /// Query the device's clock.
    pub fn get_time(&self) -> (r: String)
        ensures
            r@ == "{\"time\":{\"get_time\":null}}"@,
    {
        "{\"time\":{\"get_time\":null}}".to_owned()
    }

    /// Query the device's time zone.
    pub fn get_timezone(&self) -> (r: String)
        ensures
            r@ == "{\"time\":{\"get_timezone\":null}}"@,
    {
        "{\"time\":{\"get_timezone\":null}}".to_owned()
    }

    /// Set the device's clock and time zone to the fixed probe values.
    pub fn set_timezone(&self) -> (r: String)
        ensures
            r@
                == "{\"time\":{\"set_timezone\":{\"hour\":4,\"index\":42,\"mday\":3,\"min\":5,\"month\":2,\"sec\":6,\"year\":1}}}"@,
    {
        "{\"time\":{\"set_timezone\":{\"hour\":4,\"index\":42,\"mday\":3,\"min\":5,\"month\":2,\"sec\":6,\"year\":1}}}".to_owned()
    }

    /// Query the system information block.
    pub fn get_meter_info(&self) -> (r: String)
        ensures
            r@ == "{\"system\":{\"get_sysinfo\":{}}}"@,
    {
        "{\"system\":{\"get_sysinfo\":{}}}".to_owned()
    }
}

} // verus!
