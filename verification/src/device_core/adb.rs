use vstd::prelude::*;
use vstd::string::*;

use crate::app::state::{adb_device_serials, list_adb_devices, tcp_spec, tcp_spec_text};
use crate::config::AdbConfig;
use crate::error::AppError;
use crate::text::{str_eq, texts_of};

verus! {

/// The port that the app on the phone listens on.
pub const PHONE_APP_PORT: u16 = 8080;

/// Runs `adb` as configured.
#[derive(Debug)]
pub struct AdbManager {
    config: AdbConfig,
}

impl AdbManager {
    /// The configuration of `adb`.
    pub closed spec fn config(&self) -> AdbConfig {
        self.config
    }

    /// A manager for the `adb` of `config`.
    pub fn new(config: AdbConfig) -> (m: AdbManager)
        ensures
            m.config() == config,
    {
        AdbManager { config }
    }

    /// The path of the `adb` tool.
    pub fn path(&self) -> (r: &String)
        ensures
            *r == self.config().path,
    {
        &self.config.path
    }

    /// The arguments that list the devices: `devices`.
    pub fn list_devices_args(&self) -> (r: Vec<String>)
        ensures
            texts_of(r@) == seq!["devices"@],
    {
        let mut r: Vec<String> = Vec::new();
        r.push(String::from_str("devices"));
        assert(texts_of(r@) =~= seq!["devices"@]);
        r
    }

    /// The serials of the attached phones that the output of `adb devices` lists.
    pub fn list_devices(&self, stdout: &str) -> (r: Vec<String>)
        ensures
            texts_of(r@) == adb_device_serials(stdout@),
    {
        list_adb_devices(stdout)
    }

    /// The arguments that forward local `local_port` to the app's port on phone
    /// `device_id`: `-s <device> forward tcp:<local_port> tcp:<app port>`.
    pub fn setup_forward_args(&self, device_id: &str, local_port: u16) -> (r: Vec<String>)
        ensures
            texts_of(r@) == seq![
                "-s"@,
                device_id@,
                "forward"@,
                tcp_spec(local_port),
                tcp_spec(PHONE_APP_PORT),
            ],
    {
        let mut r: Vec<String> = Vec::new();
        r.push(String::from_str("-s"));
        r.push(String::from_str(device_id));
        r.push(String::from_str("forward"));
        r.push(tcp_spec_text(local_port));
        r.push(tcp_spec_text(PHONE_APP_PORT));
        assert(texts_of(r@) =~= seq![
            "-s"@,
            device_id@,
            "forward"@,
            tcp_spec(local_port),
            tcp_spec(PHONE_APP_PORT),
        ]);
        r
    }

    /// The outcome of the forward command, given how the run went: `Ok` where it
    /// succeeded; an I/O error (with its text) where it could not run; the phone
    /// not connected where it failed.
    pub fn setup_forward(&self, status: std::result::Result<bool, String>) -> (r: std::result::Result<(), AppError>)
        ensures
            match status {
                Ok(true) => r is Ok,
                Ok(false) => r == Err::<(), AppError>(AppError::DeviceNotConnected),
                Err(e) => r == Err::<(), AppError>(AppError::IoError(e)),
            },
    {
        match status {
            Ok(true) => Ok(()),
            Ok(false) => Err(AppError::DeviceNotConnected),
            Err(e) => Err(AppError::IoError(e)),
        }
    }

    /// Whether phone `device_id` is among the listed devices.
    pub fn check_connection(&self, devices: &Vec<String>, device_id: &str) -> (r: bool)
        ensures
            r == texts_of(devices@).contains(device_id@),
    {
        let mut i: usize = 0;
        while i < devices.len()
            invariant
                i <= devices.len(),
                forall|k: int| 0 <= k < i ==> devices@[k]@ != device_id@,
            decreases devices.len() - i,
        {
            if str_eq(devices[i].as_str(), device_id) {
                assert(texts_of(devices@)[i as int] == device_id@);
                return true;
            }
            i = i + 1;
        }
        assert forall|k: int| 0 <= k < texts_of(devices@).len() implies texts_of(
            devices@,
        )[k] != device_id@ by {
            assert(texts_of(devices@)[k] == devices@[k]@);
        }
        false
    }
}

} // verus!
