//! Which copy of the account a device record answers with, over a map that
//! stands for the host's store.

use std::collections::HashMap;
use std::sync::Arc;

use voip_bridge::store::device::{device_load, load_step_of, save_device, DeviceLoad};
use voip_bridge::store::host::HostWrite;
use wacore::store::device::account_serde;
use wacore::store::Device;

const RECORD: &str = "device:device";
const SIDECAR: &str = "device:account";

#[derive(Debug, PartialEq)]
enum StoreFailure {
    Database,
    Serialization,
}

#[derive(Default)]
struct Host {
    rows: HashMap<String, Vec<u8>>,
    fail_get: bool,
    fail_set: bool,
    fail_delete: bool,
}

impl Host {
    fn get(&self, key: &str) -> Result<Option<Vec<u8>>, StoreFailure> {
        if self.fail_get {
            return Err(StoreFailure::Database);
        }
        Ok(self.rows.get(key).cloned())
    }

    fn set(&mut self, key: &str, value: Vec<u8>) -> Result<(), StoreFailure> {
        if self.fail_set {
            return Err(StoreFailure::Database);
        }
        self.rows.insert(key.to_owned(), value);
        Ok(())
    }

    fn delete(&mut self, key: &str) -> Result<(), StoreFailure> {
        if self.fail_delete {
            return Err(StoreFailure::Database);
        }
        self.rows.remove(key);
        Ok(())
    }

    fn write(&mut self, w: HostWrite) -> Result<(), StoreFailure> {
        match w {
            HostWrite::Put { store, key, value } => self.set(&format!("{store}:{key}"), value),
            HostWrite::Remove { store, key } => self.delete(&format!("{store}:{key}")),
            other => panic!("a device is saved row by row, got {other:?}"),
        }
    }

    fn save(&mut self, device: &Device) -> Result<(), StoreFailure> {
        let account = device.account.as_ref().map(|a| account_serde::to_bytes(a));
        for w in save_device(serde_json::to_vec(device).unwrap(), account) {
            self.write(w)?;
        }
        Ok(())
    }

    fn load(&self) -> Result<Option<Device>, StoreFailure> {
        let record = self.get(RECORD)?;
        let step = device_load(record.as_deref());
        let parse = |bytes: &[u8]| {
            serde_json::from_slice::<Device>(bytes).map_err(|_| StoreFailure::Serialization)
        };
        match step {
            DeviceLoad::Absent => Ok(None),
            DeviceLoad::Malformed => Err(StoreFailure::Serialization),
            DeviceLoad::Current => Ok(Some(parse(&record.unwrap())?)),
            DeviceLoad::NeedsSidecar => {
                let mut device = parse(&record.unwrap())?;
                if let Some(bytes) = self.get(SIDECAR)? {
                    let account = account_serde::from_bytes(&bytes)
                        .map_err(|_| StoreFailure::Serialization)?;
                    device.account = Some(Arc::new(account));
                }
                Ok(Some(device))
            }
        }
    }

    fn record_has_account_field(&self) -> bool {
        device_load(self.rows.get(RECORD).map(|r| r.as_slice())) == DeviceLoad::Current
    }
}

/// An account in its wire form: four byte fields.
fn fixture_bytes() -> Vec<u8> {
    let mut out = Vec::new();
    for (tag, value) in [
        (0x0au8, b"fictitious-details".to_vec()),
        (0x12, vec![7; 32]),
        (0x1a, vec![8; 64]),
        (0x22, vec![9; 64]),
    ] {
        out.push(tag);
        out.push(value.len() as u8);
        out.extend_from_slice(&value);
    }
    out
}

fn paired() -> Device {
    let mut device = Device::new();
    device.account = Some(Arc::new(account_serde::from_bytes(&fixture_bytes()).unwrap()));
    device
}

fn account_of(device: Device) -> Option<Vec<u8>> {
    device.account.map(|a| account_serde::to_bytes(&a))
}

/// A record as it was before it carried the account.
fn seed_without_field(host: &mut Host, device: &Device) {
    let mut value = serde_json::to_value(device).unwrap();
    let removed = value.as_object_mut().unwrap().remove("account");
    assert!(removed.is_some(), "the record carries the key");
    host.set(RECORD, serde_json::to_vec(&value).unwrap()).unwrap();
}

#[test]
fn current_record_with_account_roundtrips() {
    let mut host = Host::default();
    host.save(&paired()).unwrap();
    let loaded = host.load().unwrap().expect("device present");
    assert_eq!(account_of(loaded), Some(fixture_bytes()));
}

#[test]
fn explicit_null_is_not_resurrected_by_stale_legacy_key() {
    let mut host = Host::default();
    host.save(&Device::new()).unwrap();
    host.set(SIDECAR, fixture_bytes()).unwrap();
    let loaded = host.load().unwrap().expect("device present");
    assert!(loaded.account.is_none(), "the record says null");
}

#[test]
fn save_without_account_clears_stale_legacy_key() {
    let mut host = Host::default();
    host.save(&paired()).unwrap();
    host.save(&Device::new()).unwrap();
    assert_eq!(host.get(SIDECAR), Ok(None));
    assert!(host.load().unwrap().expect("device present").account.is_none());
}

#[test]
fn legacy_record_without_field_overlays_legacy_key_without_writing() {
    let mut host = Host::default();
    seed_without_field(&mut host, &paired());
    host.set(SIDECAR, fixture_bytes()).unwrap();
    let loaded = host.load().unwrap().expect("device present");
    assert_eq!(account_of(loaded), Some(fixture_bytes()));
    assert!(host.get(SIDECAR).unwrap().is_some());
    assert!(!host.record_has_account_field());
}

#[test]
fn save_converges_legacy_state_onto_current_format() {
    let mut host = Host::default();
    seed_without_field(&mut host, &paired());
    host.set(SIDECAR, fixture_bytes()).unwrap();
    let loaded = host.load().unwrap().expect("device present");
    host.save(&loaded).unwrap();
    assert!(host.record_has_account_field());
    host.delete(SIDECAR).unwrap();
    let reloaded = host.load().unwrap().expect("device present");
    assert_eq!(account_of(reloaded), Some(fixture_bytes()));
}

#[test]
fn legacy_load_needs_no_writes() {
    let mut host = Host::default();
    seed_without_field(&mut host, &paired());
    host.set(SIDECAR, fixture_bytes()).unwrap();
    host.fail_set = true;
    host.fail_delete = true;
    assert!(host.load().unwrap().expect("device present").account.is_some());
}

#[test]
fn legacy_record_without_any_key_loads_without_account() {
    let mut host = Host::default();
    seed_without_field(&mut host, &Device::new());
    assert!(host.load().unwrap().expect("device present").account.is_none());
}

#[test]
fn no_records_load_none() {
    assert!(Host::default().load().unwrap().is_none());
}

#[test]
fn corrupt_legacy_account_is_an_error_not_silent_empty() {
    let mut host = Host::default();
    seed_without_field(&mut host, &Device::new());
    host.set(SIDECAR, b"not-protobuf".to_vec()).unwrap();
    assert_eq!(host.load().err(), Some(StoreFailure::Serialization));
    assert!(host.get(SIDECAR).unwrap().is_some());
}

#[test]
fn corrupt_device_record_is_an_error() {
    let mut host = Host::default();
    host.set(RECORD, b"{broken".to_vec()).unwrap();
    host.set(SIDECAR, fixture_bytes()).unwrap();
    assert_eq!(host.load().err(), Some(StoreFailure::Serialization));
}

#[test]
fn read_failure_propagates_as_storage_error() {
    let host = Host {
        fail_get: true,
        ..Host::default()
    };
    assert_eq!(host.load().err(), Some(StoreFailure::Database));
}

#[test]
fn failed_new_record_write_preserves_last_usable_copy() {
    let mut host = Host::default();
    seed_without_field(&mut host, &paired());
    host.set(SIDECAR, fixture_bytes()).unwrap();
    host.fail_set = true;
    assert_eq!(host.save(&Device::new()), Err(StoreFailure::Database));
    assert_eq!(host.get(SIDECAR), Ok(Some(fixture_bytes())));
    assert!(!host.record_has_account_field());
}

#[test]
fn cleanup_failure_surfaces_yet_new_record_stands() {
    let mut host = Host::default();
    host.set(RECORD, serde_json::to_vec(&Device::new()).unwrap()).unwrap();
    host.set(SIDECAR, fixture_bytes()).unwrap();
    host.fail_delete = true;
    assert_eq!(host.save(&Device::new()), Err(StoreFailure::Database));
    assert!(host.load().unwrap().expect("device present").account.is_none());
    host.fail_delete = false;
    host.save(&Device::new()).unwrap();
    assert_eq!(host.get(SIDECAR), Ok(None));
}

#[test]
fn stored_null_scalar_and_array_are_malformed_records() {
    for raw in [
        b"null".as_slice(),
        b"5".as_slice(),
        b"\"device\"".as_slice(),
        b"[]".as_slice(),
    ] {
        let mut host = Host::default();
        host.set(RECORD, raw.to_vec()).unwrap();
        assert_eq!(host.load().err(), Some(StoreFailure::Serialization));
    }
}

#[test]
fn malformed_object_is_an_error_not_an_empty_device() {
    let mut host = Host::default();
    host.set(
        RECORD,
        b"{\"account\":null,\"registration_id\":\"not-a-number\"}".to_vec(),
    )
    .unwrap();
    assert_eq!(host.load().err(), Some(StoreFailure::Serialization));
}

#[test]
fn inline_account_present_absent_and_null_through_real_serde() {
    let json = serde_json::to_string(&paired()).unwrap();
    assert!(json.contains("\"account\""));
    assert_eq!(device_load(Some(json.as_bytes())), DeviceLoad::Current);
    let restored: Device = serde_json::from_str(&json).unwrap();
    assert_eq!(account_of(restored), Some(fixture_bytes()));

    let json = serde_json::to_string(&Device::new()).unwrap();
    assert!(json.contains("\"account\":null"));
    assert_eq!(device_load(Some(json.as_bytes())), DeviceLoad::Current);
    let restored: Device = serde_json::from_str(&json).unwrap();
    assert!(restored.account.is_none());

    let mut host = Host::default();
    seed_without_field(&mut host, &Device::new());
    let json = host.rows[RECORD].clone();
    assert_eq!(device_load(Some(&json)), DeviceLoad::NeedsSidecar);
    let restored: Device = serde_json::from_slice(&json).unwrap();
    assert!(restored.account.is_none());
}

#[test]
fn save_with_account_keeps_sidecar_decodable_for_sidecar_readers() {
    let mut host = Host::default();
    host.save(&paired()).unwrap();
    let raw = host.get(SIDECAR).unwrap().expect("sidecar present");
    let decoded = account_serde::from_bytes(&raw).expect("sidecar readers decode it");
    assert_eq!(account_serde::to_bytes(&decoded), fixture_bytes());
    assert!(host.record_has_account_field());
}

#[test]
fn an_account_key_counts_only_in_an_object() {
    assert_eq!(device_load(None), DeviceLoad::Absent);
    assert_eq!(device_load(Some(b"")), DeviceLoad::Malformed);
    assert_eq!(device_load(Some(b"[\"account\"]")), DeviceLoad::NeedsSidecar);
    assert_eq!(device_load(Some(b"{\"account\":1}")), DeviceLoad::Current);
    assert_eq!(device_load(Some(b"{\"a\":{\"account\":1}}")), DeviceLoad::NeedsSidecar);
    assert_eq!(load_step_of(None), DeviceLoad::Absent);
    assert_eq!(load_step_of(Some(None)), DeviceLoad::Malformed);
    assert_eq!(load_step_of(Some(Some(None))), DeviceLoad::NeedsSidecar);
    let keys = |list: &[&str]| Some(Some(Some(list.iter().map(|k| k.to_string()).collect())));
    assert_eq!(load_step_of(keys(&[])), DeviceLoad::NeedsSidecar);
    assert_eq!(load_step_of(keys(&["a", "b"])), DeviceLoad::NeedsSidecar);
    assert_eq!(load_step_of(keys(&["a", "account"])), DeviceLoad::Current);
}
