use urn_acoustics::device::{CreateDeviceBody, DeviceRegistry, UrnDevice};
use urn_acoustics::handlers::{create_device, get_device, get_devices};
use urn_acoustics::numeric::RealBits;

fn r(x: f64) -> RealBits {
    RealBits(x.to_bits())
}

fn body(id: u32, name: &str, x: f64) -> CreateDeviceBody {
    CreateDeviceBody {
        device_id: id,
        device_name: name.to_string(),
        deployment_x: r(x),
        deployment_y: r(0.0),
        deployment_z: r(-2.0),
        urn_volume: r(0.05),
        neck_radius: r(0.05),
        neck_length: r(0.1),
    }
}

fn device(id: u32, name: &str, x: f64, y: f64, volume: f64, radius: f64, length: f64) -> UrnDevice {
    UrnDevice {
        device_id: id,
        device_name: name.to_string(),
        deployment_x: r(x),
        deployment_y: r(y),
        deployment_z: r(-2.0),
        urn_volume: r(volume),
        neck_radius: r(radius),
        neck_length: r(length),
    }
}

#[test]
fn created_device_is_found() {
    let mut reg = DeviceRegistry::new();
    let (status, resp) = create_device(&mut reg, body(7, "U7", 10.0));
    assert_eq!(status, 201);
    assert!(resp.success);
    let created = resp.data.unwrap();
    assert_eq!(created.device_id, 7);
    assert_eq!(created.device_name, "U7");
    assert_eq!(created.deployment_x, r(10.0));

    let (status, resp) = get_device(&reg, 7);
    assert_eq!(status, 200);
    let found = resp.data.unwrap();
    assert_eq!(found.device_name, "U7");
    assert_eq!(found.urn_volume, r(0.05));
    assert_eq!(found.deployment_z, r(-2.0));
}

#[test]
fn unknown_device_is_not_found() {
    let reg = DeviceRegistry::new();
    let (status, resp) = get_device(&reg, 1);
    assert_eq!(status, 404);
    assert!(!resp.success);
    assert!(resp.data.is_none());
    assert_eq!(resp.error.as_deref(), Some("设备不存在"));
}

#[test]
fn registering_again_replaces() {
    let mut reg = DeviceRegistry::new();
    create_device(&mut reg, body(3, "first", 1.0));
    create_device(&mut reg, body(3, "second", 2.0));
    let (status, resp) = get_device(&reg, 3);
    assert_eq!(status, 200);
    assert_eq!(resp.data.unwrap().device_name, "second");
    assert_eq!(get_devices(&reg).data.unwrap().len(), 1);
}

#[test]
fn listing_names_each_device_once() {
    let mut reg = DeviceRegistry::new();
    assert_eq!(get_devices(&reg).data.unwrap().len(), 0);
    for id in [5u32, 1, 9] {
        create_device(&mut reg, body(id, "u", id as f64));
    }
    let listed = get_devices(&reg);
    assert!(listed.success);
    let mut ids: Vec<u32> = listed.data.unwrap().iter().map(|d| d.device_id).collect();
    ids.sort();
    assert_eq!(ids, vec![1, 5, 9]);
}

#[test]
fn default_deployment_is_registered() {
    let mut reg = DeviceRegistry::new();
    reg.register_all(vec![
        device(1, "瓮听-东北角", -50.0, -50.0, 0.05, 0.05, 0.1),
        device(2, "瓮听-东南角", 50.0, -50.0, 0.05, 0.05, 0.1),
        device(3, "瓮听-西南角", 50.0, 50.0, 0.05, 0.05, 0.1),
        device(4, "瓮听-西北角", -50.0, 50.0, 0.05, 0.05, 0.1),
        device(5, "瓮听-正中央", 0.0, 0.0, 0.08, 0.06, 0.12),
    ]);
    assert_eq!(reg.devices().len(), 5);
    let centre = reg.lookup(5).unwrap();
    assert_eq!(centre.device_name, "瓮听-正中央");
    assert_eq!(f64::from_bits(centre.urn_volume.0), 0.08);
    assert_eq!(f64::from_bits(reg.lookup(2).unwrap().deployment_x.0), 50.0);
    assert!(reg.lookup(6).is_none());
}

#[test]
fn register_returns_replaced_device() {
    let mut reg = DeviceRegistry::new();
    assert!(reg.register(device(4, "a", 0.0, 0.0, 1.0, 1.0, 1.0)).is_none());
    let prev = reg.register(device(4, "b", 0.0, 0.0, 1.0, 1.0, 1.0)).unwrap();
    assert_eq!(prev.device_name, "a");
    assert_eq!(reg.lookup(4).unwrap().device_name, "b");
}
