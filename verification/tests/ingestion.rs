use urn_acoustics::device::{DeviceRegistry, UrnDevice};
use urn_acoustics::numeric::RealBits;
use urn_acoustics::simulation::{
    simulation_step, start_simulation, SimulationAction, SimulationEvent, SimulationStage,
};
use urn_acoustics::websocket::{keeps_receiving, keeps_sending, ClientFrame, Delivery};

fn registry_with(id: u32) -> DeviceRegistry {
    let mut reg = DeviceRegistry::new();
    reg.register(UrnDevice {
        device_id: id,
        device_name: "U".to_string(),
        deployment_x: RealBits(0),
        deployment_y: RealBits(0),
        deployment_z: RealBits(0),
        urn_volume: RealBits(0.05f64.to_bits()),
        neck_radius: RealBits(0.05f64.to_bits()),
        neck_length: RealBits(0.1f64.to_bits()),
    });
    reg
}

fn respond(action: SimulationAction) -> (u16, Option<String>) {
    match action {
        SimulationAction::Respond { status, error } => (status, error),
        _ => panic!("expected an answer"),
    }
}

#[test]
fn unknown_device_is_answered_404() {
    let reg = registry_with(1);
    let (stage, action) = start_simulation(&reg, 42);
    assert!(matches!(stage, SimulationStage::Finished));
    assert_eq!(respond(action), (404, Some("设备 42 不存在".to_string())));
}

#[test]
fn full_run_without_alert() {
    let reg = registry_with(1);
    let (stage, action) = start_simulation(&reg, 1);
    assert!(matches!(stage, SimulationStage::StoringReading));
    match action {
        SimulationAction::AnalyzeAndStoreReading(d) => assert_eq!(d.device_id, 1),
        _ => panic!("expected analysis"),
    }
    let (stage, action) = simulation_step(stage, SimulationEvent::Stored);
    assert!(matches!(stage, SimulationStage::StoringAnalysis));
    assert!(matches!(action, SimulationAction::StoreAnalysis));
    let (stage, action) = simulation_step(stage, SimulationEvent::Stored);
    assert!(matches!(stage, SimulationStage::CheckingAlert));
    assert!(matches!(action, SimulationAction::BroadcastAndCheckAlert));
    let (stage, action) = simulation_step(stage, SimulationEvent::NoAlert);
    assert!(matches!(stage, SimulationStage::Finished));
    assert_eq!(respond(action), (200, None));
}

#[test]
fn alert_is_stored_and_failure_ignored() {
    let (stage, action) = simulation_step(SimulationStage::CheckingAlert, SimulationEvent::AlertRaised);
    assert!(matches!(stage, SimulationStage::StoringAlert));
    assert!(matches!(action, SimulationAction::StoreAlert));
    let (stage, action) =
        simulation_step(stage, SimulationEvent::StoreFailed("disk full".to_string()));
    assert!(matches!(stage, SimulationStage::Finished));
    assert_eq!(respond(action), (200, None));
}

#[test]
fn refused_reading_is_answered_500() {
    let (stage, action) = simulation_step(
        SimulationStage::StoringReading,
        SimulationEvent::StoreFailed("timeout".to_string()),
    );
    assert!(matches!(stage, SimulationStage::Finished));
    assert_eq!(respond(action), (500, Some("存储传感器数据失败: timeout".to_string())));
}

#[test]
fn refused_analysis_is_answered_500() {
    let (stage, action) = simulation_step(
        SimulationStage::StoringAnalysis,
        SimulationEvent::StoreFailed("timeout".to_string()),
    );
    assert!(matches!(stage, SimulationStage::Finished));
    assert_eq!(respond(action), (500, Some("存储分析结果失败: timeout".to_string())));
}

#[test]
fn stages_accept_their_events() {
    assert!(SimulationStage::StoringReading.accepts(&SimulationEvent::Stored));
    assert!(!SimulationStage::StoringReading.accepts(&SimulationEvent::NoAlert));
    assert!(SimulationStage::CheckingAlert.accepts(&SimulationEvent::AlertRaised));
    assert!(!SimulationStage::CheckingAlert.accepts(&SimulationEvent::Stored));
    assert!(!SimulationStage::Finished.accepts(&SimulationEvent::Stored));
}

#[test]
fn websocket_decisions() {
    assert!(keeps_receiving(Some(ClientFrame::Text)));
    assert!(keeps_receiving(Some(ClientFrame::Other)));
    assert!(!keeps_receiving(Some(ClientFrame::Close)));
    assert!(!keeps_receiving(None));
    assert!(keeps_sending(Delivery::Sent));
    assert!(keeps_sending(Delivery::EncodingFailed));
    assert!(!keeps_sending(Delivery::SendFailed));
}
