use urn_acoustics::queries::{
    recent_alerts_query, recent_localizations_query, recent_sensor_data_query, ALERTS_TABLE,
    DEVICES_QUERY, MEDIUM_PROPERTIES_QUERY, RESONANCE_ANALYSIS_TABLE, SENSOR_DATA_TABLE,
    SOURCE_LOCALIZATION_TABLE,
};

#[test]
fn sensor_query_for_one_device() {
    assert_eq!(
        recent_sensor_data_query(Some(3), 100),
        "SELECT timestamp, device_id, sound_pressure_level, resonance_frequency,\n                 source_direction, medium_density, temperature, humidity\n                 FROM sensor_data WHERE device_id = 3\n                 ORDER BY timestamp DESC LIMIT 100"
    );
}

#[test]
fn sensor_query_for_all_devices() {
    assert_eq!(
        recent_sensor_data_query(None, 25),
        "SELECT timestamp, device_id, sound_pressure_level, resonance_frequency,\n                 source_direction, medium_density, temperature, humidity\n                 FROM sensor_data ORDER BY timestamp DESC LIMIT 25"
    );
}

#[test]
fn alert_and_localization_queries() {
    assert_eq!(
        recent_alerts_query(50),
        "SELECT timestamp, alert_id, alert_type, severity, device_id, message, details, is_resolved\n             FROM alerts ORDER BY timestamp DESC LIMIT 50"
    );
    assert_eq!(
        recent_localizations_query(4294967295),
        "SELECT timestamp, source_id, source_x, source_y, source_z, bearing_angle,\n             elevation_angle, distance_estimate, confidence, tdoa_matrix, beamformed_power,\n             used_devices FROM source_localization ORDER BY timestamp DESC LIMIT 4294967295"
    );
}

#[test]
fn fixed_queries_and_tables() {
    assert_eq!(
        DEVICES_QUERY,
        "SELECT device_id, device_name, deployment_x, deployment_y, deployment_z,\n                     urn_volume, neck_radius, neck_length FROM urn_devices"
    );
    assert_eq!(
        MEDIUM_PROPERTIES_QUERY,
        "SELECT medium_type, density, sound_speed, attenuation_coeff FROM medium_properties"
    );
    assert_eq!(SENSOR_DATA_TABLE, "sensor_data");
    assert_eq!(RESONANCE_ANALYSIS_TABLE, "resonance_analysis");
    assert_eq!(SOURCE_LOCALIZATION_TABLE, "source_localization");
    assert_eq!(ALERTS_TABLE, "alerts");
}
