use vstd::prelude::*;

use crate::decimal::{decimal, push_decimal};

verus! {

/// The table of raw sensor readings.
pub const SENSOR_DATA_TABLE: &'static str = "sensor_data";

/// The table of resonance analyses.
pub const RESONANCE_ANALYSIS_TABLE: &'static str = "resonance_analysis";

/// The table of sound-source localizations.
pub const SOURCE_LOCALIZATION_TABLE: &'static str = "source_localization";

/// The table of alerts.
pub const ALERTS_TABLE: &'static str = "alerts";

/// The query that lists the stored devices.
pub const DEVICES_QUERY: &'static str = "SELECT device_id, device_name, deployment_x, deployment_y, deployment_z,\n                     urn_volume, neck_radius, neck_length FROM urn_devices";

/// The query that lists the stored medium properties.
pub const MEDIUM_PROPERTIES_QUERY: &'static str = "SELECT medium_type, density, sound_speed, attenuation_coeff FROM medium_properties";

/// The query that lists the most recent `limit` sensor readings, newest
/// first, restricted to one device when `device_id` names one.
pub fn recent_sensor_data_query(device_id: Option<u32>, limit: u32) -> (q: String)
    ensures
        q@ == match device_id {
            Some(id) => "SELECT timestamp, device_id, sound_pressure_level, resonance_frequency,\n                 source_direction, medium_density, temperature, humidity\n                 FROM sensor_data WHERE device_id = "@ + decimal(id as nat)
                + "\n                 ORDER BY timestamp DESC LIMIT "@ + decimal(limit as nat),
            None => "SELECT timestamp, device_id, sound_pressure_level, resonance_frequency,\n                 source_direction, medium_density, temperature, humidity\n                 FROM sensor_data ORDER BY timestamp DESC LIMIT "@ + decimal(limit as nat),
        },
{
    match device_id {
        Some(id) => {
            let mut q = String::from_str("SELECT timestamp, device_id, sound_pressure_level, resonance_frequency,\n                 source_direction, medium_density, temperature, humidity\n                 FROM sensor_data WHERE device_id = ");
            push_decimal(&mut q, id as u64);
            q.append("\n                 ORDER BY timestamp DESC LIMIT ");
            push_decimal(&mut q, limit as u64);
            q
        },
        None => {
            let mut q = String::from_str("SELECT timestamp, device_id, sound_pressure_level, resonance_frequency,\n                 source_direction, medium_density, temperature, humidity\n                 FROM sensor_data ORDER BY timestamp DESC LIMIT ");
            push_decimal(&mut q, limit as u64);
            q
        },
    }
}

/// The query that lists the most recent `limit` alerts, newest first.
pub fn recent_alerts_query(limit: u32) -> (q: String)
    ensures
        q@ == "SELECT timestamp, alert_id, alert_type, severity, device_id, message, details, is_resolved\n             FROM alerts ORDER BY timestamp DESC LIMIT "@ + decimal(limit as nat),
{
    let mut q = String::from_str("SELECT timestamp, alert_id, alert_type, severity, device_id, message, details, is_resolved\n             FROM alerts ORDER BY timestamp DESC LIMIT ");
    push_decimal(&mut q, limit as u64);
    q
}

/// The query that lists the most recent `limit` localizations, newest first.
pub fn recent_localizations_query(limit: u32) -> (q: String)
    ensures
        q@ == "SELECT timestamp, source_id, source_x, source_y, source_z, bearing_angle,\n             elevation_angle, distance_estimate, confidence, tdoa_matrix, beamformed_power,\n             used_devices FROM source_localization ORDER BY timestamp DESC LIMIT "@ + decimal(limit as nat),
{
    let mut q = String::from_str("SELECT timestamp, source_id, source_x, source_y, source_z, bearing_angle,\n             elevation_angle, distance_estimate, confidence, tdoa_matrix, beamformed_power,\n             used_devices FROM source_localization ORDER BY timestamp DESC LIMIT ");
    push_decimal(&mut q, limit as u64);
    q
}

} // verus!
