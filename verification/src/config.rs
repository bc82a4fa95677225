use vstd::prelude::*;

use crate::decimal::{decimal, push_decimal};
use crate::numeric::Milli;

verus! {

/// Where the HTTP service listens and which directory it serves pages from.
pub struct ServerConfig {
    pub host: String,
    pub port: u16,
    pub static_dir: String,
}

impl ServerConfig {
    /// The address the service binds: host, a colon, then the port.
    pub fn listen_address(&self) -> (a: String)
        ensures
            a@ == self.host@ + ":"@ + decimal(self.port as nat),
    {
        let mut a = self.host.clone();
        a.append(":");
        push_decimal(&mut a, self.port as u64);
        a
    }
}

/// How the service reaches the MQTT broker that relays sensor readings.
pub struct MqttConfig {
    pub broker: String,
    pub port: u16,
    pub client_id: String,
    pub topic: String,
    pub username: Option<String>,
    pub password: Option<String>,
}

/// How the service reaches the analytics store.
pub struct ClickHouseConfig {
    pub url: String,
    pub database: String,
    pub user: String,
    pub password: String,
}

/// Physical constants and thresholds of the resonance analysis.
pub struct AcousticsConfig {
    /// Speed of sound in air, metres per second.
    pub speed_of_sound: Milli,
    /// Urn volume assumed when none is given, cubic metres.
    pub default_urn_volume: Milli,
    /// Neck radius assumed when none is given, metres.
    pub default_neck_radius: Milli,
    /// Neck length assumed when none is given, metres.
    pub default_neck_length: Milli,
    /// Frequency drift, in percent, above which a reading is anomalous.
    pub drift_warning_threshold_percent: Milli,
    /// Frequency drift, in percent, above which a reading is critical.
    pub drift_critical_threshold_percent: Milli,
}

/// Parameters of the underground sound-source localization.
pub struct LocalizationConfig {
    /// Speed of sound in soil, metres per second.
    pub sound_speed_soil: Milli,
    /// Grid step of the beamforming search, metres.
    pub beamforming_resolution: Milli,
    /// Farthest distance searched, metres.
    pub max_localization_distance: Milli,
    /// Confidence below which a localization is not trusted.
    pub localization_confidence_threshold: Milli,
}

/// Alerting thresholds.
pub struct AlertConfig {
    /// Frequency drift, in percent, that raises a warning.
    pub frequency_drift_warning: Milli,
    /// Localization bias, in metres, that raises a warning.
    pub localization_bias_warning: Milli,
    /// Minimum time between two alerts of the same kind, seconds.
    pub cooldown_seconds: u64,
}

/// The whole service configuration.
pub struct Config {
    pub server: ServerConfig,
    pub mqtt: MqttConfig,
    pub clickhouse: ClickHouseConfig,
    pub acoustics: AcousticsConfig,
    pub localization: LocalizationConfig,
    pub alert: AlertConfig,
}

/// The configuration the service runs with.
pub fn load_config() -> (c: Config)
    ensures
        c.server.host@ == "0.0.0.0"@,
        c.server.port == 8080,
        c.server.static_dir@ == "../frontend"@,
        c.mqtt.broker@ == "localhost"@,
        c.mqtt.port == 1883,
        c.mqtt.client_id@ == "urn_acoustics_backend"@,
        c.mqtt.topic@ == "urn/sensors/#"@,
        c.mqtt.username.is_none(),
        c.mqtt.password.is_none(),
        c.clickhouse.url@ == "http://localhost:8123"@,
        c.clickhouse.database@ == "urn_acoustics"@,
        c.clickhouse.user@ == "default"@,
        c.clickhouse.password@ == ""@,
        c.acoustics.speed_of_sound == Milli(343_000),
        c.acoustics.default_urn_volume == Milli(50),
        c.acoustics.default_neck_radius == Milli(50),
        c.acoustics.default_neck_length == Milli(100),
        c.acoustics.drift_warning_threshold_percent == Milli(5_000),
        c.acoustics.drift_critical_threshold_percent == Milli(15_000),
        c.localization.sound_speed_soil == Milli(1_500_000),
        c.localization.beamforming_resolution == Milli(1_000),
        c.localization.max_localization_distance == Milli(500_000),
        c.localization.localization_confidence_threshold == Milli(300),
        c.alert.frequency_drift_warning == Milli(5_000),
        c.alert.localization_bias_warning == Milli(50_000),
        c.alert.cooldown_seconds == 30,
{
    Config {
        server: ServerConfig {
            host: String::from_str("0.0.0.0"),
            port: 8080,
            static_dir: String::from_str("../frontend"),
        },
        mqtt: MqttConfig {
            broker: String::from_str("localhost"),
            port: 1883,
            client_id: String::from_str("urn_acoustics_backend"),
            topic: String::from_str("urn/sensors/#"),
            username: None,
            password: None,
        },
        clickhouse: ClickHouseConfig {
            url: String::from_str("http://localhost:8123"),
            database: String::from_str("urn_acoustics"),
            user: String::from_str("default"),
            password: String::from_str(""),
        },
        acoustics: AcousticsConfig {
            speed_of_sound: Milli(343_000),
            default_urn_volume: Milli(50),
            default_neck_radius: Milli(50),
            default_neck_length: Milli(100),
            drift_warning_threshold_percent: Milli(5_000),
            drift_critical_threshold_percent: Milli(15_000),
        },
        localization: LocalizationConfig {
            sound_speed_soil: Milli(1_500_000),
            beamforming_resolution: Milli(1_000),
            max_localization_distance: Milli(500_000),
            localization_confidence_threshold: Milli(300),
        },
        alert: AlertConfig {
            frequency_drift_warning: Milli(5_000),
            localization_bias_warning: Milli(50_000),
            cooldown_seconds: 30,
        },
    }
}

} // verus!
