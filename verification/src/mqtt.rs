//! Republishing to a broker for home automation: the broker's address, the
//! topics and discovery documents, and the count of acknowledgements.

use vstd::prelude::*;
use vstd::string::StringExecFns;
use crate::http::joined;

verus! {

/// The port of a broker where none is given, or none that can be read.
pub const DEFAULT_PORT: u16 = 1883;

/// How many publications a run makes: two discovery documents and one state.
pub const EXPECTED_PUBLISHES: u32 = 3;

/// Every character is a decimal digit.
pub open spec fn is_decimal(s: Seq<char>) -> bool {
    forall|i: int| 0 <= i < s.len() ==> '0' <= #[trigger] s[i] <= '9'
}

/// The number that decimal digits spell.
pub open spec fn decimal_value(s: Seq<char>) -> nat
    decreases s.len(),
{
    if s.len() == 0 {
        0
    } else {
        decimal_value(s.drop_last()) * 10 + (s.last() as u8 - '0' as u8) as nat
    }
}

/// The text without a plus sign in front.
pub open spec fn unsigned_part(s: Seq<char>) -> Seq<char> {
    if s.len() > 0 && s[0] == '+' {
        s.subrange(1, s.len() as int)
    } else {
        s
    }
}

/// The port that a text spells: decimal digits, at least one, after at most
/// one plus sign, with a value that a port can have.
pub open spec fn port_of(s: Seq<char>) -> Option<u16> {
    let digits = unsigned_part(s);
    if digits.len() > 0 && is_decimal(digits) && decimal_value(digits) <= u16::MAX {
        Some(decimal_value(digits) as u16)
    } else {
        None
    }
}

/// The text holds no colon.
pub open spec fn no_colon(s: Seq<char>) -> bool {
    forall|i: int| 0 <= i < s.len() ==> #[trigger] s[i] != ':'
}

/// The first colon of the text stands at this place.
pub open spec fn first_colon_at(s: Seq<char>, i: int) -> bool {
    0 <= i < s.len() && s[i] == ':' && no_colon(s.subrange(0, i))
}

/// The host and port that a broker's address names: the text up to the first
/// colon, and the port that the rest spells; without a colon, or with a rest
/// that spells no port, the default port.
pub open spec fn is_broker_address(s: Seq<char>, host: Seq<char>, port: u16) -> bool {
    &&& no_colon(s) ==> host == s && port == DEFAULT_PORT
    &&& forall|i: int| #[trigger]
        first_colon_at(s, i) ==> host == s.subrange(0, i) && port == match port_of(
            s.subrange(i + 1, s.len() as int),
        ) {
            Some(p) => p,
            None => DEFAULT_PORT,
        }
}

/// The digits of a longer text spell at least what its beginning spells.
pub proof fn lemma_decimal_value_grows(s: Seq<char>, k: int)
    requires
        0 <= k <= s.len(),
        is_decimal(s),
    ensures
        decimal_value(s.subrange(0, k)) <= decimal_value(s),
    decreases s.len(),
{
    if k == s.len() {
        assert(s.subrange(0, k) =~= s);
    } else {
        let front = s.drop_last();
        assert(is_decimal(front)) by {
            assert forall|i: int| 0 <= i < front.len() implies '0' <= #[trigger] front[i]
                <= '9' by {
                assert(front[i] == s[i]);
            }
        }
        lemma_decimal_value_grows(front, k);
        assert(front.subrange(0, k) =~= s.subrange(0, k));
        assert('0' <= s[s.len() - 1] <= '9');
    }
}

/// Reads a port.
pub fn parse_port(s: &str) -> (r: Option<u16>)
    ensures
        r == port_of(s@),
{
    let n: usize = s.unicode_len();
    if n == 0 {
        return None;
    }
    let start: usize = if s.get_char(0) == '+' {
        1
    } else {
        0
    };
    if start == n {
        return None;
    }
    let ghost digits = unsigned_part(s@);
    proof {
        assert(s@.subrange(0, n as int) =~= s@);
    }
    let mut value: u32 = 0;
    let mut i: usize = start;
    while i < n
        invariant
            n == s@.len(),
            start <= i <= n,
            start <= 1,
            digits == unsigned_part(s@),
            digits == s@.subrange(start as int, n as int),
            is_decimal(digits.subrange(0, i - start)),
            value == decimal_value(digits.subrange(0, i - start)),
            value <= u16::MAX,
        decreases n - i,
    {
        let c: char = s.get_char(i);
        let ghost before = digits.subrange(0, i - start);
        let ghost after = digits.subrange(0, i - start + 1);
        proof {
            assert(digits[i - start] == c);
            assert(after.drop_last() =~= before);
            assert(after.last() == c);
        }
        if !('0' <= c && c <= '9') {
            proof {
                assert(!('0' <= digits[i - start] <= '9'));
            }
            return None;
        }
        let d: u32 = (c as u8 - '0' as u8) as u32;
        value = value * 10 + d;
        proof {
            assert(value == decimal_value(after));
            assert forall|j: int| 0 <= j < after.len() implies '0' <= #[trigger] after[j]
                <= '9' by {
                if j < before.len() {
                    assert(before[j] == after[j]);
                }
            }
        }
        if value > 65535 {
            proof {
                if is_decimal(digits) {
                    lemma_decimal_value_grows(digits, i - start + 1);
                }
            }
            return None;
        }
        i = i + 1;
    }
    proof {
        assert(digits.subrange(0, n - start) =~= digits);
    }
    Some(value as u16)
}

/// Reads a broker's address, `host:port` or `host`.
pub fn broker_address(server: &str) -> (r: (String, u16))
    ensures
        is_broker_address(server@, r.0@, r.1),
{
    let n: usize = server.unicode_len();
    let mut i: usize = 0;
    while i < n
        invariant
            n == server@.len(),
            i <= n,
            no_colon(server@.subrange(0, i as int)),
        decreases n - i,
    {
        if server.get_char(i) == ':' {
            let host = server.substring_char(0, i);
            let rest = server.substring_char(i + 1, n);
            let port = match parse_port(rest) {
                Some(p) => p,
                None => DEFAULT_PORT,
            };
            proof {
                assert forall|j: int| #[trigger] first_colon_at(server@, j) implies j == i by {
                    if j < i {
                        assert(server@.subrange(0, i as int)[j] == ':');
                    } else if j > i {
                        assert(server@.subrange(0, j)[i as int] == ':');
                    }
                }
                assert(!no_colon(server@)) by {
                    assert(server@[i as int] == ':');
                }
            }
            return (String::from_str(host), port);
        }
        proof {
            assert forall|j: int| 0 <= j < i + 1 implies #[trigger] server@.subrange(0, i + 1)[j]
                != ':' by {
                if j < i {
                    assert(server@.subrange(0, i as int)[j] != ':');
                }
            }
        }
        i = i + 1;
    }
    proof {
        assert(server@.subrange(0, n as int) =~= server@);
        assert forall|j: int| #[trigger] first_colon_at(server@, j) implies false by {
            assert(server@[j] != ':');
        }
    }
    (String::from_str(server), DEFAULT_PORT)
}

/// A sensor that is announced to the home automation.
#[derive(Debug)]
pub struct Sensor {
    pub sensor_name: String,
    pub friendly_name: String,
    pub unit: String,
    pub icon: String,
    pub device_class: Option<String>,
    pub state_class: Option<String>,
}

/// The texts of one sensor's discovery document, and the topic it goes to.
#[derive(Debug)]
pub struct DiscoveryConfig {
    pub config_topic: String,
    pub name: String,
    pub unique_id: String,
    pub state_topic: String,
    pub value_template: String,
    pub unit_of_measurement: String,
    pub icon: String,
    pub device_identifier: String,
    pub device_name: String,
    pub device_manufacturer: String,
    pub device_model: String,
    pub device_class: Option<String>,
    pub state_class: Option<String>,
}

/// The manufacturer that every discovery document names.
pub open spec fn spec_device_manufacturer() -> Seq<char> {
    "Hydro Ottawa"@
}

/// The model that every discovery document names.
pub open spec fn spec_device_model() -> Seq<char> {
    "Energy Monitor"@
}

/// The manufacturer that every discovery document names.
pub fn device_manufacturer() -> (r: &'static str)
    ensures
        r@ == spec_device_manufacturer(),
{
    "Hydro Ottawa"
}

/// The model that every discovery document names.
pub fn device_model() -> (r: &'static str)
    ensures
        r@ == spec_device_model(),
{
    "Energy Monitor"
}

/// The topic under which an account's sensors are announced.
pub open spec fn spec_base_topic(account_id: Seq<char>) -> Seq<char> {
    "homeassistant/sensor/hydroottawa_"@ + account_id
}

/// The topic of an account's state.
pub open spec fn spec_state_topic(account_id: Seq<char>) -> Seq<char> {
    "hydroottawa/"@ + account_id + "/state"@
}

/// The topic of one sensor's discovery document.
pub open spec fn spec_config_topic(base_topic: Seq<char>, sensor_name: Seq<char>) -> Seq<char> {
    base_topic + "_"@ + sensor_name + "/config"@
}

/// The discovery document holds what this account and sensor give.
pub open spec fn is_discovery_config(
    config: DiscoveryConfig,
    base_topic: Seq<char>,
    account_id: Seq<char>,
    sensor: Sensor,
) -> bool {
    &&& config.config_topic@ == spec_config_topic(base_topic, sensor.sensor_name@)
    &&& config.name@ == "Hydro Ottawa "@ + sensor.friendly_name@
    &&& config.unique_id@ == "hydroottawa_"@ + account_id + "_"@ + sensor.sensor_name@
    &&& config.state_topic@ == spec_state_topic(account_id)
    &&& config.value_template@ == "{{ value_json."@ + sensor.sensor_name@ + " }}"@
    &&& config.unit_of_measurement == sensor.unit
    &&& config.icon == sensor.icon
    &&& config.device_identifier@ == "hydroottawa_"@ + account_id
    &&& config.device_name@ == "Hydro Ottawa "@ + account_id
    &&& config.device_manufacturer@ == spec_device_manufacturer()
    &&& config.device_model@ == spec_device_model()
    &&& config.device_class == sensor.device_class
    &&& config.state_class == sensor.state_class
}

/// The topic under which an account's sensors are announced.
pub fn base_topic(account_id: &str) -> (r: String)
    ensures
        r@ == spec_base_topic(account_id@),
{
    joined("homeassistant/sensor/hydroottawa_", account_id)
}

/// The topic of an account's state.
pub fn state_topic(account_id: &str) -> (r: String)
    ensures
        r@ == spec_state_topic(account_id@),
{
    let mut out = joined("hydroottawa/", account_id);
    out.append("/state");
    out
}

/// Writes the discovery document of one sensor.
pub fn discovery_config(base_topic: &str, account_id: &str, sensor: Sensor) -> (config:
    DiscoveryConfig)
    ensures
        is_discovery_config(config, base_topic@, account_id@, sensor),
{
    let mut config_topic = joined(base_topic, "_");
    config_topic.append(sensor.sensor_name.as_str());
    config_topic.append("/config");
    let mut unique_id = joined("hydroottawa_", account_id);
    unique_id.append("_");
    unique_id.append(sensor.sensor_name.as_str());
    let mut value_template = joined("{{ value_json.", sensor.sensor_name.as_str());
    value_template.append(" }}");
    DiscoveryConfig {
        config_topic,
        name: joined("Hydro Ottawa ", sensor.friendly_name.as_str()),
        unique_id,
        state_topic: state_topic(account_id),
        value_template,
        unit_of_measurement: sensor.unit,
        icon: sensor.icon,
        device_identifier: joined("hydroottawa_", account_id),
        device_name: joined("Hydro Ottawa ", account_id),
        device_manufacturer: String::from_str(device_manufacturer()),
        device_model: String::from_str(device_model()),
        device_class: sensor.device_class,
        state_class: sensor.state_class,
    }
}

/// The sensor of the day's total usage.
pub fn total_usage_sensor() -> (s: Sensor)
    ensures
        s.sensor_name@ == "totalUsage"@,
        s.friendly_name@ == "Total Usage"@,
        s.unit@ == "kWh"@,
        s.icon@ == "mdi:lightning-bolt"@,
        s.device_class matches Some(c) && c@ == "energy"@,
        s.state_class matches Some(c) && c@ == "total"@,
{
    Sensor {
        sensor_name: String::from_str("totalUsage"),
        friendly_name: String::from_str("Total Usage"),
        unit: String::from_str("kWh"),
        icon: String::from_str("mdi:lightning-bolt"),
        device_class: Some(String::from_str("energy")),
        state_class: Some(String::from_str("total")),
    }
}

/// The sensor of the day's total cost.
pub fn total_cost_sensor() -> (s: Sensor)
    ensures
        s.sensor_name@ == "totalCost"@,
        s.friendly_name@ == "Total Cost"@,
        s.unit@ == "CAD"@,
        s.icon@ == "mdi:currency-usd"@,
        s.device_class matches Some(c) && c@ == "monetary"@,
        s.state_class matches Some(c) && c@ == "total"@,
{
    Sensor {
        sensor_name: String::from_str("totalCost"),
        friendly_name: String::from_str("Total Cost"),
        unit: String::from_str("CAD"),
        icon: String::from_str("mdi:currency-usd"),
        device_class: Some(String::from_str("monetary")),
        state_class: Some(String::from_str("total")),
    }
}

/// What the broker's connection reports.
#[derive(Debug, Clone, Copy, PartialEq, Eq, Structural)]
pub enum BrokerEvent {
    /// The broker accepted the connection.
    Connected,
    /// The broker acknowledged one publication.
    Acknowledged,
    /// Anything else that came or went.
    Other,
    /// The connection failed.
    Failure,
}

/// What the loop that watches the connection does next.
#[derive(Debug, Clone, Copy, PartialEq, Eq, Structural)]
pub enum Watch {
    /// Go on watching.
    Continue,
    /// Every publication is acknowledged.
    Finished,
    /// Give up with the connection's error.
    Failed,
}

/// The count after an event, and what the watching loop does next: an
/// acknowledgement counts one more, and the loop finishes when the count
/// reaches the expected number; a failure ends it; anything else changes
/// nothing.
pub open spec fn watched(acknowledged: u32, event: BrokerEvent) -> (u32, Watch) {
    match event {
        BrokerEvent::Acknowledged => if acknowledged + 1 >= EXPECTED_PUBLISHES {
            ((acknowledged + 1) as u32, Watch::Finished)
        } else {
            ((acknowledged + 1) as u32, Watch::Continue)
        },
        BrokerEvent::Failure => (acknowledged, Watch::Failed),
        _ => (acknowledged, Watch::Continue),
    }
}

/// Takes one event of the connection into the count of acknowledgements.
pub fn watch(acknowledged: u32, event: BrokerEvent) -> (r: (u32, Watch))
    requires
        acknowledged < u32::MAX,
    ensures
        r == watched(acknowledged, event),
{
    match event {
        BrokerEvent::Acknowledged => {
            let count: u32 = acknowledged + 1;
            if count >= EXPECTED_PUBLISHES {
                (count, Watch::Finished)
            } else {
                (count, Watch::Continue)
            }
        },
        BrokerEvent::Failure => (acknowledged, Watch::Failed),
        _ => (acknowledged, Watch::Continue),
    }
}

} // verus!
