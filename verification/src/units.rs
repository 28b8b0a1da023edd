use vstd::prelude::*;

verus! {

/// The HVAC operating mode of the thermostat.
#[derive(Clone, Copy, PartialEq, Eq, Structural, Debug)]
pub enum HvacMode {
    Off,
    Heat,
    Cool,
    Auto,
}

/// One device reading as the vendor reports it: temperatures in tenths of a
/// degree Fahrenheit, humidities as integer percentages, and the HVAC mode
/// as the vendor's string.
#[derive(Clone)]
pub struct ThermostatReading {
    pub temperature: u64,
    pub humidity: u64,
    pub desired_heat: u64,
    pub desired_cool: u64,
    pub desired_humidity: u64,
    pub hvac_mode: String,
}

/// Mathematical model of a raw reading: the same fields, with the mode as a
/// character sequence.
pub struct ReadingView {
    pub temperature: u64,
    pub humidity: u64,
    pub desired_heat: u64,
    pub desired_cool: u64,
    pub desired_humidity: u64,
    pub hvac_mode: Seq<char>,
}

impl View for ThermostatReading {
    type V = ReadingView;

    open spec fn view(&self) -> ReadingView {
        ReadingView {
            temperature: self.temperature,
            humidity: self.humidity,
            desired_heat: self.desired_heat,
            desired_cool: self.desired_cool,
            desired_humidity: self.desired_humidity,
            hvac_mode: self.hvac_mode@,
        }
    }
}

/// The model of a sequence of raw readings.
pub open spec fn readings_view(s: Seq<ThermostatReading>) -> Seq<ReadingView> {
    s.map_values(|r: ThermostatReading| r@)
}

/// The locally cached, normalized thermostat state.
///
/// Temperatures are exact fixed-point degrees Celsius in units of 1/36 °C:
/// the vendor reports tenths of a degree Fahrenheit, and
/// `(raw/10 − 32) / 1.8` equals `(2·raw − 640) / 36` exactly, so no
/// precision is lost. Humidities are integer percentages; the target
/// humidity's fraction form is `target_humidity_pct / 100`.
#[derive(Clone, Copy, PartialEq, Eq, Structural, Debug)]
pub struct DeviceSnapshot {
    pub mode: HvacMode,
    pub current_temperature_c36: i128,
    pub target_temperature_c36: i128,
    pub current_humidity_pct: u64,
    pub target_humidity_pct: u64,
}

/// The HVAC mode a vendor mode string denotes: anything but `"auto"`,
/// `"cool"` and `"heat"` (including `"off"`) means `Off`.
pub open spec fn hvac_mode_of(m: Seq<char>) -> HvacMode {
    if m == "auto"@ {
        HvacMode::Auto
    } else if m == "cool"@ {
        HvacMode::Cool
    } else if m == "heat"@ {
        HvacMode::Heat
    } else {
        HvacMode::Off
    }
}

/// The state code the consumer-facing surface uses for each mode.
pub open spec fn state_code(m: HvacMode) -> u8 {
    match m {
        HvacMode::Auto => 3,
        HvacMode::Cool => 2,
        HvacMode::Heat => 1,
        HvacMode::Off => 0,
    }
}

/// The state code of a vendor mode string.
pub open spec fn mode_state(m: Seq<char>) -> u8 {
    state_code(hvac_mode_of(m))
}

/// Mode mapping law: `"auto"`→3, `"cool"`→2, `"heat"`→1, `"off"`→0, and any
/// other string→0.
pub proof fn lemma_mode_state_table(m: Seq<char>)
    ensures
        m == "auto"@ ==> mode_state(m) == 3,
        m == "cool"@ ==> mode_state(m) == 2,
        m == "heat"@ ==> mode_state(m) == 1,
        m == "off"@ ==> mode_state(m) == 0,
        m != "auto"@ && m != "cool"@ && m != "heat"@ ==> mode_state(m) == 0,
{
    reveal_strlit("auto");
    reveal_strlit("cool");
    reveal_strlit("heat");
    reveal_strlit("off");
    assert("cool"@[0] != "auto"@[0]);
    assert("heat"@[0] != "auto"@[0] && "heat"@[0] != "cool"@[0]);
    assert("off"@.len() != "auto"@.len());
}

/// Exact conversion of a current-temperature reading (tenths of °F) to
/// 1/36 °C: `(raw/10 − 32) / 1.8 == (2·raw − 640) / 36`.
pub open spec fn current_c36(raw: u64) -> int {
    2 * raw - 640
}

/// Exact conversion of the target temperature — the average of the desired
/// heat and desired cool readings (tenths of °F) — to 1/36 °C:
/// `((heat+cool)/20 − 32) / 1.8 == (heat + cool − 640) / 36`.
pub open spec fn target_c36(heat: u64, cool: u64) -> int {
    heat + cool - 640
}

/// The normalized snapshot a raw reading yields.
pub open spec fn normal_snapshot(r: ReadingView) -> DeviceSnapshot {
    DeviceSnapshot {
        mode: hvac_mode_of(r.hvac_mode),
        current_temperature_c36: current_c36(r.temperature) as i128,
        target_temperature_c36: target_c36(r.desired_heat, r.desired_cool) as i128,
        current_humidity_pct: r.humidity,
        target_humidity_pct: r.desired_humidity,
    }
}

/// Parses the vendor's HVAC mode string.
pub fn parse_hvac_mode(m: &String) -> (r: HvacMode)
    ensures
        r == hvac_mode_of(m@),
{
    let auto_word: String = "auto".to_owned();
    let cool_word: String = "cool".to_owned();
    let heat_word: String = "heat".to_owned();
    if *m == auto_word {
        HvacMode::Auto
    } else if *m == cool_word {
        HvacMode::Cool
    } else if *m == heat_word {
        HvacMode::Heat
    } else {
        HvacMode::Off
    }
}

/// The consumer state code of a mode.
pub fn mode_code(m: HvacMode) -> (r: u8)
    ensures
        r == state_code(m),
{
    match m {
        HvacMode::Auto => 3,
        HvacMode::Cool => 2,
        HvacMode::Heat => 1,
        HvacMode::Off => 0,
    }
}

/// Normalizes one raw vendor reading into a snapshot, converting the
/// temperatures exactly into 1/36 °C fixed point.
pub fn normalize(r: &ThermostatReading) -> (s: DeviceSnapshot)
    ensures
        s == normal_snapshot(r@),
{
    let current: i128 = 2 * (r.temperature as i128) - 640;
    let target: i128 = (r.desired_heat as i128) + (r.desired_cool as i128) - 640;
    DeviceSnapshot {
        mode: parse_hvac_mode(&r.hvac_mode),
        current_temperature_c36: current,
        target_temperature_c36: target,
        current_humidity_pct: r.humidity,
        target_humidity_pct: r.desired_humidity,
    }
}

} // verus!
