//! Values that travel between the ingestion path, the liveness monitor and
//! the viewer sessions.
use vstd::prelude::*;

verus! {

/// Bit pattern of the quiet NaN that stands for a sensor field whose token
/// could not be read as a number.
pub const NAN_BITS: u32 = 0x7fc0_0000;

/// The fourteen sensor fields of one reading, in wire order. Each field holds
/// the IEEE-754 binary32 bit pattern of the measured value.
#[derive(Clone, Copy, Debug, PartialEq, Eq)]
pub struct PmValues {
    pub co: u32,
    pub co2: u32,
    pub temperature: u32,
    pub humidity: u32,
    pub noise: u32,
    pub pm_10: u32,
    pub pm_25: u32,
    pub pm_100: u32,
    pub pm_particles_03: u32,
    pub pm_particles_05: u32,
    pub pm_particles_10: u32,
    pub pm_particles_25: u32,
    pub pm_particles_50: u32,
    pub pm_particles_100: u32,
}

/// What a field holds given the outcome of reading its token as a number.
pub open spec fn field_value(parsed: Option<u32>) -> u32 {
    match parsed {
        Some(bits) => bits,
        None => NAN_BITS,
    }
}

impl PmValues {
    /// The fields in wire order.
    pub open spec fn fields(&self) -> Seq<u32> {
        seq![
            self.co, self.co2, self.temperature, self.humidity, self.noise,
            self.pm_10, self.pm_25, self.pm_100, self.pm_particles_03,
            self.pm_particles_05, self.pm_particles_10, self.pm_particles_25,
            self.pm_particles_50, self.pm_particles_100,
        ]
    }

    /// Builds a reading from the outcome of reading each of the fourteen
    /// tokens as a number: a token that could not be read becomes NaN, and
    /// every other field keeps its own value.
    pub fn from_parsed(parsed: &Vec<Option<u32>>) -> (r: PmValues)
        requires
            parsed@.len() == 14,
        ensures
            r.fields().len() == 14,
            forall|i: int| 0 <= i < 14 ==> #[trigger] r.fields()[i] == field_value(parsed@[i]),
    {
        let r = PmValues {
            co: value_of(parsed[0]),
            co2: value_of(parsed[1]),
            temperature: value_of(parsed[2]),
            humidity: value_of(parsed[3]),
            noise: value_of(parsed[4]),
            pm_10: value_of(parsed[5]),
            pm_25: value_of(parsed[6]),
            pm_100: value_of(parsed[7]),
            pm_particles_03: value_of(parsed[8]),
            pm_particles_05: value_of(parsed[9]),
            pm_particles_10: value_of(parsed[10]),
            pm_particles_25: value_of(parsed[11]),
            pm_particles_50: value_of(parsed[12]),
            pm_particles_100: value_of(parsed[13]),
        };
        assert(r.fields() =~= parsed@.map_values(|p: Option<u32>| field_value(p)));
        r
    }
}

/// The field value for one token's parse outcome.
pub fn value_of(parsed: Option<u32>) -> (r: u32)
    ensures
        r == field_value(parsed),
{
    match parsed {
        Some(bits) => bits,
        None => NAN_BITS,
    }
}

/// One valid frame from a known device.
#[derive(Debug)]
pub struct ESPRecievedEvent {
    pub id: String,
    pub data: PmValues,
}

/// A change of a device's online status.
#[derive(Debug)]
pub struct ESPActiveEvent {
    pub id: String,
    pub active: bool,
}

impl View for ESPRecievedEvent {
    type V = (Seq<char>, PmValues);

    open spec fn view(&self) -> (Seq<char>, PmValues) {
        (self.id@, self.data)
    }
}

impl View for ESPActiveEvent {
    type V = (Seq<char>, bool);

    open spec fn view(&self) -> (Seq<char>, bool) {
        (self.id@, self.active)
    }
}

impl ESPRecievedEvent {
    pub fn duplicate(&self) -> (r: ESPRecievedEvent)
        ensures
            r@ == self@,
    {
        ESPRecievedEvent { id: self.id.clone(), data: self.data }
    }
}

impl ESPActiveEvent {
    pub fn duplicate(&self) -> (r: ESPActiveEvent)
        ensures
            r@ == self@,
    {
        ESPActiveEvent { id: self.id.clone(), active: self.active }
    }
}

/// What a viewer subscribes to: every device, or exactly one.
#[derive(Debug)]
pub enum SessionType {
    Main,
    Child(String),
}

/// The mathematical value of a [`SessionType`].
pub enum ScopeView {
    Main,
    Child(Seq<char>),
}

impl View for SessionType {
    type V = ScopeView;

    open spec fn view(&self) -> ScopeView {
        match self {
            SessionType::Main => ScopeView::Main,
            SessionType::Child(id) => ScopeView::Child(id@),
        }
    }
}

/// Whether a viewer with this scope wants events of the device `id`.
pub open spec fn scope_matches(scope: ScopeView, id: Seq<char>) -> bool {
    match scope {
        ScopeView::Main => true,
        ScopeView::Child(x) => x == id,
    }
}

impl SessionType {
    pub fn duplicate(&self) -> (r: SessionType)
        ensures
            r@ == self@,
    {
        match self {
            SessionType::Main => SessionType::Main,
            SessionType::Child(id) => SessionType::Child(id.clone()),
        }
    }

    /// Whether this scope selects events of the device `id`.
    pub fn matches(&self, id: &String) -> (r: bool)
        ensures
            r == scope_matches(self@, id@),
    {
        match self {
            SessionType::Main => true,
            SessionType::Child(x) => x.eq(id),
        }
    }
}

/// A message of the viewer push protocol.
#[derive(Debug)]
pub enum WsMessage {
    Identify(SessionType),
    Data(ESPRecievedEvent),
    DeviceActive(ESPActiveEvent),
    KeepAlive,
}

} // verus!
