use vstd::prelude::*;
use vstd::string::*;
use crate::infoprovider::InfoProvider;
use crate::utils::PowerState;
use crate::utils::lemma_label_names_one_state;

verus! {

/// A named socket that can be switched on and off.
pub struct Socket {
    name: String,
    power: PowerState,
}

impl Socket {
    /// The socket's name, fixed when it is made.
    pub closed spec fn label(&self) -> Seq<char> {
        self.name@
    }

    /// The socket's current power state.
    pub closed spec fn state(&self) -> PowerState {
        self.power
    }

    pub fn new(name: String, power: PowerState) -> (s: Socket)
        ensures
            s.label() == name@,
            s.state() == power,
    {
        Socket { name, power }
    }

    /// Overwrites the power state, whatever it was. The name stays.
    pub fn power(&mut self, power: PowerState)
        ensures
            final(self).label() == old(self).label(),
            final(self).state() == power,
    {
        self.power = power;
    }
}

impl InfoProvider for Socket {
    open spec fn info(&self) -> Seq<char> {
        self.label() + ", power is "@ + self.state().label()
    }

    fn get_info(&self) -> (s: String) {
        let mut s = self.name.clone();
        s.append(", power is ");
        s.append(self.power.as_str());
        s
    }
}

/// A socket's description reflects its power state: a socket in state `v`
/// describes itself by its name and the label of `v`, and two sockets of one
/// name describe themselves alike only where their states agree.
pub proof fn lemma_socket_info_reflects_power(s: Socket, other: Socket, v: PowerState)
    requires
        s.state() == v,
        other.label() == s.label(),
    ensures
        s.info() == s.label() + ", power is "@ + v.label(),
        s.info() == other.info() <==> other.state() == v,
{
    lemma_label_names_one_state(v, other.state());
    let head = s.label() + ", power is "@;
    assert(s.info().len() == head.len() + v.label().len());
    assert(other.info().len() == head.len() + other.state().label().len());
}

/// A thermometer. Its reading is held as the text that is displayed for it.
pub struct Thermometer {
    temperature: String,
}

impl Thermometer {
    /// The current reading, as displayed.
    pub closed spec fn reading(&self) -> Seq<char> {
        self.temperature@
    }

    pub fn new(temperature: String) -> (t: Thermometer)
        ensures
            t.reading() == temperature@,
    {
        Thermometer { temperature }
    }

    /// Overwrites the reading. Any text is taken as it is.
    pub fn set_temperature(&mut self, t: String)
        ensures
            final(self).reading() == t@,
    {
        self.temperature = t;
    }
}

impl InfoProvider for Thermometer {
    open spec fn info(&self) -> Seq<char> {
        "Thermometer, "@ + self.reading()
    }

    fn get_info(&self) -> (s: String) {
        let mut s = String::from_str("Thermometer, ");
        s.append(self.temperature.as_str());
        s
    }
}

/// A pressure controller that can be switched on and off. Its pressure
/// reading is set when it is made and held as the text displayed for it.
pub struct PressureController {
    pressure: String,
    power: PowerState,
}

impl PressureController {
    /// The pressure reading, as displayed.
    pub closed spec fn pressure(&self) -> Seq<char> {
        self.pressure@
    }

    /// The controller's current power state.
    pub closed spec fn state(&self) -> PowerState {
        self.power
    }

    /// A controller that reads zero pressure and is switched off.
    pub fn new() -> (p: PressureController)
        ensures
            p.pressure() == "0"@,
            p.state() == PowerState::Off,
    {
        PressureController { pressure: String::from_str("0"), power: PowerState::Off }
    }

    /// The pressure reading. It never changes after construction.
    pub fn get_pressure(&self) -> (r: String)
        ensures
            r@ == self.pressure(),
    {
        self.pressure.clone()
    }

    /// Overwrites the power state, whatever it was. The pressure reading
    /// stays.
    pub fn power(&mut self, power: PowerState)
        ensures
            final(self).pressure() == old(self).pressure(),
            final(self).state() == power,
    {
        self.power = power;
    }
}

impl InfoProvider for PressureController {
    open spec fn info(&self) -> Seq<char> {
        "Pressure = "@ + self.pressure() + ", power is "@ + self.state().label()
    }

    fn get_info(&self) -> (s: String) {
        let mut s = String::from_str("Pressure = ");
        s.append(self.pressure.as_str());
        s.append(", power is ");
        s.append(self.power.as_str());
        s
    }
}

impl Default for PressureController {
    fn default() -> (p: PressureController)
        ensures
            p.pressure() == "0"@,
            p.state() == PowerState::Off,
    {
        PressureController::new()
    }
}

/// A controller's description reflects its power state: a controller in
/// state `v` describes itself by its pressure reading and the label of `v`,
/// and two controllers of one reading describe themselves alike only where
/// their states agree.
pub proof fn lemma_controller_info_reflects_power(
    p: PressureController,
    other: PressureController,
    v: PowerState,
)
    requires
        p.state() == v,
        other.pressure() == p.pressure(),
    ensures
        p.info() == "Pressure = "@ + p.pressure() + ", power is "@ + v.label(),
        p.info() == other.info() <==> other.state() == v,
{
    lemma_label_names_one_state(v, other.state());
    let head = "Pressure = "@ + p.pressure() + ", power is "@;
    assert(p.info().len() == head.len() + v.label().len());
    assert(other.info().len() == head.len() + other.state().label().len());
}

/// Any one of the device kinds, so that one store can hold them all.
pub enum Device {
    Socket(Socket),
    Thermometer(Thermometer),
    PressureController(PressureController),
}

impl InfoProvider for Device {
    open spec fn info(&self) -> Seq<char> {
        match self {
            Device::Socket(d) => d.info(),
            Device::Thermometer(d) => d.info(),
            Device::PressureController(d) => d.info(),
        }
    }

    fn get_info(&self) -> (s: String) {
        match self {
            Device::Socket(d) => d.get_info(),
            Device::Thermometer(d) => d.get_info(),
            Device::PressureController(d) => d.get_info(),
        }
    }
}

} // verus!
