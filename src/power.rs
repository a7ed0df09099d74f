use vstd::prelude::*;
use vstd::string::StringExecFns;

verus! {

/// The mock machine's power state.
#[derive(Clone, Copy, Debug, PartialEq, Eq, Structural)]
pub enum PowerState {
    Ready,
    Rebooting,
    Off,
}

/// The lowercase name under which a power state is rendered.
pub open spec fn power_state_name(s: PowerState) -> Seq<char> {
    match s {
        PowerState::Ready => seq!['r', 'e', 'a', 'd', 'y'],
        PowerState::Rebooting => seq!['r', 'e', 'b', 'o', 'o', 't', 'i', 'n', 'g'],
        PowerState::Off => seq!['o', 'f', 'f'],
    }
}

impl PowerState {
    /// Renders the state as its lowercase name.
    pub fn to_string(&self) -> (r: String)
        ensures
            r@ == power_state_name(*self),
    {
        match self {
            PowerState::Ready => {
                proof {
                    reveal_strlit("ready");
                }
                String::from_str("ready")
            },
            PowerState::Rebooting => {
                proof {
                    reveal_strlit("rebooting");
                }
                String::from_str("rebooting")
            },
            PowerState::Off => {
                proof {
                    reveal_strlit("off");
                }
                String::from_str("off")
            },
        }
    }
}

/// The login manager's power state machine. Every transition is allowed from
/// every state, so that a long-lived process can be re-armed between uses.
pub struct LoginManager {
    pub state: PowerState,
}

impl LoginManager {
    /// A login manager in the `Ready` state.
    pub fn new() -> (r: LoginManager)
        ensures
            r.state == PowerState::Ready,
    {
        LoginManager { state: PowerState::Ready }
    }

    /// Requests a reboot; `_interactive` has no effect.
    pub fn reboot(&mut self, _interactive: bool)
        ensures
            final(self).state == PowerState::Rebooting,
    {
        self.state = PowerState::Rebooting;
    }

    /// Requests a power-off; `_interactive` has no effect.
    pub fn power_off(&mut self, _interactive: bool)
        ensures
            final(self).state == PowerState::Off,
    {
        self.state = PowerState::Off;
    }

    /// Brings the machine back to `Ready`, whatever state it was in.
    pub fn mock_reset(&mut self)
        ensures
            final(self).state == PowerState::Ready,
    {
        self.state = PowerState::Ready;
    }

    /// The current power state, rendered as its lowercase name.
    pub fn mock_state(&self) -> (r: String)
        ensures
            r@ == power_state_name(self.state),
    {
        self.state.to_string()
    }
}

impl Default for LoginManager {
    fn default() -> (r: LoginManager)
        ensures
            r.state == PowerState::Ready,
    {
        LoginManager::new()
    }
}

/// What `mock_state` reads after each transition, whatever the state before:
/// `ready` after `new` or `mock_reset`, `rebooting` after `reboot`, `off`
/// after `power_off`.
pub proof fn lemma_power_readback()
    ensures
        power_state_name(PowerState::Ready) == "ready"@,
        power_state_name(PowerState::Rebooting) == "rebooting"@,
        power_state_name(PowerState::Off) == "off"@,
{
    reveal_strlit("ready");
    reveal_strlit("rebooting");
    reveal_strlit("off");
    assert(power_state_name(PowerState::Ready) =~= "ready"@);
    assert(power_state_name(PowerState::Rebooting) =~= "rebooting"@);
    assert(power_state_name(PowerState::Off) =~= "off"@);
}

} // verus!
