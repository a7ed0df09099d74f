use vstd::prelude::*;
use vstd::string::StringExecFns;

verus! {

/// How far a unit is from running.
#[derive(Clone, Copy, Debug, PartialEq, Eq, Structural)]
pub enum ActiveState {
    Active,
    Reloading,
    Inactive,
    Failed,
    Activating,
    Deactivating,
}

/// The lowercase name under which an active state is rendered.
pub open spec fn active_state_name(s: ActiveState) -> Seq<char> {
    match s {
        ActiveState::Active => seq!['a', 'c', 't', 'i', 'v', 'e'],
        ActiveState::Reloading => seq!['r', 'e', 'l', 'o', 'a', 'd', 'i', 'n', 'g'],
        ActiveState::Inactive => seq!['i', 'n', 'a', 'c', 't', 'i', 'v', 'e'],
        ActiveState::Failed => seq!['f', 'a', 'i', 'l', 'e', 'd'],
        ActiveState::Activating => seq!['a', 'c', 't', 'i', 'v', 'a', 't', 'i', 'n', 'g'],
        ActiveState::Deactivating => seq![
            'd',
            'e',
            'a',
            'c',
            't',
            'i',
            'v',
            'a',
            't',
            'i',
            'n',
            'g',
        ],
    }
}

impl ActiveState {
    /// Renders the state as its lowercase name.
    pub fn to_string(&self) -> (r: String)
        ensures
            r@ == active_state_name(*self),
    {
        match self {
            ActiveState::Active => {
                proof {
                    reveal_strlit("active");
                }
                String::from_str("active")
            },
            ActiveState::Reloading => {
                proof {
                    reveal_strlit("reloading");
                }
                String::from_str("reloading")
            },
            ActiveState::Inactive => {
                proof {
                    reveal_strlit("inactive");
                }
                String::from_str("inactive")
            },
            ActiveState::Failed => {
                proof {
                    reveal_strlit("failed");
                }
                String::from_str("failed")
            },
            ActiveState::Activating => {
                proof {
                    reveal_strlit("activating");
                }
                String::from_str("activating")
            },
            ActiveState::Deactivating => {
                proof {
                    reveal_strlit("deactivating");
                }
                String::from_str("deactivating")
            },
        }
    }
}

/// One mock unit: the name it was added under, the address derived from that
/// name, and its active state.
pub struct Unit {
    pub name: String,
    pub address: String,
    pub state: ActiveState,
}

impl Unit {
    /// The unit's active state, rendered as its lowercase name.
    pub fn active_state(&self) -> (r: String)
        ensures
            r@ == active_state_name(self.state),
    {
        self.state.to_string()
    }

    /// The units this one is part of: none, since no dependencies are kept.
    pub fn part_of(&self) -> (r: Vec<String>)
        ensures
            r@.len() == 0,
    {
        Vec::new()
    }
}

/// What a unit's active state reads after a start or restart (`active`) and
/// after a stop (`inactive`).
pub proof fn lemma_active_state_readback()
    ensures
        active_state_name(ActiveState::Active) == "active"@,
        active_state_name(ActiveState::Inactive) == "inactive"@,
{
    reveal_strlit("active");
    reveal_strlit("inactive");
    assert(active_state_name(ActiveState::Active) =~= "active"@);
    assert(active_state_name(ActiveState::Inactive) =~= "inactive"@);
}

} // verus!
