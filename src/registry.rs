use vstd::prelude::*;
use vstd::string::StringExecFns;

use crate::address::{address_of, normalize};
use crate::error::{ErrorKind, UnitError};
use crate::unit::{ActiveState, Unit};

verus! {

/// The placeholder job that start, stop and restart hand back.
pub const JOB_PATH: &'static str = "/org/freedesktop/systemd1/job/mock";

/// The units, keyed by address.
pub type UnitMap = Map<Seq<char>, ActiveState>;

/// Adding a unit: fails where the name gives no valid address or a unit
/// already stands there; else a unit in `Inactive` is put at the address.
pub open spec fn add_spec(m: UnitMap, name: Seq<char>) -> (UnitMap, Result<Seq<char>, ErrorKind>) {
    match address_of(name) {
        None => (m, Err(ErrorKind::InvalidAddress)),
        Some(a) => if m.contains_key(a) {
            (m, Err(ErrorKind::UnitAlreadyExists))
        } else {
            (m.insert(a, ActiveState::Inactive), Ok(a))
        },
    }
}

/// Removing a unit: says whether one stood at the name's address.
pub open spec fn remove_spec(m: UnitMap, name: Seq<char>) -> (UnitMap, Result<bool, ErrorKind>) {
    match address_of(name) {
        None => (m, Err(ErrorKind::InvalidAddress)),
        Some(a) => if m.contains_key(a) {
            (m.remove(a), Ok(true))
        } else {
            (m, Ok(false))
        },
    }
}

/// Looking a unit up: its address, where one stands there.
pub open spec fn get_spec(m: UnitMap, name: Seq<char>) -> Result<Seq<char>, ErrorKind> {
    match address_of(name) {
        None => Err(ErrorKind::InvalidAddress),
        Some(a) => if m.contains_key(a) {
            Ok(a)
        } else {
            Err(ErrorKind::UnitNotFound)
        },
    }
}

/// Putting a unit in a state, whatever state it was in; hands back the job.
pub open spec fn set_state_spec(m: UnitMap, name: Seq<char>, s: ActiveState) -> (
    UnitMap,
    Result<Seq<char>, ErrorKind>,
) {
    match address_of(name) {
        None => (m, Err(ErrorKind::InvalidAddress)),
        Some(a) => if m.contains_key(a) {
            (m.insert(a, s), Ok(JOB_PATH@))
        } else {
            (m, Err(ErrorKind::UnitNotFound))
        },
    }
}

/// The map that a sequence of units with distinct addresses stands for.
pub open spec fn units_map(s: Seq<Unit>) -> UnitMap {
    Map::new(
        |k: Seq<char>| exists|i: int| 0 <= i < s.len() && s[i].address@ == k,
        |k: Seq<char>| s[choose|i: int| 0 <= i < s.len() && s[i].address@ == k].state,
    )
}

/// No two units share an address.
pub open spec fn distinct_addresses(s: Seq<Unit>) -> bool {
    forall|i: int, j: int|
        0 <= i < s.len() && 0 <= j < s.len() && i != j ==> s[i].address@ != s[j].address@
}

proof fn lemma_units_map_at(s: Seq<Unit>, i: int)
    requires
        distinct_addresses(s),
        0 <= i < s.len(),
    ensures
        units_map(s).contains_key(s[i].address@),
        units_map(s)[s[i].address@] == s[i].state,
{
    let k = s[i].address@;
    assert(0 <= i < s.len() && s[i].address@ == k);
    let j = choose|j: int| 0 <= j < s.len() && s[j].address@ == k;
    assert(j == i);
}

/// The registry of mock units. Each unit's address is derived from its name,
/// and no two units share an address.
pub struct UnitRegistry {
    units: Vec<Unit>,
}

impl View for UnitRegistry {
    type V = UnitMap;

    closed spec fn view(&self) -> UnitMap {
        units_map(self.units@)
    }
}

impl UnitRegistry {
    /// The registry's invariant.
    pub closed spec fn wf(&self) -> bool {
        &&& distinct_addresses(self.units@)
        &&& forall|i: int|
            0 <= i < self.units@.len() ==> address_of(#[trigger] self.units@[i].name@) == Some(
                self.units@[i].address@,
            )
    }

    /// An empty registry.
    pub fn new() -> (r: UnitRegistry)
        ensures
            r.wf(),
            r@ == Map::<Seq<char>, ActiveState>::empty(),
    {
        let r = UnitRegistry { units: Vec::new() };
        assert(r@ =~= Map::<Seq<char>, ActiveState>::empty());
        r
    }

    /// The index of the unit at an address.
    fn find(&self, address: &String) -> (r: Option<usize>)
        requires
            self.wf(),
        ensures
            match r {
                Some(i) => i < self.units@.len() && self.units@[i as int].address@ == address@,
                None => !self@.contains_key(address@),
            },
    {
        let mut i: usize = 0;
        while i < self.units.len()
            invariant
                i <= self.units@.len(),
                forall|j: int| 0 <= j < i ==> self.units@[j].address@ != address@,
            decreases self.units@.len() - i,
        {
            if self.units[i].address == *address {
                return Some(i);
            }
            i = i + 1;
        }
        None
    }

    /// Adds a unit in `Inactive` under `name`, and hands back its address.
    /// Fails with `InvalidAddress` where the name gives no valid address, and
    /// with `UnitAlreadyExists` where a unit stands at that address already.
    pub fn add_unit(&mut self, name: &str) -> (r: Result<String, UnitError>)
        requires
            old(self).wf(),
        ensures
            final(self).wf(),
            (final(self)@, crate::error::result_view(r)) == add_spec(old(self)@, name@),
    {
        let address = match normalize(name) {
            Ok(a) => a,
            Err(e) => return Err(e),
        };
        match self.find(&address) {
            Some(i) => {
                proof {
                    lemma_units_map_at(self.units@, i as int);
                }
                Err(UnitError::UnitAlreadyExists)
            },
            None => {
                let ghost old_units = self.units@;
                let unit = Unit {
                    name: String::from_str(name),
                    address: address.clone(),
                    state: ActiveState::Inactive,
                };
                self.units.push(unit);
                proof {
                    let s = self.units@;
                    assert(s.len() == old_units.len() + 1);
                    assert forall|i: int| 0 <= i < old_units.len() implies s[i] == old_units[i] by {}
                    assert forall|i: int, j: int|
                        0 <= i < s.len() && 0 <= j < s.len() && i != j implies s[i].address@
                        != s[j].address@ by {
                        if i < old_units.len() && j < old_units.len() {
                        } else if i < old_units.len() {
                            assert(units_map(old_units).contains_key(s[i].address@));
                        } else {
                            assert(units_map(old_units).contains_key(s[j].address@));
                        }
                    }
                    let expected = units_map(old_units).insert(address@, ActiveState::Inactive);
                    assert forall|k: Seq<char>|
                        #![auto]
                        units_map(s).contains_key(k) == expected.contains_key(k) && (
                        units_map(s).contains_key(k) ==> units_map(s)[k] == expected[k]) by {
                        if units_map(s).contains_key(k) {
                            let i = choose|i: int| 0 <= i < s.len() && s[i].address@ == k;
                            lemma_units_map_at(s, i);
                            if i < old_units.len() {
                                lemma_units_map_at(old_units, i);
                            }
                        } else if expected.contains_key(k) && k != address@ {
                            let i = choose|i: int|
                                0 <= i < old_units.len() && old_units[i].address@ == k;
                            assert(s[i].address@ == k);
                        }
                        if k == address@ {
                            lemma_units_map_at(s, s.len() - 1);
                        }
                    }
                    assert(units_map(s) =~= expected);
                }
                Ok(address)
            },
        }
    }

    /// Removes the unit at `name`'s address, and says whether there was one.
    /// Fails with `InvalidAddress` where the name gives no valid address.
    pub fn remove_unit(&mut self, name: &str) -> (r: Result<bool, UnitError>)
        requires
            old(self).wf(),
        ensures
            final(self).wf(),
            (final(self)@, crate::error::result_view(r)) == remove_spec(old(self)@, name@),
    {
        let address = match normalize(name) {
            Ok(a) => a,
            Err(e) => return Err(e),
        };
        match self.find(&address) {
            None => Ok(false),
            Some(i) => {
                let ghost old_units = self.units@;
                proof {
                    lemma_units_map_at(old_units, i as int);
                }
                let _removed = self.units.remove(i);
                proof {
                    let s = self.units@;
                    assert(s =~= old_units.remove(i as int));
                    assert forall|a: int, b: int|
                        0 <= a < s.len() && 0 <= b < s.len() && a != b implies s[a].address@
                        != s[b].address@ by {
                        let oa = if a < i { a } else { a + 1 };
                        let ob = if b < i { b } else { b + 1 };
                        assert(s[a] == old_units[oa]);
                        assert(s[b] == old_units[ob]);
                    }
                    let expected = units_map(old_units).remove(address@);
                    let got = units_map(s);
                    assert forall|k: Seq<char>|
                        #![trigger got.contains_key(k)]
                        #![trigger expected.contains_key(k)]
                        units_map(s).contains_key(k) == expected.contains_key(k) && (
                        units_map(s).contains_key(k) ==> units_map(s)[k] == expected[k]) by {
                        if units_map(s).contains_key(k) {
                            let a = choose|a: int| 0 <= a < s.len() && s[a].address@ == k;
                            let oa = if a < i { a } else { a + 1 };
                            assert(s[a] == old_units[oa]);
                            assert(oa != i);
                            assert(old_units[oa].address@ != old_units[i as int].address@);
                            lemma_units_map_at(s, a);
                            lemma_units_map_at(old_units, oa);
                            assert(expected.contains_key(k));
                            assert(units_map(s)[k] == expected[k]);
                        } else if expected.contains_key(k) {
                            let b = choose|b: int|
                                0 <= b < old_units.len() && old_units[b].address@ == k;
                            assert(b != i);
                            let sb = if b < i { b } else { b - 1 };
                            assert(s[sb] == old_units[b]);
                        }
                    }
                    assert(units_map(s) =~= expected);
                }
                Ok(true)
            },
        }
    }

    /// The address of the unit at `name`'s address. Fails with
    /// `InvalidAddress` where the name gives no valid address, and with
    /// `UnitNotFound` where no unit stands there.
    pub fn get_unit(&self, name: &str) -> (r: Result<String, UnitError>)
        requires
            self.wf(),
        ensures
            crate::error::result_view(r) == get_spec(self@, name@),
    {
        let address = match normalize(name) {
            Ok(a) => a,
            Err(e) => return Err(e),
        };
        match self.find(&address) {
            None => Err(UnitError::UnitNotFound),
            Some(i) => {
                proof {
                    lemma_units_map_at(self.units@, i as int);
                }
                Ok(address)
            },
        }
    }

    /// Puts the unit at `name`'s address in `state`, whatever state it was in.
    fn set_state(&mut self, name: &str, state: ActiveState) -> (r: Result<String, UnitError>)
        requires
            old(self).wf(),
        ensures
            final(self).wf(),
            (final(self)@, crate::error::result_view(r)) == set_state_spec(
                old(self)@,
                name@,
                state,
            ),
    {
        let address = match normalize(name) {
            Ok(a) => a,
            Err(e) => return Err(e),
        };
        match self.find(&address) {
            None => Err(UnitError::UnitNotFound),
            Some(i) => {
                let ghost old_units = self.units@;
                proof {
                    lemma_units_map_at(old_units, i as int);
                }
                self.units[i].state = state;
                proof {
                    let s = self.units@;
                    assert forall|a: int| 0 <= a < s.len() && a != i implies s[a] == old_units[a] by {}
                    assert(s[i as int].address == old_units[i as int].address);
                    assert(s[i as int].name == old_units[i as int].name);
                    let expected = units_map(old_units).insert(address@, state);
                    assert forall|k: Seq<char>|
                        #![auto]
                        units_map(s).contains_key(k) == expected.contains_key(k) && (
                        units_map(s).contains_key(k) ==> units_map(s)[k] == expected[k]) by {
                        if units_map(s).contains_key(k) {
                            let a = choose|a: int| 0 <= a < s.len() && s[a].address@ == k;
                            lemma_units_map_at(s, a);
                            lemma_units_map_at(old_units, a);
                            assert(units_map(s)[k] == expected[k]);
                        } else if expected.contains_key(k) {
                            if k == address@ {
                                assert(s[i as int].address@ == k);
                            } else {
                                let b = choose|b: int|
                                    0 <= b < old_units.len() && old_units[b].address@ == k;
                                assert(s[b].address@ == k);
                            }
                        }
                    }
                    assert(units_map(s) =~= expected);
                }
                proof {
                    reveal_strlit("/org/freedesktop/systemd1/job/mock");
                }
                Ok(String::from_str(JOB_PATH))
            },
        }
    }

    /// Starts the unit at `name`'s address: it becomes `Active`, whatever its
    /// state was. `_mode` has no effect. Hands back the placeholder job.
    pub fn start_unit(&mut self, name: &str, _mode: &str) -> (r: Result<String, UnitError>)
        requires
            old(self).wf(),
        ensures
            final(self).wf(),
            (final(self)@, crate::error::result_view(r)) == set_state_spec(
                old(self)@,
                name@,
                ActiveState::Active,
            ),
    {
        self.set_state(name, ActiveState::Active)
    }

    /// Stops the unit at `name`'s address: it becomes `Inactive`, whatever its
    /// state was. `_mode` has no effect. Hands back the placeholder job.
    pub fn stop_unit(&mut self, name: &str, _mode: &str) -> (r: Result<String, UnitError>)
        requires
            old(self).wf(),
        ensures
            final(self).wf(),
            (final(self)@, crate::error::result_view(r)) == set_state_spec(
                old(self)@,
                name@,
                ActiveState::Inactive,
            ),
    {
        self.set_state(name, ActiveState::Inactive)
    }

    /// Restarts the unit at `name`'s address: like a start, it becomes
    /// `Active` at once. `_mode` has no effect. Hands back the placeholder job.
    pub fn restart_unit(&mut self, name: &str, _mode: &str) -> (r: Result<String, UnitError>)
        requires
            old(self).wf(),
        ensures
            final(self).wf(),
            (final(self)@, crate::error::result_view(r)) == set_state_spec(
                old(self)@,
                name@,
                ActiveState::Active,
            ),
    {
        self.set_state(name, ActiveState::Active)
    }

    /// The unit that stands at `address`, if any.
    pub fn unit_at(&self, address: &String) -> (r: Option<&Unit>)
        requires
            self.wf(),
        ensures
            match r {
                Some(u) => self@.contains_key(address@) && u.address@ == address@ && u.state
                    == self@[address@] && address_of(u.name@) == Some(address@),
                None => !self@.contains_key(address@),
            },
    {
        match self.find(address) {
            None => None,
            Some(i) => {
                proof {
                    lemma_units_map_at(self.units@, i as int);
                }
                Some(&self.units[i])
            },
        }
    }

    /// The active state of the unit at `name`'s address, rendered as its
    /// lowercase name. Fails as `get_unit` does.
    pub fn active_state(&self, name: &str) -> (r: Result<String, UnitError>)
        requires
            self.wf(),
        ensures
            match get_spec(self@, name@) {
                Ok(a) => r is Ok && r->Ok_0@ == crate::unit::active_state_name(self@[a]),
                Err(k) => r is Err && r->Err_0@ == k,
            },
    {
        let address = match normalize(name) {
            Ok(a) => a,
            Err(e) => return Err(e),
        };
        match self.unit_at(&address) {
            None => Err(UnitError::UnitNotFound),
            Some(u) => Ok(u.active_state()),
        }
    }
}

} // verus!
