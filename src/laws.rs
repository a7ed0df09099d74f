use vstd::prelude::*;

use crate::address::address_of;
use crate::error::ErrorKind;
use crate::registry::{add_spec, get_spec, remove_spec, set_state_spec, UnitMap, JOB_PATH};
use crate::unit::ActiveState;

verus! {

/// Two names with the same valid address are one unit: once either has been
/// added, adding the other fails with `UnitAlreadyExists`.
pub proof fn lemma_colliding_names_conflict(m: UnitMap, n1: Seq<char>, n2: Seq<char>)
    requires
        address_of(n1) is Some,
        address_of(n1) == address_of(n2),
    ensures
        add_spec(add_spec(m, n1).0, n2).1 == Err::<Seq<char>, ErrorKind>(
            ErrorKind::UnitAlreadyExists,
        ),
{
}

/// After adding a name with a valid address, looking it up gives that
/// address, and it is the address the add handed back where the add succeeded.
pub proof fn lemma_add_then_get(m: UnitMap, n: Seq<char>)
    requires
        address_of(n) is Some,
    ensures
        get_spec(add_spec(m, n).0, n) == Ok::<Seq<char>, ErrorKind>(address_of(n)->Some_0),
        add_spec(m, n).1 is Ok ==> get_spec(add_spec(m, n).0, n) == add_spec(m, n).1,
{
}

/// After removing a name with a valid address, looking it up fails with
/// `UnitNotFound`.
pub proof fn lemma_remove_then_get(m: UnitMap, n: Seq<char>)
    requires
        address_of(n) is Some,
    ensures
        get_spec(remove_spec(m, n).0, n) == Err::<Seq<char>, ErrorKind>(ErrorKind::UnitNotFound),
{
}

/// Putting an existing unit in a state succeeds from whatever state it was in,
/// leaves it in that state, and doing it again changes nothing.
pub proof fn lemma_set_state_settles(m: UnitMap, n: Seq<char>, s: ActiveState)
    requires
        get_spec(m, n) is Ok,
    ensures
        set_state_spec(m, n, s).1 == Ok::<Seq<char>, ErrorKind>(JOB_PATH@),
        set_state_spec(m, n, s).0[address_of(n)->Some_0] == s,
        set_state_spec(set_state_spec(m, n, s).0, n, s) == set_state_spec(m, n, s),
{
    let a = address_of(n)->Some_0;
    assert(m.insert(a, s).insert(a, s) =~= m.insert(a, s));
}

/// Removing a name that has no unit is no error: it reports `false` and
/// changes nothing.
pub proof fn lemma_remove_absent(m: UnitMap, n: Seq<char>)
    requires
        address_of(n) is Some,
        !m.contains_key(address_of(n)->Some_0),
    ensures
        remove_spec(m, n) == (m, Ok::<bool, ErrorKind>(false)),
{
}

/// A start and a removal of the same existing unit, applied one after the
/// other in either order: started first, the start succeeds and the removal
/// reports `true`; removed first, the removal reports `true` and the start
/// fails with `UnitNotFound`. Either way the unit is gone and the rest is as
/// it was.
pub proof fn lemma_start_remove_orders(m: UnitMap, n: Seq<char>)
    requires
        get_spec(m, n) is Ok,
    ensures
        ({
            let (m1, started) = set_state_spec(m, n, ActiveState::Active);
            let (m2, removed) = remove_spec(m1, n);
            started == Ok::<Seq<char>, ErrorKind>(JOB_PATH@) && removed == Ok::<bool, ErrorKind>(
                true,
            ) && m2 == m.remove(address_of(n)->Some_0)
        }),
        ({
            let (m1, removed) = remove_spec(m, n);
            let (m2, started) = set_state_spec(m1, n, ActiveState::Active);
            removed == Ok::<bool, ErrorKind>(true) && started == Err::<Seq<char>, ErrorKind>(
                ErrorKind::UnitNotFound,
            ) && m2 == m.remove(address_of(n)->Some_0)
        }),
{
    let a = address_of(n)->Some_0;
    assert(m.insert(a, ActiveState::Active).remove(a) =~= m.remove(a));
}

} // verus!
