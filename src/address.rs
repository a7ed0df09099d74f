use vstd::prelude::*;
use vstd::string::StrSliceExecFns;
use vstd::string::StringExecFns;

use crate::error::UnitError;

verus! {

/// Where the service manager's units live on the bus.
pub const UNIT_PATH_PREFIX: &'static str = "/org/freedesktop/systemd1/unit/";

/// What `str::to_lowercase` makes of a string.
pub uninterp spec fn lower_of(s: Seq<char>) -> Seq<char>;

/// A character that may stand in an object path.
pub open spec fn is_path_char(c: char) -> bool {
    ('a' <= c && c <= 'z') || ('A' <= c && c <= 'Z') || ('0' <= c && c <= '9') || c == '_' || c
        == '/'
}

/// A well-formed bus object path: it starts with `/`, has no `//`, does not
/// end in `/` (unless it is `/` alone), and holds only ASCII letters, digits,
/// `_` and `/`.
pub open spec fn valid_object_path(p: Seq<char>) -> bool {
    &&& p.len() > 0
    &&& p[0] == '/'
    &&& !(p.len() > 1 && p.last() == '/')
    &&& forall|i: int| 0 < i < p.len() ==> !(#[trigger] p[i] == '/' && p[i - 1] == '/')
    &&& forall|i: int| 0 <= i < p.len() ==> is_path_char(#[trigger] p[i])
}

/// Every `.` replaced by `_`.
pub open spec fn dots_to_underscores(s: Seq<char>) -> Seq<char> {
    Seq::new(s.len(), |i: int| if s[i] == '.' { '_' } else { s[i] })
}

/// No `/` in it: a single segment of an object path.
pub open spec fn no_slash(s: Seq<char>) -> bool {
    forall|i: int| 0 <= i < s.len() ==> s[i] != '/'
}

/// The address that an already lowercased name stands for, if it is valid:
/// the name must make a single segment of a well-formed object path.
pub open spec fn address_of_lowercase(lowered: Seq<char>) -> Option<Seq<char>> {
    let p = UNIT_PATH_PREFIX@ + dots_to_underscores(lowered);
    if no_slash(lowered) && valid_object_path(p) {
        Some(p)
    } else {
        None
    }
}

/// The address that a unit name stands for, if it is valid.
pub open spec fn address_of(name: Seq<char>) -> Option<Seq<char>> {
    address_of_lowercase(lower_of(name))
}

/// Relies on `str::to_lowercase`: the result depends on the characters alone.
#[verifier::external_body]
fn lowercase(s: &str) -> (r: String)
    ensures
        r@ == lower_of(s@),
{
    s.to_lowercase()
}

/// Relies on zvariant's `ObjectPath::try_from(&str)` (reached through
/// `zbus::zvariant`): it accepts exactly the well-formed object paths; its
/// error's text is handed back as the detail.
#[verifier::external_body]
fn check_object_path(p: &str) -> (r: Result<(), String>)
    ensures
        r is Ok <==> valid_object_path(p@),
{
    match zbus::zvariant::ObjectPath::try_from(p) {
        Ok(_) => Ok(()),
        Err(e) => Err(e.to_string()),
    }
}

/// The address of a name that is already lowercase: the unit path prefix,
/// then the name with every `.` replaced by `_`. Fails with `InvalidAddress`
/// where the name holds a `/`, or that is not a valid object path.
pub fn address_from_lowercase(lowered: &str) -> (r: Result<String, UnitError>)
    ensures
        match r {
            Ok(a) => address_of_lowercase(lowered@) == Some(a@),
            Err(e) => address_of_lowercase(lowered@) is None && e is InvalidAddress,
        },
{
    let n = lowered.unicode_len();
    let mut path = String::from_str(UNIT_PATH_PREFIX);
    let ghost target = UNIT_PATH_PREFIX@ + dots_to_underscores(lowered@);
    let mut i: usize = 0;
    while i < n
        invariant
            n == lowered@.len(),
            i <= n,
            path@ == UNIT_PATH_PREFIX@ + dots_to_underscores(lowered@).subrange(0, i as int),
            forall|j: int| 0 <= j < i ==> lowered@[j] != '/',
        decreases n - i,
    {
        let c = lowered.get_char(i);
        if c == '/' {
            return Err(UnitError::InvalidAddress(String::from_str("a unit name may not hold '/'")));
        }
        if c == '.' {
            proof {
                reveal_strlit("_");
            }
            path.append("_");
        } else {
            path.append(lowered.substring_char(i, i + 1));
        }
        assert(dots_to_underscores(lowered@).subrange(0, i + 1) =~= dots_to_underscores(
            lowered@,
        ).subrange(0, i as int).push(dots_to_underscores(lowered@)[i as int]));
        i = i + 1;
    }
    assert(dots_to_underscores(lowered@).subrange(0, n as int) =~= dots_to_underscores(lowered@));
    assert(path@ == target);
    match check_object_path(path.as_str()) {
        Ok(()) => Ok(path),
        Err(detail) => Err(UnitError::InvalidAddress(detail)),
    }
}

/// The address of a unit name: lowercased, every `.` replaced by `_`, under
/// the unit path prefix. Fails with `InvalidAddress` where the name does not
/// make a single segment of a valid object path.
pub fn normalize(name: &str) -> (r: Result<String, UnitError>)
    ensures
        match r {
            Ok(a) => address_of(name@) == Some(a@),
            Err(e) => address_of(name@) is None && e is InvalidAddress,
        },
{
    let lowered = lowercase(name);
    address_from_lowercase(lowered.as_str())
}

} // verus!
