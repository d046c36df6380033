//! The record by which a loadable module tells the server what it was built
//! for. The server compares it byte for byte with its own and refuses a
//! module whose record differs.

use libc::c_int;
use vstd::layout::*;
use vstd::prelude::*;

use crate::fmgr::FUNC_MAX_ARGS;

verus! {

/// The most key columns that an index can have.
pub const INDEX_MAX_KEYS: c_int = 32;

/// The length of a name, its closing zero byte included.
pub const NAMEDATALEN: c_int = 64;

/// The magic metadata that the server reads by calling `Pg_magic_func`,
/// which returns a reference to this record.
#[allow(non_camel_case_types)]
#[derive(Clone, Copy, Debug, PartialEq, Eq, Structural)]
pub struct Pg_magic_struct {
    /// Size of this record in bytes.
    pub len: c_int,
    /// Version of the server, without its last two digits.
    pub version: c_int,
    /// The value of `FUNC_MAX_ARGS`.
    pub funcmaxargs: c_int,
    /// The value of `INDEX_MAX_KEYS`.
    pub indexmaxkeys: c_int,
    /// The value of `NAMEDATALEN`.
    pub nameddatalen: c_int,
    /// Whether 4-byte floats are passed by value.
    pub float4byval: c_int,
    /// Whether 8-byte floats are passed by value.
    pub float8byval: c_int,
}

/// The quotient of `v` by 100, rounded towards zero.
pub open spec fn version_of(v: int) -> int {
    if v >= 0 {
        v / 100
    } else {
        -((-v) / 100)
    }
}

/// The record of a module built for the server version `version`, which is
/// written as the release number times 100 (90500 for 9.5), before its size
/// is filled in.
pub open spec fn declared(version: c_int) -> Pg_magic_struct {
    Pg_magic_struct {
        len: 0,
        version: version_of(version as int) as c_int,
        funcmaxargs: FUNC_MAX_ARGS,
        indexmaxkeys: INDEX_MAX_KEYS,
        nameddatalen: NAMEDATALEN,
        float4byval: 1,
        float8byval: 1,
    }
}

/// The record `data` with its size filled in.
pub open spec fn populated(data: Pg_magic_struct) -> Pg_magic_struct {
    Pg_magic_struct { len: size_of::<Pg_magic_struct>() as c_int, ..data }
}

/// The record that a module built for `version` starts with: every field
/// but the size is in place.
pub fn pg_module(version: c_int) -> (data: Pg_magic_struct)
    ensures
        data == declared(version),
        data.version == version_of(version as int),
{
    Pg_magic_struct {
        len: 0,
        version: version / 100,
        funcmaxargs: FUNC_MAX_ARGS,
        indexmaxkeys: INDEX_MAX_KEYS,
        nameddatalen: NAMEDATALEN,
        float4byval: 1,
        float8byval: 1,
    }
}

/// What the server calls once when it loads the module: fills in the size
/// that the record has as compiled, and hands the record out.
#[allow(non_snake_case)]
pub fn Pg_magic_func(data: &mut Pg_magic_struct) -> (r: &Pg_magic_struct)
    ensures
        *final(data) == populated(*old(data)),
        *r == *final(data),
        size_of::<Pg_magic_struct>() <= c_int::MAX ==> r.len == size_of::<Pg_magic_struct>(),
{
    let size: usize = core::mem::size_of::<Pg_magic_struct>();
    data.len = #[verifier::truncate] (size as c_int);
    data
}

/// Calling `Pg_magic_func` again changes nothing: a record whose size is
/// filled in stays as it is, so every call hands out the same values.
pub proof fn lemma_populated_idempotent(data: Pg_magic_struct)
    ensures
        populated(populated(data)) == populated(data),
{
}

/// The record that the server reads from a module built for `version`:
/// the version without its last two digits, and the fixed build parameters.
pub proof fn lemma_populated_fields(version: c_int)
    ensures
        populated(declared(version)).version == version_of(version as int),
        populated(declared(version)).funcmaxargs == 100,
        populated(declared(version)).indexmaxkeys == 32,
        populated(declared(version)).nameddatalen == 64,
        populated(declared(version)).float4byval == 1,
        populated(declared(version)).float8byval == 1,
        version >= 0 ==> populated(declared(version)).version == version / 100,
{
}

} // verus!
