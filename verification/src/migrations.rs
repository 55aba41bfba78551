use crate::error::{Refusal, StoreError};
use vstd::prelude::*;

verus! {

/// The schema version that this daemon works with.
pub const SCHEMA_VERSION: u32 = 10;

/// The versions that a database has to be taken through, one after the other.
pub open spec fn pending(current: u32) -> Seq<u32> {
    Seq::new((SCHEMA_VERSION - current) as nat, |i: int| (current + 1 + i) as u32)
}

/// The migrations that a database of a version still needs, in their order. A
/// database of a later version is refused, and nothing in it is touched.
pub fn apply_migrations(current: u32) -> (r: Result<Vec<u32>, StoreError>)
    ensures
        if current > SCHEMA_VERSION {
            r is Err && r->Err_0@ == (Refusal::UnsupportedSchemaVersion {
                actual: current,
                supported: SCHEMA_VERSION,
            })
        } else {
            r is Ok && r->Ok_0@ == pending(current)
        },
{
    if current > SCHEMA_VERSION {
        return Err(
            StoreError::UnsupportedSchemaVersion { actual: current, supported: SCHEMA_VERSION },
        );
    }
    let mut versions: Vec<u32> = Vec::new();
    let mut version: u32 = current;
    while version < SCHEMA_VERSION
        invariant
            current <= version <= SCHEMA_VERSION,
            versions@.len() == version - current,
            forall|i: int| 0 <= i < versions@.len() ==> #[trigger] versions@[i] == current + 1 + i,
        decreases SCHEMA_VERSION - version,
    {
        version += 1;
        versions.push(version);
    }
    assert(versions@ =~= pending(current));
    Ok(versions)
}

/// After its pending migrations a database is of the version that the daemon
/// works with, and needs none.
pub proof fn law_migrations_reach_the_schema(current: u32)
    requires
        current <= SCHEMA_VERSION,
    ensures
        pending(current).len() > 0 ==> pending(current).last() == SCHEMA_VERSION,
        pending(current).len() == 0 <==> current == SCHEMA_VERSION,
        pending(SCHEMA_VERSION).len() == 0,
        forall|i: int, j: int|
            0 <= i < j < pending(current).len() ==> pending(current)[i] < pending(current)[j],
{
}

} // verus!
