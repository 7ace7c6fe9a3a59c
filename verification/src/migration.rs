//! Schema-migration descriptors: the direction tag, the descriptor itself,
//! and well-formedness of an ordered migration list.

use vstd::prelude::*;

verus! {

/// Direction of a schema migration: forward (`Up`) or rollback (`Down`).
#[derive(Clone, Copy, Debug, PartialEq, Eq, Structural)]
pub enum MigrationKind {
    Up,
    Down,
}

/// A versioned schema-change script, applied verbatim by an external
/// migration runner and tracked by its version number.
pub struct Migration {
    /// Positive version number, unique within a migration list.
    pub version: i64,
    /// Human-readable label, used only for diagnostics.
    pub description: String,
    /// Literal SQL statement text.
    pub sql: String,
    /// Forward or rollback direction.
    pub kind: MigrationKind,
}

impl Migration {
    /// A descriptor is well formed when its version number is positive.
    pub open spec fn wf(self) -> bool {
        self.version >= 1
    }
}

/// A migration list is well formed when every descriptor is well formed and
/// the version numbers are strictly increasing along the list, so that the
/// external runner sees unique versions in ascending order.
pub open spec fn wf_migration_list(ms: Seq<Migration>) -> bool {
    &&& forall|i: int| 0 <= i < ms.len() ==> #[trigger] ms[i].wf()
    &&& forall|i: int, j: int|
        0 <= i < j < ms.len() ==> #[trigger] ms[i].version < #[trigger] ms[j].version
}

/// In a well-formed migration list, version numbers are unique: no two
/// distinct entries share one.
pub proof fn lemma_wf_list_versions_unique(ms: Seq<Migration>)
    requires
        wf_migration_list(ms),
    ensures
        forall|i: int, j: int|
            0 <= i < ms.len() && 0 <= j < ms.len() && i != j ==> ms[i].version != ms[j].version,
{
    assert forall|i: int, j: int|
        0 <= i < ms.len() && 0 <= j < ms.len() && i != j implies ms[i].version
        != ms[j].version by {
        if i < j {
            assert(ms[i].version < ms[j].version);
        } else {
            assert(ms[j].version < ms[i].version);
        }
    }
}

/// Decides whether a migration list is well formed: every version positive
/// and the versions strictly increasing along the list.
pub fn migration_list_well_formed(ms: &Vec<Migration>) -> (r: bool)
    ensures
        r == wf_migration_list(ms@),
{
    let n: usize = ms.len();
    if n == 0 {
        return true;
    }
    if ms[0].version < 1 {
        assert(!ms@[0].wf());
        return false;
    }
    let mut k: usize = 1;
    while k < n
        invariant
            1 <= k <= n,
            n == ms@.len(),
            forall|i: int| 0 <= i < k ==> #[trigger] ms@[i].wf(),
            forall|i: int, j: int|
                0 <= i < j < k ==> #[trigger] ms@[i].version < #[trigger] ms@[j].version,
        decreases n - k,
    {
        if ms[k].version < 1 {
            assert(!ms@[k as int].wf());
            return false;
        }
        if ms[k - 1].version >= ms[k].version {
            return false;
        }
        k = k + 1;
    }
    true
}

} // verus!
