//! The parameter table: the single source of truth for the registry.
//!
//! One row per parameter gives its host-facing index, display name and
//! default value. A well-formed table never assigns one index to two rows,
//! which makes the mapping between host indices and typed identifiers a
//! bijection over the indices the table holds.

use vstd::prelude::*;

verus! {

/// A typed parameter identifier: the position of the parameter's row in its
/// table. A table hands these out (`index_to_id`); one is valid only for the
/// table it came from.
#[derive(Clone, Copy, PartialEq, Eq, Structural, Debug)]
pub struct ParameterId {
    pub pos: usize,
}

/// One row of the table. `default_bits` is the bit pattern of the
/// parameter's normalized default value.
pub struct ParamRow {
    pub index: i32,
    pub name: String,
    pub default_bits: u32,
}

/// No two rows share a host-facing index.
pub open spec fn unique_indices(rows: Seq<ParamRow>) -> bool {
    forall|i: int, j: int|
        0 <= i < rows.len() && 0 <= j < rows.len() && i != j ==> rows[i].index != rows[j].index
}

/// Some row of `rows` carries the host-facing index `index`.
pub open spec fn has_index(rows: Seq<ParamRow>, index: i32) -> bool {
    exists|p: int| 0 <= p < rows.len() && rows[p].index == index
}

/// The position of the row that carries `index` (meaningful only when
/// `has_index` holds; unique when `unique_indices` holds).
pub open spec fn pos_of_index(rows: Seq<ParamRow>, index: i32) -> int {
    choose|p: int| 0 <= p < rows.len() && rows[p].index == index
}

/// What resolving a host index to a typed identifier returns.
pub open spec fn spec_index_to_id(rows: Seq<ParamRow>, index: i32) -> Option<ParameterId> {
    if has_index(rows, index) {
        Some(ParameterId { pos: pos_of_index(rows, index) as usize })
    } else {
        None
    }
}

/// In a table without duplicate indices, two positions with the same index
/// are the same position.
pub proof fn lemma_index_position_unique(rows: Seq<ParamRow>, i: int, j: int)
    requires
        unique_indices(rows),
        0 <= i < rows.len(),
        0 <= j < rows.len(),
        rows[i].index == rows[j].index,
    ensures
        i == j,
{
    if i != j {
        assert(rows[i].index != rows[j].index);
    }
}

/// Resolving an identifier's own index finds that identifier again: over a
/// well-formed table, `index_to_id` is a left inverse of `id_to_index`.
pub proof fn lemma_index_id_round_trip(rows: Seq<ParamRow>, id: ParameterId)
    requires
        unique_indices(rows),
        id.pos < rows.len(),
    ensures
        spec_index_to_id(rows, rows[id.pos as int].index) == Some(id),
{
    let index = rows[id.pos as int].index;
    assert(has_index(rows, index));
    let p = pos_of_index(rows, index);
    assert(0 <= p < rows.len() && rows[p].index == index);
    lemma_index_position_unique(rows, p, id.pos as int);
}

/// When a host index resolves at all, the identifier it resolves to points
/// at a row inside the table, and that row carries exactly that index.
pub proof fn lemma_resolved_id(rows: Seq<ParamRow>, index: i32)
    requires
        has_index(rows, index),
        rows.len() <= usize::MAX,
    ensures
        ({
            let id = spec_index_to_id(rows, index)->Some_0;
            id.pos < rows.len() && rows[id.pos as int].index == index
        }),
{
    let p = pos_of_index(rows, index);
    assert(0 <= p < rows.len() && rows[p].index == index);
}

/// The parameter table a store is built from.
pub struct ParamTable {
    pub rows: Vec<ParamRow>,
}

impl ParamTable {
    /// A malformed table (a duplicate host index) is a construction-time
    /// defect, not a runtime error: this is the well-formedness every other
    /// operation relies on.
    pub open spec fn wf(&self) -> bool {
        unique_indices(self.rows@)
    }

    pub open spec fn spec_len(&self) -> nat {
        self.rows@.len()
    }

    /// An identifier is valid for this table when it points at a row.
    pub open spec fn valid_id(&self, id: ParameterId) -> bool {
        id.pos < self.rows@.len()
    }

    pub fn len(&self) -> (r: usize)
        ensures
            r == self.spec_len(),
    {
        self.rows.len()
    }

    /// Decides well-formedness at construction time, so that an unverified
    /// caller can reject a malformed table before building a store on it.
    pub fn is_well_formed(&self) -> (r: bool)
        ensures
            r == self.wf(),
    {
        let n = self.rows.len();
        let mut i: usize = 0;
        while i < n
            invariant
                n == self.rows@.len(),
                i <= n,
                forall|a: int, b: int|
                    0 <= a < i && 0 <= b < n && a != b ==> self.rows@[a].index != self.rows@[b].index,
            decreases n - i,
        {
            let mut j: usize = i + 1;
            while j < n
                invariant
                    n == self.rows@.len(),
                    i < n,
                    i < j <= n,
                    forall|b: int| i < b < j ==> self.rows@[i as int].index != self.rows@[b].index,
                decreases n - j,
            {
                if self.rows[i].index == self.rows[j].index {
                    return false;
                }
                j += 1;
            }
            i += 1;
        }
        true
    }

    /// Resolves a host-facing index to the identifier of the row that
    /// carries it; `None` exactly when no row does.
    pub fn index_to_id(&self, index: i32) -> (r: Option<ParameterId>)
        requires
            self.wf(),
        ensures
            r == spec_index_to_id(self.rows@, index),
            self.rows@.len() <= usize::MAX,
    {
        let n = self.rows.len();
        let mut p: usize = 0;
        while p < n
            invariant
                self.wf(),
                n == self.rows@.len(),
                p <= n,
                forall|q: int| 0 <= q < p ==> self.rows@[q].index != index,
            decreases n - p,
        {
            if self.rows[p].index == index {
                proof {
                    assert(has_index(self.rows@, index));
                    lemma_index_position_unique(
                        self.rows@,
                        pos_of_index(self.rows@, index),
                        p as int,
                    );
                }
                return Some(ParameterId { pos: p });
            }
            p += 1;
        }
        proof {
            assert(!has_index(self.rows@, index));
        }
        None
    }

    /// The host-facing index of a valid identifier.
    pub fn id_to_index(&self, id: ParameterId) -> (r: i32)
        requires
            self.valid_id(id),
        ensures
            r == self.rows@[id.pos as int].index,
    {
        self.rows[id.pos].index
    }

    /// The display name of a valid identifier's parameter.
    pub fn name_of(&self, id: ParameterId) -> (r: String)
        requires
            self.valid_id(id),
        ensures
            r@ == self.rows@[id.pos as int].name@,
    {
        String::from_str(self.rows[id.pos].name.as_str())
    }

    /// The normalized default of a valid identifier's parameter, as bits.
    pub fn default_bits_of(&self, id: ParameterId) -> (r: u32)
        requires
            self.valid_id(id),
        ensures
            r == self.rows@[id.pos as int].default_bits,
    {
        self.rows[id.pos].default_bits
    }
}

} // verus!
