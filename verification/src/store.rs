//! The parameter store and its host-facing facade.
//!
//! A store owns one normalized value cell per table row, a notification sink
//! and a formatter. Typed access (`get`, `set`, `get_display_strings`) works
//! on identifiers; the index-addressed facade (`value_for_index` and
//! friends) is what a host callback interface consumes, and it is total: an
//! index the table does not hold gets a fixed default answer, never an error.
//!
//! Values are the bit patterns of normalized 32-bit floats; `0u32` is the
//! bit pattern of normalized zero. Working on bits keeps the one comparison
//! the store makes — echo suppression — exactly what it must be: bit-for-bit
//! equality, with no tolerance.

use vstd::prelude::*;

use crate::display::ParamFormatter;
use crate::sink::EditEvent;
use crate::sink::EditSink;
use crate::table::ParamRow;
use crate::table::ParamTable;
use crate::display::empty_string;
use crate::table::ParameterId;
use crate::table::has_index;
use crate::table::lemma_resolved_id;
use crate::table::spec_index_to_id;

verus! {

/// The stored values after an index-addressed write: unchanged when the
/// index resolves to no row or when the row already holds exactly `bits`
/// (echo suppression), else updated at the row's position.
pub open spec fn values_after_set(
    rows: Seq<ParamRow>,
    values: Seq<u32>,
    index: i32,
    bits: u32,
) -> Seq<u32> {
    match spec_index_to_id(rows, index) {
        None => values,
        Some(id) => if values[id.pos as int] == bits {
            values
        } else {
            values.update(id.pos as int, bits)
        },
    }
}

/// The sink's event history after an index-addressed write: exactly one
/// begin/end bracket when the write goes through, nothing otherwise.
pub open spec fn events_after_set(
    rows: Seq<ParamRow>,
    values: Seq<u32>,
    events: Seq<EditEvent>,
    index: i32,
    bits: u32,
) -> Seq<EditEvent> {
    match spec_index_to_id(rows, index) {
        None => events,
        Some(id) => if values[id.pos as int] == bits {
            events
        } else {
            events.push(EditEvent::Begin(index)).push(EditEvent::End(index))
        },
    }
}

/// A registry instance: the table it was built from, one value cell per row,
/// the host notification sink and the display formatter.
pub struct ParameterStore<S: EditSink, F: ParamFormatter> {
    pub table: ParamTable,
    pub values: Vec<u32>,
    pub sink: S,
    pub formatter: F,
}

impl<S: EditSink, F: ParamFormatter> ParameterStore<S, F> {
    /// The table has no duplicate index and every row has its value cell.
    pub open spec fn wf(&self) -> bool {
        &&& self.table.wf()
        &&& self.values@.len() == self.table.rows@.len()
    }

    pub open spec fn valid_id(&self, id: ParameterId) -> bool {
        self.table.valid_id(id)
    }

    /// Builds a store over `table`, every parameter at its default.
    pub fn new(table: ParamTable, sink: S, formatter: F) -> (r: Self)
        requires
            table.wf(),
        ensures
            r.wf(),
            r.table == table,
            r.sink == sink,
            r.formatter == formatter,
            r.values@.len() == table.rows@.len(),
            forall|p: int|
                0 <= p < table.rows@.len() ==> r.values@[p] == table.rows@[p].default_bits,
    {
        let n = table.len();
        let mut values: Vec<u32> = Vec::new();
        let mut p: usize = 0;
        while p < n
            invariant
                n == table.rows@.len(),
                p <= n,
                values@.len() == p,
                forall|q: int| 0 <= q < p ==> values@[q] == table.rows@[q].default_bits,
            decreases n - p,
        {
            let id = ParameterId { pos: p };
            values.push(table.default_bits_of(id));
            p += 1;
        }
        ParameterStore { table, values, sink, formatter }
    }

    /// The current normalized value of `id`'s parameter, as bits. Reading
    /// never fails: every valid identifier has a cell by construction.
    pub fn get(&self, id: ParameterId) -> (r: u32)
        requires
            self.wf(),
            self.valid_id(id),
        ensures
            r == self.values@[id.pos as int],
    {
        self.values[id.pos]
    }

    /// Writes `bits` to `id`'s cell, bracketed by exactly one begin/end
    /// notification on the parameter's host-facing index. The store does not
    /// clamp and does not compare: typed writes always go through.
    pub fn set(&mut self, id: ParameterId, bits: u32)
        requires
            old(self).wf(),
            old(self).valid_id(id),
        ensures
            final(self).wf(),
            final(self).table == old(self).table,
            final(self).formatter == old(self).formatter,
            final(self).values@ == old(self).values@.update(id.pos as int, bits),
            final(self).sink.events() == old(self).sink.events()
                .push(EditEvent::Begin(old(self).table.rows@[id.pos as int].index))
                .push(EditEvent::End(old(self).table.rows@[id.pos as int].index)),
    {
        let index = self.table.id_to_index(id);
        self.sink.begin_edit(index);
        self.values.set(id.pos, bits);
        self.sink.end_edit(index);
    }

    /// The display text of `id`'s parameter: its formatter applied to the
    /// value the store holds now, as `(value text, units text)`. The result
    /// is a function of the store alone, so two reads with no write between
    /// them render identically.
    pub fn get_display_strings(&self, id: ParameterId) -> (r: (String, String))
        requires
            self.wf(),
            self.valid_id(id),
        ensures
            r.0@ == self.formatter.spec_value_text(
                self.table.rows@[id.pos as int].index,
                self.values@[id.pos as int],
            ),
            r.1@ == self.formatter.spec_units_text(
                self.table.rows@[id.pos as int].index,
                self.values@[id.pos as int],
            ),
    {
        let index = self.table.id_to_index(id);
        let bits = self.get(id);
        self.formatter.format(index, bits)
    }

    /// What `value_for_index` returns: the stored bits of the resolved
    /// parameter, or the bits of normalized zero for an unknown index.
    pub open spec fn spec_value_for_index(&self, index: i32) -> u32 {
        match spec_index_to_id(self.table.rows@, index) {
            Some(id) => self.values@[id.pos as int],
            None => 0u32,
        }
    }

    /// What `name_for_index` returns: the resolved parameter's display
    /// name, or empty text for an unknown index.
    pub open spec fn spec_name_for_index(&self, index: i32) -> Seq<char> {
        match spec_index_to_id(self.table.rows@, index) {
            Some(id) => self.table.rows@[id.pos as int].name@,
            None => Seq::<char>::empty(),
        }
    }

    /// What `text_for_index` returns: the value half of the resolved
    /// parameter's display text, or empty text for an unknown index.
    pub open spec fn spec_text_for_index(&self, index: i32) -> Seq<char> {
        match spec_index_to_id(self.table.rows@, index) {
            Some(id) => self.formatter.spec_value_text(index, self.values@[id.pos as int]),
            None => Seq::<char>::empty(),
        }
    }

    /// What `label_for_index` returns: the units half of the resolved
    /// parameter's display text, or empty text for an unknown index.
    pub open spec fn spec_label_for_index(&self, index: i32) -> Seq<char> {
        match spec_index_to_id(self.table.rows@, index) {
            Some(id) => self.formatter.spec_units_text(index, self.values@[id.pos as int]),
            None => Seq::<char>::empty(),
        }
    }

    /// The current value of the parameter at `index`, as bits; the bits of
    /// normalized zero when the table does not hold `index`. Never fails.
    pub fn value_for_index(&self, index: i32) -> (r: u32)
        requires
            self.wf(),
        ensures
            r == self.spec_value_for_index(index),
    {
        match self.table.index_to_id(index) {
            Some(id) => {
                proof {
                    lemma_resolved_id(self.table.rows@, index);
                }
                self.get(id)
            },
            None => 0u32,
        }
    }

    /// The display name of the parameter at `index`; empty text when the
    /// table does not hold `index`. Never fails.
    pub fn name_for_index(&self, index: i32) -> (r: String)
        requires
            self.wf(),
        ensures
            r@ == self.spec_name_for_index(index),
    {
        match self.table.index_to_id(index) {
            Some(id) => {
                proof {
                    lemma_resolved_id(self.table.rows@, index);
                }
                self.table.name_of(id)
            },
            None => empty_string(),
        }
    }

    /// The value half of the display text of the parameter at `index`;
    /// empty text when the table does not hold `index`. Never fails.
    pub fn text_for_index(&self, index: i32) -> (r: String)
        requires
            self.wf(),
        ensures
            r@ == self.spec_text_for_index(index),
    {
        match self.table.index_to_id(index) {
            Some(id) => {
                proof {
                    lemma_resolved_id(self.table.rows@, index);
                }
                let r = self.get_display_strings(id);
                r.0
            },
            None => empty_string(),
        }
    }

    /// The units half of the display text of the parameter at `index`;
    /// empty text when the table does not hold `index`. Never fails.
    pub fn label_for_index(&self, index: i32) -> (r: String)
        requires
            self.wf(),
        ensures
            r@ == self.spec_label_for_index(index),
    {
        match self.table.index_to_id(index) {
            Some(id) => {
                proof {
                    lemma_resolved_id(self.table.rows@, index);
                }
                let r = self.get_display_strings(id);
                r.1
            },
            None => empty_string(),
        }
    }

    /// A parameter is automatable exactly when its index is in the table.
    pub fn is_automatable(&self, index: i32) -> (r: bool)
        requires
            self.wf(),
        ensures
            r == has_index(self.table.rows@, index),
    {
        self.table.index_to_id(index).is_some()
    }

    /// Textual parameter entry is unsupported: the answer is `false` for
    /// every index and every text.
    pub fn parse_text_to_value(&self, _index: i32, _text: &str) -> (r: bool)
        ensures
            r == false,
    {
        false
    }

    /// A host-addressed write. An index the table does not hold is silently
    /// ignored. When the row already holds exactly `bits`, the write is
    /// suppressed as host echo: the store is unchanged and the sink hears
    /// nothing. Otherwise the value is written inside one edit bracket.
    pub fn set_value_for_index(&mut self, index: i32, bits: u32)
        requires
            old(self).wf(),
        ensures
            final(self).wf(),
            final(self).table == old(self).table,
            final(self).formatter == old(self).formatter,
            final(self).values@ == values_after_set(
                old(self).table.rows@,
                old(self).values@,
                index,
                bits,
            ),
            final(self).sink.events() == events_after_set(
                old(self).table.rows@,
                old(self).values@,
                old(self).sink.events(),
                index,
                bits,
            ),
    {
        match self.table.index_to_id(index) {
            Some(id) => {
                proof {
                    lemma_resolved_id(self.table.rows@, index);
                }
                if self.get(id) == bits {
                    // Host echo: the value is already held, bit for bit.
                } else {
                    self.set(id, bits);
                }
            },
            None => {},
        }
    }

    /// An index the table does not hold is not automatable, and every
    /// facade read of it returns the fixed default: empty text, and
    /// normalized zero for the value.
    pub proof fn lemma_unknown_index_defaults(&self, index: i32)
        requires
            !has_index(self.table.rows@, index),
        ensures
            self.spec_value_for_index(index) == 0u32,
            self.spec_name_for_index(index) == Seq::<char>::empty(),
            self.spec_text_for_index(index) == Seq::<char>::empty(),
            self.spec_label_for_index(index) == Seq::<char>::empty(),
    {
    }
}

/// Writing the same bits to the same index twice in a row does no more than
/// writing them once: the second write finds the value already stored, so it
/// changes no cell and appends no edit bracket. This is the echo-suppression
/// guarantee, and with it the bracket fires at most once for a repeated
/// write.
pub proof fn lemma_repeated_set_is_noop(
    rows: Seq<ParamRow>,
    values: Seq<u32>,
    events: Seq<EditEvent>,
    index: i32,
    bits: u32,
)
    requires
        values.len() == rows.len(),
        rows.len() <= usize::MAX,
    ensures
        values_after_set(rows, values_after_set(rows, values, index, bits), index, bits)
            == values_after_set(rows, values, index, bits),
        events_after_set(
            rows,
            values_after_set(rows, values, index, bits),
            events_after_set(rows, values, events, index, bits),
            index,
            bits,
        ) == events_after_set(rows, values, events, index, bits),
{
    if has_index(rows, index) {
        lemma_resolved_id(rows, index);
        let id = spec_index_to_id(rows, index)->Some_0;
        let v1 = values_after_set(rows, values, index, bits);
        assert(v1[id.pos as int] == bits);
    }
}

} // verus!

