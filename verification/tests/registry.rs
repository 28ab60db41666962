use param_registry::EditEvent;
use param_registry::ParamFormatter;
use param_registry::ParamRow;
use param_registry::ParamTable;
use param_registry::ParameterId;
use param_registry::ParameterStore;
use param_registry::RecordingSink;
use param_registry::SilentFormatter;

fn sample_table() -> ParamTable {
    ParamTable {
        rows: vec![
            ParamRow {
                index: 0,
                name: "Master Volume".to_string(),
                default_bits: 0.5f32.to_bits(),
            },
            ParamRow {
                index: 1,
                name: "Attack".to_string(),
                default_bits: 0.1f32.to_bits(),
            },
            ParamRow {
                index: 5,
                name: "Mode".to_string(),
                default_bits: 0.0f32.to_bits(),
            },
        ],
    }
}

fn sample_store() -> ParameterStore<RecordingSink, SilentFormatter> {
    let table = sample_table();
    assert!(table.is_well_formed());
    ParameterStore::new(table, RecordingSink::new(), SilentFormatter {})
}

/// Formats the normalized value itself to two decimal places, with a fixed
/// units label.
struct VolumeFormatter;

impl ParamFormatter for VolumeFormatter {
    fn format(&self, _index: i32, bits: u32) -> (String, String) {
        (format!("{:.2}", f32::from_bits(bits)), "Volume".to_string())
    }
}

#[test]
fn index_id_round_trip() {
    let store = sample_store();
    for pos in 0..3usize {
        let id = ParameterId { pos };
        let index = store.table.id_to_index(id);
        assert_eq!(store.table.index_to_id(index), Some(id));
    }
    assert_eq!(store.table.id_to_index(ParameterId { pos: 2 }), 5);
}

#[test]
fn automatable_exactly_on_table_indices() {
    let store = sample_store();
    assert!(store.is_automatable(0));
    assert!(store.is_automatable(1));
    assert!(store.is_automatable(5));
    assert!(!store.is_automatable(2));
    assert!(!store.is_automatable(-1));
    assert!(!store.is_automatable(99));
}

#[test]
fn unknown_index_gets_fixed_defaults() {
    let store = sample_store();
    for index in [-1, 2, 99] {
        assert_eq!(store.table.index_to_id(index), None);
        assert_eq!(store.name_for_index(index), "");
        assert_eq!(store.text_for_index(index), "");
        assert_eq!(store.label_for_index(index), "");
        assert_eq!(store.value_for_index(index), 0);
        assert_eq!(f32::from_bits(store.value_for_index(index)), 0.0);
    }
}

#[test]
fn unknown_index_write_is_ignored() {
    let mut store = sample_store();
    store.set_value_for_index(2, 0.9f32.to_bits());
    store.set_value_for_index(-1, 0.9f32.to_bits());
    assert_eq!(store.value_for_index(0), 0.5f32.to_bits());
    assert_eq!(store.value_for_index(1), 0.1f32.to_bits());
    assert_eq!(store.value_for_index(5), 0.0f32.to_bits());
    assert_eq!(store.sink.log, vec![]);
}

#[test]
fn defaults_after_construction() {
    let store = sample_store();
    assert_eq!(store.get(ParameterId { pos: 0 }), 0.5f32.to_bits());
    assert_eq!(store.get(ParameterId { pos: 1 }), 0.1f32.to_bits());
    assert_eq!(store.get(ParameterId { pos: 2 }), 0.0f32.to_bits());
    assert_eq!(store.sink.log, vec![]);
}

#[test]
fn facade_write_brackets_once() {
    let mut store = sample_store();
    store.set_value_for_index(5, 0.25f32.to_bits());
    assert_eq!(store.value_for_index(5), 0.25f32.to_bits());
    assert_eq!(store.sink.log, vec![EditEvent::Begin(5), EditEvent::End(5)]);
}

#[test]
fn echo_of_stored_value_is_suppressed() {
    let mut store = sample_store();
    let bits = 0.7f32.to_bits();
    store.set_value_for_index(1, bits);
    assert_eq!(store.value_for_index(1), bits);
    assert_eq!(store.sink.log, vec![EditEvent::Begin(1), EditEvent::End(1)]);
    // The immediate echo of the same bits: no write, no further bracket.
    store.set_value_for_index(1, bits);
    assert_eq!(store.value_for_index(1), bits);
    assert_eq!(store.sink.log, vec![EditEvent::Begin(1), EditEvent::End(1)]);
}

#[test]
fn repeated_facade_write_notifies_at_most_once() {
    let mut store = sample_store();
    let bits = 0.33f32.to_bits();
    store.set_value_for_index(0, bits);
    store.set_value_for_index(0, bits);
    let brackets = store
        .sink
        .log
        .iter()
        .filter(|e| matches!(e, EditEvent::Begin(_)))
        .count();
    assert_eq!(brackets, 1);
    assert_eq!(store.value_for_index(0), bits);
}

#[test]
fn writing_the_default_back_is_an_echo() {
    let mut store = sample_store();
    // The stored default round-trips from the host bit-identically, so even
    // the first write of it is suppressed.
    store.set_value_for_index(0, 0.5f32.to_bits());
    assert_eq!(store.sink.log, vec![]);
}

#[test]
fn typed_set_always_brackets() {
    let mut store = sample_store();
    let id = ParameterId { pos: 1 };
    let bits = 0.1f32.to_bits();
    // Typed writes do not suppress echo: the value is already 0.1.
    store.set(id, bits);
    store.set(id, bits);
    assert_eq!(
        store.sink.log,
        vec![
            EditEvent::Begin(1),
            EditEvent::End(1),
            EditEvent::Begin(1),
            EditEvent::End(1),
        ]
    );
    assert_eq!(store.get(id), bits);
}

#[test]
fn display_is_deterministic_between_writes() {
    let table = sample_table();
    assert!(table.is_well_formed());
    let mut store = ParameterStore::new(table, RecordingSink::new(), VolumeFormatter);
    let id = ParameterId { pos: 0 };
    let first = store.get_display_strings(id);
    let second = store.get_display_strings(id);
    assert_eq!(first, second);
    store.set(id, 0.75f32.to_bits());
    let third = store.get_display_strings(id);
    assert_eq!(third.0, "0.75");
}

#[test]
fn formatting_maps_default_to_two_decimals_and_label() {
    let table = sample_table();
    assert!(table.is_well_formed());
    let store = ParameterStore::new(table, RecordingSink::new(), VolumeFormatter);
    let (value_text, units_text) = store.get_display_strings(ParameterId { pos: 0 });
    assert_eq!(value_text, "0.50");
    assert_eq!(units_text, "Volume");
    assert_eq!(store.text_for_index(0), "0.50");
    assert_eq!(store.label_for_index(0), "Volume");
}

#[test]
fn name_for_index_reads_the_table() {
    let store = sample_store();
    assert_eq!(store.name_for_index(0), "Master Volume");
    assert_eq!(store.name_for_index(1), "Attack");
    assert_eq!(store.name_for_index(5), "Mode");
}

#[test]
fn silent_formatter_formats_nothing() {
    let store = sample_store();
    let (value_text, units_text) = store.get_display_strings(ParameterId { pos: 0 });
    assert_eq!(value_text, "");
    assert_eq!(units_text, "");
}

#[test]
fn text_entry_is_unsupported() {
    let store = sample_store();
    assert!(!store.parse_text_to_value(0, "0.5"));
    assert!(!store.parse_text_to_value(99, "anything"));
}

#[test]
fn duplicate_index_is_detected() {
    let table = ParamTable {
        rows: vec![
            ParamRow {
                index: 1,
                name: "A".to_string(),
                default_bits: 0,
            },
            ParamRow {
                index: 1,
                name: "B".to_string(),
                default_bits: 0,
            },
        ],
    };
    assert!(!table.is_well_formed());
    assert!(sample_table().is_well_formed());
    assert!(ParamTable { rows: vec![] }.is_well_formed());
}
