use jg_launcher::class_util::{
    extend_local_variable_table, extend_url_code, local_variable_table_overflows,
    parse_local_variable_table, url_code_stretch_safe, wrap_return_code, CodeSubAttribute,
    LocalVariableEntry, INVOKESTATIC,
};

fn entry(start: u16, len: u16, name: u16, desc: u16, index: u16) -> Vec<u8> {
    let mut v = Vec::new();
    for x in [start, len, name, desc, index] {
        v.extend_from_slice(&x.to_be_bytes());
    }
    v
}

fn table(count: u16, entries: &[Vec<u8>]) -> Vec<u8> {
    let mut v = count.to_be_bytes().to_vec();
    for e in entries {
        v.extend_from_slice(e);
    }
    v
}

#[test]
fn parses_entries_and_receiver_length() {
    let data = table(2, &[entry(0, 20, 1, 2, 0), entry(4, 16, 3, 4, 1)]);
    let (this_length, entries) = parse_local_variable_table(&data);
    assert_eq!(this_length, 20);
    assert_eq!(
        entries,
        vec![
            LocalVariableEntry { start_pc: 0, length: 20, length_index: 4 },
            LocalVariableEntry { start_pc: 4, length: 16, length_index: 14 },
        ]
    );
}

#[test]
fn declared_count_is_bounded_by_the_data() {
    let data = table(5, &[entry(0, 9, 1, 2, 0)]);
    let (this_length, entries) = parse_local_variable_table(&data);
    assert_eq!(this_length, 9);
    assert_eq!(entries.len(), 1);
    assert_eq!(parse_local_variable_table(&[1]), (-1, vec![]));
    assert_eq!(parse_local_variable_table(&table(1, &[entry(0, 9, 1, 2, 3)])).0, -1);
}

#[test]
fn stretches_scopes_that_end_with_the_method() {
    let mut data = table(3, &[entry(0, 20, 1, 2, 0), entry(4, 16, 3, 4, 1), entry(2, 5, 5, 6, 2)]);
    assert!(!local_variable_table_overflows(&data));
    assert!(extend_local_variable_table(&mut data));
    assert_eq!(
        data,
        table(3, &[entry(0, 23, 1, 2, 0), entry(4, 19, 3, 4, 1), entry(2, 5, 5, 6, 2)])
    );
}

#[test]
fn tables_without_receiver_are_left_alone() {
    let original = table(1, &[entry(0, 20, 1, 2, 7)]);
    let mut data = original.clone();
    assert!(!extend_local_variable_table(&mut data));
    assert_eq!(data, original);
    let mut empty = table(0, &[]);
    assert!(!extend_local_variable_table(&mut empty));
}

#[test]
fn overflow_is_detected() {
    assert!(local_variable_table_overflows(&table(1, &[entry(0, 0xfffe, 1, 2, 0)])));
    assert!(local_variable_table_overflows(&table(2, &[entry(0, 4, 1, 2, 0), entry(0xffff, 1, 1, 2, 1)])));
    assert!(!local_variable_table_overflows(&table(1, &[entry(0xffff, 1, 1, 2, 3)])));
}

#[test]
fn return_is_wrapped_by_a_static_call() {
    let mut codes = vec![0x2a, 0xb0];
    wrap_return_code(&mut codes, 0x1234);
    assert_eq!(codes, vec![0x2a, INVOKESTATIC, 0x12, 0x34, 0xb0]);
}

#[test]
fn url_code_stops_at_a_table_without_receiver() {
    let mut codes = vec![0x2a, 0xb0];
    let mut attrs = vec![
        CodeSubAttribute { is_local_variable_table: false, data: vec![1, 2, 3] },
        CodeSubAttribute { is_local_variable_table: true, data: table(1, &[entry(0, 2, 1, 2, 0)]) },
        CodeSubAttribute { is_local_variable_table: true, data: table(1, &[entry(0, 2, 1, 2, 5)]) },
        CodeSubAttribute { is_local_variable_table: true, data: table(1, &[entry(0, 2, 1, 2, 0)]) },
    ];
    assert!(url_code_stretch_safe(&attrs));
    extend_url_code(&mut codes, &mut attrs, 7);
    assert_eq!(codes, vec![0x2a, INVOKESTATIC, 0, 7, 0xb0]);
    assert_eq!(attrs[0].data, vec![1, 2, 3]);
    assert_eq!(attrs[1].data, table(1, &[entry(0, 5, 1, 2, 0)]));
    assert_eq!(attrs[2].data, table(1, &[entry(0, 2, 1, 2, 5)]));
    assert_eq!(attrs[3].data, table(1, &[entry(0, 2, 1, 2, 0)]));
}

#[test]
fn stretch_safety_follows_the_work() {
    let overflowing = CodeSubAttribute {
        is_local_variable_table: true,
        data: table(1, &[entry(0, 0xfffe, 1, 2, 0)]),
    };
    let stopping = CodeSubAttribute {
        is_local_variable_table: true,
        data: table(1, &[entry(0, 2, 1, 2, 9)]),
    };
    assert!(!url_code_stretch_safe(&vec![overflowing]));
    let overflowing = CodeSubAttribute {
        is_local_variable_table: true,
        data: table(1, &[entry(0, 0xfffe, 1, 2, 0)]),
    };
    assert!(url_code_stretch_safe(&vec![stopping, overflowing]));
}
