use trace_fmt::directory::AddressDirectory;
use trace_fmt::storage::{print_logs, separator_line, StorageLogEntry, StorageLogKind};
use trace_fmt::style::Style;
use trace_fmt::summary::{print_vm_details, ExecutionSummary};

fn entry(kind: StorageLogKind) -> StorageLogEntry {
    let mut key = [0u8; 32];
    key[31] = 0x01;
    let mut read_value = [0u8; 32];
    read_value[31] = 0x2a;
    StorageLogEntry {
        kind,
        address: [0x33; 20],
        key,
        read_value,
        written_value: [0xff; 32],
    }
}

#[test]
fn read_entry_has_no_written_value() {
    let rendered = print_logs(&entry(StorageLogKind::Read), &AddressDirectory::new(Vec::new()));
    assert_eq!(rendered.kind, StorageLogKind::Read);
    assert_eq!(rendered.address_label.text, format!("0x{}", "33".repeat(20)));
    assert_eq!(rendered.address_label.style, Style::RawAddress);
    assert_eq!(rendered.key_hex, format!("0x{}01", "00".repeat(31)));
    assert_eq!(rendered.read_value_hex, format!("0x{}2a", "00".repeat(31)));
    assert!(rendered.written_value_hex.is_none());
}

#[test]
fn write_entry_shows_written_value() {
    let rendered = print_logs(
        &entry(StorageLogKind::InitialWrite),
        &AddressDirectory::new(Vec::new()),
    );
    assert_eq!(
        rendered.written_value_hex,
        Some(format!("0x{}", "ff".repeat(32)))
    );
    let rendered = print_logs(
        &entry(StorageLogKind::RepeatedWrite),
        &AddressDirectory::new(Vec::new()),
    );
    assert!(rendered.written_value_hex.is_some());
}

#[test]
fn separator_is_a_fixed_width_dash_run() {
    let sep = separator_line();
    assert_eq!(sep.len(), 82);
    assert!(sep.chars().all(|c| c == '-'));
}

#[test]
fn summary_lines_are_exact() {
    let rendered = print_vm_details(&ExecutionSummary {
        cycles_used: 1234,
        computational_gas_used: 56789,
        contracts_used: 7,
        revert_reason: None,
    });
    assert_eq!(rendered.cycles_line, "Cycles Used: 1234");
    assert_eq!(rendered.gas_line, "Computation Gas Used: 56789");
    assert_eq!(rendered.contracts_line, "Contracts Used: 7");
    assert!(rendered.revert_line.is_none());
}

#[test]
fn summary_with_revert_reason_adds_failure_line() {
    let rendered = print_vm_details(&ExecutionSummary {
        cycles_used: 0,
        computational_gas_used: 0,
        contracts_used: 0,
        revert_reason: Some(String::from("out of gas")),
    });
    assert_eq!(rendered.cycles_line, "Cycles Used: 0");
    assert_eq!(
        rendered.revert_line,
        Some(String::from("[!] Revert Reason: out of gas"))
    );
}
