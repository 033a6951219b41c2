//! Rendering of storage-log entries: log type, resolved-or-raw address,
//! key and read value as fixed-width hex, and the written value for
//! anything but a read.

use vstd::prelude::*;

use crate::directory::{label_spec, AddressDirectory};
use crate::hexfmt::{hex_string_prefixed, hex_with_prefix};
use crate::style::Span;

verus! {

/// The kind of a storage access.
#[derive(Clone, Copy, Debug, PartialEq, Eq, Structural)]
pub enum StorageLogKind {
    Read,
    InitialWrite,
    RepeatedWrite,
}

/// One storage-log entry produced by the virtual machine. The written
/// value is meaningful only when the kind is not `Read`.
pub struct StorageLogEntry {
    pub kind: StorageLogKind,
    pub address: [u8; 20],
    pub key: [u8; 32],
    pub read_value: [u8; 32],
    pub written_value: [u8; 32],
}

/// A rendered storage-log entry. `written_value_hex` is present exactly
/// for the kinds that write.
pub struct RenderedStorageLog {
    pub kind: StorageLogKind,
    pub address_label: Span,
    pub key_hex: String,
    pub read_value_hex: String,
    pub written_value_hex: Option<String>,
}

/// The width of the separator line closing each rendered entry.
pub const SEPARATOR_WIDTH: usize = 82;

/// The separator line: a fixed-width run of dashes.
pub open spec fn separator_spec() -> Seq<char> {
    Seq::new(SEPARATOR_WIDTH as nat, |i: int| '-')
}

/// The separator line closing each rendered entry.
#[verifier::loop_isolation(false)]
pub fn separator_line() -> (r: String)
    ensures
        r@ == separator_spec(),
{
    let mut out = String::new();
    proof {
        reveal_strlit("-");
    }
    let mut i: usize = 0;
    while i < SEPARATOR_WIDTH
        invariant
            i <= SEPARATOR_WIDTH,
            out@ =~= separator_spec().take(i as int),
        decreases SEPARATOR_WIDTH - i,
    {
        out.append("-");
        proof {
            assert(out@ =~= separator_spec().take(i as int + 1));
        }
        i = i + 1;
    }
    assert(separator_spec().take(SEPARATOR_WIDTH as int) =~= separator_spec());
    out
}

/// Renders one storage-log entry.
pub fn print_logs(log_query: &StorageLogEntry, dir: &AddressDirectory) -> (r: RenderedStorageLog)
    ensures
        r.kind == log_query.kind,
        r.address_label@ == label_spec(dir.entries@, log_query.address@),
        r.key_hex@ == hex_with_prefix(log_query.key@),
        r.read_value_hex@ == hex_with_prefix(log_query.read_value@),
        match r.written_value_hex {
            Some(w) => log_query.kind != StorageLogKind::Read && w@ == hex_with_prefix(
                log_query.written_value@,
            ),
            None => log_query.kind == StorageLogKind::Read,
        },
{
    let written_value_hex = if !(log_query.kind == StorageLogKind::Read) {
        Some(hex_string_prefixed(log_query.written_value.as_slice()))
    } else {
        None
    };
    RenderedStorageLog {
        kind: log_query.kind,
        address_label: dir.display_name(&log_query.address),
        key_hex: hex_string_prefixed(log_query.key.as_slice()),
        read_value_hex: hex_string_prefixed(log_query.read_value.as_slice()),
        written_value_hex,
    }
}

} // verus!
