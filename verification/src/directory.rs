//! The address directory: an immutable lookup from a 20-byte address to a
//! display name and a contract classification, built once from a fixed
//! dataset and shared read-only by every renderer.

use vstd::prelude::*;

use crate::hexfmt::hex_string_prefixed;
use crate::hexfmt::hex_with_prefix;
use crate::style::{Span, SpanModel, Style};

verus! {

/// The classification of a known contract address.
#[derive(Clone, Copy, Debug, PartialEq, Eq, Structural)]
pub enum ContractType {
    System,
    Precompile,
    Popular,
    Unknown,
}

/// One entry of the address dataset.
#[derive(Clone, Debug)]
pub struct KnownAddress {
    pub address: [u8; 20],
    pub name: String,
    pub contract_type: ContractType,
}

/// The immutable address directory. Entries are kept in dataset order; of
/// two entries for one address the later wins, as in a map built by
/// inserting them in order.
pub struct AddressDirectory {
    pub entries: Vec<KnownAddress>,
}

/// The last entry whose address equals `addr`, if any.
pub open spec fn find_entry(entries: Seq<KnownAddress>, addr: Seq<u8>) -> Option<KnownAddress>
    decreases entries.len(),
{
    if entries.len() == 0 {
        None
    } else if entries.last().address@ == addr {
        Some(entries.last())
    } else {
        find_entry(entries.drop_last(), addr)
    }
}

/// The classification of an address: its entry's type, `Unknown` when the
/// address is absent from the dataset.
pub open spec fn classify_spec(entries: Seq<KnownAddress>, addr: Seq<u8>) -> ContractType {
    match find_entry(entries, addr) {
        Some(e) => e.contract_type,
        None => ContractType::Unknown,
    }
}

/// The emphasis given to a known contract's name.
pub open spec fn name_style(t: ContractType) -> Style {
    match t {
        ContractType::System => Style::Plain,
        ContractType::Precompile => Style::Muted,
        ContractType::Popular => Style::Highlighted,
        ContractType::Unknown => Style::Plain,
    }
}

/// The display label of an address: the known name with its type's emphasis,
/// else the raw hex address.
pub open spec fn label_spec(entries: Seq<KnownAddress>, addr: Seq<u8>) -> SpanModel {
    match find_entry(entries, addr) {
        Some(e) => SpanModel { text: e.name@, style: name_style(e.contract_type) },
        None => SpanModel { text: hex_with_prefix(addr), style: Style::RawAddress },
    }
}

/// Equality of two 20-byte addresses.
pub fn address_eq(a: &[u8; 20], b: &[u8; 20]) -> (r: bool)
    ensures
        r == (a@ == b@),
{
    let mut i: usize = 0;
    while i < 20
        invariant
            i <= 20,
            forall|j: int| 0 <= j < i ==> a@[j] == b@[j],
        decreases 20 - i,
    {
        if a[i] != b[i] {
            return false;
        }
        i = i + 1;
    }
    assert(a@ =~= b@);
    true
}

impl AddressDirectory {
    /// Builds the directory from the parsed dataset entries.
    pub fn new(entries: Vec<KnownAddress>) -> (r: AddressDirectory)
        ensures
            r.entries@ == entries@,
    {
        AddressDirectory { entries }
    }

    /// The index of the winning entry for `address`, if any.
    #[verifier::loop_isolation(false)]
    fn find_index(&self, address: &[u8; 20]) -> (r: Option<usize>)
        ensures
            match r {
                Some(j) => j < self.entries@.len() && find_entry(self.entries@, address@)
                    == Some(self.entries@[j as int]),
                None => find_entry(self.entries@, address@) is None,
            },
    {
        let n = self.entries.len();
        let mut found: Option<usize> = None;
        let mut i: usize = 0;
        while i < n
            invariant
                i <= n,
                match found {
                    Some(j) => j < i && find_entry(self.entries@.take(i as int), address@)
                        == Some(self.entries@[j as int]),
                    None => find_entry(self.entries@.take(i as int), address@) is None,
                },
            decreases n - i,
        {
            proof {
                assert(self.entries@.take(i as int + 1).last() == self.entries@[i as int]);
                assert(self.entries@.take(i as int + 1).drop_last() =~= self.entries@.take(
                    i as int,
                ));
            }
            if address_eq(&self.entries[i].address, address) {
                found = Some(i);
            }
            i = i + 1;
        }
        proof {
            assert(self.entries@.take(n as int) =~= self.entries@);
        }
        found
    }

    /// The classification of `address`; `Unknown` when it is absent.
    pub fn classify(&self, address: &[u8; 20]) -> (r: ContractType)
        ensures
            r == classify_spec(self.entries@, address@),
    {
        match self.find_index(address) {
            Some(j) => self.entries[j].contract_type,
            None => ContractType::Unknown,
        }
    }

    /// The display label of `address`: its known name with the emphasis of
    /// its type, else the raw hex address.
    pub fn display_name(&self, address: &[u8; 20]) -> (r: Span)
        ensures
            r@ == label_spec(self.entries@, address@),
    {
        match self.find_index(address) {
            Some(j) => {
                let e = &self.entries[j];
                let style = match e.contract_type {
                    ContractType::System => Style::Plain,
                    ContractType::Precompile => Style::Muted,
                    ContractType::Popular => Style::Highlighted,
                    ContractType::Unknown => Style::Plain,
                };
                Span { text: e.name.clone(), style }
            },
            None => Span {
                text: hex_string_prefixed(address.as_slice()),
                style: Style::RawAddress,
            },
        }
    }
}

} // verus!
