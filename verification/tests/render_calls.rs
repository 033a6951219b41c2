use trace_fmt::calls::{
    collect_call_requests, print_call, should_show, CallTraceNode, CallType, RenderedCall,
    ShowCalls,
};
use trace_fmt::directory::{AddressDirectory, ContractType, KnownAddress};
use trace_fmt::resolver::ResolutionMap;
use trace_fmt::style::Style;

fn addr(first: u8, second: u8) -> [u8; 20] {
    let mut a = [0u8; 20];
    a[0] = first;
    a[1] = second;
    a
}

fn leaf(to: [u8; 20], input: Vec<u8>) -> CallTraceNode {
    CallTraceNode {
        call_type: CallType::Call,
        to,
        input,
        gas: 0,
        revert_reason: None,
        error: None,
        children: Vec::new(),
    }
}

fn empty_dir() -> AddressDirectory {
    AddressDirectory::new(Vec::new())
}

fn assert_lines_equal(a: &[RenderedCall], b: &[RenderedCall]) {
    assert_eq!(a.len(), b.len());
    for (x, y) in a.iter().zip(b.iter()) {
        assert_eq!(x.indent, y.indent);
        assert_eq!(x.tag, y.tag);
        assert_eq!(x.label.text, y.label.text);
        assert_eq!(x.label.style, y.label.style);
        assert_eq!(x.signature, y.signature);
        assert_eq!(x.revert_reason, y.revert_reason);
        assert_eq!(x.error, y.error);
        assert_eq!(x.gas, y.gas);
        assert_eq!(x.failure, y.failure);
    }
}

#[test]
fn visibility_table_is_total_and_exact() {
    let types = [
        ContractType::Unknown,
        ContractType::Popular,
        ContractType::Precompile,
        ContractType::System,
    ];
    for t in types {
        assert!(should_show(t, &ShowCalls::All));
        assert!(!should_show(t, &ShowCalls::NoCalls));
    }
    assert!(should_show(ContractType::Unknown, &ShowCalls::User));
    assert!(should_show(ContractType::Popular, &ShowCalls::User));
    assert!(!should_show(ContractType::Precompile, &ShowCalls::User));
    assert!(!should_show(ContractType::System, &ShowCalls::User));
    assert!(should_show(ContractType::Unknown, &ShowCalls::System));
    assert!(should_show(ContractType::Popular, &ShowCalls::System));
    assert!(!should_show(ContractType::Precompile, &ShowCalls::System));
    assert!(should_show(ContractType::System, &ShowCalls::System));
}

#[test]
fn indentation_increases_with_depth() {
    let grandchild = leaf(addr(3, 0), vec![]);
    let child = CallTraceNode {
        children: vec![grandchild],
        ..leaf(addr(2, 0), vec![])
    };
    let root = CallTraceNode {
        children: vec![child],
        ..leaf(addr(1, 0), vec![])
    };
    let lines = print_call(
        &root,
        0,
        &ShowCalls::All,
        false,
        &empty_dir(),
        &ResolutionMap::new(),
    );
    assert_eq!(lines.len(), 3);
    assert_eq!(lines[0].indent, 0);
    assert_eq!(lines[1].indent, 2);
    assert_eq!(lines[2].indent, 4);
}

#[test]
fn hidden_intermediate_node_keeps_descendant_depth() {
    // The middle node is a precompile, hidden under ShowCalls::User; its
    // child must still be visited and keeps its own depth.
    let precompile = addr(9, 9);
    let dir = AddressDirectory::new(vec![KnownAddress {
        address: precompile,
        name: String::from("Ecrecover"),
        contract_type: ContractType::Precompile,
    }]);
    let grandchild = leaf(addr(3, 0), vec![]);
    let child = CallTraceNode {
        children: vec![grandchild],
        ..leaf(precompile, vec![])
    };
    let root = CallTraceNode {
        children: vec![child],
        ..leaf(addr(1, 0), vec![])
    };
    let lines = print_call(
        &root,
        0,
        &ShowCalls::User,
        false,
        &dir,
        &ResolutionMap::new(),
    );
    assert_eq!(lines.len(), 2);
    assert_eq!(lines[0].indent, 0);
    assert_eq!(lines[1].indent, 4);
}

#[test]
fn user_mode_filters_precompile_and_system_calls() {
    let dir = AddressDirectory::new(vec![
        KnownAddress {
            address: addr(1, 1),
            name: String::from("NonceHolder"),
            contract_type: ContractType::System,
        },
        KnownAddress {
            address: addr(2, 2),
            name: String::from("Keccak"),
            contract_type: ContractType::Precompile,
        },
        KnownAddress {
            address: addr(3, 3),
            name: String::from("Dex"),
            contract_type: ContractType::Popular,
        },
    ]);
    let root = CallTraceNode {
        children: vec![
            leaf(addr(1, 1), vec![]),
            leaf(addr(2, 2), vec![]),
            leaf(addr(3, 3), vec![]),
        ],
        ..leaf(addr(9, 9), vec![])
    };
    let lines = print_call(&root, 0, &ShowCalls::User, false, &dir, &ResolutionMap::new());
    // The unknown root and the popular child only.
    assert_eq!(lines.len(), 2);
    assert_eq!(lines[1].label.text, "Dex");
    let lines = print_call(&root, 0, &ShowCalls::System, false, &dir, &ResolutionMap::new());
    // The system child comes back; the precompile stays hidden.
    assert_eq!(lines.len(), 3);
    assert_eq!(lines[1].label.text, "NonceHolder");
    assert_eq!(lines[2].label.text, "Dex");
    let lines = print_call(&root, 0, &ShowCalls::NoCalls, false, &dir, &ResolutionMap::new());
    assert!(lines.is_empty());
}

#[test]
fn disabled_resolution_collects_nothing_and_renders_hex() {
    let root = CallTraceNode {
        children: vec![leaf(addr(2, 0), vec![0xab, 0xcd, 0xef, 0x01, 0x02])],
        ..leaf(addr(1, 0), vec![0x12, 0x34, 0x56, 0x78, 0x9a])
    };
    let requests = collect_call_requests(&root, &ShowCalls::All, false, &empty_dir());
    assert!(requests.is_empty());
    let lines = print_call(
        &root,
        0,
        &ShowCalls::All,
        false,
        &empty_dir(),
        &ResolutionMap::new(),
    );
    assert_eq!(lines[0].signature, "12345678");
    assert_eq!(lines[1].signature, "abcdef01");
}

#[test]
fn enabled_resolution_collects_selectors_in_order() {
    let root = CallTraceNode {
        children: vec![leaf(addr(2, 0), vec![0xab, 0xcd, 0xef, 0x01])],
        ..leaf(addr(1, 0), vec![0x12, 0x34, 0x56, 0x78, 0x9a])
    };
    let requests = collect_call_requests(&root, &ShowCalls::All, true, &empty_dir());
    assert_eq!(requests, vec![vec![0x12, 0x34, 0x56, 0x78], vec![0xab, 0xcd, 0xef, 0x01]]);
}

#[test]
fn failing_resolver_output_equals_disabled_output() {
    let root = CallTraceNode {
        children: vec![leaf(addr(2, 0), vec![0xab, 0xcd, 0xef, 0x01])],
        ..leaf(addr(1, 0), vec![0x12, 0x34, 0x56, 0x78])
    };
    // A resolver that always fails contributes no entries.
    let no_answers = ResolutionMap::new();
    let with = print_call(&root, 0, &ShowCalls::All, true, &empty_dir(), &no_answers);
    let without = print_call(&root, 0, &ShowCalls::All, false, &empty_dir(), &no_answers);
    assert_lines_equal(&with, &without);
}

#[test]
fn resolved_selector_renders_its_name() {
    let root = leaf(addr(1, 0), vec![0x12, 0x34, 0x56, 0x78]);
    let mut answers = ResolutionMap::new();
    answers.insert(vec![0x12, 0x34, 0x56, 0x78], String::from("transfer(address,uint256)"));
    let lines = print_call(&root, 0, &ShowCalls::All, true, &empty_dir(), &answers);
    assert_eq!(lines[0].signature, "transfer(address,uint256)");
}

#[test]
fn precompile_selector_is_never_resolved() {
    let precompile = addr(8, 8);
    let dir = AddressDirectory::new(vec![KnownAddress {
        address: precompile,
        name: String::from("Sha256"),
        contract_type: ContractType::Precompile,
    }]);
    let root = leaf(precompile, vec![0x12, 0x34, 0x56, 0x78]);
    let requests = collect_call_requests(&root, &ShowCalls::All, true, &dir);
    assert!(requests.is_empty());
    let mut answers = ResolutionMap::new();
    answers.insert(vec![0x12, 0x34, 0x56, 0x78], String::from("name()"));
    let lines = print_call(&root, 0, &ShowCalls::All, true, &dir, &answers);
    assert_eq!(lines[0].signature, "12345678");
}

#[test]
fn short_input_renders_whole_input_prefixed() {
    let root = leaf(addr(1, 0), vec![0xab, 0xcd]);
    let lines = print_call(
        &root,
        0,
        &ShowCalls::All,
        true,
        &empty_dir(),
        &ResolutionMap::new(),
    );
    assert_eq!(lines[0].signature, "0xabcd");
}

#[test]
fn reverted_call_renders_one_failure_line_with_selector_and_reason() {
    let mut to = [0u8; 20];
    to[0] = 0xde;
    to[1] = 0xad;
    let root = CallTraceNode {
        call_type: CallType::Call,
        to,
        input: vec![0x12, 0x34, 0x56, 0x78, 0xff],
        gas: 500,
        revert_reason: Some(String::from("out of gas")),
        error: None,
        children: Vec::new(),
    };
    let lines = print_call(
        &root,
        0,
        &ShowCalls::All,
        false,
        &empty_dir(),
        &ResolutionMap::new(),
    );
    assert_eq!(lines.len(), 1);
    assert!(lines[0].failure);
    let text = lines[0].text();
    assert!(text.contains("12345678"));
    assert!(text.contains("out of gas"));
    assert!(text.contains("Revert: out of gas"));
    assert!(text.contains("500"));
}

#[test]
fn line_text_layout_is_exact() {
    let root = CallTraceNode {
        call_type: CallType::Create,
        to: addr(1, 0),
        input: vec![],
        gas: 42,
        revert_reason: None,
        error: Some(String::from("panic")),
        children: Vec::new(),
    };
    let dir = AddressDirectory::new(vec![KnownAddress {
        address: addr(1, 0),
        name: String::from("Greeter"),
        contract_type: ContractType::Popular,
    }]);
    let lines = print_call(&root, 2, &ShowCalls::All, false, &dir, &ResolutionMap::new());
    assert_eq!(lines.len(), 1);
    assert_eq!(lines[0].text(), "  Create Greeter 0x Error: panic 42");
    assert_eq!(lines[0].label.style, Style::Highlighted);
}
