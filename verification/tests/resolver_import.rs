use host_runtime::resolver::{
    concat_exports, CapabilityExport, ExportValue, GuestImportTable, ImportKey, ResolveError,
};

fn capability_exports() -> Vec<CapabilityExport> {
    // Host priority order: the stdio module first, then the net module.
    vec![
        CapabilityExport::new("stdio", "print_str", ExportValue::Func(1)),
        CapabilityExport::new("net", "socket_udp_bind", ExportValue::Func(2)),
        CapabilityExport::new("net", "socket_udp_receive", ExportValue::Func(3)),
        CapabilityExport::new("net", "socket_udp_send_to", ExportValue::Func(4)),
    ]
}

#[test]
fn resolve_preserves_declaration_order() {
    let table = GuestImportTable::from_keys(vec![
        ImportKey::new("net", "socket_udp_send_to"),
        ImportKey::new("stdio", "print_str"),
        ImportKey::new("net", "socket_udp_bind"),
    ]);
    assert_eq!(table.len(), 3);
    let resolved = table.resolve(&capability_exports()).unwrap();
    assert_eq!(resolved, vec![4u64, 1, 2]);
}

#[test]
fn resolve_preserves_another_declaration_order() {
    let table = GuestImportTable::from_keys(vec![
        ImportKey::new("net", "socket_udp_bind"),
        ImportKey::new("net", "socket_udp_receive"),
        ImportKey::new("net", "socket_udp_send_to"),
        ImportKey::new("stdio", "print_str"),
    ]);
    let resolved = table.resolve(&capability_exports()).unwrap();
    assert_eq!(resolved, vec![2u64, 3, 4, 1]);
}

#[test]
fn resolve_drops_unreferenced_exports() {
    // The guest references one export; the three others are filtered out
    // and resolution still succeeds.
    let table = GuestImportTable::from_keys(vec![ImportKey::new("stdio", "print_str")]);
    let resolved = table.resolve(&capability_exports()).unwrap();
    assert_eq!(resolved, vec![1u64]);
}

#[test]
fn resolve_fails_on_unsatisfied_import() {
    let table = GuestImportTable::from_keys(vec![
        ImportKey::new("stdio", "print_str"),
        ImportKey::new("net", "socket_udp_connect"),
    ]);
    match table.resolve(&capability_exports()) {
        Err(ResolveError::UnsatisfiedImport { module, name }) => {
            assert_eq!(module, "net");
            assert_eq!(name, "socket_udp_connect");
        }
        Ok(_) => panic!("resolution must fail"),
    }
}

#[test]
fn resolve_names_first_unsatisfied_import() {
    let table = GuestImportTable::from_keys(vec![
        ImportKey::new("gpu", "draw"),
        ImportKey::new("fs", "open"),
    ]);
    match table.resolve(&capability_exports()) {
        Err(ResolveError::UnsatisfiedImport { module, name }) => {
            assert_eq!(module, "gpu");
            assert_eq!(name, "draw");
        }
        Ok(_) => panic!("resolution must fail"),
    }
}

#[test]
fn resolve_discards_non_function_exports() {
    // A non-function export under the right name cannot satisfy the
    // import, even when it stands earlier in priority order.
    let exports = vec![
        CapabilityExport::new("stdio", "print_str", ExportValue::NonFunc),
        CapabilityExport::new("stdio", "print_str", ExportValue::Func(7)),
    ];
    let table = GuestImportTable::from_keys(vec![ImportKey::new("stdio", "print_str")]);
    assert_eq!(table.resolve(&exports).unwrap(), vec![7u64]);

    let only_non_func =
        vec![CapabilityExport::new("stdio", "print_str", ExportValue::NonFunc)];
    match table.resolve(&only_non_func) {
        Err(ResolveError::UnsatisfiedImport { module, name }) => {
            assert_eq!(module, "stdio");
            assert_eq!(name, "print_str");
        }
        Ok(_) => panic!("a non-function export must not satisfy an import"),
    }
}

#[test]
fn resolve_breaks_ties_by_priority_order() {
    let exports = vec![
        CapabilityExport::new("stdio", "print_str", ExportValue::Func(11)),
        CapabilityExport::new("stdio", "print_str", ExportValue::Func(22)),
    ];
    let table = GuestImportTable::from_keys(vec![ImportKey::new("stdio", "print_str")]);
    assert_eq!(table.resolve(&exports).unwrap(), vec![11u64]);
}

#[test]
fn concat_exports_keeps_priority_order() {
    let first = vec![CapabilityExport::new("stdio", "print_str", ExportValue::Func(1))];
    let second = vec![
        CapabilityExport::new("net", "socket_udp_bind", ExportValue::Func(2)),
        CapabilityExport::new("net", "socket_udp_receive", ExportValue::Func(3)),
    ];
    let joined = concat_exports(vec![first, second]);
    assert_eq!(joined.len(), 3);
    assert_eq!(joined[0].name, "print_str");
    assert_eq!(joined[1].name, "socket_udp_bind");
    assert_eq!(joined[2].name, "socket_udp_receive");
}

#[test]
fn resolve_empty_import_table() {
    let table = GuestImportTable::from_keys(vec![]);
    assert_eq!(table.len(), 0);
    assert_eq!(table.resolve(&capability_exports()).unwrap(), Vec::<u64>::new());
}
