use pyo3cls::binding::check_unique_symbols;
use pyo3cls::binding::classify;
use pyo3cls::binding::ImplementationBlock;
use pyo3cls::binding::MemberMethod;
use pyo3cls::binding::ProtocolBinding;
use pyo3cls::error::GenError;
use pyo3cls::registry::arity_of;
use pyo3cls::registry::ArgHint;
use pyo3cls::registry::MethodArity;
use pyo3cls::registry::ProtocolKind;

fn member(name: &str, arg_count: usize) -> MemberMethod {
    MemberMethod { name: name.to_string(), arg_count }
}

fn block(target: &str, protocol: &str, members: Vec<MemberMethod>) -> ImplementationBlock {
    ImplementationBlock {
        target_type: target.to_string(),
        claimed_protocol_name: protocol.to_string(),
        member_methods: members,
    }
}

fn names(v: &[String]) -> Vec<&str> {
    v.iter().map(|s| s.as_str()).collect()
}

fn classify_ok(b: &ImplementationBlock) -> ProtocolBinding {
    match classify(b) {
        Ok(binding) => binding,
        Err(e) => panic!("classification failed: {:?}", e),
    }
}

#[test]
fn mapping_delitem_without_key_is_arity_mismatch() {
    let b = block(
        "Store",
        "PyMappingProtocol",
        vec![member("__len__", 0), member("__delitem__", 0)],
    );
    assert_eq!(
        classify(&b),
        Err(GenError::ArityMismatch { method: "__delitem__".to_string(), expected: 1, found: 0 })
    );
}

#[test]
fn unknown_protocol_fails_before_members_are_inspected() {
    let b = block("Store", "PyFooProtocol", vec![member("__delitem__", 0)]);
    assert_eq!(
        classify(&b),
        Err(GenError::UnknownProtocol { claimed: "PyFooProtocol".to_string() })
    );
}

#[test]
fn iteration_and_mapping_blocks_get_distinct_bindings() {
    let iter = classify_ok(&block("Store", "PyIterProtocol", vec![member("__next__", 0)]));
    let mapping = classify_ok(&block(
        "Store",
        "PyMappingProtocol",
        vec![
            member("__len__", 0),
            member("__getitem__", 1),
            member("__setitem__", 2),
            member("__delitem__", 1),
        ],
    ));
    assert_eq!(iter.unique_symbol, "_IMPL_PYO3_Store_Iter");
    assert_eq!(mapping.unique_symbol, "_IMPL_PYO3_Store_Mapping");
    assert_ne!(iter.unique_symbol, mapping.unique_symbol);
    assert_eq!(names(&iter.all_member_names), vec!["__next__"]);
    assert_eq!(
        names(&mapping.all_member_names),
        vec!["__len__", "__getitem__", "__setitem__", "__delitem__"]
    );
    assert_eq!(check_unique_symbols(&vec![iter, mapping]), Ok(()));
}

#[test]
fn mapping_descriptors_follow_declaration_order() {
    let b = classify_ok(&block(
        "Store",
        "PyMappingProtocol",
        vec![
            member("__setitem__", 2),
            member("helper", 3),
            member("__len__", 0),
            member("__getitem__", 1),
        ],
    ));
    assert_eq!(b.protocol, ProtocolKind::Mapping);
    let arities: Vec<MethodArity> = b.protocol_descriptors.iter().map(|d| d.arity).collect();
    assert_eq!(
        arities,
        vec![
            MethodArity::TwoArg(ArgHint::Key, ArgHint::Value),
            MethodArity::LengthQuery,
            MethodArity::OneArg(ArgHint::Key),
        ]
    );
    let described: Vec<&str> = b.protocol_descriptors.iter().map(|d| d.method_name.as_str()).collect();
    assert_eq!(described, vec!["__setitem__", "__len__", "__getitem__"]);
    assert_eq!(b.protocol_descriptors[0].arg_count, 2);
    assert_eq!(names(&b.unmapped_names), vec!["helper"]);
}

#[test]
fn partition_is_disjoint_and_complete() {
    let members = vec![
        member("__iter__", 0),
        member("reset", 0),
        member("__next__", 0),
        member("peek", 1),
    ];
    let b = classify_ok(&block("Counter", "PyIterProtocol", members.clone()));
    let recognized: Vec<&str> = b.protocol_descriptors.iter().map(|d| d.method_name.as_str()).collect();
    let unmapped = names(&b.unmapped_names);
    assert_eq!(recognized, vec!["__iter__", "__next__"]);
    assert_eq!(unmapped, vec!["reset", "peek"]);
    for r in &recognized {
        assert!(!unmapped.contains(r));
    }
    assert_eq!(recognized.len() + unmapped.len(), members.len());
    for m in &members {
        assert!(recognized.contains(&m.name.as_str()) || unmapped.contains(&m.name.as_str()));
    }
}

#[test]
fn block_without_recognized_methods_round_trips_names() {
    let b = classify_ok(&block(
        "Widget",
        "PyObjectProtocol",
        vec![member("__repr__", 0), member("__str__", 0), member("__hash__", 0)],
    ));
    assert!(b.protocol_descriptors.is_empty());
    assert_eq!(names(&b.all_member_names), vec!["__repr__", "__str__", "__hash__"]);
    assert_eq!(names(&b.unmapped_names), vec!["__repr__", "__str__", "__hash__"]);
    assert_eq!(b.unique_symbol, "_IMPL_PYO3_Widget_Object");
}

#[test]
fn classifying_twice_gives_identical_bindings() {
    let b = block(
        "Store",
        "PyMappingProtocol",
        vec![member("__getitem__", 1), member("extra", 0)],
    );
    let first = classify(&b);
    let second = classify(&b);
    assert!(first.is_ok());
    assert_eq!(first, second);
}

#[test]
fn arity_lookup_is_repeatable() {
    let name = "__setitem__".to_string();
    let first = arity_of(ProtocolKind::Mapping, &name);
    let second = arity_of(ProtocolKind::Mapping, &name);
    assert_eq!(first, Some(MethodArity::TwoArg(ArgHint::Key, ArgHint::Value)));
    assert_eq!(first, second);
    assert_eq!(arity_of(ProtocolKind::Iter, &name), None);
}

#[test]
fn empty_block_yields_empty_tables() {
    let b = classify_ok(&block("Empty", "PyGCProtocol", vec![]));
    assert!(b.all_member_names.is_empty());
    assert!(b.unmapped_names.is_empty());
    assert!(b.protocol_descriptors.is_empty());
    assert_eq!(b.unique_symbol, "_IMPL_PYO3_Empty_GC");
}

#[test]
fn length_query_with_an_argument_is_rejected() {
    let b = block("Store", "PyMappingProtocol", vec![member("__len__", 1)]);
    assert_eq!(
        classify(&b),
        Err(GenError::ArityMismatch { method: "__len__".to_string(), expected: 0, found: 1 })
    );
}

#[test]
fn first_mismatch_is_reported() {
    let b = block(
        "Store",
        "PyMappingProtocol",
        vec![member("__getitem__", 1), member("__setitem__", 1), member("__delitem__", 2)],
    );
    assert_eq!(
        classify(&b),
        Err(GenError::ArityMismatch { method: "__setitem__".to_string(), expected: 2, found: 1 })
    );
}

#[test]
fn general_methods_accept_any_parameter_list() {
    let b = classify_ok(&block(
        "Num",
        "PyNumberProtocol",
        vec![member("__radd__", 1), member("__round__", 0), member("__rpow__", 2), member("abs", 0)],
    ));
    let described: Vec<&str> = b.protocol_descriptors.iter().map(|d| d.method_name.as_str()).collect();
    assert_eq!(described, vec!["__radd__", "__round__", "__rpow__"]);
    assert!(b.protocol_descriptors.iter().all(|d| d.arity == MethodArity::General));
    assert_eq!(b.protocol_descriptors[2].arg_count, 2);
    assert_eq!(names(&b.unmapped_names), vec!["abs"]);
}

#[test]
fn same_type_and_protocol_twice_is_a_collision() {
    let a = classify_ok(&block("Store", "PyContextProtocol", vec![member("__enter__", 0)]));
    let b = classify_ok(&block("Store", "PyContextProtocol", vec![member("__exit__", 3)]));
    let other = classify_ok(&block("Other", "PyContextProtocol", vec![]));
    assert_eq!(
        check_unique_symbols(&vec![other, a, b]),
        Err(GenError::SymbolCollision { symbol: "_IMPL_PYO3_Store_Context".to_string() })
    );
}

#[test]
fn no_bindings_have_no_collision() {
    assert_eq!(check_unique_symbols(&vec![]), Ok(()));
}
