use catacombs::linker::ImplBlock;
use catacombs::linker::LinkError;
use catacombs::linker::MethodDecl;
use catacombs::linker::StructDecl;
use catacombs::linker::link_components;

fn component(name: &str, endpoints: &[&str]) -> StructDecl {
    StructDecl {
        name: name.to_string(),
        channel_endpoints: Some(endpoints.iter().map(|s| s.to_string()).collect()),
    }
}

fn plain_struct(name: &str) -> StructDecl {
    StructDecl { name: name.to_string(), channel_endpoints: None }
}

fn block(self_name: &str, methods: &[(&str, bool)]) -> ImplBlock {
    ImplBlock {
        self_name: self_name.to_string(),
        is_trait_impl: false,
        methods: methods
            .iter()
            .map(|(n, inject)| MethodDecl { name: n.to_string(), is_inject: *inject })
            .collect(),
    }
}

#[test]
fn scenario_component_with_one_marked_initializer() {
    // A component declaring `[TestTx, BallsRx]` with one marked
    // initializer resolves to one binding whose endpoints keep the
    // declared order.
    let structs = vec![component("ChannelTest", &["TestTx", "BallsRx"])];
    let impls = vec![block("ChannelTest", &[("helper", false), ("new", true)])];
    let out = link_components(&structs, &impls).unwrap();
    assert_eq!(out.bindings.len(), 1);
    assert_eq!(out.bindings[0].component, "ChannelTest");
    assert_eq!(out.bindings[0].initializer, "new");
    assert_eq!(out.bindings[0].endpoints, vec!["TestTx", "BallsRx"]);
    assert!(out.missing.is_empty());
}

#[test]
fn scenario_component_without_initializer_is_reported() {
    // A component with declared dependencies but no marked initializer
    // is not wired, and the condition is reported, not silently
    // dropped.
    let structs = vec![component("Lonely", &["TestTx"])];
    let impls = vec![block("Lonely", &[("helper", false)])];
    let out = link_components(&structs, &impls).unwrap();
    assert!(out.bindings.is_empty());
    assert_eq!(out.missing, vec!["Lonely"]);
}

#[test]
fn first_marked_initializer_wins_within_a_block() {
    let structs = vec![component("C", &["ATx"])];
    let impls = vec![block("C", &[("first", true), ("second", true)])];
    let out = link_components(&structs, &impls).unwrap();
    assert_eq!(out.bindings[0].initializer, "first");
}

#[test]
fn first_marked_initializer_wins_across_blocks() {
    let structs = vec![component("C", &["ATx"])];
    let impls = vec![
        block("C", &[("unmarked", false)]),
        block("C", &[("early", true)]),
        block("C", &[("late", true)]),
    ];
    let out = link_components(&structs, &impls).unwrap();
    assert_eq!(out.bindings[0].initializer, "early");
}

#[test]
fn trait_impl_fails_the_whole_pass() {
    let structs = vec![component("C", &["ATx"])];
    let impls = vec![
        block("C", &[("new", true)]),
        ImplBlock {
            self_name: "Other".to_string(),
            is_trait_impl: true,
            methods: vec![],
        },
    ];
    let e = link_components(&structs, &impls).unwrap_err();
    match e {
        LinkError::UnsupportedConstruct { component } => assert_eq!(component, "Other"),
        other => panic!("wrong error: {other:?}"),
    }
}

#[test]
fn duplicate_opted_in_component_fails_the_pass() {
    // Two opted-in declarations of one name would each resolve their
    // own endpoint list: ambiguous, so the pass reports the duplicate
    // instead of wiring both.
    let structs = vec![
        component("Dup", &["OneTx"]),
        component("Other", &["TwoRx"]),
        component("Dup", &["ThreeRx"]),
    ];
    let impls = vec![
        block("Dup", &[("new", true)]),
        block("Other", &[("new", true)]),
    ];
    let e = link_components(&structs, &impls).unwrap_err();
    match e {
        LinkError::DuplicateComponent { component } => assert_eq!(component, "Dup"),
        other => panic!("wrong error: {other:?}"),
    }
}

#[test]
fn namesake_without_marker_raises_no_conflict() {
    // A marker-less declaration of the same name wires nothing, so the
    // one opted-in declaration links normally.
    let structs = vec![plain_struct("Dup"), component("Dup", &["OneTx"])];
    let impls = vec![block("Dup", &[("new", true)])];
    let out = link_components(&structs, &impls).unwrap();
    assert_eq!(out.bindings.len(), 1);
    assert_eq!(out.bindings[0].component, "Dup");
    assert_eq!(out.bindings[0].endpoints, vec!["OneTx"]);
}

#[test]
fn structs_without_channel_marker_are_ignored() {
    let structs = vec![plain_struct("NoMarker"), component("Wired", &["QRx"])];
    let impls = vec![
        block("NoMarker", &[("new", true)]),
        block("Wired", &[("init", true)]),
    ];
    let out = link_components(&structs, &impls).unwrap();
    assert_eq!(out.bindings.len(), 1);
    assert_eq!(out.bindings[0].component, "Wired");
    assert!(out.missing.is_empty());
}

#[test]
fn bindings_keep_component_declaration_order() {
    let structs = vec![
        component("A", &["OneTx"]),
        component("B", &["TwoRx"]),
        component("C", &["ThreeTx"]),
    ];
    let impls = vec![
        block("C", &[("c_init", true)]),
        block("A", &[("a_init", true)]),
        block("B", &[("b_init", true)]),
    ];
    let out = link_components(&structs, &impls).unwrap();
    let names: Vec<&str> = out.bindings.iter().map(|b| b.component.as_str()).collect();
    assert_eq!(names, vec!["A", "B", "C"]);
}

#[test]
fn marked_method_on_another_component_does_not_wire_this_one() {
    let structs = vec![component("C", &["ATx"])];
    let impls = vec![block("D", &[("new", true)])];
    let out = link_components(&structs, &impls).unwrap();
    assert!(out.bindings.is_empty());
    assert_eq!(out.missing, vec!["C"]);
}
