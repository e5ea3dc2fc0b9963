use catacombs::codegen::Stmt;
use catacombs::codegen::StmtKind;
use catacombs::codegen::build_fields;
use catacombs::codegen::build_singleton;
use catacombs::codegen::channel_fn;
use catacombs::codegen::create_holder_struct;
use catacombs::codegen::create_injetion_code;
use catacombs::codegen::inject_fn;
use catacombs::codegen::parse_connections;
use catacombs::codegen::type_def;
use catacombs::codegen::usize_to_string;
use catacombs::dsl::GrammarErrorKind;
use catacombs::dsl::parse_channels;
use catacombs::linker::Binding;
use catacombs::ChannelType;

fn strings(items: &[&str]) -> Vec<String> {
    items.iter().map(|s| s.to_string()).collect()
}

#[test]
fn renders_decimal_capacities() {
    assert_eq!(usize_to_string(0), "0");
    assert_eq!(usize_to_string(7), "7");
    assert_eq!(usize_to_string(10), "10");
    assert_eq!(usize_to_string(90210), "90210");
}

#[test]
fn renders_channel_paths() {
    assert_eq!(ChannelType::Mpsc.channel_path(), "tokio::sync::mpsc");
    assert_eq!(ChannelType::Mpmc.channel_path(), "tokio::sync::broadcast");
}

#[test]
fn renders_type_aliases() {
    let specs = parse_channels("Test, mpsc, 10;").unwrap();
    assert_eq!(
        type_def(&specs[0]),
        "type TestTx = tokio::sync::mpsc::Sender<Test>;\ntype TestRx = tokio::sync::mpsc::Receiver<Test>;\n"
    );
    let specs = parse_channels("Balls, mpmc, 4;").unwrap();
    assert_eq!(
        type_def(&specs[0]),
        "type BallsTx = tokio::sync::broadcast::Sender<Balls>;\ntype BallsRx = tokio::sync::broadcast::Receiver<Balls>;\n"
    );
}

#[test]
fn holder_accessors_follow_the_semantics() {
    // Both receiver accessors are Option-typed: an already-taken
    // point-to-point receiver surfaces as None, a broadcast request
    // always as Some — never an abort.
    let mpsc = parse_channels("Test, mpsc, 10;").unwrap();
    let body = channel_fn(&mpsc[0]);
    assert!(body.contains("get_receiver(&mut self) -> Option<TestRx>"));
    assert!(body.contains("self.holder.get_receiver().ok()"));
    assert!(body.contains("self.holder.get_sender()"));
    assert!(!body.contains("unwrap"));

    let mpmc = parse_channels("Balls, mpmc, 10;").unwrap();
    let body = channel_fn(&mpmc[0]);
    assert!(body.contains("get_receiver(&mut self) -> Option<BallsRx>"));
    assert!(body.contains("Some(self.holder.get_receiver())"));
    assert!(body.contains("self.holder.get_sender()"));
    assert!(!body.contains("unwrap"));
}

#[test]
fn holder_struct_is_lazy_and_carries_the_declared_capacity() {
    // The emitted holder wraps the library's lazy holder: its new()
    // records the capacity and builds no channel.
    let specs = parse_channels("Test, mpsc, 10;").unwrap();
    let src = create_holder_struct(&specs[0]);
    assert!(src.contains("pub struct TestInner"));
    assert!(src.contains("pub holder: catacombs::registry::MpscHolder<Test>"));
    assert!(src.contains("catacombs::registry::MpscHolder::new(10)"));
    assert!(!src.contains("::channel("));

    let specs = parse_channels("Balls, mpmc, 4;").unwrap();
    let src = create_holder_struct(&specs[0]);
    assert!(src.contains("pub holder: catacombs::registry::BroadcastHolder<Balls>"));
    assert!(src.contains("catacombs::registry::BroadcastHolder::new(4)"));
}

#[test]
fn singleton_exposes_one_accessor_pair_per_channel() {
    let specs = parse_channels("Test, mpsc, 10;\nBalls, mpmc, 10;").unwrap();
    let src = build_singleton(&specs);
    assert!(src.contains("pub struct CatacombSingleton {\n"));
    assert!(src.contains("    pub test: TestInner,\n"));
    assert!(src.contains("    pub balls: BallsInner,\n"));
    assert!(src.contains("            test: TestInner::new(),\n"));
    assert!(src.contains("            balls: BallsInner::new(),\n"));
    assert!(src.contains("pub fn test_tx(&mut self) -> TestTx"));
    assert!(src.contains("pub fn test_rx(&mut self) -> Option<TestRx>"));
    assert!(src.contains("pub fn balls_tx(&mut self) -> BallsTx"));
    assert!(src.contains("pub fn balls_rx(&mut self) -> Option<BallsRx>"));
    assert!(src.contains("self.test.get_sender()"));
    assert!(src.contains("self.balls.get_receiver()"));
}

#[test]
fn singleton_template_is_exact_for_one_channel() {
    let specs = parse_channels("Q, mpsc, 2;").unwrap();
    let expected = "pub struct CatacombSingleton {\n\
                    \x20   pub q: QInner,\n\
                    }\n\n\
                    impl CatacombSingleton {\n\
                    \x20   pub fn new() -> Self {\n\
                    \x20       Self {\n\
                    \x20           q: QInner::new(),\n\
                    \x20       }\n\
                    \x20   }\n\n\
                    \x20   pub fn q_tx(&mut self) -> QTx {\n\
                    \x20       self.q.get_sender()\n\
                    \x20   }\n\n\
                    \x20   pub fn q_rx(&mut self) -> Option<QRx> {\n\
                    \x20       self.q.get_receiver()\n\
                    \x20   }\n\n\
                    }\n";
    assert_eq!(build_singleton(&specs), expected);
}

#[test]
fn injection_template_is_exact_for_one_endpoint() {
    let expected = "impl C {\n\
                    \x20   pub fn get_channels(catacomb: &mut CatacombSingleton) -> (QTx) {\n\
                    \x20       (\n\
                    \x20           catacomb.q_tx(),\n\
                    \x20       )\n\
                    \x20   }\n\
                    }\n";
    assert_eq!(create_injetion_code("C", &strings(&["QTx"])).unwrap(), expected);
}

#[test]
fn connections_renders_the_whole_registry_source() {
    let src = parse_connections("Test, mpsc, 10;").unwrap();
    assert!(src.contains("type TestTx = tokio::sync::mpsc::Sender<Test>;"));
    assert!(src.contains("pub struct TestInner"));
    assert!(src.contains("pub struct CatacombSingleton"));
}

#[test]
fn scenario_malformed_text_yields_no_registry_source() {
    // `Test mpsc 10` is malformed: the first missing separator is
    // named, and no registry source is emitted at all.
    let e = parse_connections("Test mpsc 10").unwrap_err();
    assert!(matches!(e.kind, GrammarErrorKind::ExpectedComma));
    assert_eq!(e.at, 5);
}

#[test]
fn builds_component_fields_from_endpoints() {
    let fields = build_fields(&strings(&["TestTx", "BallsRx"])).unwrap();
    assert_eq!(fields.len(), 2);
    assert_eq!(fields[0].name, "test");
    assert_eq!(fields[0].ty, "TestTx");
    assert_eq!(fields[1].name, "balls");
    assert_eq!(fields[1].ty, "Option<BallsRx>");
}

#[test]
fn field_building_reports_the_first_bad_endpoint() {
    let e = build_fields(&strings(&["TestTx", "Oops", "AlsoBad"])).unwrap_err();
    assert_eq!(e.ident, "Oops");
}

#[test]
fn scenario_generated_accessor_keeps_declared_order() {
    // A component declaring `[TestTx, BallsRx]` gets a `get_channels`
    // returning the 2-tuple `(TestTx, BallsRx)`, in that order.
    let src = create_injetion_code("ChannelTest", &strings(&["TestTx", "BallsRx"])).unwrap();
    assert!(src.contains("impl ChannelTest {"));
    assert!(src.contains("-> (TestTx, Option<BallsRx>)"));
    let tx_call = src.find("catacomb.test_tx(),").unwrap();
    let rx_call = src.find("catacomb.balls_rx(),").unwrap();
    assert!(tx_call < rx_call);
}

#[test]
fn injection_code_reports_bad_endpoints() {
    let e = create_injetion_code("C", &strings(&["Nope"])).unwrap_err();
    assert_eq!(e.ident, "Nope");
}

fn stmt(kind: StmtKind, text: &str) -> Stmt {
    Stmt { kind, text: text.to_string() }
}

fn binding(endpoints: &[&str]) -> Binding {
    Binding {
        component: "ChannelTest".to_string(),
        initializer: "new".to_string(),
        endpoints: strings(endpoints),
    }
}

#[test]
fn acquisition_is_spliced_before_the_final_expression() {
    let body = vec![
        stmt(StmtKind::Declaration, "let count = 0;"),
        stmt(StmtKind::EffectfulCall, "prepare();"),
        stmt(StmtKind::Expression, "Self { count, test: test, balls: balls }"),
    ];
    let out = inject_fn(&binding(&["TestTx", "BallsRx"]), &body).unwrap();
    assert_eq!(out.len(), 4);
    assert_eq!(out[0].text, "let count = 0;");
    assert_eq!(out[1].text, "prepare();");
    assert!(matches!(out[2].kind, StmtKind::Declaration));
    assert_eq!(out[2].text, "let (test, balls) = Self::get_channels(catacomb);");
    assert_eq!(out[3].text, "Self { count, test: test, balls: balls }");
}

#[test]
fn acquisition_lands_at_the_end_without_a_final_expression() {
    let body = vec![stmt(StmtKind::EffectfulCall, "prepare();")];
    let out = inject_fn(&binding(&["QTx"]), &body).unwrap();
    assert_eq!(out.len(), 2);
    assert_eq!(out[1].text, "let (q) = Self::get_channels(catacomb);");
}

#[test]
fn non_expression_statements_pass_through_unchanged() {
    let body = vec![
        stmt(StmtKind::Item, "fn helper() {}"),
        stmt(StmtKind::Expression, "Self {}"),
        stmt(StmtKind::Expression, "unused"),
    ];
    let out = inject_fn(&binding(&["QTx"]), &body).unwrap();
    assert_eq!(out.len(), 4);
    assert_eq!(out[0].text, "fn helper() {}");
    // Only the first expression statement attracts the splice.
    assert!(matches!(out[1].kind, StmtKind::Declaration));
    assert_eq!(out[2].text, "Self {}");
    assert_eq!(out[3].text, "unused");
}

#[test]
fn injection_reports_bad_endpoints_and_rewrites_nothing() {
    let body = vec![stmt(StmtKind::Expression, "Self {}")];
    let e = inject_fn(&binding(&["Bad"]), &body).unwrap_err();
    assert_eq!(e.ident, "Bad");
}
