//! Rendering of the generated registry and wiring source.
//!
//! From the parsed channel list this module renders, as plain source
//! text: the endpoint type aliases, one holder type per channel, and the
//! aggregate registry type with a `<key>_tx()` / `<key>_rx()` accessor
//! pair per channel. From a resolved binding it renders the
//! endpoint-acquisition code of a component and splices it into the
//! marked initializer. Every renderer's output is pinned, character for
//! character, to a specification-level template of the input names.

use vstd::prelude::*;

use crate::ChannelType;
use crate::dsl::ChannelSpec;
use crate::dsl::ChannelSpecView;
use crate::linker::Binding;
use crate::naming::Direction;
use crate::naming::NamingError;
use crate::naming::basic_name;
use crate::naming::direction;
use crate::naming::build_name;
use crate::naming::derive_rx_name;
use crate::naming::derive_tx_name;
use crate::naming::lower;
use crate::naming::push_char;
use crate::naming::spec_accessor_name;
use crate::naming::spec_base_key;
use crate::naming::spec_direction;
use crate::naming::spec_rx_name;
use crate::naming::spec_tx_name;
use crate::naming::to_lower;

verus! {

/// The channel module a semantics maps to in generated code.
pub open spec fn spec_channel_path(ct: ChannelType) -> Seq<char> {
    match ct {
        ChannelType::Mpsc => "tokio::sync::mpsc"@,
        ChannelType::Mpmc => "tokio::sync::broadcast"@,
    }
}

/// The decimal digit character of `d`.
pub open spec fn spec_digit_char(d: int) -> char
    recommends
        0 <= d <= 9,
{
    ((48 + d) as u8) as char
}

/// The decimal rendering of a non-negative number, without sign or
/// leading zeros (`0` renders as `0`).
pub open spec fn spec_dec(n: int) -> Seq<char>
    recommends
        n >= 0,
    decreases n,
{
    if n < 10 {
        seq![spec_digit_char(n)]
    } else {
        spec_dec(n / 10).push(spec_digit_char(n % 10))
    }
}

impl ChannelType {
    /// The channel module path this semantics maps to in generated code.
    pub fn channel_path(&self) -> (r: String)
        ensures
            r@ == spec_channel_path(*self),
    {
        match self {
            ChannelType::Mpsc => "tokio::sync::mpsc".to_owned(),
            ChannelType::Mpmc => "tokio::sync::broadcast".to_owned(),
        }
    }
}

/// The library holder type a semantics maps to in generated code: the
/// emitted registry owns the verified lazy holders rather than raw
/// endpoint pairs.
pub open spec fn spec_holder_path(ct: ChannelType) -> Seq<char> {
    match ct {
        ChannelType::Mpsc => "catacombs::registry::MpscHolder"@,
        ChannelType::Mpmc => "catacombs::registry::BroadcastHolder"@,
    }
}

fn holder_path(ct: ChannelType) -> (r: String)
    ensures
        r@ == spec_holder_path(ct),
{
    match ct {
        ChannelType::Mpsc => "catacombs::registry::MpscHolder".to_owned(),
        ChannelType::Mpmc => "catacombs::registry::BroadcastHolder".to_owned(),
    }
}

fn push_dec(s: &mut String, n: usize)
    ensures
        final(s)@ == old(s)@ + spec_dec(n as int),
    decreases n,
{
    if n >= 10 {
        push_dec(s, n / 10);
    }
    let d = ((n % 10 + 48) as u8) as char;
    push_char(s, d);
    proof {
        assert(final(s)@ =~= old(s)@ + spec_dec(n as int));
    }
}

/// The decimal rendering of a number, for capacity literals in
/// generated code.
pub fn usize_to_string(n: usize) -> (r: String)
    ensures
        r@ == spec_dec(n as int),
{
    let mut r = String::new();
    push_dec(&mut r, n);
    proof {
        assert(r@ =~= spec_dec(n as int));
    }
    r
}

/// The endpoint type aliases of one channel.
pub open spec fn spec_type_def(name: Seq<char>, ct: ChannelType) -> Seq<char> {
    "type "@ + spec_tx_name(name) + " = "@ + spec_channel_path(ct) + "::Sender<"@ + name + ">;\n"@
        + "type "@ + spec_rx_name(name) + " = "@ + spec_channel_path(ct) + "::Receiver<"@ + name
        + ">;\n"@
}

/// Renders the endpoint type aliases of one channel.
pub fn type_def(spec: &ChannelSpec) -> (r: String)
    ensures
        r@ == spec_type_def(spec.name@, spec.channel_type),
{
    let mut r = String::new();
    r.append("type ");
    let tx = derive_tx_name(spec.name.as_str());
    r.append(tx.as_str());
    r.append(" = ");
    let path = spec.channel_type.channel_path();
    r.append(path.as_str());
    r.append("::Sender<");
    r.append(spec.name.as_str());
    r.append(">;\n");
    r.append("type ");
    let rx = derive_rx_name(spec.name.as_str());
    r.append(rx.as_str());
    r.append(" = ");
    r.append(path.as_str());
    r.append("::Receiver<");
    r.append(spec.name.as_str());
    r.append(">;\n");
    proof {
        assert(r@ =~= spec_type_def(spec.name@, spec.channel_type));
    }
    r
}

/// The accessor methods of one holder type. The receiver side is
/// `Option`-typed, a distinguishable value rather than an abort: for
/// point-to-point semantics it comes out at most once and is `None`
/// ever after, for broadcast semantics every call yields a fresh
/// subscription.
pub open spec fn spec_channel_fn(name: Seq<char>, ct: ChannelType) -> Seq<char> {
    match ct {
        ChannelType::Mpsc => "    pub fn get_receiver(&mut self) -> Option<"@ + spec_rx_name(name)
            + "> {\n        self.holder.get_receiver().ok()\n    }\n\n    pub fn get_sender(&mut self) -> "@
            + spec_tx_name(name) + " {\n        self.holder.get_sender()\n    }\n"@,
        ChannelType::Mpmc => "    pub fn get_receiver(&mut self) -> Option<"@ + spec_rx_name(name)
            + "> {\n        Some(self.holder.get_receiver())\n    }\n\n    pub fn get_sender(&mut self) -> "@
            + spec_tx_name(name) + " {\n        self.holder.get_sender()\n    }\n"@,
    }
}

/// Renders the accessor methods of one holder type.
pub fn channel_fn(spec: &ChannelSpec) -> (r: String)
    ensures
        r@ == spec_channel_fn(spec.name@, spec.channel_type),
{
    let mut r = String::new();
    let tx = derive_tx_name(spec.name.as_str());
    let rx = derive_rx_name(spec.name.as_str());
    r.append("    pub fn get_receiver(&mut self) -> Option<");
    r.append(rx.as_str());
    match spec.channel_type {
        ChannelType::Mpsc => {
            r.append("> {\n        self.holder.get_receiver().ok()\n    }\n\n    pub fn get_sender(&mut self) -> ");
        },
        ChannelType::Mpmc => {
            r.append("> {\n        Some(self.holder.get_receiver())\n    }\n\n    pub fn get_sender(&mut self) -> ");
        },
    }
    r.append(tx.as_str());
    r.append(" {\n        self.holder.get_sender()\n    }\n");
    proof {
        assert(r@ =~= spec_channel_fn(spec.name@, spec.channel_type));
    }
    r
}

/// One channel's holder type: a thin typed wrapper around the
/// library's verified lazy holder, set up with the declared capacity.
/// Its `new()` builds no channel — the channel comes into being on the
/// first accessor call, at most once, independently of every other
/// holder.
pub open spec fn spec_holder_struct(name: Seq<char>, ct: ChannelType, capacity: int) -> Seq<char> {
    let holder = name + "Inner"@;
    "pub struct "@ + holder + " {\n    pub holder: "@ + spec_holder_path(ct) + "<"@ + name
        + ">,\n}\n\nimpl "@ + holder + " {\n    pub fn new() -> Self {\n        Self { holder: "@
        + spec_holder_path(ct) + "::new("@ + spec_dec(capacity) + ") }\n    }\n\n"@
        + spec_channel_fn(name, ct) + "}\n"@
}

/// Renders one channel's holder type.
pub fn create_holder_struct(spec: &ChannelSpec) -> (r: String)
    ensures
        r@ == spec_holder_struct(spec.name@, spec.channel_type, spec.capacity as int),
{
    let mut r = String::new();
    let path = holder_path(spec.channel_type);
    let cap = usize_to_string(spec.capacity);
    let body = channel_fn(spec);
    r.append("pub struct ");
    r.append(spec.name.as_str());
    r.append("Inner");
    r.append(" {\n    pub holder: ");
    r.append(path.as_str());
    r.append("<");
    r.append(spec.name.as_str());
    r.append(">,\n}\n\nimpl ");
    r.append(spec.name.as_str());
    r.append("Inner");
    r.append(" {\n    pub fn new() -> Self {\n        Self { holder: ");
    r.append(path.as_str());
    r.append("::new(");
    r.append(cap.as_str());
    r.append(") }\n    }\n\n");
    r.append(body.as_str());
    r.append("}\n");
    proof {
        assert(r@ =~= spec_holder_struct(spec.name@, spec.channel_type, spec.capacity as int));
    }
    r
}

/// The registry's field list: one holder per channel, keyed by the
/// lowercased channel name.
pub open spec fn spec_singleton_fields(rows: Seq<ChannelSpecView>) -> Seq<char>
    decreases rows.len(),
{
    if rows.len() == 0 {
        Seq::empty()
    } else {
        spec_singleton_fields(rows.drop_last()) + "    pub "@ + lower(rows.last().name) + ": "@
            + rows.last().name + "Inner,\n"@
    }
}

/// The registry constructor's field initializers, in declaration order.
pub open spec fn spec_singleton_inits(rows: Seq<ChannelSpecView>) -> Seq<char>
    decreases rows.len(),
{
    if rows.len() == 0 {
        Seq::empty()
    } else {
        spec_singleton_inits(rows.drop_last()) + "            "@ + lower(rows.last().name) + ": "@
            + rows.last().name + "Inner::new(),\n"@
    }
}

/// The registry's accessor pair for one channel. The receiver accessor
/// passes the holder's `Option` through, so an already-taken
/// point-to-point receiver surfaces as `None`, never as an abort.
pub open spec fn spec_accessor_pair(name: Seq<char>) -> Seq<char> {
    "    pub fn "@ + lower(name) + "_tx(&mut self) -> "@ + spec_tx_name(name)
        + " {\n        self."@ + lower(name) + ".get_sender()\n    }\n\n    pub fn "@ + lower(name)
        + "_rx(&mut self) -> Option<"@ + spec_rx_name(name) + "> {\n        self."@ + lower(name)
        + ".get_receiver()\n    }\n\n"@
}

/// The registry's accessor pairs, one per channel, in declaration order.
pub open spec fn spec_singleton_accessors(rows: Seq<ChannelSpecView>) -> Seq<char>
    decreases rows.len(),
{
    if rows.len() == 0 {
        Seq::empty()
    } else {
        spec_singleton_accessors(rows.drop_last()) + spec_accessor_pair(rows.last().name)
    }
}

/// The aggregate registry type of a channel list: its holder fields,
/// its constructor, and a `<key>_tx()` / `<key>_rx()` accessor pair per
/// channel.
pub open spec fn spec_singleton(rows: Seq<ChannelSpecView>) -> Seq<char> {
    "pub struct CatacombSingleton {\n"@ + spec_singleton_fields(rows)
        + "}\n\nimpl CatacombSingleton {\n    pub fn new() -> Self {\n        Self {\n"@
        + spec_singleton_inits(rows) + "        }\n    }\n\n"@ + spec_singleton_accessors(rows)
        + "}\n"@
}

/// Renders the aggregate registry type. Its process-wide
/// once-initialization is the embedder's explicit, guarded setup call;
/// the type itself owns one lazy holder per channel, in declaration
/// order, and no channel is constructed before its first accessor
/// call.
pub fn build_singleton(rows: &Vec<ChannelSpec>) -> (r: String)
    ensures
        r@ == spec_singleton(rows@.map_values(|cs: ChannelSpec| cs@)),
{
    let ghost rows_v = rows@.map_values(|cs: ChannelSpec| cs@);
    let mut fields = String::new();
    let mut inits = String::new();
    let mut accessors = String::new();
    let n = rows.len();
    let mut i: usize = 0;
    while i < n
        invariant
            n == rows.len(),
            i <= n,
            rows_v == rows@.map_values(|cs: ChannelSpec| cs@),
            fields@ == spec_singleton_fields(rows_v.subrange(0, i as int)),
            inits@ == spec_singleton_inits(rows_v.subrange(0, i as int)),
            accessors@ == spec_singleton_accessors(rows_v.subrange(0, i as int)),
        decreases n - i,
    {
        let key = to_lower(rows[i].name.as_str());
        let tx = derive_tx_name(rows[i].name.as_str());
        let rx = derive_rx_name(rows[i].name.as_str());

        fields.append("    pub ");
        fields.append(key.as_str());
        fields.append(": ");
        fields.append(rows[i].name.as_str());
        fields.append("Inner,\n");

        inits.append("            ");
        inits.append(key.as_str());
        inits.append(": ");
        inits.append(rows[i].name.as_str());
        inits.append("Inner::new(),\n");

        accessors.append("    pub fn ");
        accessors.append(key.as_str());
        accessors.append("_tx(&mut self) -> ");
        accessors.append(tx.as_str());
        accessors.append(" {\n        self.");
        accessors.append(key.as_str());
        accessors.append(".get_sender()\n    }\n\n    pub fn ");
        accessors.append(key.as_str());
        accessors.append("_rx(&mut self) -> Option<");
        accessors.append(rx.as_str());
        accessors.append("> {\n        self.");
        accessors.append(key.as_str());
        accessors.append(".get_receiver()\n    }\n\n");

        proof {
            assert(rows_v.subrange(0, i + 1).drop_last() =~= rows_v.subrange(0, i as int));
            assert(rows_v.subrange(0, i + 1).last() == rows_v[i as int]);
            assert(fields@ =~= spec_singleton_fields(rows_v.subrange(0, i + 1)));
            assert(inits@ =~= spec_singleton_inits(rows_v.subrange(0, i + 1)));
            assert(accessors@ =~= spec_singleton_accessors(rows_v.subrange(0, i + 1)));
        }
        i = i + 1;
    }
    proof {
        assert(rows_v.subrange(0, n as int) =~= rows_v);
    }
    let mut r = String::new();
    r.append("pub struct CatacombSingleton {\n");
    r.append(fields.as_str());
    r.append("}\n\nimpl CatacombSingleton {\n    pub fn new() -> Self {\n        Self {\n");
    r.append(inits.as_str());
    r.append("        }\n    }\n\n");
    r.append(accessors.as_str());
    r.append("}\n");
    proof {
        assert(r@ =~= spec_singleton(rows_v));
    }
    r
}

/// The type aliases and holder types of every channel, in declaration
/// order.
pub open spec fn spec_defs(rows: Seq<ChannelSpecView>) -> Seq<char>
    decreases rows.len(),
{
    if rows.len() == 0 {
        Seq::empty()
    } else {
        spec_defs(rows.drop_last()) + spec_type_def(rows.last().name, rows.last().channel_type)
            + spec_holder_struct(
            rows.last().name,
            rows.last().channel_type,
            rows.last().capacity,
        ) + "\n"@
    }
}

/// The whole generated registry source of a channel list.
pub open spec fn spec_registry_source(rows: Seq<ChannelSpecView>) -> Seq<char> {
    spec_defs(rows) + spec_singleton(rows)
}

/// Renders the whole registry source for a specification text: the
/// parsed channels' type aliases, holder types and the aggregate
/// registry type; or the specification's first grammar deviation, with
/// no source emitted at all.
pub fn parse_connections(text: &str) -> (r: Result<String, crate::dsl::GrammarError>)
    ensures
        match r {
            Ok(src) => crate::dsl::spec_parse_channels(text@) matches Ok(rows) && src@
                == spec_registry_source(rows),
            Err(e) => crate::dsl::spec_parse_channels(text@) == Err::<
                Seq<ChannelSpecView>,
                crate::dsl::GrammarError,
            >(e),
        },
{
    let rows = match crate::dsl::parse_channels(text) {
        Ok(rows) => rows,
        Err(e) => {
            return Err(e);
        },
    };
    let ghost rows_v = rows@.map_values(|cs: ChannelSpec| cs@);
    let mut defs = String::new();
    let n = rows.len();
    let mut i: usize = 0;
    while i < n
        invariant
            n == rows.len(),
            rows_v == rows@.map_values(|cs: ChannelSpec| cs@),
            i <= n,
            defs@ == spec_defs(rows_v.subrange(0, i as int)),
        decreases n - i,
    {
        let td = type_def(&rows[i]);
        let hs = create_holder_struct(&rows[i]);
        defs.append(td.as_str());
        defs.append(hs.as_str());
        defs.append("\n");
        proof {
            assert(rows_v.subrange(0, i + 1).drop_last() =~= rows_v.subrange(0, i as int));
            assert(rows_v.subrange(0, i + 1).last() == rows_v[i as int]);
            assert(defs@ =~= spec_defs(rows_v.subrange(0, i + 1)));
        }
        i = i + 1;
    }
    proof {
        assert(rows_v.subrange(0, n as int) =~= rows_v);
    }
    let singleton = build_singleton(&rows);
    let mut r = defs;
    r.append(singleton.as_str());
    proof {
        assert(r@ =~= spec_registry_source(rows_v));
    }
    Ok(r)
}

/// A field spliced into an opted-in component struct: named by the
/// channel key, typed by the endpoint type name.
#[derive(Clone, Debug)]
pub struct Field {
    pub name: String,
    pub ty: String,
}

#[verifier::ext_equal]
pub struct FieldView {
    pub name: Seq<char>,
    pub ty: Seq<char>,
}

impl View for Field {
    type V = FieldView;

    open spec fn view(&self) -> FieldView {
        FieldView { name: self.name@, ty: self.ty@ }
    }
}

/// The first endpoint identifier of a list whose suffix is not
/// recognized, if any.
pub open spec fn spec_first_invalid(eps: Seq<Seq<char>>) -> Option<Seq<char>>
    decreases eps.len(),
{
    if eps.len() == 0 {
        None
    } else if spec_direction(eps[0]) is None {
        Some(eps[0])
    } else {
        spec_first_invalid(eps.drop_first())
    }
}

/// The type a declared endpoint occupies in generated consumer code:
/// a sender handle as such, a receiver behind `Option` — the registry
/// yields a point-to-point receiver at most once.
pub open spec fn spec_endpoint_ty(e: Seq<char>) -> Seq<char>
    recommends
        spec_direction(e) is Some,
{
    if spec_direction(e) == Some(Direction::Sender) {
        e
    } else {
        "Option<"@ + e + ">"@
    }
}

fn endpoint_ty(ident: &str) -> (r: Result<String, NamingError>)
    ensures
        match r {
            Ok(t) => spec_direction(ident@) is Some && t@ == spec_endpoint_ty(ident@),
            Err(e) => spec_direction(ident@) is None && e.ident@ == ident@,
        },
{
    let d = direction(ident)?;
    match d {
        Direction::Sender => Ok(ident.to_owned()),
        Direction::Receiver => {
            let mut t = "Option<".to_owned();
            t.append(ident);
            t.append(">");
            proof {
                assert(t@ =~= spec_endpoint_ty(ident@));
            }
            Ok(t)
        },
    }
}

/// The fields an endpoint list splices into its component, in order.
pub open spec fn spec_fields(eps: Seq<Seq<char>>) -> Seq<FieldView>
    recommends
        spec_first_invalid(eps) is None,
    decreases eps.len(),
{
    if eps.len() == 0 {
        Seq::empty()
    } else {
        spec_fields(eps.drop_last()).push(
            FieldView { name: spec_base_key(eps.last()), ty: spec_endpoint_ty(eps.last()) },
        )
    }
}

/// The struct fields an endpoint list adds to its component: one field
/// per endpoint, in declared order, named by the channel key and typed
/// by the endpoint type name (a receiver behind `Option`); or the
/// first endpoint whose suffix is not recognized.
pub fn build_fields(endpoints: &Vec<String>) -> (r: Result<Vec<Field>, NamingError>)
    ensures
        match r {
            Ok(fs) => spec_first_invalid(endpoints@.map_values(|s: String| s@)) is None
                && fs@.map_values(|f: Field| f@) == spec_fields(
                endpoints@.map_values(|s: String| s@),
            ),
            Err(e) => spec_first_invalid(endpoints@.map_values(|s: String| s@)) == Some(e.ident@),
        },
{
    let ghost eps_v = endpoints@.map_values(|s: String| s@);
    let n = endpoints.len();
    proof {
        assert(eps_v.subrange(0, n as int) =~= eps_v);
    }
    let mut fields: Vec<Field> = Vec::new();
    let mut i: usize = 0;
    while i < n
        invariant
            n == endpoints.len(),
            i <= n,
            eps_v == endpoints@.map_values(|s: String| s@),
            spec_first_invalid(eps_v) == spec_first_invalid(eps_v.subrange(i as int, n as int)),
            fields@.map_values(|f: Field| f@) =~= spec_fields(eps_v.subrange(0, i as int)),
        decreases n - i,
    {
        proof {
            let rest = eps_v.subrange(i as int, n as int);
            assert(rest[0] == eps_v[i as int]);
            assert(rest.drop_first() =~= eps_v.subrange(i + 1, n as int));
        }
        let key = match basic_name(endpoints[i].as_str()) {
            Ok(key) => key,
            Err(e) => {
                return Err(e);
            },
        };
        let ty = endpoint_ty(endpoints[i].as_str()).unwrap();
        fields.push(Field { name: key, ty });
        proof {
            assert(eps_v.subrange(0, i + 1).drop_last() =~= eps_v.subrange(0, i as int));
            assert(eps_v.subrange(0, i + 1).last() == eps_v[i as int]);
            assert(fields@.last()@ == FieldView {
                name: spec_base_key(eps_v[i as int]),
                ty: spec_endpoint_ty(eps_v[i as int]),
            });
            assert(fields@.map_values(|f: Field| f@) =~= spec_fields(
                eps_v.subrange(0, i + 1),
            ));
        }
        i = i + 1;
    }
    proof {
        assert(eps_v.subrange(n as int, n as int) =~= Seq::<Seq<char>>::empty());
    }
    Ok(fields)
}

/// The items joined by `", "`, in order.
pub open spec fn spec_join(items: Seq<Seq<char>>) -> Seq<char>
    decreases items.len(),
{
    if items.len() == 0 {
        Seq::empty()
    } else if items.len() == 1 {
        items[0]
    } else {
        spec_join(items.drop_last()) + ", "@ + items.last()
    }
}

/// One registry accessor call line per endpoint, in declared order.
pub open spec fn spec_call_lines(eps: Seq<Seq<char>>) -> Seq<char>
    recommends
        spec_first_invalid(eps) is None,
    decreases eps.len(),
{
    if eps.len() == 0 {
        Seq::empty()
    } else {
        spec_call_lines(eps.drop_last()) + "            catacomb."@ + spec_accessor_name(
            eps.last(),
        ) + "(),\n"@
    }
}

/// The generated accessor of one component: a `get_channels` that
/// acquires, from the registry, each declared endpoint's handle by the
/// corresponding accessor, in declared order, as one tuple; each
/// receiver slot is `Option`-typed, matching the registry's
/// at-most-once point-to-point hand-out.
pub open spec fn spec_injection_code(struct_name: Seq<char>, eps: Seq<Seq<char>>) -> Seq<char>
    recommends
        spec_first_invalid(eps) is None,
{
    "impl "@ + struct_name + " {\n    pub fn get_channels(catacomb: &mut CatacombSingleton) -> ("@
        + spec_join(eps.map_values(|e: Seq<char>| spec_endpoint_ty(e))) + ") {\n        (\n"@
        + spec_call_lines(eps) + "        )\n    }\n}\n"@
}

/// Renders the `get_channels` accessor of one component, or reports
/// the first endpoint whose suffix is not recognized.
pub fn create_injetion_code(struct_name: &str, endpoints: &Vec<String>) -> (r: Result<
    String,
    NamingError,
>)
    ensures
        match r {
            Ok(src) => spec_first_invalid(endpoints@.map_values(|s: String| s@)) is None && src@
                == spec_injection_code(struct_name@, endpoints@.map_values(|s: String| s@)),
            Err(e) => spec_first_invalid(endpoints@.map_values(|s: String| s@)) == Some(e.ident@),
        },
{
    let ghost eps_v = endpoints@.map_values(|s: String| s@);
    let n = endpoints.len();
    proof {
        assert(eps_v.subrange(0, n as int) =~= eps_v);
    }
    let mut types = String::new();
    let mut calls = String::new();
    let mut i: usize = 0;
    while i < n
        invariant
            n == endpoints.len(),
            i <= n,
            eps_v == endpoints@.map_values(|s: String| s@),
            spec_first_invalid(eps_v) == spec_first_invalid(eps_v.subrange(i as int, n as int)),
            types@ == spec_join(
                eps_v.subrange(0, i as int).map_values(|e: Seq<char>| spec_endpoint_ty(e)),
            ),
            calls@ == spec_call_lines(eps_v.subrange(0, i as int)),
        decreases n - i,
    {
        proof {
            let rest = eps_v.subrange(i as int, n as int);
            assert(rest[0] == eps_v[i as int]);
            assert(rest.drop_first() =~= eps_v.subrange(i + 1, n as int));
        }
        let accessor = match build_name(endpoints[i].as_str()) {
            Ok(acc) => acc,
            Err(e) => {
                return Err(e);
            },
        };
        let ty = endpoint_ty(endpoints[i].as_str()).unwrap();
        if i > 0 {
            types.append(", ");
        }
        types.append(ty.as_str());
        calls.append("            catacomb.");
        calls.append(accessor.as_str());
        calls.append("(),\n");
        proof {
            assert(eps_v.subrange(0, i + 1).drop_last() =~= eps_v.subrange(0, i as int));
            assert(eps_v.subrange(0, i + 1).last() == eps_v[i as int]);
            let pre = eps_v.subrange(0, i as int).map_values(|e: Seq<char>| spec_endpoint_ty(e));
            let cur = eps_v.subrange(0, i + 1).map_values(|e: Seq<char>| spec_endpoint_ty(e));
            assert(cur.drop_last() =~= pre);
            assert(cur.last() == spec_endpoint_ty(eps_v[i as int]));
            assert(types@ =~= spec_join(cur));
            assert(calls@ =~= spec_call_lines(eps_v.subrange(0, i + 1)));
        }
        i = i + 1;
    }
    proof {
        assert(eps_v.subrange(n as int, n as int) =~= Seq::<Seq<char>>::empty());
        assert(eps_v.subrange(0, n as int).map_values(|e: Seq<char>| spec_endpoint_ty(e))
            =~= eps_v.map_values(|e: Seq<char>| spec_endpoint_ty(e)));
    }
    let mut r = String::new();
    r.append("impl ");
    r.append(struct_name);
    r.append(" {\n    pub fn get_channels(catacomb: &mut CatacombSingleton) -> (");
    r.append(types.as_str());
    r.append(") {\n        (\n");
    r.append(calls.as_str());
    r.append("        )\n    }\n}\n");
    proof {
        assert(r@ =~= spec_injection_code(struct_name@, eps_v));
    }
    Ok(r)
}

fn is_expression_kind(k: StmtKind) -> (r: bool)
    ensures
        r == (k == StmtKind::Expression),
{
    match k {
        StmtKind::Expression => true,
        _ => false,
    }
}

/// How the rewriter classifies one statement of an initializer body.
#[derive(Clone, Copy, PartialEq, Eq, Structural, Debug)]
pub enum StmtKind {
    /// A binding (`let ...;`): passes through unchanged.
    Declaration,
    /// A nested item: passes through unchanged.
    Item,
    /// A call or other expression ended by `;`: passes through
    /// unchanged.
    EffectfulCall,
    /// An expression-producing (final) statement: the acquisition is
    /// spliced in front of the first of these.
    Expression,
}

/// One statement of an initializer body, as the fragment scanner hands
/// it over.
#[derive(Clone, Debug)]
pub struct Stmt {
    pub kind: StmtKind,
    pub text: String,
}

#[verifier::ext_equal]
pub struct StmtView {
    pub kind: StmtKind,
    pub text: Seq<char>,
}

impl View for Stmt {
    type V = StmtView;

    open spec fn view(&self) -> StmtView {
        StmtView { kind: self.kind, text: self.text@ }
    }
}

/// The endpoint-acquisition statement of a binding: a tuple of the
/// channel keys bound to one `get_channels` call, in declared order.
pub open spec fn spec_acquisition(eps: Seq<Seq<char>>) -> Seq<char>
    recommends
        spec_first_invalid(eps) is None,
{
    "let ("@ + spec_join(eps.map_values(|e: Seq<char>| spec_base_key(e)))
        + ") = Self::get_channels(catacomb);"@
}

/// The position of the first expression-producing statement, or the
/// body length when there is none.
pub open spec fn spec_first_expr(stmts: Seq<StmtView>) -> int
    decreases stmts.len(),
{
    if stmts.len() == 0 {
        0
    } else if stmts[0].kind == StmtKind::Expression {
        0
    } else {
        1 + spec_first_expr(stmts.drop_first())
    }
}

/// The rewritten initializer body: every statement passes through
/// unchanged, and the acquisition declaration stands immediately
/// before the first expression-producing statement (at the end when
/// there is none).
pub open spec fn spec_inject(stmts: Seq<StmtView>, acq: Seq<char>) -> Seq<StmtView> {
    let idx = spec_first_expr(stmts);
    stmts.subrange(0, idx) + seq![StmtView { kind: StmtKind::Declaration, text: acq }]
        + stmts.subrange(idx, stmts.len() as int)
}

/// Splices the endpoint acquisition of a resolved binding into the
/// marked initializer's body: all statements pass through unchanged,
/// in order, and the acquisition declaration is inserted immediately
/// before the first expression-producing statement; or reports the
/// first endpoint whose suffix is not recognized, rewriting nothing.
pub fn inject_fn(binding: &Binding, stmts: &Vec<Stmt>) -> (r: Result<Vec<Stmt>, NamingError>)
    ensures
        match r {
            Ok(out) => spec_first_invalid(binding.endpoints@.map_values(|s: String| s@)) is None
                && out@.map_values(|st: Stmt| st@) == spec_inject(
                stmts@.map_values(|st: Stmt| st@),
                spec_acquisition(binding.endpoints@.map_values(|s: String| s@)),
            ),
            Err(e) => spec_first_invalid(binding.endpoints@.map_values(|s: String| s@)) == Some(
                e.ident@,
            ),
        },
{
    let ghost eps_v = binding.endpoints@.map_values(|s: String| s@);
    let ghost all = stmts@.map_values(|st: Stmt| st@);

    // The acquisition declaration, from the binding's endpoint keys.
    let n_eps = binding.endpoints.len();
    proof {
        assert(eps_v.subrange(0, n_eps as int) =~= eps_v);
    }
    let mut keys = String::new();
    let mut i: usize = 0;
    while i < n_eps
        invariant
            n_eps == binding.endpoints.len(),
            i <= n_eps,
            eps_v == binding.endpoints@.map_values(|s: String| s@),
            spec_first_invalid(eps_v) == spec_first_invalid(
                eps_v.subrange(i as int, n_eps as int),
            ),
            keys@ == spec_join(
                eps_v.subrange(0, i as int).map_values(|e: Seq<char>| spec_base_key(e)),
            ),
        decreases n_eps - i,
    {
        proof {
            let rest = eps_v.subrange(i as int, n_eps as int);
            assert(rest[0] == eps_v[i as int]);
            assert(rest.drop_first() =~= eps_v.subrange(i + 1, n_eps as int));
        }
        let key = match basic_name(binding.endpoints[i].as_str()) {
            Ok(key) => key,
            Err(e) => {
                return Err(e);
            },
        };
        if i > 0 {
            keys.append(", ");
        }
        keys.append(key.as_str());
        proof {
            let pre = eps_v.subrange(0, i as int).map_values(|e: Seq<char>| spec_base_key(e));
            let cur = eps_v.subrange(0, i + 1).map_values(|e: Seq<char>| spec_base_key(e));
            assert(cur.drop_last() =~= pre);
            assert(cur.last() == spec_base_key(eps_v[i as int]));
            assert(keys@ =~= spec_join(cur));
        }
        i = i + 1;
    }
    proof {
        assert(eps_v.subrange(n_eps as int, n_eps as int) =~= Seq::<Seq<char>>::empty());
        assert(eps_v.subrange(0, n_eps as int).map_values(|e: Seq<char>| spec_base_key(e))
            =~= eps_v.map_values(|e: Seq<char>| spec_base_key(e)));
    }
    let mut acq = String::new();
    acq.append("let (");
    acq.append(keys.as_str());
    acq.append(") = Self::get_channels(catacomb);");
    proof {
        assert(acq@ =~= spec_acquisition(eps_v));
    }

    // The position the acquisition is spliced at.
    let n = stmts.len();
    proof {
        assert(all.subrange(0, n as int) =~= all);
    }
    let mut idx: usize = 0;
    while idx < n && !is_expression_kind(stmts[idx].kind)
        invariant
            n == stmts.len(),
            idx <= n,
            all == stmts@.map_values(|st: Stmt| st@),
            spec_first_expr(all) == idx + spec_first_expr(all.subrange(idx as int, n as int)),
        decreases n - idx,
    {
        proof {
            let rest = all.subrange(idx as int, n as int);
            assert(rest[0] == all[idx as int]);
            assert(rest.drop_first() =~= all.subrange(idx + 1, n as int));
        }
        idx = idx + 1;
    }
    proof {
        if idx < n {
            let rest = all.subrange(idx as int, n as int);
            assert(rest[0] == all[idx as int]);
        } else {
            assert(all.subrange(n as int, n as int) =~= Seq::<StmtView>::empty());
        }
        assert(spec_first_expr(all) == idx);
    }

    // The rewritten body: prefix, acquisition, suffix.
    let mut out: Vec<Stmt> = Vec::new();
    let mut k: usize = 0;
    while k < idx
        invariant
            idx <= n,
            n == stmts.len(),
            k <= idx,
            all == stmts@.map_values(|st: Stmt| st@),
            out@.map_values(|st: Stmt| st@) =~= all.subrange(0, k as int),
        decreases idx - k,
    {
        let ghost pre = out@.map_values(|st: Stmt| st@);
        out.push(Stmt { kind: stmts[k].kind, text: stmts[k].text.clone() });
        proof {
            assert(out@.last()@ == all[k as int]);
            assert(out@.map_values(|st: Stmt| st@) =~= pre.push(all[k as int]));
            assert(pre.push(all[k as int]) =~= all.subrange(0, k + 1));
        }
        k = k + 1;
    }
    out.push(Stmt { kind: StmtKind::Declaration, text: acq });
    let ghost mid = all.subrange(0, idx as int) + seq![
        StmtView { kind: StmtKind::Declaration, text: spec_acquisition(eps_v) },
    ];
    proof {
        assert(out@.map_values(|st: Stmt| st@) =~= mid);
    }
    let mut k2: usize = idx;
    while k2 < n
        invariant
            idx <= k2 <= n,
            n == stmts.len(),
            all == stmts@.map_values(|st: Stmt| st@),
            out@.map_values(|st: Stmt| st@) =~= mid + all.subrange(idx as int, k2 as int),
        decreases n - k2,
    {
        let ghost pre = out@.map_values(|st: Stmt| st@);
        out.push(Stmt { kind: stmts[k2].kind, text: stmts[k2].text.clone() });
        proof {
            assert(out@.last()@ == all[k2 as int]);
            assert(out@.map_values(|st: Stmt| st@) =~= pre.push(all[k2 as int]));
            assert(pre.push(all[k2 as int]) =~= mid + all.subrange(idx as int, k2 + 1));
        }
        k2 = k2 + 1;
    }
    proof {
        assert(out@.map_values(|st: Stmt| st@) =~= spec_inject(all, spec_acquisition(eps_v)));
    }
    Ok(out)
}

} // verus!
