//! The component linker.
//!
//! Input: every scanned struct declaration (a component opts in by
//! carrying an ordered endpoint list) and every scanned behavior block,
//! with its methods in declaration order and the initializer marks on
//! them. A behavior block that implements an external capability
//! contract (a trait) is unsupported and fails the whole pass. For each
//! opted-in component the linker selects the first marked initializer
//! found across its behavior blocks in declaration order; later marks
//! are ignored. A component that declares endpoints but has no marked
//! initializer is not wired — it is reported in the output rather than
//! silently skipped.

use vstd::prelude::*;

verus! {

/// One scanned struct declaration. `channel_endpoints` is the ordered
/// endpoint list of its channel marker, or `None` when the struct does
/// not opt in.
#[derive(Clone, Debug)]
pub struct StructDecl {
    pub name: String,
    pub channel_endpoints: Option<Vec<String>>,
}

/// One method of a behavior block, and whether it carries the
/// initializer mark.
#[derive(Clone, Debug)]
pub struct MethodDecl {
    pub name: String,
    pub is_inject: bool,
}

/// One scanned behavior block: the type it belongs to, whether it
/// implements an external trait, and its methods in declaration order.
#[derive(Clone, Debug)]
pub struct ImplBlock {
    pub self_name: String,
    pub is_trait_impl: bool,
    pub methods: Vec<MethodDecl>,
}

/// A resolved link: this component's marked initializer acquires these
/// endpoints, in declared order.
#[derive(Clone, Debug)]
pub struct Binding {
    pub component: String,
    pub initializer: String,
    pub endpoints: Vec<String>,
}

/// Everything the linking pass resolved: the bindings in component
/// declaration order, and the components that declared endpoints but
/// had no marked initializer.
#[derive(Debug)]
pub struct LinkOutput {
    pub bindings: Vec<Binding>,
    pub missing: Vec<String>,
}

/// Why the whole linking pass failed, naming the offending component.
#[derive(Clone, PartialEq, Eq, Debug)]
pub enum LinkError {
    /// A behavior block claims an external capability contract.
    UnsupportedConstruct { component: String },
    /// Two opted-in declarations share one component name, so its
    /// wiring would be ambiguous.
    DuplicateComponent { component: String },
}

pub enum LinkErrorView {
    UnsupportedConstruct { component: Seq<char> },
    DuplicateComponent { component: Seq<char> },
}

impl View for LinkError {
    type V = LinkErrorView;

    open spec fn view(&self) -> LinkErrorView {
        match self {
            LinkError::UnsupportedConstruct { component } => LinkErrorView::UnsupportedConstruct {
                component: component@,
            },
            LinkError::DuplicateComponent { component } => LinkErrorView::DuplicateComponent {
                component: component@,
            },
        }
    }
}

pub struct StructDeclView {
    pub name: Seq<char>,
    pub channel_endpoints: Option<Seq<Seq<char>>>,
}

pub struct MethodDeclView {
    pub name: Seq<char>,
    pub is_inject: bool,
}

pub struct ImplBlockView {
    pub self_name: Seq<char>,
    pub is_trait_impl: bool,
    pub methods: Seq<MethodDeclView>,
}

pub struct BindingView {
    pub component: Seq<char>,
    pub initializer: Seq<char>,
    pub endpoints: Seq<Seq<char>>,
}

impl View for StructDecl {
    type V = StructDeclView;

    open spec fn view(&self) -> StructDeclView {
        StructDeclView {
            name: self.name@,
            channel_endpoints: match self.channel_endpoints {
                Some(eps) => Some(eps@.map_values(|s: String| s@)),
                None => None,
            },
        }
    }
}

impl View for MethodDecl {
    type V = MethodDeclView;

    open spec fn view(&self) -> MethodDeclView {
        MethodDeclView { name: self.name@, is_inject: self.is_inject }
    }
}

impl View for ImplBlock {
    type V = ImplBlockView;

    open spec fn view(&self) -> ImplBlockView {
        ImplBlockView {
            self_name: self.self_name@,
            is_trait_impl: self.is_trait_impl,
            methods: self.methods@.map_values(|m: MethodDecl| m@),
        }
    }
}

impl View for Binding {
    type V = BindingView;

    open spec fn view(&self) -> BindingView {
        BindingView {
            component: self.component@,
            initializer: self.initializer@,
            endpoints: self.endpoints@.map_values(|s: String| s@),
        }
    }
}

/// The component name of the first behavior block that claims a trait,
/// if any.
pub open spec fn spec_first_trait_impl(impls: Seq<ImplBlockView>) -> Option<Seq<char>>
    decreases impls.len(),
{
    if impls.len() == 0 {
        None
    } else if impls[0].is_trait_impl {
        Some(impls[0].self_name)
    } else {
        spec_first_trait_impl(impls.drop_first())
    }
}

/// The name of the first marked method of a method list, if any.
pub open spec fn spec_first_inject(ms: Seq<MethodDeclView>) -> Option<Seq<char>>
    decreases ms.len(),
{
    if ms.len() == 0 {
        None
    } else if ms[0].is_inject {
        Some(ms[0].name)
    } else {
        spec_first_inject(ms.drop_first())
    }
}

/// The first marked initializer of a component, searching its behavior
/// blocks in declaration order and each block's methods in order.
pub open spec fn spec_find_initializer(impls: Seq<ImplBlockView>, comp: Seq<char>) -> Option<
    Seq<char>,
>
    decreases impls.len(),
{
    if impls.len() == 0 {
        None
    } else if impls[0].self_name == comp && spec_first_inject(impls[0].methods) is Some {
        spec_first_inject(impls[0].methods)
    } else {
        spec_find_initializer(impls.drop_first(), comp)
    }
}

/// The wiring of the opted-in structs, in declaration order: the
/// resolved bindings, and the names of components left without an
/// initializer.
pub open spec fn spec_wire(structs: Seq<StructDeclView>, impls: Seq<ImplBlockView>) -> (Seq<
    BindingView,
>, Seq<Seq<char>>)
    decreases structs.len(),
{
    if structs.len() == 0 {
        (Seq::empty(), Seq::empty())
    } else {
        let (bs, ms) = spec_wire(structs.drop_last(), impls);
        let st = structs.last();
        match st.channel_endpoints {
            None => (bs, ms),
            Some(eps) => match spec_find_initializer(impls, st.name) {
                Some(init) => (
                    bs.push(BindingView { component: st.name, initializer: init, endpoints: eps }),
                    ms,
                ),
                None => (bs, ms.push(st.name)),
            },
        }
    }
}

/// An opted-in declaration of this component name stands somewhere in
/// `structs`.
pub open spec fn spec_opted_in(structs: Seq<StructDeclView>, name: Seq<char>) -> bool {
    exists|i: int|
        0 <= i < structs.len() && structs[i].channel_endpoints is Some && structs[i].name == name
}

/// The name of the first opted-in declaration that repeats an earlier
/// opted-in declaration's name, if any. A namesake without a channel
/// marker wires nothing and raises no conflict.
pub open spec fn spec_first_duplicate(structs: Seq<StructDeclView>) -> Option<Seq<char>>
    decreases structs.len(),
{
    if structs.len() == 0 {
        None
    } else {
        match spec_first_duplicate(structs.drop_last()) {
            Some(name) => Some(name),
            None => {
                let st = structs.last();
                if st.channel_endpoints is Some && spec_opted_in(structs.drop_last(), st.name) {
                    Some(st.name)
                } else {
                    None
                }
            },
        }
    }
}

/// A duplicate found in a prefix decides the whole scan.
proof fn lemma_first_duplicate_extends(structs: Seq<StructDeclView>, k: int)
    requires
        0 <= k <= structs.len(),
        spec_first_duplicate(structs.subrange(0, k)) is Some,
    ensures
        spec_first_duplicate(structs) == spec_first_duplicate(structs.subrange(0, k)),
    decreases structs.len() - k,
{
    if k < structs.len() {
        assert(structs.subrange(0, k + 1).drop_last() =~= structs.subrange(0, k));
        lemma_first_duplicate_extends(structs, k + 1);
    } else {
        assert(structs.subrange(0, k) =~= structs);
    }
}

/// The meaning of the whole linking pass.
pub open spec fn spec_link(structs: Seq<StructDeclView>, impls: Seq<ImplBlockView>) -> Result<
    (Seq<BindingView>, Seq<Seq<char>>),
    LinkErrorView,
> {
    match spec_first_trait_impl(impls) {
        Some(name) => Err(LinkErrorView::UnsupportedConstruct { component: name }),
        None => match spec_first_duplicate(structs) {
            Some(name) => Err(LinkErrorView::DuplicateComponent { component: name }),
            None => Ok(spec_wire(structs, impls)),
        },
    }
}

fn first_inject(ms: &Vec<MethodDecl>) -> (r: Option<String>)
    ensures
        match r {
            Some(name) => spec_first_inject(ms@.map_values(|m: MethodDecl| m@)) == Some(name@),
            None => spec_first_inject(ms@.map_values(|m: MethodDecl| m@)) is None,
        },
{
    let ghost all = ms@.map_values(|m: MethodDecl| m@);
    let n = ms.len();
    proof {
        assert(all.subrange(0, n as int) =~= all);
    }
    let mut i: usize = 0;
    while i < n
        invariant
            n == ms.len(),
            i <= n,
            all == ms@.map_values(|m: MethodDecl| m@),
            spec_first_inject(all) == spec_first_inject(all.subrange(i as int, n as int)),
        decreases n - i,
    {
        proof {
            let rest = all.subrange(i as int, n as int);
            assert(rest[0] == all[i as int]);
            assert(rest.drop_first() =~= all.subrange(i + 1, n as int));
        }
        if ms[i].is_inject {
            return Some(ms[i].name.clone());
        }
        i = i + 1;
    }
    proof {
        assert(all.subrange(n as int, n as int) =~= Seq::<MethodDeclView>::empty());
    }
    None
}

fn find_initializer(impls: &Vec<ImplBlock>, comp: &String) -> (r: Option<String>)
    ensures
        match r {
            Some(name) => spec_find_initializer(impls@.map_values(|b: ImplBlock| b@), comp@)
                == Some(name@),
            None => spec_find_initializer(impls@.map_values(|b: ImplBlock| b@), comp@) is None,
        },
{
    let ghost all = impls@.map_values(|b: ImplBlock| b@);
    let n = impls.len();
    proof {
        assert(all.subrange(0, n as int) =~= all);
    }
    let mut i: usize = 0;
    while i < n
        invariant
            n == impls.len(),
            i <= n,
            all == impls@.map_values(|b: ImplBlock| b@),
            spec_find_initializer(all, comp@) == spec_find_initializer(
                all.subrange(i as int, n as int),
                comp@,
            ),
        decreases n - i,
    {
        proof {
            let rest = all.subrange(i as int, n as int);
            assert(rest[0] == all[i as int]);
            assert(rest.drop_first() =~= all.subrange(i + 1, n as int));
        }
        if impls[i].self_name.eq(comp) {
            if let Some(name) = first_inject(&impls[i].methods) {
                return Some(name);
            }
        }
        i = i + 1;
    }
    proof {
        assert(all.subrange(n as int, n as int) =~= Seq::<ImplBlockView>::empty());
    }
    None
}

/// The whole linking pass: fails on the first behavior block that claims
/// an external capability contract, then on the first repeated opted-in
/// component name (ambiguous wiring); otherwise resolves, for every
/// component that declares endpoints, its first marked initializer in
/// declaration order, and reports the components that have none.
pub fn link_components(structs: &Vec<StructDecl>, impls: &Vec<ImplBlock>) -> (r: Result<
    LinkOutput,
    LinkError,
>)
    ensures
        match r {
            Ok(out) => spec_link(
                structs@.map_values(|s: StructDecl| s@),
                impls@.map_values(|b: ImplBlock| b@),
            ) == Ok::<_, LinkErrorView>(
                (
                    out.bindings@.map_values(|b: Binding| b@),
                    out.missing@.map_values(|s: String| s@),
                ),
            ),
            Err(e) => spec_link(
                structs@.map_values(|s: StructDecl| s@),
                impls@.map_values(|b: ImplBlock| b@),
            ) == Err::<(Seq<BindingView>, Seq<Seq<char>>), _>(e@),
        },
{
    let ghost impls_v = impls@.map_values(|b: ImplBlock| b@);
    let ghost structs_v = structs@.map_values(|s: StructDecl| s@);

    // Step 1: an external capability contract anywhere fails the pass.
    let n_impls = impls.len();
    proof {
        assert(impls_v.subrange(0, n_impls as int) =~= impls_v);
    }
    let mut i: usize = 0;
    while i < n_impls
        invariant
            n_impls == impls.len(),
            i <= n_impls,
            impls_v == impls@.map_values(|b: ImplBlock| b@),
            spec_first_trait_impl(impls_v) == spec_first_trait_impl(
                impls_v.subrange(i as int, n_impls as int),
            ),
        decreases n_impls - i,
    {
        proof {
            let rest = impls_v.subrange(i as int, n_impls as int);
            assert(rest[0] == impls_v[i as int]);
            assert(rest.drop_first() =~= impls_v.subrange(i + 1, n_impls as int));
        }
        if impls[i].is_trait_impl {
            return Err(LinkError::UnsupportedConstruct { component: impls[i].self_name.clone() });
        }
        i = i + 1;
    }
    proof {
        assert(impls_v.subrange(n_impls as int, n_impls as int) =~= Seq::<ImplBlockView>::empty());
    }

    // A repeated opted-in component name would be wired twice, each
    // occurrence with its own endpoint list: ambiguous, so the pass
    // fails on the first repetition.
    let n_structs = structs.len();
    let mut d: usize = 0;
    while d < n_structs
        invariant
            n_structs == structs.len(),
            d <= n_structs,
            structs_v == structs@.map_values(|s: StructDecl| s@),
            impls_v == impls@.map_values(|b: ImplBlock| b@),
            spec_first_trait_impl(impls_v) is None,
            spec_first_duplicate(structs_v.subrange(0, d as int)) is None,
        decreases n_structs - d,
    {
        if structs[d].channel_endpoints.is_some() {
            proof {
                assert(structs_v[d as int] == structs@[d as int]@);
            }
            let mut e: usize = 0;
            while e < d
                invariant
                    e <= d < n_structs == structs.len(),
                    structs_v == structs@.map_values(|s: StructDecl| s@),
                    impls_v == impls@.map_values(|b: ImplBlock| b@),
                    spec_first_trait_impl(impls_v) is None,
                    structs_v[d as int].channel_endpoints is Some,
                    spec_first_duplicate(structs_v.subrange(0, d as int)) is None,
                    forall|k: int|
                        0 <= k < e ==> !(structs_v[k].channel_endpoints is Some
                            && structs_v[k].name == structs_v[d as int].name),
                decreases d - e,
            {
                if structs[e].channel_endpoints.is_some() && structs[e].name.eq(&structs[d].name) {
                    proof {
                        assert(structs_v[d as int] == structs@[d as int]@);
                        assert(structs_v[e as int] == structs@[e as int]@);
                        assert(structs_v[e as int].channel_endpoints is Some);
                        assert(structs_v[e as int].name == structs_v[d as int].name);
                        assert(structs_v.subrange(0, d + 1).drop_last() =~= structs_v.subrange(
                            0,
                            d as int,
                        ));
                        assert(structs_v.subrange(0, d + 1).last() == structs_v[d as int]);
                        assert(structs_v.subrange(0, d as int)[e as int] == structs_v[e as int]);
                        assert(spec_opted_in(
                            structs_v.subrange(0, d as int),
                            structs_v[d as int].name,
                        ));
                        assert(spec_first_duplicate(structs_v.subrange(0, d + 1)) == Some(
                            structs_v[d as int].name,
                        ));
                        lemma_first_duplicate_extends(structs_v, d + 1);
                    }
                    return Err(
                        LinkError::DuplicateComponent { component: structs[d].name.clone() },
                    );
                }
                e = e + 1;
            }
        }
        proof {
            assert(structs_v.subrange(0, d + 1).drop_last() =~= structs_v.subrange(0, d as int));
            assert(structs_v.subrange(0, d + 1).last() == structs_v[d as int]);
            if structs_v[d as int].channel_endpoints is Some {
                assert(!spec_opted_in(
                    structs_v.subrange(0, d as int),
                    structs_v[d as int].name,
                )) by {
                    if spec_opted_in(structs_v.subrange(0, d as int), structs_v[d as int].name) {
                        let k = choose|k: int|
                            0 <= k < d && structs_v.subrange(0, d as int)[k].channel_endpoints
                                is Some && structs_v.subrange(0, d as int)[k].name
                                == structs_v[d as int].name;
                        assert(structs_v.subrange(0, d as int)[k] == structs_v[k]);
                    }
                }
            }
            assert(spec_first_duplicate(structs_v.subrange(0, d + 1)) is None);
        }
        d = d + 1;
    }
    proof {
        assert(structs_v.subrange(0, n_structs as int) =~= structs_v);
    }

    // Steps 2-4: resolve each opted-in component in declaration order.
    let mut bindings: Vec<Binding> = Vec::new();
    let mut missing: Vec<String> = Vec::new();
    let n = structs.len();
    let mut j: usize = 0;
    while j < n
        invariant
            n == structs.len(),
            j <= n,
            impls_v == impls@.map_values(|b: ImplBlock| b@),
            structs_v == structs@.map_values(|s: StructDecl| s@),
            spec_wire(structs_v.subrange(0, j as int), impls_v) == (
                bindings@.map_values(|b: Binding| b@),
                missing@.map_values(|s: String| s@),
            ),
        decreases n - j,
    {
        let ghost pre_b = bindings@.map_values(|b: Binding| b@);
        let ghost pre_m = missing@.map_values(|s: String| s@);
        let st = &structs[j];
        match &st.channel_endpoints {
            None => {},
            Some(eps) => {
                match find_initializer(impls, &st.name) {
                    Some(init) => {
                        let mut endpoints: Vec<String> = Vec::new();
                        let ne = eps.len();
                        let mut k: usize = 0;
                        while k < ne
                            invariant
                                ne == eps.len(),
                                k <= ne,
                                endpoints@ =~= eps@.subrange(0, k as int),
                            decreases ne - k,
                        {
                            endpoints.push(eps[k].clone());
                            proof {
                                assert(endpoints@ =~= eps@.subrange(0, k + 1));
                            }
                            k = k + 1;
                        }
                        proof {
                            assert(eps@.subrange(0, ne as int) =~= eps@);
                            assert(endpoints@ == eps@);
                        }
                        bindings.push(
                            Binding {
                                component: st.name.clone(),
                                initializer: init,
                                endpoints,
                            },
                        );
                        proof {
                            assert(bindings@.map_values(|b: Binding| b@) =~= pre_b.push(
                                bindings@.last()@,
                            ));
                        }
                    },
                    None => {
                        missing.push(st.name.clone());
                        proof {
                            assert(missing@.map_values(|s: String| s@) =~= pre_m.push(
                                st.name@,
                            ));
                        }
                    },
                }
            },
        }
        proof {
            assert(structs_v.subrange(0, j + 1).drop_last() =~= structs_v.subrange(0, j as int));
            assert(structs_v.subrange(0, j + 1).last() == structs_v[j as int]);
        }
        j = j + 1;
    }
    proof {
        assert(structs_v.subrange(0, n as int) =~= structs_v);
        assert(spec_first_trait_impl(impls_v) is None);
        assert(spec_first_duplicate(structs_v) is None);
    }
    Ok(LinkOutput { bindings, missing })
}

} // verus!
