//! Implementation blocks, dispatch descriptors and protocol bindings, with
//! the classifier, the descriptor generator and the table emitter.
use vstd::prelude::*;

use crate::error::ErrorView;
use crate::error::GenError;
use crate::registry::arity_fits;
use crate::registry::arity_of;
use crate::registry::check_arity;
use crate::registry::protocol_of_name;
use crate::registry::required_args;
use crate::registry::resolve_protocol;
use crate::registry::short_name;
use crate::registry::spec_arity_of;
use crate::registry::spec_short_name;
use crate::registry::MethodArity;
use crate::registry::ProtocolKind;

verus! {

/// One method definition of an implementation block.
#[derive(Debug, Clone, PartialEq, Eq)]
pub struct MemberMethod {
    pub name: String,
    /// Declared parameters besides the receiver.
    pub arg_count: usize,
}

pub struct MemberView {
    pub name: Seq<char>,
    pub arg_count: nat,
}

impl View for MemberMethod {
    type V = MemberView;

    open spec fn view(&self) -> MemberView {
        MemberView { name: self.name@, arg_count: self.arg_count as nat }
    }
}

/// A protocol implementation block: the target type, the protocol it claims
/// and its methods in declaration order.
#[derive(Debug, Clone, PartialEq, Eq)]
pub struct ImplementationBlock {
    pub target_type: String,
    pub claimed_protocol_name: String,
    pub member_methods: Vec<MemberMethod>,
}

pub struct BlockView {
    pub target_type: Seq<char>,
    pub claimed_protocol_name: Seq<char>,
    pub member_methods: Seq<MemberView>,
}

impl View for ImplementationBlock {
    type V = BlockView;

    open spec fn view(&self) -> BlockView {
        BlockView {
            target_type: self.target_type@,
            claimed_protocol_name: self.claimed_protocol_name@,
            member_methods: self.member_methods@.map_values(|m: MemberMethod| m@),
        }
    }
}

/// Binds one recognized method to the host calling shape of its protocol slot.
#[derive(Debug, Clone, PartialEq, Eq)]
pub struct DispatchDescriptor {
    pub method_name: String,
    pub arity: MethodArity,
    /// Arguments besides the receiver that the adapter passes on.
    pub arg_count: usize,
}

pub struct DescriptorView {
    pub method_name: Seq<char>,
    pub arity: MethodArity,
    pub arg_count: nat,
}

impl View for DispatchDescriptor {
    type V = DescriptorView;

    open spec fn view(&self) -> DescriptorView {
        DescriptorView {
            method_name: self.method_name@,
            arity: self.arity,
            arg_count: self.arg_count as nat,
        }
    }
}

/// The artifact emitted for one (target type, protocol) pair.
#[derive(Debug, Clone, PartialEq, Eq)]
pub struct ProtocolBinding {
    pub unique_symbol: String,
    pub protocol: ProtocolKind,
    /// Every member method name, in declaration order.
    pub all_member_names: Vec<String>,
    /// Names of the members the protocol does not recognize, in declaration order.
    pub unmapped_names: Vec<String>,
    /// One descriptor per recognized member, in declaration order.
    pub protocol_descriptors: Vec<DispatchDescriptor>,
}

pub struct BindingView {
    pub unique_symbol: Seq<char>,
    pub protocol: ProtocolKind,
    pub all_member_names: Seq<Seq<char>>,
    pub unmapped_names: Seq<Seq<char>>,
    pub protocol_descriptors: Seq<DescriptorView>,
}

pub open spec fn string_views(v: Seq<String>) -> Seq<Seq<char>> {
    v.map_values(|s: String| s@)
}

impl View for ProtocolBinding {
    type V = BindingView;

    open spec fn view(&self) -> BindingView {
        BindingView {
            unique_symbol: self.unique_symbol@,
            protocol: self.protocol,
            all_member_names: string_views(self.all_member_names@),
            unmapped_names: string_views(self.unmapped_names@),
            protocol_descriptors: self.protocol_descriptors@.map_values(|d: DispatchDescriptor| d@),
        }
    }
}

/// The symbol of the binding of protocol `p` for the type named `t`.
pub open spec fn spec_symbol(t: Seq<char>, p: ProtocolKind) -> Seq<char> {
    "_IMPL_PYO3_"@ + t + "_"@ + spec_short_name(p)
}

pub open spec fn member_names(ms: Seq<MemberView>) -> Seq<Seq<char>> {
    ms.map_values(|m: MemberView| m.name)
}

pub open spec fn descriptor_names(ds: Seq<DescriptorView>) -> Seq<Seq<char>> {
    ds.map_values(|d: DescriptorView| d.method_name)
}

/// The descriptor generated for member `m` whose catalog entry is `a`.
pub open spec fn spec_descriptor(m: MemberView, a: MethodArity) -> DescriptorView {
    DescriptorView { method_name: m.name, arity: a, arg_count: m.arg_count }
}

/// The descriptors of the members that `p` recognizes, in declaration order.
pub open spec fn descriptors_of(p: ProtocolKind, ms: Seq<MemberView>) -> Seq<DescriptorView>
    decreases ms.len(),
{
    if ms.len() == 0 {
        Seq::empty()
    } else {
        let prev = descriptors_of(p, ms.drop_last());
        match spec_arity_of(p, ms.last().name) {
            Some(a) => prev.push(spec_descriptor(ms.last(), a)),
            None => prev,
        }
    }
}

/// The names of the members that `p` does not recognize, in declaration order.
pub open spec fn unmapped_of(p: ProtocolKind, ms: Seq<MemberView>) -> Seq<Seq<char>>
    decreases ms.len(),
{
    if ms.len() == 0 {
        Seq::empty()
    } else {
        let prev = unmapped_of(p, ms.drop_last());
        match spec_arity_of(p, ms.last().name) {
            Some(_) => prev,
            None => prev.push(ms.last().name),
        }
    }
}

/// Whether `m` is recognized by `p` with a declared arity its entry rejects.
pub open spec fn mismatches(p: ProtocolKind, m: MemberView) -> bool {
    match spec_arity_of(p, m.name) {
        Some(a) => !arity_fits(a, m.arg_count),
        None => false,
    }
}

/// The index of the first member that `mismatches`, if any.
pub open spec fn first_mismatch(p: ProtocolKind, ms: Seq<MemberView>) -> Option<int>
    decreases ms.len(),
{
    if ms.len() == 0 {
        None
    } else {
        match first_mismatch(p, ms.drop_last()) {
            Some(i) => Some(i),
            None => if mismatches(p, ms.last()) {
                Some(ms.len() - 1)
            } else {
                None
            },
        }
    }
}

/// The binding emitted for members `ms` of type `t` under protocol `p`.
pub open spec fn spec_binding(t: Seq<char>, p: ProtocolKind, ms: Seq<MemberView>) -> BindingView {
    BindingView {
        unique_symbol: spec_symbol(t, p),
        protocol: p,
        all_member_names: member_names(ms),
        unmapped_names: unmapped_of(p, ms),
        protocol_descriptors: descriptors_of(p, ms),
    }
}

/// The outcome of classifying block `b`.
pub open spec fn spec_classify(b: BlockView) -> Result<BindingView, ErrorView> {
    match protocol_of_name(b.claimed_protocol_name) {
        None => Err(ErrorView::UnknownProtocol { claimed: b.claimed_protocol_name }),
        Some(p) => match first_mismatch(p, b.member_methods) {
            Some(i) => Err(
                ErrorView::ArityMismatch {
                    method: b.member_methods[i].name,
                    expected: required_args(spec_arity_of(p, b.member_methods[i].name)->Some_0)->Some_0,
                    found: b.member_methods[i].arg_count,
                },
            ),
            None => Ok(spec_binding(b.target_type, p, b.member_methods)),
        },
    }
}

pub open spec fn classify_view(r: Result<ProtocolBinding, GenError>) -> Result<BindingView, ErrorView> {
    match r {
        Ok(b) => Ok(b@),
        Err(e) => Err(e@),
    }
}

/// Derives the binding symbol of protocol `p` for the type named `target_type`.
pub fn binding_symbol(target_type: &String, p: ProtocolKind) -> (r: String)
    ensures
        r@ == spec_symbol(target_type@, p),
{
    let mut s = String::from_str("_IMPL_PYO3_");
    s.append(target_type.as_str());
    s.append("_");
    s.append(short_name(p));
    s
}

/// Generates the descriptor of member `method` whose catalog entry is `a`.
pub fn generate(method: &MemberMethod, a: MethodArity) -> (r: DispatchDescriptor)
    ensures
        r@ == spec_descriptor(method@, a),
{
    DispatchDescriptor { method_name: method.name.clone(), arity: a, arg_count: method.arg_count }
}

/// The number of arguments `a` demands, or zero when it accepts any.
pub fn expected_args(a: MethodArity) -> (r: usize)
    ensures
        required_args(a) is Some ==> r == required_args(a)->Some_0,
        required_args(a) is None ==> r == 0,
{
    match a {
        MethodArity::OneArg(_) => 1,
        MethodArity::TwoArg(_, _) => 2,
        _ => 0,
    }
}

pub open spec fn member_views(ms: Seq<MemberMethod>) -> Seq<MemberView> {
    ms.map_values(|m: MemberMethod| m@)
}

pub open spec fn descriptor_views(ds: Seq<DispatchDescriptor>) -> Seq<DescriptorView> {
    ds.map_values(|d: DispatchDescriptor| d@)
}

/// Assembles the binding of `members` of type `target_type` under protocol `p`
/// from the unmapped names and descriptors the classifier produced.
pub fn emit(
    target_type: &String,
    p: ProtocolKind,
    members: &Vec<MemberMethod>,
    unmapped_names: Vec<String>,
    descriptors: Vec<DispatchDescriptor>,
) -> (r: ProtocolBinding)
    ensures
        r@ == (BindingView {
            unique_symbol: spec_symbol(target_type@, p),
            protocol: p,
            all_member_names: member_names(member_views(members@)),
            unmapped_names: string_views(unmapped_names@),
            protocol_descriptors: descriptor_views(descriptors@),
        }),
{
    let unique_symbol = binding_symbol(target_type, p);
    let mut all_member_names: Vec<String> = Vec::new();
    let n = members.len();
    let mut i: usize = 0;
    while i < n
        invariant
            n == members.len(),
            i <= n,
            string_views(all_member_names@) =~= member_names(member_views(members@.take(i as int))),
        decreases n - i,
    {
        let name = members[i].name.clone();
        let ghost before = all_member_names@;
        all_member_names.push(name);
        assert(all_member_names@ =~= before.push(name));
        assert(string_views(before.push(name)) =~= string_views(before).push(name@));
        assert(members@.take(i + 1) =~= members@.take(i as int).push(members@[i as int]));
        assert(member_views(members@.take(i as int).push(members@[i as int])) =~= member_views(
            members@.take(i as int),
        ).push(members@[i as int]@));
        i = i + 1;
    }
    assert(members@.take(n as int) =~= members@);
    ProtocolBinding {
        unique_symbol,
        protocol: p,
        all_member_names,
        unmapped_names,
        protocol_descriptors: descriptors,
    }
}

/// Classifies `block` against the protocol it claims and emits its binding.
///
/// Fails with `UnknownProtocol` when the claimed name is not in the registry,
/// before any member is looked at, and with `ArityMismatch` naming the first
/// recognized member whose declared arity its catalog entry rejects.
pub fn classify(block: &ImplementationBlock) -> (r: Result<ProtocolBinding, GenError>)
    ensures
        classify_view(r) == spec_classify(block@),
{
    let p = match resolve_protocol(&block.claimed_protocol_name) {
        Ok(p) => p,
        Err(e) => {
            return Err(e);
        },
    };
    let ghost ms = block@.member_methods;
    let members = &block.member_methods;
    let mut unmapped: Vec<String> = Vec::new();
    let mut descriptors: Vec<DispatchDescriptor> = Vec::new();
    let n = members.len();
    let mut i: usize = 0;
    while i < n
        invariant
            n == members.len(),
            i <= n,
            ms == member_views(members@),
            ms == block@.member_methods,
            protocol_of_name(block@.claimed_protocol_name) == Some(p),
            first_mismatch(p, ms.take(i as int)) is None,
            string_views(unmapped@) =~= unmapped_of(p, ms.take(i as int)),
            descriptor_views(descriptors@) =~= descriptors_of(p, ms.take(i as int)),
        decreases n - i,
    {
        let m = &members[i];
        assert(ms[i as int] == m@);
        assert(ms.take(i + 1).drop_last() =~= ms.take(i as int));
        assert(ms.take(i + 1).last() == m@);
        match arity_of(p, &m.name) {
            Some(a) => {
                if !check_arity(a, m.arg_count) {
                    assert(first_mismatch(p, ms.take(i + 1)) == Some(i as int));
                    proof {
                        lemma_first_mismatch_prefix(p, ms, i as int + 1);
                    }
                    let method = m.name.clone();
                    let expected = expected_args(a);
                    return Err(
                        GenError::ArityMismatch {
                            method,
                            expected,
                            found: m.arg_count,
                        },
                    );
                }
                descriptors.push(generate(m, a));
            },
            None => {
                unmapped.push(m.name.clone());
            },
        }
        i = i + 1;
    }
    assert(ms.take(n as int) =~= ms);
    Ok(emit(&block.target_type, p, members, unmapped, descriptors))
}

/// A mismatch found in a prefix is the first mismatch of the whole sequence.
pub proof fn lemma_first_mismatch_prefix(p: ProtocolKind, ms: Seq<MemberView>, k: int)
    requires
        0 <= k <= ms.len(),
        first_mismatch(p, ms.take(k)) is Some,
    ensures
        first_mismatch(p, ms) == first_mismatch(p, ms.take(k)),
    decreases ms.len() - k,
{
    if k < ms.len() {
        assert(ms.take(k + 1).drop_last() =~= ms.take(k));
        lemma_first_mismatch_prefix(p, ms, k + 1);
    } else {
        assert(ms.take(k) =~= ms);
    }
}

/// Whether no two of `bs` share a symbol.
pub open spec fn symbols_unique(bs: Seq<BindingView>) -> bool {
    forall|i: int, j: int|
        0 <= i < j < bs.len() ==> #[trigger] bs[i].unique_symbol != #[trigger] bs[j].unique_symbol
}

pub open spec fn binding_views(bs: Seq<ProtocolBinding>) -> Seq<BindingView> {
    bs.map_values(|b: ProtocolBinding| b@)
}

/// Checks that the bindings of one compilation unit have pairwise distinct
/// symbols; fails with `SymbolCollision` naming a symbol derived twice.
pub fn check_unique_symbols(bindings: &Vec<ProtocolBinding>) -> (r: Result<(), GenError>)
    ensures
        r is Ok <==> symbols_unique(binding_views(bindings@)),
        match r {
            Ok(_) => true,
            Err(e) => exists|i: int, j: int|
                0 <= i < j < bindings@.len() && bindings@[i].unique_symbol@
                    == bindings@[j].unique_symbol@ && e@ == (ErrorView::SymbolCollision {
                    symbol: bindings@[i].unique_symbol@,
                }),
        },
{
    let ghost bs = binding_views(bindings@);
    let n = bindings.len();
    let mut i: usize = 0;
    while i < n
        invariant
            n == bindings.len(),
            i <= n,
            bs == binding_views(bindings@),
            forall|a: int, b: int|
                0 <= a < i && a < b < n ==> #[trigger] bs[a].unique_symbol != #[trigger] bs[b].unique_symbol,
        decreases n - i,
    {
        let mut j: usize = i + 1;
        while j < n
            invariant
                n == bindings.len(),
                i < n,
                i + 1 <= j <= n,
                bs == binding_views(bindings@),
                forall|a: int, b: int|
                    0 <= a < i && a < b < n ==> #[trigger] bs[a].unique_symbol != #[trigger] bs[b].unique_symbol,
                forall|b: int| i < b < j ==> bs[i as int].unique_symbol != #[trigger] bs[b].unique_symbol,
            decreases n - j,
        {
            if bindings[i].unique_symbol == bindings[j].unique_symbol {
                let symbol = bindings[i].unique_symbol.clone();
                assert(bs[i as int].unique_symbol == bs[j as int].unique_symbol);
                return Err(GenError::SymbolCollision { symbol });
            }
            j = j + 1;
        }
        i = i + 1;
    }
    Ok(())
}

} // verus!
