//! Properties that relate the registry, the classifier and the emitter.
use vstd::prelude::*;

use crate::binding::descriptor_names;
use crate::binding::descriptors_of;
use crate::binding::first_mismatch;
use crate::binding::member_names;
use crate::binding::spec_classify;
use crate::binding::spec_symbol;
use crate::binding::symbols_unique;
use crate::binding::unmapped_of;
use crate::binding::BlockView;
use crate::binding::MemberView;
use crate::registry::lemma_short_name_injective;
use crate::registry::protocol_of_name;
use crate::registry::recognizes;
use crate::registry::spec_arity_of;
use crate::registry::spec_short_name;
use crate::registry::ProtocolKind;

verus! {

proof fn lemma_push_contains<A>(s: Seq<A>, a: A)
    ensures
        forall|x: A| #[trigger] s.push(a).contains(x) <==> (s.contains(x) || x == a),
{
    assert forall|x: A| #[trigger] s.push(a).contains(x) <==> (s.contains(x) || x == a) by {
        if s.contains(x) {
            let k = choose|k: int| 0 <= k < s.len() && s[k] == x;
            assert(s.push(a)[k] == x);
        }
        if x == a {
            assert(s.push(a)[s.len() as int] == x);
        }
        if s.push(a).contains(x) {
            let k = choose|k: int| 0 <= k < s.push(a).len() && s.push(a)[k] == x;
            if k < s.len() {
                assert(s[k] == x);
            }
        }
    }
}

proof fn lemma_partition(p: ProtocolKind, ms: Seq<MemberView>)
    ensures
        descriptors_of(p, ms).len() + unmapped_of(p, ms).len() == ms.len(),
        forall|x: Seq<char>|
            #[trigger] descriptor_names(descriptors_of(p, ms)).contains(x) <==> (member_names(
                ms,
            ).contains(x) && recognizes(p, x)),
        forall|x: Seq<char>|
            #[trigger] unmapped_of(p, ms).contains(x) <==> (member_names(ms).contains(x)
                && !recognizes(p, x)),
    decreases ms.len(),
{
    if ms.len() == 0 {
        assert(descriptor_names(descriptors_of(p, ms)) =~= Seq::<Seq<char>>::empty());
        assert(member_names(ms) =~= Seq::<Seq<char>>::empty());
    } else {
        let prev = ms.drop_last();
        let last = ms.last().name;
        lemma_partition(p, prev);
        assert(member_names(ms) =~= member_names(prev).push(last));
        lemma_push_contains(member_names(prev), last);
        match spec_arity_of(p, last) {
            Some(a) => {
                assert(descriptor_names(descriptors_of(p, ms)) =~= descriptor_names(
                    descriptors_of(p, prev),
                ).push(last));
                lemma_push_contains(descriptor_names(descriptors_of(p, prev)), last);
            },
            None => {
                lemma_push_contains(unmapped_of(p, prev), last);
            },
        }
    }
}

proof fn lemma_nothing_recognized(p: ProtocolKind, ms: Seq<MemberView>)
    requires
        forall|i: int| 0 <= i < ms.len() ==> !recognizes(p, #[trigger] ms[i].name),
    ensures
        first_mismatch(p, ms) is None,
        descriptors_of(p, ms) =~= Seq::empty(),
        unmapped_of(p, ms) =~= member_names(ms),
    decreases ms.len(),
{
    if ms.len() > 0 {
        let prev = ms.drop_last();
        assert forall|i: int| 0 <= i < prev.len() implies !recognizes(p, #[trigger] prev[i].name) by {
            assert(prev[i] == ms[i]);
        }
        lemma_nothing_recognized(p, prev);
        assert(!recognizes(p, ms[ms.len() - 1].name));
        assert(member_names(ms) =~= member_names(prev).push(ms.last().name));
    }
}

/// Looking up a recognized method always yields its one catalog entry: the
/// lookup depends on the protocol and the method name alone.
pub proof fn law_arity_lookup_deterministic(p: ProtocolKind, m1: Seq<char>, m2: Seq<char>)
    requires
        recognizes(p, m1),
        m1 == m2,
    ensures
        spec_arity_of(p, m1) is Some,
        spec_arity_of(p, m1) == spec_arity_of(p, m2),
{
}

/// Classification splits a block's members into recognized and unmapped ones:
/// no name is in both, every member name is in one of them, and none is lost
/// or duplicated.
pub proof fn law_classify_partitions(b: BlockView)
    requires
        spec_classify(b) is Ok,
    ensures
        ({
            let r = spec_classify(b)->Ok_0;
            let recognized = descriptor_names(r.protocol_descriptors);
            &&& forall|x: Seq<char>| !(#[trigger] recognized.contains(x) && r.unmapped_names.contains(x))
            &&& forall|x: Seq<char>|
                #[trigger] member_names(b.member_methods).contains(x) <==> (recognized.contains(x)
                    || r.unmapped_names.contains(x))
            &&& recognized.len() + r.unmapped_names.len() == b.member_methods.len()
            &&& r.all_member_names == member_names(b.member_methods)
        }),
{
    let p = protocol_of_name(b.claimed_protocol_name)->Some_0;
    lemma_partition(p, b.member_methods);
}

/// A block none of whose members the claimed protocol recognizes yields a
/// binding with no descriptors whose member names are the block's, in order.
pub proof fn law_no_recognized_round_trip(b: BlockView)
    requires
        protocol_of_name(b.claimed_protocol_name) is Some,
        forall|i: int|
            0 <= i < b.member_methods.len() ==> !recognizes(
                protocol_of_name(b.claimed_protocol_name)->Some_0,
                #[trigger] b.member_methods[i].name,
            ),
    ensures
        spec_classify(b) is Ok,
        spec_classify(b)->Ok_0.protocol_descriptors.len() == 0,
        spec_classify(b)->Ok_0.all_member_names == member_names(b.member_methods),
        spec_classify(b)->Ok_0.unmapped_names == member_names(b.member_methods),
{
    let p = protocol_of_name(b.claimed_protocol_name)->Some_0;
    lemma_nothing_recognized(p, b.member_methods);
}

/// Classifying equal blocks gives equal outcomes: the same symbol and tables,
/// or the same failure.
pub proof fn law_classify_deterministic(b1: BlockView, b2: BlockView)
    requires
        b1 == b2,
    ensures
        spec_classify(b1) == spec_classify(b2),
{
}

/// One type's bindings for two different protocols carry different symbols.
pub proof fn law_symbols_differ_across_protocols(t: Seq<char>, p: ProtocolKind, q: ProtocolKind)
    requires
        p != q,
    ensures
        spec_symbol(t, p) != spec_symbol(t, q),
{
    let pre = "_IMPL_PYO3_"@ + t + "_"@;
    assert(spec_symbol(t, p) =~= pre + spec_short_name(p));
    assert(spec_symbol(t, q) =~= pre + spec_short_name(q));
    if spec_symbol(t, p) == spec_symbol(t, q) {
        assert((pre + spec_short_name(p)).subrange(pre.len() as int, spec_symbol(t, p).len() as int)
            =~= spec_short_name(p));
        assert((pre + spec_short_name(q)).subrange(pre.len() as int, spec_symbol(t, q).len() as int)
            =~= spec_short_name(q));
        lemma_short_name_injective(p, q);
    }
}

/// Two blocks of one type that claim different protocols yield two bindings
/// with distinct symbols, each listing only its own block's members.
pub proof fn law_multi_protocol_bindings(b1: BlockView, b2: BlockView)
    requires
        b1.target_type == b2.target_type,
        protocol_of_name(b1.claimed_protocol_name) != protocol_of_name(b2.claimed_protocol_name),
        spec_classify(b1) is Ok,
        spec_classify(b2) is Ok,
    ensures
        symbols_unique(seq![spec_classify(b1)->Ok_0, spec_classify(b2)->Ok_0]),
        spec_classify(b1)->Ok_0.all_member_names == member_names(b1.member_methods),
        spec_classify(b2)->Ok_0.all_member_names == member_names(b2.member_methods),
{
    let p = protocol_of_name(b1.claimed_protocol_name)->Some_0;
    let q = protocol_of_name(b2.claimed_protocol_name)->Some_0;
    law_symbols_differ_across_protocols(b1.target_type, p, q);
    let s = seq![spec_classify(b1)->Ok_0, spec_classify(b2)->Ok_0];
    assert forall|i: int, j: int| 0 <= i < j < s.len() implies #[trigger] s[i].unique_symbol
        != #[trigger] s[j].unique_symbol by {
        assert(i == 0 && j == 1);
    }
}

} // verus!
