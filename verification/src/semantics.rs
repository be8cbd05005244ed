//! A small evaluation model for the generated dispatch code, and the laws
//! the synthesized bundle satisfies under it.
//!
//! The model abstracts a run of the generated code: implementer values and
//! call results are opaque identities (`int`), a binding environment maps
//! argument patterns to the values bound to them at the call site, and a
//! call oracle gives the result of invoking a named method directly on an
//! implementer value with a given argument list. Evaluating a generated
//! dispatch body tries its arms in order, exactly as an exhaustive match
//! over the tagged variants does.

use crate::generate::{gen_method_ok, Arm, Conversion, GenMethod, MethodBody};
use crate::model::{captured_patterns, has_receiver_of, IfaceV, SigV};
use crate::parse::{impl_alias, ArgsView, ImplView};
use crate::{bundle_ok, chosen_name, GeneratedBundle};
use vstd::prelude::*;

verus! {

/// A runtime value of the generated sum type: the tag of its active
/// variant, and the implementer value it carries as payload.
pub struct SumValue {
    pub tag: Seq<char>,
    pub payload: int,
}

/// The outcome of running a generated method body.
pub enum Outcome {
    /// The unconditional runtime fault of a receiver-less method stub.
    Fault,
    /// A result returned by the implementer's own method, unchanged.
    Returned(int),
}

/// The values a dispatch arm forwards: its argument patterns looked up in
/// the binding environment, in declaration order.
pub open spec fn forwarded_values(patterns: Seq<Seq<char>>, env: Map<Seq<char>, int>) -> Seq<
    int,
> {
    patterns.map_values(|p: Seq<char>| env[p])
}

/// Runs the arms of a dispatch body in order against a sum type value: the
/// first arm whose tag matches the active variant invokes the same-named
/// method on the payload, through the call oracle, with its forwarded
/// values.
pub open spec fn eval_arms(
    arms: Seq<Arm>,
    v: SumValue,
    env: Map<Seq<char>, int>,
    oracle: Map<(int, Seq<char>, Seq<int>), int>,
) -> Outcome
    decreases arms.len(),
{
    if arms.len() == 0 {
        Outcome::Fault
    } else if arms[0].tag@ == v.tag {
        Outcome::Returned(
            oracle[(
                v.payload,
                arms[0].method@,
                forwarded_values(arms[0].args@.map_values(|s: String| s@), env),
            )],
        )
    } else {
        eval_arms(arms.drop_first(), v, env, oracle)
    }
}

/// Runs a generated method body on a sum type value.
pub open spec fn eval_body(
    body: MethodBody,
    v: SumValue,
    env: Map<Seq<char>, int>,
    oracle: Map<(int, Seq<char>, Seq<int>), int>,
) -> Outcome {
    match body {
        MethodBody::Fault { .. } => Outcome::Fault,
        MethodBody::Dispatch { arms } => eval_arms(arms@, v, env, oracle),
    }
}

/// Runs a conversion constructor: the input value is wrapped, unchanged,
/// under the conversion's variant tag.
pub open spec fn apply_conversion(c: Conversion, payload: int) -> SumValue {
    SumValue { tag: c.tag@, payload }
}

/// The variant tags are pairwise distinct. The generator itself does not
/// enforce this; a collision surfaces as a duplicate-definition failure in
/// the consuming type system, and the dispatch law below assumes it holds.
pub open spec fn distinct_aliases(impls: Seq<ImplView>) -> bool {
    forall|i: int, j: int|
        0 <= i < j < impls.len() ==> impl_alias(#[trigger] impls[i]) != impl_alias(
            #[trigger] impls[j],
        )
}

/// Running a sequence of arms whose tags all differ from the active
/// variant's, up to a first arm that matches it, invokes exactly that
/// arm's call.
proof fn lemma_arms_hit(
    arms: Seq<Arm>,
    v: SumValue,
    env: Map<Seq<char>, int>,
    oracle: Map<(int, Seq<char>, Seq<int>), int>,
    k: int,
)
    requires
        0 <= k < arms.len(),
        arms[k].tag@ == v.tag,
        forall|i: int| 0 <= i < k ==> (#[trigger] arms[i]).tag@ != v.tag,
    ensures
        eval_arms(arms, v, env, oracle) == Outcome::Returned(
            oracle[(
                v.payload,
                arms[k].method@,
                forwarded_values(arms[k].args@.map_values(|s: String| s@), env),
            )],
        ),
    decreases k,
{
    if k > 0 {
        let rest = arms.drop_first();
        assert(forall|i: int| 0 <= i < k - 1 ==> (#[trigger] rest[i]).tag@ != v.tag) by {
            assert(forall|i: int| 0 <= i < k - 1 ==> rest[i] == arms[i + 1]);
        }
        assert(rest[k - 1] == arms[k]);
        lemma_arms_hit(rest, v, env, oracle, k - 1);
    }
}

/// Law: dispatch is transparent. For every interface method with a
/// receiver and every implementer, converting an implementer value into
/// the sum type through its conversion constructor and then invoking the
/// generated method yields exactly the result of invoking the same-named
/// method directly on that value, with the explicit arguments forwarded
/// unchanged in count, order and value.
pub proof fn lemma_dispatch_transparent(
    gm: GenMethod,
    enum_name: Seq<char>,
    sig: SigV,
    impls: Seq<ImplView>,
    k: int,
    c: Conversion,
    payload: int,
    env: Map<Seq<char>, int>,
    oracle: Map<(int, Seq<char>, Seq<int>), int>,
)
    requires
        gen_method_ok(gm, enum_name, sig, impls),
        has_receiver_of(sig.inputs),
        distinct_aliases(impls),
        0 <= k < impls.len(),
        c.tag@ == impl_alias(impls[k]),
    ensures
        eval_body(gm.body, apply_conversion(c, payload), env, oracle) == Outcome::Returned(
            oracle[(payload, sig.name, forwarded_values(captured_patterns(sig.inputs), env))],
        ),
{
    let arms = gm.body->Dispatch_arms;
    let v = apply_conversion(c, payload);
    assert(forall|i: int| 0 <= i < k ==> (#[trigger] arms@[i]).tag@ != v.tag);
    lemma_arms_hit(arms@, v, env, oracle, k);
}

/// Law: dispatch through a whole generated bundle is transparent. For any
/// bundle the orchestrator guarantees (`bundle_ok`), any interface method
/// with a receiver and any implementer, converting an implementer value
/// through the bundle's conversion constructor and invoking the bundle's
/// generated method yields exactly the direct invocation on that value.
pub proof fn lemma_bundle_dispatch_transparent(
    b: GeneratedBundle,
    iface: IfaceV,
    v: ArgsView,
    m: int,
    k: int,
    payload: int,
    env: Map<Seq<char>, int>,
    oracle: Map<(int, Seq<char>, Seq<int>), int>,
)
    requires
        bundle_ok(b, iface, v),
        distinct_aliases(v.impls),
        0 <= m < iface.methods.len(),
        has_receiver_of(iface.methods[m].inputs),
        0 <= k < v.impls.len(),
    ensures
        eval_body(
            b.dispatch.methods@[m].body,
            apply_conversion(b.conversions@[k], payload),
            env,
            oracle,
        ) == Outcome::Returned(
            oracle[(
                payload,
                iface.methods[m].name,
                forwarded_values(captured_patterns(iface.methods[m].inputs), env),
            )],
        ),
{
    lemma_dispatch_transparent(
        b.dispatch.methods@[m],
        chosen_name(v, iface),
        iface.methods[m],
        v.impls,
        k,
        b.conversions@[k],
        payload,
        env,
        oracle,
    );
}

/// Law: a receiver-less method stub always faults. Whatever sum type
/// value it is invoked on and whatever values the environment binds, the
/// generated body of a method without a receiver takes the fault path.
pub proof fn lemma_stub_always_faults(
    gm: GenMethod,
    enum_name: Seq<char>,
    sig: SigV,
    impls: Seq<ImplView>,
    v: SumValue,
    env: Map<Seq<char>, int>,
    oracle: Map<(int, Seq<char>, Seq<int>), int>,
)
    requires
        gen_method_ok(gm, enum_name, sig, impls),
        !has_receiver_of(sig.inputs),
    ensures
        eval_body(gm.body, v, env, oracle) == Outcome::Fault,
{
}

/// Law: the conversion round-trips. Building the sum type value from an
/// implementer value through the conversion constructor generated for that
/// implementer and then matching on it recovers exactly the variant tagged
/// with the implementer's effective alias, carrying the value unchanged.
pub proof fn lemma_conversion_round_trip(c: Conversion, im: ImplView, payload: int)
    requires
        c.tag@ == impl_alias(im),
    ensures
        apply_conversion(c, payload).tag == impl_alias(im),
        apply_conversion(c, payload).payload == payload,
{
}

} // verus!
