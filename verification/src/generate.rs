//! Synthesis of the generated artifacts and the identifier case converter.
//!
//! The three synthesizers build the abstract generated bundle: the tagged
//! sum type (`generate_enum`), the dispatching interface implementation
//! (`generate_impl`) and the conversion constructors (`generate_froms`).
//! Every name reference they emit carries an explicit scope mark: when the
//! sum type takes the interface's own name, the whole bundle is nested in a
//! namespace wrapper and every reference to an implementer type or to the
//! interface must resolve one scope level up.

use crate::model::{
    captured_patterns, has_receiver_of, lemma_captured_len, FnArg, InterfaceDef, MethodSig, SigV,
};
use crate::parse::{impl_alias, ImplView, Implementer};
use vstd::prelude::*;

verus! {

/// A reference to a single name, with its scope resolution: `enclosing`
/// marks a name that must be looked up one scope level above the generated
/// items (set exactly when the bundle is nested in a namespace wrapper).
#[derive(Debug)]
pub struct ScopedName {
    pub enclosing: bool,
    pub name: String,
}

/// A reference to a possibly qualified type, with the same scope mark as
/// `ScopedName`.
#[derive(Debug)]
pub struct ScopedPath {
    pub enclosing: bool,
    pub segments: Vec<String>,
}

/// One variant of the generated sum type: its tag (the implementer's
/// effective alias) and its single payload field (the implementer's type
/// reference).
#[derive(Debug)]
pub struct Variant {
    pub tag: String,
    pub payload: ScopedPath,
}

/// The generated sum type definition: one variant per implementer, in
/// implementer order.
#[derive(Debug)]
pub struct EnumDef {
    pub name: String,
    pub variants: Vec<Variant>,
}

/// One dispatch arm: if the sum type value carries the variant tagged
/// `tag`, forward the explicit arguments, unchanged and in order, to the
/// method named `method` on the payload.
#[derive(Debug)]
pub struct Arm {
    pub tag: String,
    pub method: String,
    pub args: Vec<String>,
}

/// The body of one generated method.
#[derive(Debug)]
pub enum MethodBody {
    /// A method without a receiver cannot be dispatched through a variant:
    /// its body unconditionally raises a runtime fault whose message names
    /// the sum type and the method.
    Fault { enum_name: String, method: String },
    /// A method with a receiver matches on the sum type value, one
    /// exhaustive arm per implementer, in implementer order.
    Dispatch { arms: Vec<Arm> },
}

/// One generated method: the interface method's signature, re-declared
/// verbatim — name, parameter patterns and types, and return type all
/// preserved — with the synthesized body.
#[derive(Debug)]
pub struct GenMethod {
    pub sig: MethodSig,
    pub body: MethodBody,
}

/// The generated implementation of the interface for the sum type, one
/// method per interface method, in interface order.
#[derive(Debug)]
pub struct DispatchImpl {
    pub interface: ScopedName,
    pub enum_name: String,
    pub methods: Vec<GenMethod>,
}

/// One conversion constructor: from a value of the implementer type
/// `source`, build the sum type value carrying it under the variant tagged
/// `tag`. No opposite conversion is generated.
#[derive(Debug)]
pub struct Conversion {
    pub source: ScopedPath,
    pub enum_name: String,
    pub tag: String,
}

/// Copies a list of identifiers.
fn clone_strings(v: &Vec<String>) -> (r: Vec<String>)
    ensures
        r@ == v@,
{
    let mut r: Vec<String> = Vec::new();
    let mut k: usize = 0;
    while k < v.len()
        invariant
            k <= v@.len(),
            r@ == v@.take(k as int),
        decreases v@.len() - k,
    {
        r.push(v[k].clone());
        proof {
            assert(v@.take(k + 1) =~= v@.take(k as int).push(v@[k as int]));
        }
        k = k + 1;
    }
    proof {
        assert(v@.take(v@.len() as int) =~= v@);
    }
    r
}

/// Copies one declared parameter.
fn copy_arg(a: &FnArg) -> (r: FnArg)
    ensures
        r@ == a@,
{
    match a {
        FnArg::SelfRef => FnArg::SelfRef,
        FnArg::SelfValue => FnArg::SelfValue,
        FnArg::Captured { pattern, ty } => FnArg::Captured {
            pattern: pattern.clone(),
            ty: ty.clone(),
        },
    }
}

/// Copies a method signature, so that a generated method can re-declare it
/// verbatim.
fn copy_signature(sig: &MethodSig) -> (r: MethodSig)
    ensures
        r@ == sig@,
{
    let mut inputs: Vec<FnArg> = Vec::new();
    let mut k: usize = 0;
    while k < sig.inputs.len()
        invariant
            k <= sig.inputs@.len(),
            inputs@.map_values(|a: FnArg| a@) == sig@.inputs.take(k as int),
        decreases sig.inputs@.len() - k,
    {
        let ghost pre = inputs@.map_values(|a: FnArg| a@);
        inputs.push(copy_arg(&sig.inputs[k]));
        proof {
            assert(inputs@.map_values(|a: FnArg| a@) =~= pre.push(sig.inputs@[k as int]@));
            assert(sig@.inputs.take(k + 1) =~= sig@.inputs.take(k as int).push(
                sig@.inputs[k as int],
            ));
        }
        k = k + 1;
    }
    proof {
        assert(sig@.inputs.take(sig.inputs@.len() as int) =~= sig@.inputs);
    }
    let output: Option<String> = match &sig.output {
        Some(o) => Some(o.clone()),
        None => None,
    };
    let r = MethodSig { name: sig.name.clone(), inputs, output };
    proof {
        assert(r@ =~= sig@);
    }
    r
}

/// What `generate_method` guarantees of one generated method, stated over
/// the mathematical forms: the interface method's signature is preserved
/// exactly; a receiver-less method gets the unconditional fault body
/// naming the sum type and the method; a method with a receiver gets one
/// dispatch arm per implementer, in implementer order, each forwarding the
/// explicit-argument patterns unchanged to the same-named method.
pub open spec fn gen_method_ok(
    gm: GenMethod,
    enum_name: Seq<char>,
    sig: SigV,
    impls: Seq<ImplView>,
) -> bool {
    &&& gm.sig@ == sig
    &&& if !has_receiver_of(sig.inputs) {
        gm.body matches MethodBody::Fault { enum_name: e, method: m } && e@ == enum_name && m@
            == sig.name
    } else {
        gm.body matches MethodBody::Dispatch { arms } && arms@.len() == impls.len() && (forall|
            k: int,
        |
            0 <= k < impls.len() ==> {
                &&& (#[trigger] arms@[k]).tag@ == impl_alias(impls[k])
                &&& arms@[k].method@ == sig.name
                &&& arms@[k].args@.map_values(|s: String| s@) == captured_patterns(sig.inputs)
            })
    }
}

/// Builds the sum type definition: one variant per implementer, in input
/// order, tagged with the implementer's effective alias and carrying its
/// type reference; the reference resolves one scope level up exactly when
/// the sum type takes the interface's own name.
pub fn generate_enum(enum_name: &String, trait_name: &String, impls: &Vec<Implementer>) -> (r:
    EnumDef)
    requires
        forall|k: int| 0 <= k < impls@.len() ==> (#[trigger] impls@[k]).wf(),
    ensures
        r.name@ == enum_name@,
        r.variants@.len() == impls@.len(),
        forall|k: int|
            0 <= k < impls@.len() ==> {
                &&& (#[trigger] r.variants@[k]).tag@ == impl_alias(impls@[k]@)
                &&& r.variants@[k].payload.enclosing == (enum_name@ == trait_name@)
                &&& r.variants@[k].payload.segments@.map_values(|s: String| s@) == impls@[k]@.path
            },
{
    let enclosing = enum_name.eq(trait_name);
    let mut variants: Vec<Variant> = Vec::new();
    let mut k: usize = 0;
    while k < impls.len()
        invariant
            k <= impls@.len(),
            variants@.len() == k,
            enclosing == (enum_name@ == trait_name@),
            forall|j: int| 0 <= j < impls@.len() ==> (#[trigger] impls@[j]).wf(),
            forall|j: int|
                0 <= j < k ==> {
                    &&& (#[trigger] variants@[j]).tag@ == impl_alias(impls@[j]@)
                    &&& variants@[j].payload.enclosing == (enum_name@ == trait_name@)
                    &&& variants@[j].payload.segments@.map_values(|s: String| s@)
                        == impls@[j]@.path
                },
        decreases impls@.len() - k,
    {
        let im = &impls[k];
        let tag = im.alias().clone();
        let segments = clone_strings(&im.path);
        variants.push(Variant { tag, payload: ScopedPath { enclosing, segments } });
        k = k + 1;
    }
    EnumDef { name: enum_name.clone(), variants }
}

/// Builds one generated method for the interface method `sig`: the fault
/// stub when `sig` has no receiver, else one dispatch arm per implementer.
pub fn generate_method(enum_name: &String, sig: &MethodSig, impls: &Vec<Implementer>) -> (r:
    GenMethod)
    requires
        forall|k: int| 0 <= k < impls@.len() ==> (#[trigger] impls@[k]).wf(),
    ensures
        gen_method_ok(r, enum_name@, sig@, impls@.map_values(|im: Implementer| im@)),
{
    let mut args: Vec<String> = Vec::new();
    let mut k: usize = 0;
    while k < sig.inputs.len()
        invariant
            k <= sig.inputs@.len(),
            args@.map_values(|s: String| s@) == captured_patterns(
                sig@.inputs.take(k as int),
            ),
        decreases sig.inputs@.len() - k,
    {
        let ghost pre = args@.map_values(|s: String| s@);
        match &sig.inputs[k] {
            FnArg::Captured { pattern, .. } => {
                args.push(pattern.clone());
                proof {
                    assert(args@.map_values(|s: String| s@) =~= pre.push(
                        sig.inputs@[k as int]@->Captured_pattern,
                    ));
                }
            },
            _ => {},
        }
        proof {
            assert(sig@.inputs.take(k + 1).drop_last() =~= sig@.inputs.take(k as int));
            assert(sig@.inputs.take(k + 1).last() == sig@.inputs[k as int]);
        }
        k = k + 1;
    }
    proof {
        assert(sig@.inputs.take(sig.inputs@.len() as int) =~= sig@.inputs);
        lemma_captured_len(sig@.inputs);
    }
    if args.len() == sig.inputs.len() {
        return GenMethod {
            sig: copy_signature(sig),
            body: MethodBody::Fault { enum_name: enum_name.clone(), method: sig.name.clone() },
        };
    }
    let mut arms: Vec<Arm> = Vec::new();
    let mut k2: usize = 0;
    while k2 < impls.len()
        invariant
            k2 <= impls@.len(),
            arms@.len() == k2,
            args@.map_values(|s: String| s@) == captured_patterns(sig@.inputs),
            forall|j: int| 0 <= j < impls@.len() ==> (#[trigger] impls@[j]).wf(),
            forall|j: int|
                0 <= j < k2 ==> {
                    &&& (#[trigger] arms@[j]).tag@ == impl_alias(impls@[j]@)
                    &&& arms@[j].method@ == sig@.name
                    &&& arms@[j].args@.map_values(|s: String| s@) == captured_patterns(sig@.inputs)
                },
        decreases impls@.len() - k2,
    {
        let im = &impls[k2];
        arms.push(
            Arm { tag: im.alias().clone(), method: sig.name.clone(), args: clone_strings(&args) },
        );
        k2 = k2 + 1;
    }
    GenMethod { sig: copy_signature(sig), body: MethodBody::Dispatch { arms } }
}

/// Builds the dispatching implementation of the interface for the sum
/// type: one generated method per interface method, in interface order;
/// the interface reference resolves one scope level up exactly when the
/// sum type takes the interface's own name.
pub fn generate_impl(trait_def: &InterfaceDef, enum_name: &String, impls: &Vec<Implementer>) -> (r:
    DispatchImpl)
    requires
        forall|k: int| 0 <= k < impls@.len() ==> (#[trigger] impls@[k]).wf(),
    ensures
        r.interface.name@ == trait_def@.name,
        r.interface.enclosing == (enum_name@ == trait_def@.name),
        r.enum_name@ == enum_name@,
        r.methods@.len() == trait_def@.methods.len(),
        forall|k: int|
            0 <= k < trait_def@.methods.len() ==> gen_method_ok(
                #[trigger] r.methods@[k],
                enum_name@,
                trait_def@.methods[k],
                impls@.map_values(|im: Implementer| im@),
            ),
{
    let enclosing = enum_name.eq(&trait_def.name);
    let mut methods: Vec<GenMethod> = Vec::new();
    let mut k: usize = 0;
    while k < trait_def.methods.len()
        invariant
            k <= trait_def.methods@.len(),
            methods@.len() == k,
            forall|j: int| 0 <= j < impls@.len() ==> (#[trigger] impls@[j]).wf(),
            forall|j: int|
                0 <= j < k ==> gen_method_ok(
                    #[trigger] methods@[j],
                    enum_name@,
                    trait_def@.methods[j],
                    impls@.map_values(|im: Implementer| im@),
                ),
        decreases trait_def.methods@.len() - k,
    {
        methods.push(generate_method(enum_name, &trait_def.methods[k], impls));
        k = k + 1;
    }
    DispatchImpl {
        interface: ScopedName { enclosing, name: trait_def.name.clone() },
        enum_name: enum_name.clone(),
        methods,
    }
}

/// Builds one conversion constructor for `from`.
pub fn generate_from(to: &String, from: &Implementer, enclosing: bool) -> (r: Conversion)
    requires
        from.wf(),
    ensures
        r.tag@ == impl_alias(from@),
        r.enum_name@ == to@,
        r.source.enclosing == enclosing,
        r.source.segments@.map_values(|s: String| s@) == from@.path,
{
    Conversion {
        source: ScopedPath { enclosing, segments: clone_strings(&from.path) },
        enum_name: to.clone(),
        tag: from.alias().clone(),
    }
}

/// Builds the conversion constructors: one per implementer, in implementer
/// order, each wrapping a value of the implementer's type, unchanged, into
/// the variant tagged with its effective alias; the implementer type
/// reference resolves one scope level up exactly when the sum type takes
/// the interface's own name.
pub fn generate_froms(to: &String, froms: &Vec<Implementer>, trait_name: &String) -> (r: Vec<
    Conversion,
>)
    requires
        forall|k: int| 0 <= k < froms@.len() ==> (#[trigger] froms@[k]).wf(),
    ensures
        r@.len() == froms@.len(),
        forall|k: int|
            0 <= k < froms@.len() ==> {
                &&& (#[trigger] r@[k]).tag@ == impl_alias(froms@[k]@)
                &&& r@[k].enum_name@ == to@
                &&& r@[k].source.enclosing == (to@ == trait_name@)
                &&& r@[k].source.segments@.map_values(|s: String| s@) == froms@[k]@.path
            },
{
    let enclosing = to.eq(trait_name);
    let mut r: Vec<Conversion> = Vec::new();
    let mut k: usize = 0;
    while k < froms.len()
        invariant
            k <= froms@.len(),
            r@.len() == k,
            enclosing == (to@ == trait_name@),
            forall|j: int| 0 <= j < froms@.len() ==> (#[trigger] froms@[j]).wf(),
            forall|j: int|
                0 <= j < k ==> {
                    &&& (#[trigger] r@[j]).tag@ == impl_alias(froms@[j]@)
                    &&& r@[j].enum_name@ == to@
                    &&& r@[j].source.enclosing == (to@ == trait_name@)
                    &&& r@[j].source.segments@.map_values(|s: String| s@) == froms@[j]@.path
                },
        decreases froms@.len() - k,
    {
        r.push(generate_from(to, &froms[k], enclosing));
        k = k + 1;
    }
    r
}

/// Whether a character is uppercase: the result of `char::is_uppercase`,
/// a function of the character alone.
pub uninterp spec fn is_upper(c: char) -> bool;

/// The lowered form of a character: the first character that
/// `char::to_lowercase` yields for it, a function of the character alone.
pub uninterp spec fn lower_char(c: char) -> char;

/// Relies on `char::is_uppercase`: true exactly for the characters with
/// the Unicode uppercase property; the result depends on the character
/// alone.
#[verifier::external_body]
fn is_uppercase_char(c: char) -> (r: bool)
    ensures
        r == is_upper(c),
{
    c.is_uppercase()
}

/// Relies on `char::to_lowercase`: its iterator yields the lowercase
/// mapping of the character, one character at least; the first of them
/// depends on the character alone.
#[verifier::external_body]
fn lowercase_char(c: char) -> (r: char)
    ensures
        r == lower_char(c),
{
    match c.to_lowercase().next() {
        Some(l) => l,
        None => c,
    }
}

/// The snake-case rendering of an identifier: every uppercase letter that is
/// not the first character is preceded by a separator, and every character
/// is emitted in lowered form.
pub open spec fn snake_of(s: Seq<char>) -> Seq<char>
    decreases s.len(),
{
    if s.len() == 0 {
        Seq::empty()
    } else {
        let prefix = snake_of(s.drop_last());
        let c = s.last();
        if s.len() > 1 && is_upper(c) {
            prefix.push('_').push(lower_char(c))
        } else {
            prefix.push(lower_char(c))
        }
    }
}

/// Conversion of an identifier into a namespace-safe lowercase form.
pub trait ToSnakeCase {
    /// The characters the conversion runs over.
    spec fn snake_src(&self) -> Seq<char>;

    /// Emits a separator before every uppercase character that is not the
    /// first character, then the lowered form of the character.
    fn to_snake_case(&self) -> (r: String)
        ensures
            r@ == snake_of(self.snake_src()),
    ;
}

/// Relies on `String::push`: appends the given character to the end of the
/// string.
#[verifier::external_body]
fn push_char(s: &mut String, c: char)
    ensures
        final(s)@ == old(s)@.push(c),
{
    s.push(c);
}

impl ToSnakeCase for String {
    open spec fn snake_src(&self) -> Seq<char> {
        self@
    }

    fn to_snake_case(&self) -> (r: String) {
        let n: usize = self.as_str().unicode_len();
        let mut res = String::new();
        let mut i: usize = 0;
        while i < n
            invariant
                i <= n,
                n == self@.len(),
                res@ == snake_of(self@.take(i as int)),
            decreases n - i,
        {
            let c = self.as_str().get_char(i);
            if i > 0 && is_uppercase_char(c) {
                push_char(&mut res, '_');
            }
            push_char(&mut res, lowercase_char(c));
            proof {
                assert(self@.take(i + 1).drop_last() =~= self@.take(i as int));
            }
            i = i + 1;
        }
        proof {
            assert(self@.take(n as int) =~= self@);
        }
        res
    }
}

} // verus!
