//! The language-neutral interface schema: an interface is a named, ordered
//! set of method signatures; a method signature is a name, an ordered
//! parameter list and a return type. Parameter binding patterns and types
//! are carried verbatim as opaque text — the generator preserves them and
//! never interprets them.

use vstd::prelude::*;

verus! {

/// Visibility of the interface declaration. It is carried unchanged onto
/// the generated items (onto the namespace wrapper when one is introduced).
#[derive(Debug, Clone, Copy, PartialEq, Eq, Structural)]
pub enum Visibility {
    /// No visibility modifier.
    Private,
    /// Visible to the enclosing crate.
    Crate,
    /// Fully public.
    Public,
}

/// The mathematical form of one method parameter.
pub enum ArgV {
    /// The implicit instance parameter, bound by reference.
    SelfRef,
    /// The implicit instance parameter, bound by value.
    SelfValue,
    /// An explicit argument: its binding pattern and its declared type.
    Captured { pattern: Seq<char>, ty: Seq<char> },
}

/// One parameter of a method signature, as declared.
#[derive(Debug)]
pub enum FnArg {
    /// The implicit instance parameter, bound by reference (`&self`-like).
    SelfRef,
    /// The implicit instance parameter, bound by value.
    SelfValue,
    /// An explicit argument: its binding pattern and its declared type,
    /// both carried verbatim.
    Captured { pattern: String, ty: String },
}

impl View for FnArg {
    type V = ArgV;

    open spec fn view(&self) -> ArgV {
        match self {
            FnArg::SelfRef => ArgV::SelfRef,
            FnArg::SelfValue => ArgV::SelfValue,
            FnArg::Captured { pattern, ty } => ArgV::Captured { pattern: pattern@, ty: ty@ },
        }
    }
}

/// Whether a parameter binds the implicit instance rather than an explicit
/// argument.
pub trait IsSelf {
    /// What `is_self` decides, at the specification level.
    spec fn is_self_spec(&self) -> bool;

    /// True iff this parameter binds the implicit instance.
    fn is_self(&self) -> (r: bool)
        ensures
            r == self.is_self_spec(),
    ;
}

impl IsSelf for FnArg {
    open spec fn is_self_spec(&self) -> bool {
        !(self@ is Captured)
    }

    fn is_self(&self) -> (r: bool) {
        match self {
            FnArg::SelfRef | FnArg::SelfValue => true,
            _ => false,
        }
    }
}

/// The mathematical form of a method signature.
#[verifier::ext_equal]
pub struct SigV {
    pub name: Seq<char>,
    pub inputs: Seq<ArgV>,
    pub output: Option<Seq<char>>,
}

/// One method signature of the interface: its name, its ordered parameter
/// list (the receiver included, when there is one) and its return type,
/// carried verbatim (`None` when the method declares none).
#[derive(Debug)]
pub struct MethodSig {
    pub name: String,
    pub inputs: Vec<FnArg>,
    pub output: Option<String>,
}

impl View for MethodSig {
    type V = SigV;

    open spec fn view(&self) -> SigV {
        SigV {
            name: self.name@,
            inputs: self.inputs@.map_values(|a: FnArg| a@),
            output: match self.output {
                Some(o) => Some(o@),
                None => None,
            },
        }
    }
}

/// The binding patterns of the explicit arguments, in declaration order:
/// exactly what a dispatch arm forwards to the implementer's method.
pub open spec fn captured_patterns(s: Seq<ArgV>) -> Seq<Seq<char>>
    decreases s.len(),
{
    if s.len() == 0 {
        Seq::empty()
    } else {
        let rest = captured_patterns(s.drop_last());
        match s.last() {
            ArgV::Captured { pattern, .. } => rest.push(pattern),
            _ => rest,
        }
    }
}

/// A signature has a receiver iff some parameter binds the implicit
/// instance.
pub open spec fn has_receiver_of(s: Seq<ArgV>) -> bool {
    exists|k: int| 0 <= k < s.len() && !((#[trigger] s[k]) is Captured)
}

impl MethodSig {
    /// Whether this method can be dispatched through a variant.
    pub open spec fn has_receiver(&self) -> bool {
        has_receiver_of(self@.inputs)
    }
}

/// There are at most as many explicit-argument patterns as parameters, with
/// equality exactly when no parameter binds the implicit instance.
pub proof fn lemma_captured_len(s: Seq<ArgV>)
    ensures
        captured_patterns(s).len() <= s.len(),
        (captured_patterns(s).len() == s.len()) <==> !has_receiver_of(s),
    decreases s.len(),
{
    if s.len() > 0 {
        lemma_captured_len(s.drop_last());
        assert(has_receiver_of(s.drop_last()) ==> has_receiver_of(s)) by {
            if has_receiver_of(s.drop_last()) {
                let k = choose|k: int|
                    0 <= k < s.drop_last().len() && !((#[trigger] s.drop_last()[k]) is Captured);
                assert(s[k] == s.drop_last()[k]);
            }
        }
        if !(s.last() is Captured) {
            assert(has_receiver_of(s)) by {
                assert(!(s[s.len() - 1] is Captured));
            }
        } else {
            if !has_receiver_of(s) {
                assert(!has_receiver_of(s.drop_last())) by {
                    if has_receiver_of(s.drop_last()) {
                    }
                }
            }
            if !has_receiver_of(s.drop_last()) && has_receiver_of(s) {
                let k = choose|k: int| 0 <= k < s.len() && !((#[trigger] s[k]) is Captured);
                assert(k == s.len() - 1 || s.drop_last()[k] == s[k]);
            }
        }
    }
}

/// The mathematical form of an interface definition.
#[verifier::ext_equal]
pub struct IfaceV {
    pub name: Seq<char>,
    pub vis: Visibility,
    pub methods: Seq<SigV>,
}

/// The interface definition the generator consumes: a name, a visibility
/// and an ordered list of method signatures. Parsing host source text into
/// this shape is the host's concern, not the generator's.
#[derive(Debug)]
pub struct InterfaceDef {
    pub name: String,
    pub vis: Visibility,
    pub methods: Vec<MethodSig>,
}

impl View for InterfaceDef {
    type V = IfaceV;

    open spec fn view(&self) -> IfaceV {
        IfaceV {
            name: self.name@,
            vis: self.vis,
            methods: self.methods@.map_values(|m: MethodSig| m@),
        }
    }
}

} // verus!
