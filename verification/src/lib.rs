//! Closed "one-of-N implementations" generator: given an interface
//! definition (an ordered set of method signatures) and a list of
//! implementer types, this library synthesizes a tagged sum type, a
//! dispatching implementation of the interface for that sum type, and one
//! conversion constructor per implementer.
//!
//! The library is the pure core of the generator: it works on a
//! language-neutral schema of the interface and emits an abstract bundle of
//! generated items. Reading host syntax into the schema and rendering the
//! bundle back into source text are left to the surrounding program.

pub mod generate;
pub mod model;
pub mod parse;
pub mod semantics;

use crate::generate::{
    gen_method_ok, generate_enum, generate_froms, generate_impl, snake_of, Conversion,
    DispatchImpl, EnumDef, ToSnakeCase,
};
use crate::model::{IfaceV, InterfaceDef, Visibility};
use crate::parse::{impl_alias, spec_args, Arguments, ArgsView, ParseError, Token};
use vstd::prelude::*;
use vstd::string::StringExecFns;

verus! {

/// Everything the generator emits for one invocation: the sum type, the
/// dispatching implementation, the conversion constructors, the visibility
/// the items carry, and the namespace wrapper when one is needed. The
/// namespace is introduced exactly when the sum type takes the interface's
/// own name, which would otherwise collide with the interface declaration
/// in the same scope.
#[derive(Debug)]
pub struct GeneratedBundle {
    pub enum_def: EnumDef,
    pub dispatch: DispatchImpl,
    pub conversions: Vec<Conversion>,
    pub vis: Visibility,
    pub namespace: Option<String>,
}

/// The whole output of one invocation: the interface definition, re-emitted
/// unchanged, immediately followed by the generated bundle.
#[derive(Debug)]
pub struct Expansion {
    pub interface: InterfaceDef,
    pub bundle: GeneratedBundle,
}

/// The name of the generated sum type: the override name when one was
/// given, else the interface's own name.
pub open spec fn chosen_name(v: ArgsView, iface: IfaceV) -> Seq<char> {
    match v.enum_name {
        Some(n) => n,
        None => iface.name,
    }
}

/// What `enumerate` guarantees of the bundle built from the parsed
/// arguments `v` and the interface `iface`: the sum type carries one
/// variant per implementer in order; the dispatch implementation covers
/// every interface method in order, each meeting `gen_method_ok`; there is
/// one conversion per implementer in order; the bundle carries the
/// interface's visibility; and the namespace wrapper, named by the
/// snake-cased interface name with the `_enm` suffix, is present exactly
/// when the sum type takes the interface's own name, in which case every
/// emitted implementer and interface reference resolves one scope level
/// up.
pub open spec fn bundle_ok(b: GeneratedBundle, iface: IfaceV, v: ArgsView) -> bool {
    let name = chosen_name(v, iface);
    let nested = (name == iface.name);
    &&& b.enum_def.name@ == name
    &&& b.enum_def.variants@.len() == v.impls.len()
    &&& (forall|k: int|
        0 <= k < v.impls.len() ==> {
            &&& (#[trigger] b.enum_def.variants@[k]).tag@ == impl_alias(v.impls[k])
            &&& b.enum_def.variants@[k].payload.enclosing == nested
            &&& b.enum_def.variants@[k].payload.segments@.map_values(|s: String| s@)
                == v.impls[k].path
        })
    &&& b.dispatch.interface.name@ == iface.name
    &&& b.dispatch.interface.enclosing == nested
    &&& b.dispatch.enum_name@ == name
    &&& b.dispatch.methods@.len() == iface.methods.len()
    &&& (forall|k: int|
        0 <= k < iface.methods.len() ==> gen_method_ok(
            #[trigger] b.dispatch.methods@[k],
            name,
            iface.methods[k],
            v.impls,
        ))
    &&& b.conversions@.len() == v.impls.len()
    &&& (forall|k: int|
        0 <= k < v.impls.len() ==> {
            &&& (#[trigger] b.conversions@[k]).tag@ == impl_alias(v.impls[k])
            &&& b.conversions@[k].enum_name@ == name
            &&& b.conversions@[k].source.enclosing == nested
            &&& b.conversions@[k].source.segments@.map_values(|s: String| s@) == v.impls[k].path
        })
    &&& b.vis == iface.vis
    &&& match b.namespace {
        Some(ns) => nested && ns@ == snake_of(iface.name) + "_enm"@,
        None => !nested,
    }
}

/// The orchestrator: parses the argument list, determines the sum type
/// name and whether a namespace wrapper is needed, runs the three
/// synthesizers and assembles the output. Fails exactly when the argument
/// list does not match the grammar, with the grammar's own error; the
/// interface definition is re-emitted unchanged in front of the bundle.
pub fn enumerate(attr: &Vec<Token>, trait_def: InterfaceDef) -> (r: Result<Expansion, ParseError>)
    ensures
        match r {
            Ok(exp) => {
                &&& spec_args(attr@) is Ok
                &&& exp.interface == trait_def
                &&& bundle_ok(exp.bundle, trait_def@, spec_args(attr@)->Ok_0)
            },
            Err(e) => spec_args(attr@) == Err::<ArgsView, _>(e),
        },
{
    let args = match Arguments::parse(attr) {
        Ok(a) => a,
        Err(e) => {
            return Err(e);
        },
    };
    let Arguments { enum_name, impls } = args;
    let enum_name: String = match enum_name {
        Some(n) => n,
        None => trait_def.name.clone(),
    };
    let nested = enum_name.eq(&trait_def.name);
    let enum_def = generate_enum(&enum_name, &trait_def.name, &impls);
    let dispatch = generate_impl(&trait_def, &enum_name, &impls);
    let conversions = generate_froms(&enum_name, &impls, &trait_def.name);
    let namespace: Option<String> = if nested {
        Some(trait_def.name.to_snake_case().concat("_enm"))
    } else {
        None
    };
    let vis = trait_def.vis;
    Ok(
        Expansion {
            interface: trait_def,
            bundle: GeneratedBundle { enum_def, dispatch, conversions, vis, namespace },
        },
    )
}

} // verus!
