//! What verification and type resolution hand to a method descriptor.

use vstd::prelude::*;
use std::collections::HashMap;
use crate::error::Error;
use crate::method::{ParamConfig, ResolvedParamConfig};
use crate::value::{Class, TypeName};

verus! {

/// The result of verifying a bytecode method, as far as its descriptor keeps
/// it.
#[derive(Clone, Copy, Debug, PartialEq, Eq, Structural)]
pub struct VerifiedMethodInfo {
    /// The class of the method's return type, or `None` if the method does
    /// not coerce its return value.
    pub return_type: Option<Class>,
}

/// The classes that type names resolve to: a finite map from type names to
/// classes. A name outside the map is unresolved.
pub struct ClassDomain {
    classes: HashMap<u32, Class>,
}

impl View for ClassDomain {
    type V = Map<TypeName, Class>;

    closed spec fn view(&self) -> Map<TypeName, Class> {
        Map::new(
            |name: TypeName| self.classes@.contains_key(name.id),
            |name: TypeName| self.classes@[name.id],
        )
    }
}

/// The class that `name` resolves to among `classes`, if it resolves.
pub open spec fn class_of(classes: Map<TypeName, Class>, name: TypeName) -> Option<Class> {
    if classes.contains_key(name) {
        Some(classes[name])
    } else {
        None
    }
}

/// The parameter's type name, if it has one, resolves among `classes`.
pub open spec fn resolves(classes: Map<TypeName, Class>, param: ParamConfig) -> bool {
    param.param_type_name is Some ==> classes.contains_key(param.param_type_name.unwrap())
}

/// The parameter with its type name replaced by the class it resolves to.
pub open spec fn resolved_param(
    classes: Map<TypeName, Class>,
    param: ParamConfig,
) -> ResolvedParamConfig {
    ResolvedParamConfig {
        param_type: match param.param_type_name {
            Some(name) => class_of(classes, name),
            None => None,
        },
        default_value: param.default_value,
    }
}

/// The signature with every parameter resolved, in the declared order.
pub open spec fn resolved_params(
    classes: Map<TypeName, Class>,
    signature: Seq<ParamConfig>,
) -> Seq<ResolvedParamConfig> {
    Seq::new(signature.len(), |i: int| resolved_param(classes, signature[i]))
}

/// The type name of the first parameter whose type name does not resolve,
/// or `None` if every declared type name resolves.
pub open spec fn first_unresolved_name(
    classes: Map<TypeName, Class>,
    signature: Seq<ParamConfig>,
) -> Option<TypeName>
    decreases signature.len(),
{
    if signature.len() == 0 {
        None
    } else if !resolves(classes, signature.first()) {
        signature.first().param_type_name
    } else {
        first_unresolved_name(classes, signature.drop_first())
    }
}

/// What resolving `signature` among `classes` gives: the resolved
/// signature, or the error for the first type name that does not resolve.
pub open spec fn resolution_of(
    classes: Map<TypeName, Class>,
    signature: Seq<ParamConfig>,
) -> Result<Seq<ResolvedParamConfig>, Error> {
    match first_unresolved_name(classes, signature) {
        Some(name) => Err(Error::UnresolvedTypeName(name)),
        None => Ok(resolved_params(classes, signature)),
    }
}

/// Resolution is total and keeps the order: it succeeds exactly if every
/// declared type name resolves, and then yields one entry for each
/// parameter, at the parameter's place, with the parameter's own default
/// value and the class of its type name.
pub proof fn lemma_resolution_is_total(classes: Map<TypeName, Class>, signature: Seq<ParamConfig>)
    ensures
        resolution_of(classes, signature) is Ok <==> forall|i: int|
            0 <= i < signature.len() ==> resolves(classes, #[trigger] signature[i]),
        resolution_of(classes, signature) matches Ok(resolved) ==> {
            &&& resolved.len() == signature.len()
            &&& forall|i: int|
                0 <= i < signature.len() ==> {
                    &&& (#[trigger] resolved[i]).default_value == signature[i].default_value
                    &&& resolved[i].param_type is Some <==> signature[i].param_type_name is Some
                    &&& signature[i].param_type_name matches Some(name) ==> resolved[i].param_type
                        == Some(classes[name])
                }
        },
    decreases signature.len(),
{
    if signature.len() > 0 {
        let rest = signature.drop_first();
        lemma_resolution_is_total(classes, rest);
        if resolves(classes, signature.first()) {
            if resolution_of(classes, signature) is Ok {
                assert forall|i: int| 0 <= i < signature.len() implies resolves(
                    classes,
                    #[trigger] signature[i],
                ) by {
                    if i > 0 {
                        assert(signature[i] == rest[i - 1]);
                    }
                }
            } else {
                let i = choose|i: int| 0 <= i < rest.len() && !resolves(classes, #[trigger] rest[i]);
                assert(signature[i + 1] == rest[i]);
            }
        } else {
            assert(!resolves(classes, signature[0]));
        }
    }
}

/// If the parameter at `at` is the first whose type name does not resolve,
/// resolution fails with that name.
proof fn lemma_first_unresolved(classes: Map<TypeName, Class>, signature: Seq<ParamConfig>, at: int)
    requires
        0 <= at < signature.len(),
        !resolves(classes, signature[at]),
        forall|i: int| 0 <= i < at ==> resolves(classes, #[trigger] signature[i]),
    ensures
        first_unresolved_name(classes, signature) == signature[at].param_type_name,
        signature[at].param_type_name is Some,
    decreases signature.len(),
{
    if at > 0 {
        let rest = signature.drop_first();
        assert(resolves(classes, signature[0]));
        assert(rest[at - 1] == signature[at]);
        assert forall|i: int| 0 <= i < at - 1 implies resolves(classes, #[trigger] rest[i]) by {
            assert(rest[i] == signature[i + 1]);
        }
        lemma_first_unresolved(classes, rest, at - 1);
    }
}

impl ClassDomain {
    /// A domain in which no name resolves.
    pub fn new() -> (domain: ClassDomain)
        ensures
            domain@ == Map::<TypeName, Class>::empty(),
    {
        let domain = ClassDomain { classes: HashMap::new() };
        assert(domain@ =~= Map::<TypeName, Class>::empty());
        domain
    }

    /// Makes `name` resolve to `class`, whatever it resolved to before.
    pub fn define(&mut self, name: TypeName, class: Class)
        ensures
            final(self)@ == old(self)@.insert(name, class),
    {
        self.classes.insert(name.id, class);
        assert(final(self)@ =~= old(self)@.insert(name, class));
    }

    /// Resolves `name` to its class, or reports it unresolved.
    pub fn lookup_class(&self, name: TypeName) -> (class: Option<Class>)
        ensures
            class == class_of(self@, name),
    {
        match self.classes.get(&name.id) {
            Some(class) => Some(*class),
            None => None,
        }
    }
}

/// Resolves the type name of every parameter against `domain`.
///
/// Succeeds exactly if every declared type name resolves; the result then
/// has one entry for each parameter, in the declared order, with the
/// parameter's own default value. Otherwise the error names the first type
/// name that does not resolve.
pub fn resolve_param_config(domain: &ClassDomain, signature: &[ParamConfig]) -> (result: Result<
    Vec<ResolvedParamConfig>,
    Error,
>)
    ensures
        match resolution_of(domain@, signature@) {
            Ok(resolved) => result is Ok && result.unwrap()@ == resolved,
            Err(error) => result == Err::<Vec<ResolvedParamConfig>, Error>(error),
        },
{
    let mut resolved: Vec<ResolvedParamConfig> = Vec::new();
    let mut i: usize = 0;
    while i < signature.len()
        invariant
            i <= signature@.len(),
            resolved@.len() == i,
            forall|j: int| 0 <= j < i ==> resolves(domain@, #[trigger] signature@[j]),
            forall|j: int| 0 <= j < i ==> resolved@[j] == resolved_param(domain@, signature@[j]),
        decreases signature@.len() - i,
    {
        let param = signature[i];
        let param_type = match param.param_type_name {
            Some(name) => {
                match domain.lookup_class(name) {
                    Some(class) => Some(class),
                    None => {
                        proof {
                            lemma_first_unresolved(domain@, signature@, i as int);
                        }
                        return Err(Error::UnresolvedTypeName(name));
                    },
                }
            },
            None => None,
        };
        resolved.push(ResolvedParamConfig { param_type, default_value: param.default_value });
        i += 1;
    }
    proof {
        lemma_resolution_is_total(domain@, signature@);
    }
    assert(resolved@ =~= resolved_params(domain@, signature@));
    Ok(resolved)
}

} // verus!
