//! The questions that constructing a bytecode method puts to the evaluation
//! context, and what the answers make of a declared parameter list.
//!
//! What a type index of the container denotes, and what a default-value
//! constant decodes to, is for the evaluation context to say. A descriptor
//! is constructed from its answers; which questions are put, and in which
//! order, is fixed by the method entry alone.

use vstd::prelude::*;
use crate::abc::{AbcMethod, AbcMethodParam, DefaultValue};
use crate::method::ParamConfig;
use crate::value::{TypeName, Value};

verus! {

/// A question that constructing a bytecode method puts to the evaluation
/// context.
#[derive(Clone, Copy, Debug, PartialEq, Eq, Structural)]
pub enum ResolutionRequest {
    /// Which type name, if any, the container's type index denotes.
    TypeName(u32),
    /// Which runtime value a default-value constant decodes to.
    DefaultValue(DefaultValue),
}

/// The evaluation context's answer to one `ResolutionRequest`.
#[derive(Clone, Copy, Debug, PartialEq, Eq, Structural)]
pub enum Resolution {
    /// The type name, or `None` for the type that admits any value.
    TypeName(Option<TypeName>),
    /// The decoded default value.
    DefaultValue(Value),
}

/// The questions one declared parameter raises: its type name, then its
/// default value if it declares one.
pub open spec fn param_requests(param: AbcMethodParam) -> Seq<ResolutionRequest> {
    match param.default_value {
        Some(constant) => seq![
            ResolutionRequest::TypeName(param.kind),
            ResolutionRequest::DefaultValue(constant),
        ],
        None => seq![ResolutionRequest::TypeName(param.kind)],
    }
}

/// The questions a parameter list raises, parameter by parameter.
pub open spec fn signature_requests(params: Seq<AbcMethodParam>) -> Seq<ResolutionRequest>
    decreases params.len(),
{
    if params.len() == 0 {
        Seq::empty()
    } else {
        signature_requests(params.drop_last()) + param_requests(params.last())
    }
}

/// Every question that constructing a descriptor for `method` raises, in the
/// order in which they are put: the parameters first, the return type last.
pub open spec fn method_requests(method: AbcMethod) -> Seq<ResolutionRequest> {
    signature_requests(method.params@).push(ResolutionRequest::TypeName(method.return_type))
}

/// `resolution` is an answer of the kind that `request` asks for.
pub open spec fn answers(request: ResolutionRequest, resolution: Resolution) -> bool {
    match request {
        ResolutionRequest::TypeName(_) => resolution is TypeName,
        ResolutionRequest::DefaultValue(_) => resolution is DefaultValue,
    }
}

/// `resolutions` answers `requests` one for one.
pub open spec fn fits(requests: Seq<ResolutionRequest>, resolutions: Seq<Resolution>) -> bool {
    &&& requests.len() == resolutions.len()
    &&& forall|i: int|
        0 <= i < requests.len() ==> answers(#[trigger] requests[i], resolutions[i])
}

/// Whether `resolutions` answers `requests` one for one.
pub fn resolutions_fit(requests: &[ResolutionRequest], resolutions: &[Resolution]) -> (fit: bool)
    ensures
        fit == fits(requests@, resolutions@),
{
    if requests.len() != resolutions.len() {
        return false;
    }
    let mut i: usize = 0;
    while i < requests.len()
        invariant
            i <= requests@.len(),
            requests@.len() == resolutions@.len(),
            forall|j: int| 0 <= j < i ==> answers(#[trigger] requests@[j], resolutions@[j]),
        decreases requests@.len() - i,
    {
        let fit = match (requests[i], resolutions[i]) {
            (ResolutionRequest::TypeName(_), Resolution::TypeName(_)) => true,
            (ResolutionRequest::DefaultValue(_), Resolution::DefaultValue(_)) => true,
            _ => false,
        };
        if !fit {
            assert(!answers(requests@[i as int], resolutions@[i as int]));
            return false;
        }
        i += 1;
    }
    true
}

/// The type name that the answer at `at` gives.
pub open spec fn type_name_at(resolutions: Seq<Resolution>, at: int) -> Option<TypeName> {
    match resolutions[at] {
        Resolution::TypeName(name) => name,
        Resolution::DefaultValue(_) => None,
    }
}

/// The default value that the answer at `at` gives.
pub open spec fn default_value_at(resolutions: Seq<Resolution>, at: int) -> Option<Value> {
    match resolutions[at] {
        Resolution::TypeName(_) => None,
        Resolution::DefaultValue(value) => Some(value),
    }
}

/// The configuration of `param`, whose questions are answered in
/// `resolutions` from position `at` on.
pub open spec fn param_config(
    param: AbcMethodParam,
    resolutions: Seq<Resolution>,
    at: int,
) -> ParamConfig {
    ParamConfig {
        param_type_name: type_name_at(resolutions, at),
        default_value: if param.default_value is Some {
            default_value_at(resolutions, at + 1)
        } else {
            None
        },
    }
}

/// The signature of a method with the parameters `params`, whose questions
/// `resolutions` answers in order.
pub open spec fn resolved_signature(
    params: Seq<AbcMethodParam>,
    resolutions: Seq<Resolution>,
) -> Seq<ParamConfig>
    decreases params.len(),
{
    if params.len() == 0 {
        Seq::empty()
    } else {
        resolved_signature(params.drop_last(), resolutions).push(
            param_config(
                params.last(),
                resolutions,
                signature_requests(params.drop_last()).len() as int,
            ),
        )
    }
}

/// The parameter declares neither a type nor a default value.
pub open spec fn param_is_unchecked(param: ParamConfig) -> bool {
    param.param_type_name is None && param.default_value is None
}

/// No parameter of the signature declares a type or a default value.
pub open spec fn all_params_unchecked(signature: Seq<ParamConfig>) -> bool {
    forall|i: int| 0 <= i < signature.len() ==> param_is_unchecked(#[trigger] signature[i])
}

/// A signature has one configuration for each declared parameter.
pub proof fn lemma_resolved_signature_len(
    params: Seq<AbcMethodParam>,
    resolutions: Seq<Resolution>,
)
    ensures
        resolved_signature(params, resolutions).len() == params.len(),
    decreases params.len(),
{
    if params.len() > 0 {
        lemma_resolved_signature_len(params.drop_last(), resolutions);
    }
}

/// Taking one more parameter appends that parameter's questions, and its
/// configuration.
pub(crate) proof fn lemma_take_step(params: Seq<AbcMethodParam>, resolutions: Seq<Resolution>, i: int)
    requires
        0 <= i < params.len(),
    ensures
        signature_requests(params.take(i + 1)) == signature_requests(params.take(i))
            + param_requests(params[i]),
        resolved_signature(params.take(i + 1), resolutions) == resolved_signature(
            params.take(i),
            resolutions,
        ).push(
            param_config(params[i], resolutions, signature_requests(params.take(i)).len() as int),
        ),
{
    assert(params.take(i + 1).drop_last() == params.take(i));
    assert(params.take(i + 1).last() == params[i]);
}

/// The questions of the first `k` parameters open the questions of all.
pub(crate) proof fn lemma_requests_prefix(params: Seq<AbcMethodParam>, k: int)
    requires
        0 <= k <= params.len(),
    ensures
        signature_requests(params.take(k)).len() <= signature_requests(params).len(),
        forall|j: int|
            0 <= j < signature_requests(params.take(k)).len() ==> signature_requests(
                params.take(k),
            )[j] == signature_requests(params)[j],
    decreases params.len(),
{
    if k == params.len() {
        assert(params.take(k) == params);
    } else {
        assert(params.drop_last().take(k) == params.take(k));
        lemma_requests_prefix(params.drop_last(), k);
    }
}

/// One more parameter leaves a signature unchecked exactly if it was so and
/// the parameter declares neither a type nor a default value.
pub(crate) proof fn lemma_unchecked_step(signature: Seq<ParamConfig>, k: int)
    requires
        0 <= k < signature.len(),
    ensures
        all_params_unchecked(signature.take(k + 1)) == (all_params_unchecked(signature.take(k))
            && param_is_unchecked(signature[k])),
{
    let shorter = signature.take(k);
    let longer = signature.take(k + 1);
    assert(longer[k] == signature[k]);
    if all_params_unchecked(longer) {
        assert forall|j: int| 0 <= j < shorter.len() implies param_is_unchecked(
            #[trigger] shorter[j],
        ) by {
            assert(shorter[j] == longer[j]);
        }
    }
    if all_params_unchecked(shorter) && param_is_unchecked(signature[k]) {
        assert forall|j: int| 0 <= j < longer.len() implies param_is_unchecked(
            #[trigger] longer[j],
        ) by {
            if j < k {
                assert(longer[j] == shorter[j]);
            }
        }
    }
}

} // verus!
