//! Method descriptors: native and bytecode methods behind one handle type.

use vstd::prelude::*;
use std::rc::Rc;
use vstd::std_specs::convert::{FromSpecImpl, IntoSpec};
use crate::abc::{
    from_utf8_lossy, needs_arguments, needs_rest, utf8_lossy, AbcFile, AbcMethod, AbcMethodBody,
    AbcMethodParam,
};
use crate::arena::{BytecodeHandle, MethodArena, MethodArenaView, NativeHandle};
use crate::error::Error;
use crate::script::TranslationUnit;
use crate::signature::{
    all_params_unchecked, fits, lemma_requests_prefix, lemma_resolved_signature_len,
    lemma_take_step, lemma_unchecked_step, method_requests, param_config, param_requests,
    resolved_signature, signature_requests, type_name_at, Resolution, ResolutionRequest,
};
use crate::value::{Class, MovieHandle, TypeName, Value};
use crate::verify::{resolution_of, resolve_param_config, ClassDomain, VerifiedMethodInfo};

verus! {

/// Configuration of a single parameter of a method, with the parameter's
/// type resolved.
#[derive(Clone, Copy, Debug, PartialEq, Eq, Structural)]
pub struct ResolvedParamConfig {
    /// The type of the parameter.
    pub param_type: Option<Class>,
    /// The default value for this parameter.
    pub default_value: Option<Value>,
}

/// Configuration of a single parameter of a method.
#[derive(Clone, Copy, Debug, PartialEq, Eq, Structural)]
pub struct ParamConfig {
    /// The name of the type of the parameter.
    pub param_type_name: Option<TypeName>,
    /// The default value for this parameter.
    pub default_value: Option<Value>,
}

impl ParamConfig {
    /// The configuration of the container's parameter `config`, from the
    /// answers that `resolutions` holds for it from position `at` on.
    fn from_abc_param(config: &AbcMethodParam, resolutions: &[Resolution], at: usize) -> (param:
        ParamConfig)
        requires
            at + param_requests(*config).len() <= resolutions@.len(),
        ensures
            param == param_config(*config, resolutions@, at as int),
    {
        let param_type_name = match resolutions[at] {
            Resolution::TypeName(name) => name,
            Resolution::DefaultValue(_) => None,
        };
        let default_value = if config.default_value.is_some() {
            match resolutions[at + 1] {
                Resolution::TypeName(_) => None,
                Resolution::DefaultValue(value) => Some(value),
            }
        } else {
            None
        };
        ParamConfig { param_type_name, default_value }
    }

    /// Whether no parameter of `signature` declares a type or a default
    /// value.
    pub fn all_unchecked(signature: &[ParamConfig]) -> (unchecked: bool)
        ensures
            unchecked == all_params_unchecked(signature@),
    {
        let mut unchecked = true;
        let mut k: usize = 0;
        while k < signature.len()
            invariant
                k <= signature@.len(),
                unchecked == all_params_unchecked(signature@.take(k as int)),
            decreases signature@.len() - k,
        {
            let param = &signature[k];
            if param.param_type_name.is_some() || param.default_value.is_some() {
                unchecked = false;
            }
            proof {
                lemma_unchecked_step(signature@, k as int);
            }
            k += 1;
        }
        assert(signature@.take(k as int) == signature@);
        unchecked
    }

    /// A parameter that may be left out of a call: `default_value` takes its
    /// place then.
    pub fn optional<V: Into<Value>>(param_type_name: Option<TypeName>, default_value: V) -> (param:
        ParamConfig)
        ensures
            param.param_type_name == param_type_name,
            param.default_value is Some,
            V::obeys_into_spec() ==> param.default_value == Some(default_value.into_spec()),
    {
        ParamConfig { param_type_name, default_value: Some(default_value.into()) }
    }
}

/// Represents a reference to a bytecode method and its body.
#[derive(Debug)]
pub struct BytecodeMethod {
    /// The translation unit this function was defined in.
    pub txunit: TranslationUnit,
    /// The method entry this function uses, by its index in the container.
    pub abc_method: u32,
    /// The method body this function uses, by its index in the container.
    pub abc_method_body: Option<u32>,
    /// What verification found; `None` until the method has been verified.
    pub verified_info: Option<VerifiedMethodInfo>,
    /// The parameter signature of this method.
    pub signature: Vec<ParamConfig>,
    /// The return type of this method, or `None` if the method does not
    /// coerce its return value.
    pub return_type: Option<TypeName>,
    /// Whether or not this method was declared as a free-standing function.
    pub is_function: bool,
    /// Whether or not this method substitutes undefined for missing
    /// arguments: it is a free-standing function and none of its parameters
    /// declares a type or a default value.
    pub is_unchecked: bool,
}

/// A bytecode method descriptor as a mathematical value.
pub struct BytecodeMethodView {
    pub txunit: TranslationUnit,
    pub abc_method: u32,
    pub abc_method_body: Option<u32>,
    pub verified_info: Option<VerifiedMethodInfo>,
    pub signature: Seq<ParamConfig>,
    pub return_type: Option<TypeName>,
    pub is_function: bool,
    pub is_unchecked: bool,
}

impl View for BytecodeMethod {
    type V = BytecodeMethodView;

    open spec fn view(&self) -> BytecodeMethodView {
        BytecodeMethodView {
            txunit: self.txunit,
            abc_method: self.abc_method,
            abc_method_body: self.abc_method_body,
            verified_info: self.verified_info,
            signature: self.signature@,
            return_type: self.return_type,
            is_function: self.is_function,
            is_unchecked: self.is_unchecked,
        }
    }
}

impl BytecodeMethodView {
    /// The method entry of the container that this descriptor refers to.
    pub open spec fn entry(self) -> AbcMethod {
        self.txunit.abc.methods@[self.abc_method as int]
    }

    /// The descriptor agrees with its container: its index lies in the
    /// method table, it has one configuration for each declared parameter
    /// and the declared body, and `is_unchecked` is what the signature makes
    /// it.
    pub open spec fn wf(self) -> bool {
        &&& self.abc_method < self.txunit.abc.methods@.len()
        &&& self.abc_method_body == self.entry().body
        &&& self.signature.len() == self.entry().params@.len()
        &&& self.is_unchecked == (self.is_function && all_params_unchecked(self.signature))
    }

    /// The descriptor is the one that the method entry `abc_method` of
    /// `txunit` declares, given the evaluation context's `resolutions`. It
    /// is not verified.
    pub open spec fn declared_by(
        self,
        txunit: TranslationUnit,
        abc_method: u32,
        is_function: bool,
        resolutions: Seq<Resolution>,
    ) -> bool {
        let entry = txunit.abc.methods@[abc_method as int];
        &&& self.txunit == txunit
        &&& self.abc_method == abc_method
        &&& self.abc_method_body == entry.body
        &&& self.verified_info is None
        &&& self.signature == resolved_signature(entry.params@, resolutions)
        &&& self.return_type == type_name_at(
            resolutions,
            signature_requests(entry.params@).len() as int,
        )
        &&& self.is_function == is_function
        &&& self.is_unchecked == (is_function && all_params_unchecked(self.signature))
    }

    /// The descriptor after verification has found `info`.
    pub open spec fn verified(self, info: VerifiedMethodInfo) -> BytecodeMethodView {
        BytecodeMethodView { verified_info: Some(info), ..self }
    }

    /// The class of the return type that verification found. It means
    /// nothing before the method has been verified.
    pub open spec fn resolved_return_type(self) -> Option<Class> {
        self.verified_info.unwrap().return_type
    }

    /// The name of this method as the container gives it: empty where the
    /// entry has no name or its name index lies outside the string table.
    pub open spec fn method_name(self) -> Seq<char> {
        let name_index = self.entry().name;
        let strings = self.txunit.abc.constant_pool.strings@;
        if name_index == 0 || name_index - 1 >= strings.len() {
            Seq::empty()
        } else {
            utf8_lossy(strings[name_index - 1]@)
        }
    }

    /// The container declares the "needs rest" or the "needs arguments"
    /// flag for this method.
    pub open spec fn is_variadic(self) -> bool {
        needs_rest(self.entry().flags) || needs_arguments(self.entry().flags)
    }

    /// The container declares the "needs arguments" flag for this method.
    pub open spec fn needs_arguments_object(self) -> bool {
        needs_arguments(self.entry().flags)
    }
}

impl BytecodeMethod {
    /// The questions that constructing a descriptor for the method entry
    /// `abc_method` puts to the evaluation context, in order.
    ///
    /// Fails with the bounds error exactly if the index lies outside the
    /// method table.
    pub fn resolution_requests(txunit: &TranslationUnit, abc_method: u32) -> (result: Result<
        Vec<ResolutionRequest>,
        Error,
    >)
        ensures
            abc_method >= txunit.abc.methods@.len() ==> result == Err::<
                Vec<ResolutionRequest>,
                Error,
            >(Error::MethodInfoExceedsMethodCount),
            abc_method < txunit.abc.methods@.len() ==> result is Ok && result.unwrap()@
                == method_requests(txunit.abc.methods@[abc_method as int]),
    {
        if abc_method as usize >= txunit.abc.methods.len() {
            return Err(Error::MethodInfoExceedsMethodCount);
        }
        let method = &txunit.abc.methods[abc_method as usize];
        let mut requests: Vec<ResolutionRequest> = Vec::new();
        let mut i: usize = 0;
        assert(method.params@.take(0) == Seq::<AbcMethodParam>::empty());
        while i < method.params.len()
            invariant
                i <= method.params@.len(),
                requests@ == signature_requests(method.params@.take(i as int)),
            decreases method.params@.len() - i,
        {
            let param = &method.params[i];
            proof {
                lemma_take_step(method.params@, Seq::empty(), i as int);
            }
            requests.push(ResolutionRequest::TypeName(param.kind));
            if let Some(constant) = param.default_value {
                requests.push(ResolutionRequest::DefaultValue(constant));
            }
            i += 1;
        }
        assert(method.params@.take(i as int) == method.params@);
        requests.push(ResolutionRequest::TypeName(method.return_type));
        Ok(requests)
    }

    /// Constructs a descriptor for the method entry `abc_method` of `txunit`.
    ///
    /// `resolutions` holds the evaluation context's answers to
    /// `resolution_requests`, one for one. Fails with the bounds error
    /// exactly if the index lies outside the method table, whatever
    /// `resolutions` holds. The descriptor is not verified yet.
    pub fn from_method_index(
        txunit: TranslationUnit,
        abc_method: u32,
        is_function: bool,
        resolutions: &[Resolution],
    ) -> (result: Result<BytecodeMethod, Error>)
        requires
            abc_method < txunit.abc.methods@.len() ==> fits(
                method_requests(txunit.abc.methods@[abc_method as int]),
                resolutions@,
            ),
        ensures
            abc_method >= txunit.abc.methods@.len() ==> result == Err::<BytecodeMethod, Error>(
                Error::MethodInfoExceedsMethodCount,
            ),
            abc_method < txunit.abc.methods@.len() ==> {
                &&& result is Ok
                &&& result.unwrap()@.declared_by(txunit, abc_method, is_function, resolutions@)
                &&& result.unwrap()@.wf()
                &&& result.unwrap().signature@.len()
                    == txunit.abc.methods@[abc_method as int].params@.len()
            },
    {
        let abc = txunit.abc();
        if abc_method as usize >= abc.methods.len() {
            return Err(Error::MethodInfoExceedsMethodCount);
        }
        let method = &abc.methods[abc_method as usize];
        let ghost params = method.params@;

        let mut signature: Vec<ParamConfig> = Vec::new();
        let answers = resolutions.len();
        let mut at: usize = 0;
        let mut i: usize = 0;
        assert(params.take(0) == Seq::<AbcMethodParam>::empty());
        while i < method.params.len()
            invariant
                params == method.params@,
                answers == resolutions@.len(),
                i <= params.len(),
                at == signature_requests(params.take(i as int)).len(),
                signature@ == resolved_signature(params.take(i as int), resolutions@),
                resolutions@.len() == signature_requests(params).len() + 1,
            decreases params.len() - i,
        {
            let param = &method.params[i];
            proof {
                lemma_take_step(params, resolutions@, i as int);
                lemma_requests_prefix(params, i as int + 1);
            }
            signature.push(ParamConfig::from_abc_param(param, resolutions, at));
            let asked: usize = if param.default_value.is_some() {
                2
            } else {
                1
            };
            assert(signature_requests(params.take(i as int + 1)).len() == at + asked);
            assert(at + asked < answers);
            at = at + asked;
            i += 1;
        }
        assert(params.take(i as int) == params);

        let return_type = match resolutions[at] {
            Resolution::TypeName(name) => name,
            Resolution::DefaultValue(_) => None,
        };

        let abc_method_body = method.body;

        let unchecked = ParamConfig::all_unchecked(signature.as_slice());
        proof {
            lemma_resolved_signature_len(params, resolutions@);
        }

        Ok(
            BytecodeMethod {
                txunit,
                abc_method,
                abc_method_body,
                verified_info: None,
                signature,
                return_type,
                is_function,
                is_unchecked: is_function && unchecked,
            },
        )
    }

    /// Whether the descriptor agrees with its container. A descriptor that
    /// `from_method_index` made does, as long as its fields are left alone.
    pub fn is_well_formed(&self) -> (wf: bool)
        ensures
            wf == self@.wf(),
    {
        if self.abc_method as usize >= self.txunit.abc.methods.len() {
            return false;
        }
        let entry = &self.txunit.abc.methods[self.abc_method as usize];
        let same_body = match (self.abc_method_body, entry.body) {
            (Some(kept), Some(declared)) => kept == declared,
            (None, None) => true,
            _ => false,
        };
        let unchecked = self.is_function && ParamConfig::all_unchecked(self.signature.as_slice());
        same_body && self.signature.len() == entry.params.len() && self.is_unchecked == unchecked
    }

    /// Get the underlying bytecode container.
    pub fn abc(&self) -> (abc: Rc<AbcFile>)
        ensures
            abc == self.txunit.abc,
    {
        self.txunit.abc()
    }

    /// Get the underlying translation unit this method was defined in.
    pub fn translation_unit(&self) -> (txunit: TranslationUnit)
        ensures
            txunit == self.txunit,
    {
        self.txunit.clone()
    }

    /// Get a reference to the method entry this refers to.
    pub fn method(&self) -> (entry: &AbcMethod)
        requires
            self@.wf(),
        ensures
            *entry == self@.entry(),
    {
        &self.txunit.abc.methods[self.abc_method as usize]
    }

    /// Get the movie this method came from.
    pub fn owner_movie(&self) -> (movie: MovieHandle)
        ensures
            movie == self.txunit.movie,
    {
        self.txunit.movie()
    }

    /// Get a reference to the method body entry this refers to.
    ///
    /// Some methods do not have bodies, and a body index may lie outside the
    /// body table; this returns `None` in both cases.
    pub fn body(&self) -> (body: Option<&AbcMethodBody>)
        ensures
            match self.abc_method_body {
                Some(index) if index < self.txunit.abc.method_bodies@.len() => body == Some(
                    &self.txunit.abc.method_bodies@[index as int],
                ),
                _ => body is None,
            },
    {
        if let Some(abc_method_body) = self.abc_method_body {
            if (abc_method_body as usize) < self.txunit.abc.method_bodies.len() {
                Some(&self.txunit.abc.method_bodies[abc_method_body as usize])
            } else {
                None
            }
        } else {
            None
        }
    }

    /// Runs the deferred verification of the method behind `this`, given
    /// the `outcome` that the verifier reported for it.
    ///
    /// On success the descriptor keeps what the verifier found, in place of
    /// anything it kept before; every handle to the descriptor sees it. On
    /// failure the error is handed on and the arena is left as it was.
    /// Nothing stops a second run: its outcome alone decides its result.
    pub fn verify(
        this: BytecodeHandle,
        arena: &mut MethodArena,
        outcome: Result<VerifiedMethodInfo, Error>,
    ) -> (result: Result<(), Error>)
        requires
            old(arena)@.has_bytecode(this),
        ensures
            final(arena)@ == old(arena)@.verify(this, outcome),
            old(arena)@.wf() ==> final(arena)@.wf(),
            result == match outcome {
                Ok(_) => Ok::<(), Error>(()),
                Err(error) => Err::<(), Error>(error),
            },
    {
        match outcome {
            Ok(info) => {
                arena.store_verified_info(this, info);
                Ok(())
            },
            Err(error) => Err(error),
        }
    }

    /// Get the list of method params for this method.
    pub fn signature(&self) -> (signature: &[ParamConfig])
        ensures
            signature@ == self@.signature,
    {
        self.signature.as_slice()
    }

    /// The class of the return type that verification found.
    ///
    /// To ask before the method has been verified is an error of the caller.
    pub fn resolved_return_type(&self) -> (class: Option<Class>)
        requires
            self@.verified_info is Some,
        ensures
            class == self@.resolved_return_type(),
    {
        self.verified_info.unwrap().return_type
    }

    /// Get the name of this method.
    pub fn method_name(&self) -> (name: String)
        requires
            self@.wf(),
        ensures
            name@ == self@.method_name(),
    {
        let name_index = self.method().name as usize;
        if name_index == 0 {
            return String::new();
        }
        let strings = &self.txunit.abc.constant_pool.strings;
        if name_index - 1 < strings.len() {
            from_utf8_lossy(strings[name_index - 1].as_slice())
        } else {
            String::new()
        }
    }

    /// Determine if a given method is variadic.
    ///
    /// Variadic methods shove excess parameters into a final register.
    pub fn is_variadic(&self) -> (variadic: bool)
        requires
            self@.wf(),
        ensures
            variadic == self@.is_variadic(),
    {
        self.method().needs_rest_or_arguments()
    }

    /// Determine if a given method is unchecked.
    ///
    /// A method is unchecked if both of the following are true:
    ///
    ///  * The method was declared as a free-standing function
    ///  * The function's parameters have no declared types or default values
    pub fn is_unchecked(&self) -> (unchecked: bool)
        ensures
            unchecked == self@.is_unchecked,
            self@.wf() ==> unchecked == (self@.is_function && all_params_unchecked(
                self@.signature,
            )),
    {
        self.is_unchecked
    }
}

/// Names the routine that executes a native method.
#[derive(Clone, Copy, Debug, PartialEq, Eq, Structural)]
pub enum NativeMethodImpl {
    /// The instance initializer of the class of global scopes.
    GlobalInstanceInit,
    /// The instance initializer of the class of `null`, which is never run.
    NullInit,
    /// A routine of the interpreter, by the number it is registered under.
    Hosted(u32),
}

/// An uninstantiated method hosted by the interpreter.
#[derive(Debug)]
pub struct NativeMethod {
    /// The routine to call to execute the method.
    pub method: NativeMethodImpl,
    /// The name of the method.
    pub name: &'static str,
    /// The parameter signature of the method.
    pub signature: Vec<ParamConfig>,
    /// The resolved parameter signature of the method; `None` until the
    /// signature has been resolved.
    pub resolved_signature: Option<Vec<ResolvedParamConfig>>,
    /// The return type of this method, or `None` if the method does not
    /// coerce its return value.
    pub return_type: Option<TypeName>,
    /// Whether or not this method accepts parameters beyond those mentioned
    /// in the parameter list.
    pub is_variadic: bool,
}

/// A native method descriptor as a mathematical value.
pub struct NativeMethodView {
    pub method: NativeMethodImpl,
    pub name: Seq<char>,
    pub signature: Seq<ParamConfig>,
    pub resolved_signature: Option<Seq<ResolvedParamConfig>>,
    pub return_type: Option<TypeName>,
    pub is_variadic: bool,
}

impl View for NativeMethod {
    type V = NativeMethodView;

    open spec fn view(&self) -> NativeMethodView {
        NativeMethodView {
            method: self.method,
            name: self.name@,
            signature: self.signature@,
            resolved_signature: match self.resolved_signature {
                Some(resolved) => Some(resolved@),
                None => None,
            },
            return_type: self.return_type,
            is_variadic: self.is_variadic,
        }
    }
}

impl NativeMethodView {
    /// The descriptor after its signature has been resolved to `resolved`.
    pub open spec fn resolved(self, resolved: Seq<ResolvedParamConfig>) -> NativeMethodView {
        NativeMethodView { resolved_signature: Some(resolved), ..self }
    }
}

impl NativeMethod {
    /// Resolves the declared signature of the method behind `this` against
    /// `domain`.
    ///
    /// Succeeds exactly if every declared type name resolves. The
    /// descriptor then keeps the resolved signature, in place of any it
    /// kept before: one entry for each parameter, in the declared order.
    /// Otherwise the error names the first type name that does not resolve,
    /// and the arena is left as it was.
    pub fn resolve_signature(this: NativeHandle, arena: &mut MethodArena, domain: &ClassDomain) -> (result:
        Result<(), Error>)
        requires
            old(arena)@.has_native(this),
        ensures
            final(arena)@ == old(arena)@.resolve_signature(this, domain@),
            final(arena)@.bytecodes == old(arena)@.bytecodes,
            result == match resolution_of(domain@, old(arena)@.native_at(this).signature) {
                Ok(_) => Ok::<(), Error>(()),
                Err(error) => Err::<(), Error>(error),
            },
    {
        let resolved = resolve_param_config(domain, arena.native(this).signature.as_slice());
        match resolved {
            Ok(resolved) => {
                arena.store_resolved_signature(this, resolved);
                Ok(())
            },
            Err(error) => Err(error),
        }
    }
}

/// An uninstantiated method that can either be natively implemented or
/// sourced from a bytecode container.
#[derive(Clone, Copy, Debug, PartialEq, Eq, Structural)]
pub enum Method {
    /// A native method.
    Native(NativeHandle),
    /// A method entry of a bytecode container.
    Bytecode(BytecodeHandle),
}

impl From<BytecodeHandle> for Method {
    fn from(bm: BytecodeHandle) -> (method: Method) {
        Method::Bytecode(bm)
    }
}

impl FromSpecImpl<BytecodeHandle> for Method {
    open spec fn obeys_from_spec() -> bool {
        true
    }

    open spec fn from_spec(bm: BytecodeHandle) -> Method {
        Method::Bytecode(bm)
    }
}

impl Method {
    /// The handle refers to a descriptor of `arena`.
    pub open spec fn valid_in(self, arena: MethodArenaView) -> bool {
        match self {
            Method::Native(nm) => arena.has_native(nm),
            Method::Bytecode(bm) => arena.has_bytecode(bm),
        }
    }

    /// The bytecode descriptor behind the handle, if it is one.
    pub open spec fn spec_into_bytecode(self) -> Option<BytecodeHandle> {
        match self {
            Method::Native(_) => None,
            Method::Bytecode(bm) => Some(bm),
        }
    }

    /// The declared return type name of the method.
    pub open spec fn spec_return_type(self, arena: MethodArenaView) -> Option<TypeName> {
        match self {
            Method::Native(nm) => arena.native_at(nm).return_type,
            Method::Bytecode(bm) => arena.bytecode_at(bm).return_type,
        }
    }

    /// The declared signature of the method.
    pub open spec fn spec_signature(self, arena: MethodArenaView) -> Seq<ParamConfig> {
        match self {
            Method::Native(nm) => arena.native_at(nm).signature,
            Method::Bytecode(bm) => arena.bytecode_at(bm).signature,
        }
    }

    /// The method accepts more arguments than it declares: a native method
    /// by the flag it was constructed with, a bytecode method by the flags
    /// that its container declares.
    pub open spec fn spec_is_variadic(self, arena: MethodArenaView) -> bool {
        match self {
            Method::Native(nm) => arena.native_at(nm).is_variadic,
            Method::Bytecode(bm) => arena.bytecode_at(bm).is_variadic(),
        }
    }

    /// The method asks for the legacy `arguments` object: never a native
    /// method, a bytecode method by the flag that its container declares.
    pub open spec fn spec_needs_arguments_object(self, arena: MethodArenaView) -> bool {
        match self {
            Method::Native(_) => false,
            Method::Bytecode(bm) => arena.bytecode_at(bm).needs_arguments_object(),
        }
    }

    /// Define a builtin method with a particular param configuration.
    pub fn from_builtin_and_params(
        method: NativeMethodImpl,
        name: &'static str,
        signature: Vec<ParamConfig>,
        return_type: Option<TypeName>,
        is_variadic: bool,
        mc: &mut MethodArena,
    ) -> (handle: Method)
        ensures
            handle is Native,
            handle->Native_0.slot() == old(mc)@.natives.len(),
            final(mc)@ == old(mc)@.alloc_native(
                (NativeMethodView {
                    method,
                    name: name@,
                    signature: signature@,
                    resolved_signature: None,
                    return_type,
                    is_variadic,
                }),
            ),
            old(mc)@.wf() ==> final(mc)@.wf(),
            handle.valid_in(final(mc)@),
            handle.spec_signature(final(mc)@) == signature@,
            handle.spec_return_type(final(mc)@) == return_type,
            handle.spec_is_variadic(final(mc)@) == is_variadic,
            !handle.spec_needs_arguments_object(final(mc)@),
    {
        Method::Native(
            mc.alloc_native(
                NativeMethod {
                    method,
                    name,
                    signature,
                    resolved_signature: None,
                    return_type,
                    is_variadic,
                },
            ),
        )
    }

    /// Define a builtin with no parameter constraints: no declared
    /// parameters, no coercion of its result, any number of arguments.
    pub fn from_builtin(method: NativeMethodImpl, name: &'static str, mc: &mut MethodArena) -> (handle:
        Method)
        ensures
            handle is Native,
            handle->Native_0.slot() == old(mc)@.natives.len(),
            final(mc)@ == old(mc)@.alloc_native(
                (NativeMethodView {
                    method,
                    name: name@,
                    signature: Seq::empty(),
                    resolved_signature: None,
                    return_type: None,
                    is_variadic: true,
                }),
            ),
            old(mc)@.wf() ==> final(mc)@.wf(),
            handle.valid_in(final(mc)@),
            handle.spec_signature(final(mc)@) == Seq::<ParamConfig>::empty(),
            handle.spec_return_type(final(mc)@) is None,
            handle.spec_is_variadic(final(mc)@),
            !handle.spec_needs_arguments_object(final(mc)@),
    {
        Method::Native(
            mc.alloc_native(
                NativeMethod {
                    method,
                    name,
                    signature: Vec::new(),
                    resolved_signature: None,
                    return_type: None,
                    is_variadic: true,
                },
            ),
        )
    }

    /// Access the bytecode of this method.
    ///
    /// This function returns `None` if this is a native method.
    pub fn into_bytecode(self) -> (bm: Option<BytecodeHandle>)
        ensures
            bm == self.spec_into_bytecode(),
    {
        match self {
            Method::Native(_) => None,
            Method::Bytecode(bm) => Some(bm),
        }
    }

    /// The declared return type name, or `None` if the method does not
    /// coerce its result.
    pub fn return_type(&self, arena: &MethodArena) -> (return_type: Option<TypeName>)
        requires
            self.valid_in(arena@),
        ensures
            return_type == self.spec_return_type(arena@),
    {
        match self {
            Method::Native(nm) => arena.native(*nm).return_type,
            Method::Bytecode(bm) => arena.bytecode(*bm).return_type,
        }
    }

    /// The declared parameter list.
    pub fn signature<'a>(&self, arena: &'a MethodArena) -> (signature: &'a [ParamConfig])
        requires
            self.valid_in(arena@),
        ensures
            signature@ == self.spec_signature(arena@),
    {
        match self {
            Method::Native(nm) => arena.native(*nm).signature.as_slice(),
            Method::Bytecode(bm) => arena.bytecode(*bm).signature(),
        }
    }

    /// Whether the method accepts more arguments than it declares.
    pub fn is_variadic(&self, arena: &MethodArena) -> (variadic: bool)
        requires
            arena@.wf(),
            self.valid_in(arena@),
        ensures
            variadic == self.spec_is_variadic(arena@),
    {
        match self {
            Method::Native(nm) => arena.native(*nm).is_variadic,
            Method::Bytecode(bm) => arena.bytecode(*bm).is_variadic(),
        }
    }

    /// Check if this method needs `arguments`.
    pub fn needs_arguments_object(&self, arena: &MethodArena) -> (needed: bool)
        requires
            arena@.wf(),
            self.valid_in(arena@),
        ensures
            needed == self.spec_needs_arguments_object(arena@),
    {
        match self {
            Method::Native(_) => false,
            Method::Bytecode(bm) => arena.bytecode(*bm).method().needs_arguments(),
        }
    }
}

} // verus!
