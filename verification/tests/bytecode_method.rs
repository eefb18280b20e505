use std::rc::Rc;

use swf::avm2::types::MethodFlags;

use avm2_method::abc::{
    AbcFile, AbcMethod, AbcMethodBody, AbcMethodParam, ConstantPool, DefaultValue,
};
use avm2_method::arena::MethodArena;
use avm2_method::error::Error;
use avm2_method::method::{BytecodeMethod, Method, ParamConfig};
use avm2_method::script::TranslationUnit;
use avm2_method::signature::{resolutions_fit, Resolution, ResolutionRequest};
use avm2_method::value::{Class, MovieHandle, TypeName, Value};
use avm2_method::verify::VerifiedMethodInfo;

fn param(kind: u32, default_value: Option<DefaultValue>) -> AbcMethodParam {
    AbcMethodParam { kind, default_value }
}

fn method(name: u32, params: Vec<AbcMethodParam>, flags: u8, body: Option<u32>) -> AbcMethod {
    AbcMethod { name, params, return_type: 9, flags, body }
}

fn body(method: u32) -> AbcMethodBody {
    AbcMethodBody {
        method,
        max_stack: 1,
        num_locals: 1,
        init_scope_depth: 0,
        max_scope_depth: 1,
        code: vec![0xd0, 0x30, 0x47],
    }
}

fn unit(methods: Vec<AbcMethod>) -> TranslationUnit {
    let abc = AbcFile {
        constant_pool: ConstantPool {
            strings: vec![b"run".to_vec(), vec![0x66, 0xff, 0x6f], "h\u{e9}".as_bytes().to_vec()],
        },
        methods,
        method_bodies: vec![body(0)],
    };
    TranslationUnit::new(Rc::new(abc), MovieHandle { id: 3 })
}

fn name(id: u32) -> Option<TypeName> {
    Some(TypeName { id })
}

fn untyped(count: usize) -> Vec<Resolution> {
    vec![Resolution::TypeName(None); count + 1]
}

#[test]
fn valid_index_constructs_with_declared_parameter_count() {
    let txunit = unit(vec![
        method(0, vec![], 0, None),
        method(
            1,
            vec![param(4, None), param(5, Some(DefaultValue::Int(2))), param(0, None)],
            0,
            Some(0),
        ),
    ]);
    let resolutions = vec![
        Resolution::TypeName(name(40)),
        Resolution::TypeName(name(50)),
        Resolution::DefaultValue(Value::Integer(7)),
        Resolution::TypeName(None),
        Resolution::TypeName(name(90)),
    ];
    let requests = BytecodeMethod::resolution_requests(&txunit, 1).unwrap();
    assert!(resolutions_fit(&requests, &resolutions));

    let made = BytecodeMethod::from_method_index(txunit.clone(), 1, false, &resolutions).unwrap();
    assert_eq!(made.signature().len(), 3);
    assert_eq!(
        made.signature().to_vec(),
        vec![
            ParamConfig { param_type_name: name(40), default_value: None },
            ParamConfig { param_type_name: name(50), default_value: Some(Value::Integer(7)) },
            ParamConfig { param_type_name: None, default_value: None },
        ]
    );
    assert_eq!(made.return_type, name(90));
    assert_eq!(made.abc_method, 1);
    assert_eq!(made.abc_method_body, Some(0));
    assert!(made.verified_info.is_none());
    assert!(!made.is_function);
    assert!(made.is_well_formed());

    let empty = BytecodeMethod::from_method_index(txunit, 0, true, &untyped(0)).unwrap();
    assert_eq!(empty.signature().len(), 0);
    assert_eq!(empty.return_type, None);
    assert_eq!(empty.abc_method_body, None);
}

#[test]
fn requests_ask_for_each_type_then_its_default_then_the_return_type() {
    let txunit = unit(vec![method(
        0,
        vec![param(4, None), param(5, Some(DefaultValue::True)), param(6, Some(DefaultValue::String(2)))],
        0,
        None,
    )]);
    assert_eq!(
        BytecodeMethod::resolution_requests(&txunit, 0).unwrap(),
        vec![
            ResolutionRequest::TypeName(4),
            ResolutionRequest::TypeName(5),
            ResolutionRequest::DefaultValue(DefaultValue::True),
            ResolutionRequest::TypeName(6),
            ResolutionRequest::DefaultValue(DefaultValue::String(2)),
            ResolutionRequest::TypeName(9),
        ]
    );
    assert_eq!(
        BytecodeMethod::resolution_requests(&txunit, 1),
        Err(Error::MethodInfoExceedsMethodCount)
    );
}

#[test]
fn resolutions_of_the_wrong_kind_or_number_do_not_fit() {
    let requests =
        vec![ResolutionRequest::TypeName(1), ResolutionRequest::DefaultValue(DefaultValue::Null)];
    let good = vec![Resolution::TypeName(None), Resolution::DefaultValue(Value::Null)];
    let swapped = vec![Resolution::DefaultValue(Value::Null), Resolution::TypeName(None)];
    let short = vec![Resolution::TypeName(None)];
    assert!(resolutions_fit(&requests, &good));
    assert!(!resolutions_fit(&requests, &swapped));
    assert!(!resolutions_fit(&requests, &short));
    assert!(resolutions_fit(&[], &[]));
}

#[test]
fn out_of_range_index_is_the_bounds_error() {
    let txunit = unit(vec![method(0, vec![], 0, None), method(0, vec![param(1, None)], 0, None)]);
    for index in [2u32, 3, 1000, u32::MAX] {
        for resolutions in [vec![], untyped(0), untyped(1)] {
            let result = BytecodeMethod::from_method_index(txunit.clone(), index, true, &resolutions);
            assert_eq!(result.err(), Some(Error::MethodInfoExceedsMethodCount));
        }
    }
    let no_methods = unit(vec![]);
    let result = BytecodeMethod::from_method_index(no_methods, 0, false, &[]);
    assert_eq!(result.err(), Some(Error::MethodInfoExceedsMethodCount));
}

#[test]
fn bounds_error_has_its_code_and_message() {
    let error = Error::MethodInfoExceedsMethodCount;
    assert_eq!(error.verify_error_code(), Some(1027));
    assert_eq!(
        error.verify_error_message(),
        Some("Error #1027: Method_info exceeds method_count.")
    );
    let other = Error::UnresolvedTypeName(TypeName { id: 1 });
    assert_eq!(other.verify_error_code(), None);
    assert_eq!(other.verify_error_message(), None);
    let thrown = Error::AvmError(Value::Object(4));
    assert_eq!(thrown.verify_error_code(), None);
    assert_eq!(thrown.verify_error_message(), None);
}

#[test]
fn unchecked_needs_a_function_without_types_or_defaults() {
    let txunit = unit(vec![
        method(0, vec![param(0, None), param(0, None)], 0, None),
        method(0, vec![param(7, None)], 0, None),
        method(0, vec![param(0, Some(DefaultValue::Undefined))], 0, None),
    ]);
    // function (a, b)
    let free = BytecodeMethod::from_method_index(txunit.clone(), 0, true, &untyped(2)).unwrap();
    assert!(free.is_unchecked());
    assert!(free.is_unchecked);
    // the same parameters on a class member
    let member = BytecodeMethod::from_method_index(txunit.clone(), 0, false, &untyped(2)).unwrap();
    assert!(!member.is_unchecked());
    // function (a: Number)
    let typed = BytecodeMethod::from_method_index(
        txunit.clone(),
        1,
        true,
        &[Resolution::TypeName(name(70)), Resolution::TypeName(None)],
    )
    .unwrap();
    assert!(!typed.is_unchecked());
    // function (a = undefined)
    let defaulted = BytecodeMethod::from_method_index(
        txunit.clone(),
        2,
        true,
        &[
            Resolution::TypeName(None),
            Resolution::DefaultValue(Value::Undefined),
            Resolution::TypeName(None),
        ],
    )
    .unwrap();
    assert!(!defaulted.is_unchecked());
    // a declared return type does not matter
    let returns = BytecodeMethod::from_method_index(
        txunit,
        0,
        true,
        &[Resolution::TypeName(None), Resolution::TypeName(None), Resolution::TypeName(name(1))],
    )
    .unwrap();
    assert!(returns.is_unchecked());
    assert!(ParamConfig::all_unchecked(&[]));
}

#[test]
fn variadic_follows_the_rest_and_arguments_flags() {
    let flags: [(u8, bool, bool); 8] = [
        (0x00, false, false),
        (0x01, true, true),
        (0x04, true, false),
        (0x05, true, true),
        (0x02, false, false),
        (0xfa, false, false),
        (0xfb, true, true),
        (0xfe, true, false),
    ];
    let txunit = unit(flags.iter().map(|(bits, _, _)| method(0, vec![], *bits, None)).collect());
    let mut arena = MethodArena::new();
    for (index, (_, variadic, arguments)) in flags.iter().enumerate() {
        let made =
            BytecodeMethod::from_method_index(txunit.clone(), index as u32, false, &untyped(0))
                .unwrap();
        assert_eq!(made.is_variadic(), *variadic);
        assert_eq!(made.method().needs_arguments(), *arguments);
        let handle = Method::from(arena.alloc_bytecode(made));
        assert_eq!(handle.is_variadic(&arena), *variadic);
        assert_eq!(handle.needs_arguments_object(&arena), *arguments);
    }
}

#[test]
fn flags_agree_with_the_container_format() {
    let entry = |flags: MethodFlags| method(0, vec![], flags.bits(), None);
    assert!(entry(MethodFlags::NEED_ARGUMENTS).needs_arguments());
    assert!(entry(MethodFlags::NEED_ARGUMENTS).needs_rest_or_arguments());
    assert!(entry(MethodFlags::NEED_REST).needs_rest_or_arguments());
    assert!(!entry(MethodFlags::NEED_REST).needs_arguments());
    let others = MethodFlags::all() - MethodFlags::NEED_ARGUMENTS - MethodFlags::NEED_REST;
    assert!(!entry(others).needs_rest_or_arguments());
    assert!(!entry(others).needs_arguments());
}

#[test]
fn method_name_reads_the_string_table() {
    let txunit = unit(vec![
        method(0, vec![], 0, None),
        method(1, vec![], 0, None),
        method(2, vec![], 0, None),
        method(3, vec![], 0, None),
        method(4, vec![], 0, None),
        method(u32::MAX, vec![], 0, None),
    ]);
    let name_of = |index: u32| {
        BytecodeMethod::from_method_index(txunit.clone(), index, false, &untyped(0))
            .unwrap()
            .method_name()
    };
    assert_eq!(name_of(0), "");
    assert_eq!(name_of(1), "run");
    assert_eq!(name_of(2), "f\u{fffd}o");
    assert_eq!(name_of(3), "h\u{e9}");
    assert_eq!(name_of(4), "");
    assert_eq!(name_of(5), "");
}

#[test]
fn body_is_found_by_its_index() {
    let txunit = unit(vec![
        method(0, vec![], 0, Some(0)),
        method(0, vec![], 0, None),
        method(0, vec![], 0, Some(1)),
    ]);
    let with_body = BytecodeMethod::from_method_index(txunit.clone(), 0, false, &untyped(0)).unwrap();
    assert_eq!(with_body.body().map(|b| b.code.clone()), Some(vec![0xd0, 0x30, 0x47]));
    assert_eq!(with_body.method().body, Some(0));
    let without = BytecodeMethod::from_method_index(txunit.clone(), 1, false, &untyped(0)).unwrap();
    assert!(without.body().is_none());
    let beyond = BytecodeMethod::from_method_index(txunit.clone(), 2, false, &untyped(0)).unwrap();
    assert_eq!(beyond.abc_method_body, Some(1));
    assert!(beyond.body().is_none());
    assert_eq!(beyond.owner_movie(), MovieHandle { id: 3 });
    assert_eq!(beyond.translation_unit().movie(), MovieHandle { id: 3 });
    assert!(Rc::ptr_eq(&beyond.abc(), &txunit.abc()));
}

#[test]
fn a_changed_descriptor_is_not_well_formed() {
    let txunit = unit(vec![method(0, vec![param(0, None)], 0, Some(0))]);
    let fresh = || BytecodeMethod::from_method_index(txunit.clone(), 0, true, &untyped(1)).unwrap();
    assert!(fresh().is_well_formed());
    let mut moved = fresh();
    moved.abc_method = 1;
    assert!(!moved.is_well_formed());
    let mut bodiless = fresh();
    bodiless.abc_method_body = None;
    assert!(!bodiless.is_well_formed());
    let mut longer = fresh();
    longer.signature.push(ParamConfig { param_type_name: None, default_value: None });
    assert!(!longer.is_well_formed());
    let mut checked = fresh();
    checked.is_unchecked = false;
    assert!(!checked.is_well_formed());
}

#[test]
fn successful_verification_is_read_back_every_time() {
    let txunit = unit(vec![method(0, vec![], 0, None), method(0, vec![], 0, None)]);
    let mut arena = MethodArena::new();
    let first =
        arena.alloc_bytecode(BytecodeMethod::from_method_index(txunit.clone(), 0, false, &untyped(0)).unwrap());
    let second =
        arena.alloc_bytecode(BytecodeMethod::from_method_index(txunit, 1, false, &untyped(0)).unwrap());

    let found = VerifiedMethodInfo { return_type: Some(Class { id: 12 }) };
    assert_eq!(BytecodeMethod::verify(first, &mut arena, Ok(found)), Ok(()));
    for _ in 0..3 {
        assert_eq!(arena.bytecode(first).resolved_return_type(), Some(Class { id: 12 }));
    }
    assert!(arena.bytecode(second).verified_info.is_none());

    // verifying another method, or failing to verify this one again, changes nothing
    assert_eq!(
        BytecodeMethod::verify(second, &mut arena, Ok(VerifiedMethodInfo { return_type: None })),
        Ok(())
    );
    assert_eq!(
        BytecodeMethod::verify(first, &mut arena, Err(Error::AvmError(Value::Object(1)))),
        Err(Error::AvmError(Value::Object(1)))
    );
    assert_eq!(arena.bytecode(first).resolved_return_type(), Some(Class { id: 12 }));
    assert_eq!(arena.bytecode(second).resolved_return_type(), None);

    // a second success overwrites the first
    let again = VerifiedMethodInfo { return_type: Some(Class { id: 13 }) };
    assert_eq!(BytecodeMethod::verify(first, &mut arena, Ok(again)), Ok(()));
    assert_eq!(arena.bytecode(first).resolved_return_type(), Some(Class { id: 13 }));
}

#[test]
fn failed_verification_leaves_the_cache_empty() {
    let txunit = unit(vec![method(0, vec![], 0, None)]);
    let mut arena = MethodArena::new();
    let this =
        arena.alloc_bytecode(BytecodeMethod::from_method_index(txunit, 0, false, &untyped(0)).unwrap());

    let error = Error::AvmError(Value::Object(77));
    assert_eq!(BytecodeMethod::verify(this, &mut arena, Err(error)), Err(error));
    assert!(arena.bytecode(this).verified_info.is_none());
    assert_eq!(BytecodeMethod::verify(this, &mut arena, Err(error)), Err(error));
    assert!(arena.bytecode(this).verified_info.is_none());

    // the next attempt is decided by its own outcome
    let found = VerifiedMethodInfo { return_type: Some(Class { id: 5 }) };
    assert_eq!(BytecodeMethod::verify(this, &mut arena, Ok(found)), Ok(()));
    assert_eq!(arena.bytecode(this).verified_info, Some(found));
}

#[test]
fn handles_to_one_descriptor_share_its_cache() {
    let txunit = unit(vec![method(0, vec![param(3, None)], 0x04, None)]);
    let mut arena = MethodArena::new();
    let made = BytecodeMethod::from_method_index(
        txunit,
        0,
        false,
        &[Resolution::TypeName(name(30)), Resolution::TypeName(name(31))],
    )
    .unwrap();
    let descriptor = arena.alloc_bytecode(made);
    let one = Method::Bytecode(descriptor);
    let other = Method::from(descriptor);
    assert_eq!(one, other);
    assert!(arena.contains_bytecode(descriptor));

    let found = VerifiedMethodInfo { return_type: Some(Class { id: 8 }) };
    assert_eq!(BytecodeMethod::verify(one.into_bytecode().unwrap(), &mut arena, Ok(found)), Ok(()));
    let seen = arena.bytecode(other.into_bytecode().unwrap());
    assert_eq!(seen.verified_info, Some(found));
    assert_eq!(seen.resolved_return_type(), Some(Class { id: 8 }));

    // the declaration reads as before
    assert_eq!(other.signature(&arena).to_vec(), vec![ParamConfig {
        param_type_name: name(30),
        default_value: None
    }]);
    assert_eq!(other.return_type(&arena), name(31));
    assert!(other.is_variadic(&arena));
    assert!(!other.needs_arguments_object(&arena));
}
