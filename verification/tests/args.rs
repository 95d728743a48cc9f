use resynth::args::{ArgSpec, ArgVec};
use resynth::err::Error;
use resynth::libapi::{ArgDecl, ArgDesc, FuncDef};
use resynth::stdlib::FuncId;
use resynth::strbuf::Buf;
use resynth::val::{Val, ValDef, ValType};

fn plain() -> FuncDef {
    FuncDef {
        name: "PLAIN",
        return_type: ValType::Void,
        args: vec![
            ArgDesc { name: "a", typ: ArgDecl::Positional(ValType::U64) },
            ArgDesc { name: "b", typ: ArgDecl::Positional(ValType::Str) },
            ArgDesc { name: "c", typ: ArgDecl::Optional(ValDef::U64(123)) },
            ArgDesc {
                name: "d",
                typ: ArgDecl::Optional(ValDef::Str(Buf::from_slice(b"hello"))),
            },
            ArgDesc { name: "e", typ: ArgDecl::Optional(ValDef::Type(ValType::Bool)) },
        ],
        min_args: 2,
        collect_type: ValType::Void,
        body: FuncId::TextConcat,
    }
}

fn collect() -> FuncDef {
    FuncDef {
        name: "COLLECT",
        return_type: ValType::Void,
        args: vec![
            ArgDesc { name: "a", typ: ArgDecl::Positional(ValType::U64) },
            ArgDesc { name: "b", typ: ArgDecl::Optional(ValDef::U64(123)) },
        ],
        min_args: 1,
        collect_type: ValType::Str,
        body: FuncId::TextConcat,
    }
}

fn empty() -> FuncDef {
    FuncDef {
        name: "COLLECT",
        return_type: ValType::Void,
        args: vec![],
        min_args: 0,
        collect_type: ValType::Str,
        body: FuncId::TextConcat,
    }
}

fn named() -> FuncDef {
    FuncDef {
        name: "NAMED",
        return_type: ValType::Void,
        args: vec![
            ArgDesc { name: "a", typ: ArgDecl::Optional(ValDef::U64(123)) },
            ArgDesc {
                name: "b",
                typ: ArgDecl::Optional(ValDef::Str(Buf::from_slice(b"hello"))),
            },
            ArgDesc { name: "c", typ: ArgDecl::Optional(ValDef::Bool(true)) },
        ],
        min_args: 0,
        collect_type: ValType::Void,
        body: FuncId::TextConcat,
    }
}

fn optional_collect_str() -> FuncDef {
    FuncDef {
        name: "OPTIONAL_COLLECT_STR",
        return_type: ValType::Void,
        args: vec![
            ArgDesc { name: "a", typ: ArgDecl::Optional(ValDef::Bool(true)) },
            ArgDesc { name: "b", typ: ArgDecl::Optional(ValDef::U64(123)) },
            ArgDesc {
                name: "c",
                typ: ArgDecl::Optional(ValDef::Str(Buf::from_slice(b"hello"))),
            },
        ],
        min_args: 0,
        collect_type: ValType::Str,
        body: FuncId::TextConcat,
    }
}

fn optional_collect_u64() -> FuncDef {
    FuncDef {
        name: "OPTIONAL_COLLECT_U64",
        return_type: ValType::Void,
        args: vec![
            ArgDesc { name: "a", typ: ArgDecl::Optional(ValDef::U64(123)) },
            ArgDesc {
                name: "b",
                typ: ArgDecl::Optional(ValDef::Str(Buf::from_slice(b"hello"))),
            },
            ArgDesc { name: "c", typ: ArgDecl::Optional(ValDef::Bool(true)) },
        ],
        min_args: 0,
        collect_type: ValType::U64,
        body: FuncId::TextConcat,
    }
}

fn anon(v: Val) -> ArgSpec {
    ArgSpec::anon(v)
}

fn named_arg(n: &str, v: Val) -> ArgSpec {
    ArgSpec::named(n, v)
}

/// Just supply the positional arguments
#[test]
fn argvec_simple() {
    let args = vec![anon(Val::U64(1)), anon(Val::str(b"pos"))];
    assert_eq!(
        Ok(ArgVec::new(
            None,
            vec![
                Val::U64(1),
                Val::str(b"pos"),
                Val::U64(123),
                Val::str(b"hello"),
                Val::Nil,
            ],
            vec![],
        )),
        plain().argvec(None, args)
    )
}

/// Supply a nullable argument
#[test]
fn argvec_nullable() {
    let args = vec![
        anon(Val::U64(1)),
        anon(Val::str(b"pos")),
        named_arg("e", Val::Bool(true)),
    ];
    assert_eq!(
        Ok(ArgVec::new(
            None,
            vec![
                Val::U64(1),
                Val::str(b"pos"),
                Val::U64(123),
                Val::str(b"hello"),
                Val::Bool(true),
            ],
            vec![],
        )),
        plain().argvec(None, args)
    )
}

/// Supply a type-mismatched positional argument
#[test]
fn argvec_type_mismatch_1() {
    let args = vec![anon(Val::U64(1)), anon(Val::Bool(true))];
    assert_eq!(Err(Error::TypeError), plain().argvec(None, args))
}

/// Supply a type-mismatched positional argument
#[test]
fn argvec_type_mismatch_2() {
    let args = vec![anon(Val::U64(1)), named_arg("b", Val::Bool(true))];
    assert_eq!(Err(Error::TypeError), plain().argvec(None, args))
}

/// Supply a type-mismatched named argument
#[test]
fn argvec_type_mismatch_3() {
    let args = vec![
        anon(Val::U64(1)),
        anon(Val::str(b"hello")),
        named_arg("c", Val::U64(3)),
        named_arg("d", Val::Bool(true)),
    ];
    assert_eq!(Err(Error::TypeError), plain().argvec(None, args))
}

/// Positional arguments can optionally be named
#[test]
fn argvec_named_positionals() {
    let args = vec![
        named_arg("a", Val::U64(0)),
        named_arg("b", Val::str(b"goodbye")),
    ];
    assert_eq!(
        Ok(ArgVec::new(
            None,
            vec![
                Val::U64(0),
                Val::str(b"goodbye"),
                Val::U64(123),
                Val::str(b"hello"),
                Val::Nil,
            ],
            vec![],
        )),
        plain().argvec(None, args),
    )
}

/// Supply too many positionals: ie. positionally supply a named argument
#[test]
fn argvec_too_many_positionals() {
    let args = vec![
        anon(Val::U64(1)),
        anon(Val::str(b"pos")),
        anon(Val::U64(2)),
    ];
    assert_eq!(
        Ok(ArgVec::new(
            None,
            vec![
                Val::U64(1),
                Val::str(b"pos"),
                Val::U64(2),
                Val::str(b"hello"),
                Val::Nil,
            ],
            vec![],
        )),
        plain().argvec(None, args),
    )
}

/// Supply not enough arguments
#[test]
fn argvec_not_enough_args() {
    let args = vec![anon(Val::U64(1))];
    assert_eq!(Err(Error::TypeError), plain().argvec(None, args),)
}

/// Specify a positional argument positionally, and also by name
#[test]
fn argvec_multiple_positional() {
    let args = vec![
        anon(Val::U64(1)),
        anon(Val::str(b"hello")),
        named_arg("a", Val::U64(2)),
    ];
    assert_eq!(Err(Error::TypeError), plain().argvec(None, args),)
}

/// Specify an optional argument positionally, and also by name
#[test]
fn argvec_multiple_optional() {
    let args = vec![
        anon(Val::U64(1)),
        anon(Val::str(b"hello")),
        anon(Val::U64(111)),
        named_arg("c", Val::U64(222)),
    ];
    assert_eq!(Err(Error::TypeError), plain().argvec(None, args),)
}

/// Specify an optional argument by name, twice
#[test]
fn argvec_multiple_named_optional() {
    let args = vec![
        anon(Val::U64(1)),
        anon(Val::str(b"hello")),
        named_arg("c", Val::U64(111)),
        named_arg("c", Val::U64(222)),
    ];
    assert_eq!(Err(Error::TypeError), plain().argvec(None, args),)
}

/// Empty set of collect args
#[test]
fn collect_none() {
    let args = vec![anon(Val::U64(1)), named_arg("b", Val::U64(234))];
    assert_eq!(
        Ok(ArgVec::new(None, vec![Val::U64(1), Val::U64(234)], vec![])),
        collect().argvec(None, args),
    )
}

/// Supply collect args
#[test]
fn collect_with_named() {
    let args = vec![
        anon(Val::U64(1)),
        named_arg("b", Val::U64(234)),
        anon(Val::str(b"hello")),
        anon(Val::str(b"world")),
    ];
    assert_eq!(
        Ok(ArgVec::new(
            None,
            vec![Val::U64(1), Val::U64(234)],
            vec![Val::str(b"hello"), Val::str(b"world")],
        )),
        collect().argvec(None, args),
    )
}

/// Supply collect args, leaving off an optional arg
#[test]
fn collect_with_defaults() {
    let args = vec![
        anon(Val::U64(1)),
        anon(Val::str(b"hello")),
        anon(Val::str(b"world")),
    ];
    assert_eq!(
        Ok(ArgVec::new(
            None,
            vec![Val::U64(1), Val::U64(123)],
            vec![Val::str(b"hello"), Val::str(b"world")],
        )),
        collect().argvec(None, args),
    )
}

/// Supply collect args of the wrong type
#[test]
fn collect_bad_type() {
    let args = vec![
        anon(Val::U64(1)),
        named_arg("b", Val::U64(234)),
        anon(Val::str(b"hello")),
        anon(Val::Bool(true)),
    ];
    assert_eq!(Err(Error::TypeError), collect().argvec(None, args),)
}

/// Test a func which takes no args
#[test]
fn argvec_empty() {
    let args = vec![];
    assert_eq!(
        Ok(ArgVec::new(None, vec![], vec![])),
        empty().argvec(None, args)
    )
}

/// Test a func which takes no args, that it has collect args
#[test]
fn argvec_empty_extra() {
    let args = vec![anon(Val::str(b"hello")), anon(Val::str(b"world"))];
    assert_eq!(
        Ok(ArgVec::new(
            None,
            vec![],
            vec![Val::str(b"hello"), Val::str(b"world")],
        )),
        empty().argvec(None, args)
    )
}

/// Supply named arguments in a positional manner
#[test]
fn argvec_optional_anonymous() {
    let args = vec![anon(Val::U64(1)), anon(Val::str(b"supplied"))];
    assert_eq!(
        Ok(ArgVec::new(
            None,
            vec![Val::U64(1), Val::str(b"supplied"), Val::Bool(true)],
            vec![],
        )),
        named().argvec(None, args)
    )
}

/// With optional arguments and string collect-args, optional arguments
/// must be named, so the unnamed arguments are collected as strings.
#[test]
fn argvec_optional_collect_str() {
    let args = vec![anon(Val::U64(1)), anon(Val::str(b"supplied"))];
    assert_eq!(
        Ok(ArgVec::new(
            None,
            vec![Val::Bool(true), Val::U64(123), Val::str(b"hello")],
            vec![Val::U64(1), Val::str(b"supplied")],
        )),
        optional_collect_str().argvec(None, args)
    )
}

/// With int collect-args the unnamed arguments are collected as
/// integers, so a string among them is a type error.
#[test]
fn argvec_optional_collect_u64() {
    let args = vec![anon(Val::U64(1)), anon(Val::str(b"supplied"))];
    assert_eq!(
        Err(Error::TypeError),
        optional_collect_u64().argvec(None, args)
    )
}
