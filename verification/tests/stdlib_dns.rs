use resynth::args::Args;
use resynth::err::Error;
use resynth::stdlib::{call_func, FuncId};
use resynth::val::Val;

fn str_result(r: Result<Val, Error>) -> Vec<u8> {
    match r {
        Ok(Val::Str(b)) => b.cow_buffer(),
        other => panic!("expected a string value, got {:?}", other),
    }
}

/// Construct a root name
#[test]
fn test_name_root() {
    let mut args = Args::new(None, vec![Val::Bool(true)], vec![]);
    let buf = str_result(call_func(FuncId::DnsNameFn, &mut args));
    assert_eq!(buf, b"\x00");
}

/// Construct an empty name
#[test]
fn test_name_nothing() {
    let mut args = Args::new(None, vec![Val::Bool(false)], vec![]);
    let buf = str_result(call_func(FuncId::DnsNameFn, &mut args));
    assert_eq!(buf, b"");
}

/// Parse a name
#[test]
fn test_name_parse() {
    let mut args = Args::new(
        None,
        vec![Val::Bool(true)],
        vec![Val::str(b"www.google.com")],
    );
    let buf = str_result(call_func(FuncId::DnsNameFn, &mut args));
    assert_eq!(buf, b"\x03www\x06google\x03com\x00");
}

/// Construct a single label
#[test]
fn test_single_label() {
    let mut args = Args::new(None, vec![Val::Bool(false)], vec![Val::str(b"com")]);
    let buf = str_result(call_func(FuncId::DnsNameFn, &mut args));
    assert_eq!(buf, b"\x03com");
}
