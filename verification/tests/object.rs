use resynth::err::Error::{NameError, TypeError};
use resynth::ezpkt::{TcpFlow, UdpFlow};
use resynth::object::ObjRef;
use resynth::pkt::{Ip4Addr, Sock4};
use resynth::stdlib::FuncId;
use resynth::sym::Symbol;
use resynth::val::Val;

fn sock(a: u8, b: u8, c: u8, d: u8, port: u16) -> Sock4 {
    Sock4::new(Ip4Addr::new(a, b, c, d), port)
}

fn tcp(cl_seq: u32, sv_seq: u32) -> Val {
    Val::Obj(ObjRef::Tcp(TcpFlow::new(
        sock(10, 0, 0, 1, 102),
        sock(10, 0, 0, 2, 102),
        cl_seq,
        sv_seq,
        false,
    )))
}

fn udp() -> Val {
    Val::Obj(ObjRef::Udp(UdpFlow::new(
        sock(10, 0, 0, 1, 102),
        sock(10, 0, 0, 2, 102),
        false,
    )))
}

#[test]
fn obj_eq() {
    let a = tcp(123, 456);
    let b = tcp(123, 456);
    assert_eq!(a, b);
}

#[test]
fn obj_neq_nil() {
    let a = tcp(123, 456);
    let b = Val::Nil;
    assert!(a != b);
}

#[test]
fn obj_neq() {
    let a = tcp(123, 456);
    let b = tcp(123, 455);
    assert!(a != b);
}

#[test]
fn obj_neq_type() {
    let a = tcp(123, 456);
    let b = udp();
    assert!(a != b);
}

#[test]
fn method_lookup() {
    let a = tcp(123, 456);
    assert_eq!(
        a.lookup_symbol("client_message"),
        Ok(Symbol::Func(FuncId::TcpClientMessage))
    );
}

#[test]
fn method_lookup_fail() {
    let a = tcp(123, 456);
    assert_eq!(a.lookup_symbol("client_massage"), Err(NameError));
}

#[test]
fn method_lookup_nil() {
    let a = Val::Nil;
    assert_eq!(a.lookup_symbol("client_massage"), Err(TypeError));
}

#[test]
fn downcast() {
    let a = ObjRef::Tcp(TcpFlow::new(
        sock(10, 0, 0, 1, 102),
        sock(10, 0, 0, 2, 102),
        123,
        456,
        false,
    ));
    match &a {
        ObjRef::Tcp(flow) => {
            assert_eq!(flow.cl_seq, 123);
            assert_eq!(flow.sv_seq, 456);
        }
        other => panic!("not a TCP flow: {:?}", other),
    }
}

#[test]
fn mut_downcast() {
    let mut a = ObjRef::Tcp(TcpFlow::new(
        sock(10, 0, 0, 1, 102),
        sock(10, 0, 0, 2, 102),
        123,
        456,
        false,
    ));
    match &mut a {
        ObjRef::Tcp(flow) => {
            flow.cl_seq = 111;
            flow.sv_seq = 222;
        }
        other => panic!("not a TCP flow: {:?}", other),
    }
    match &a {
        ObjRef::Tcp(flow) => {
            assert_eq!(flow.cl_seq, 111);
            assert_eq!(flow.sv_seq, 222);
        }
        other => panic!("not a TCP flow: {:?}", other),
    }
}
