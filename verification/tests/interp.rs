use resynth::args::Args;
use resynth::ast::{ArgExpr, Assign, Call, Expr, Import, ObjectRef, Stmt};
use resynth::err::Error;
use resynth::loc::Loc;
use resynth::pkt::{Ip4Addr, Sock4};
use resynth::program::Program;
use resynth::stdlib::{call_func, FuncId};
use resynth::val::Val;

fn sock(a: u8, b: u8, c: u8, d: u8, port: u16) -> Sock4 {
    Sock4::new(Ip4Addr::new(a, b, c, d), port)
}

fn obj_ref(modules: &[&str], components: &[&str]) -> ObjectRef {
    ObjectRef {
        loc: Loc::new(1, 1),
        modules: modules.iter().map(|s| s.to_string()).collect(),
        components: components.iter().map(|s| s.to_string()).collect(),
    }
}

fn lit(v: Val) -> Expr {
    Expr::Literal(Loc::new(1, 1), v)
}

fn anon(v: Val) -> ArgExpr {
    ArgExpr { name: None, expr: lit(v) }
}

/// A whole script through the interpreter: import, a unicast call, one
/// emitted packet with the simulated clock advanced.
#[test]
fn program_udp_unicast() {
    let stmts = vec![
        Stmt::Import(Import { loc: Loc::new(1, 1), module: "ipv4".to_string() }),
        Stmt::Expr(Expr::Call(Box::new(Call {
            obj: obj_ref(&["ipv4", "udp"], &["unicast"]),
            args: vec![
                anon(Val::Sock4(sock(10, 0, 0, 1, 1000))),
                anon(Val::Sock4(sock(10, 0, 0, 2, 2000))),
                anon(Val::str(b"hi")),
            ],
        }))),
    ];
    let prog = Program::execute(stmts).expect("script failed");
    let out = prog.output();
    assert_eq!(out.len(), 1);
    let bytes = out[0].pkt.to_vec();
    assert_eq!(bytes.len(), 44);
    assert_eq!(&bytes[16..18], &[0, 30]);
    assert_eq!(bytes[23], 17);
    assert_eq!(&bytes[42..], b"hi");
    assert_eq!(out[0].ts, 8 * (44 + 24));
}

/// Registers bind once; a second assignment is refused.
#[test]
fn program_multiple_assign() {
    let stmts = vec![
        Stmt::Assign(Assign {
            loc: Loc::new(1, 1),
            target: "x".to_string(),
            rvalue: lit(Val::U64(1)),
        }),
        Stmt::Assign(Assign {
            loc: Loc::new(2, 1),
            target: "x".to_string(),
            rvalue: lit(Val::U64(2)),
        }),
    ];
    assert_eq!(Program::execute(stmts).err(), Some(Error::MultipleAssignError));
}

/// Importing an unknown module is an import error; importing one
/// twice is harmless.
#[test]
fn program_imports() {
    let stmts = vec![Stmt::Import(Import {
        loc: Loc::new(1, 1),
        module: "no_such_module".to_string(),
    })];
    assert_eq!(Program::execute(stmts).err(), Some(Error::ImportError));

    let stmts = vec![
        Stmt::Import(Import { loc: Loc::new(1, 1), module: "ipv4".to_string() }),
        Stmt::Import(Import { loc: Loc::new(2, 1), module: "ipv4".to_string() }),
    ];
    assert!(Program::execute(stmts).is_ok());
}

/// A discarded non-packet value earns a warning, not an error.
#[test]
fn program_discarded_value() {
    let stmts = vec![Stmt::Expr(lit(Val::U64(42)))];
    let prog = Program::execute(stmts).expect("script failed");
    assert_eq!(prog.warning_locs().len(), 1);
    assert_eq!(prog.output().len(), 0);
}

/// A time jump advances the clock without emitting.
#[test]
fn program_time_jump() {
    let stmts = vec![Stmt::Expr(lit(Val::TimeJump(5_000_000_000)))];
    let prog = Program::execute(stmts).expect("script failed");
    assert_eq!(prog.now, 5_000_000_000);
    assert_eq!(prog.output().len(), 0);
}

/// The slash operator builds a socket address from a host and a port.
#[test]
fn program_slash() {
    let stmts = vec![Stmt::Assign(Assign {
        loc: Loc::new(1, 1),
        target: "a".to_string(),
        rvalue: Expr::Slash(
            Loc::new(1, 1),
            Box::new(lit(Val::Ip4(Ip4Addr::new(10, 0, 0, 1)))),
            Box::new(lit(Val::U64(80))),
        ),
    })];
    let prog = Program::execute(stmts).expect("script failed");
    match &prog.regs[0].1 {
        Val::Sock4(s) => {
            assert_eq!(s.ip.bits, 0x0a000001);
            assert_eq!(s.port, 80);
        }
        other => panic!("expected a socket address, got {:?}", other),
    }
}

/// A method call through a register mutates the bound flow.
#[test]
fn program_tcp_method() {
    let stmts = vec![
        Stmt::Import(Import { loc: Loc::new(1, 1), module: "ipv4".to_string() }),
        Stmt::Assign(Assign {
            loc: Loc::new(2, 1),
            target: "t".to_string(),
            rvalue: Expr::Call(Box::new(Call {
                obj: obj_ref(&["ipv4", "tcp"], &["flow"]),
                args: vec![
                    anon(Val::Sock4(sock(10, 0, 0, 1, 102))),
                    anon(Val::Sock4(sock(10, 0, 0, 2, 102))),
                ],
            })),
        }),
        Stmt::Expr(Expr::Call(Box::new(Call {
            obj: obj_ref(&[], &["t", "open"]),
            args: vec![],
        }))),
    ];
    let prog = Program::execute(stmts).expect("script failed");
    assert_eq!(prog.output().len(), 3);
    match &prog.regs[0].1 {
        Val::Obj(resynth::object::ObjRef::Tcp(flow)) => {
            assert_eq!(flow.cl_seq, 2);
            assert_eq!(flow.sv_seq, 2);
        }
        other => panic!("expected the flow, got {:?}", other),
    }
}

/// A resolved constant from a module table.
#[test]
fn program_constant() {
    let stmts = vec![
        Stmt::Import(Import { loc: Loc::new(1, 1), module: "ipv4".to_string() }),
        Stmt::Assign(Assign {
            loc: Loc::new(2, 1),
            target: "p".to_string(),
            rvalue: Expr::ObjectRef(obj_ref(&["ipv4", "proto"], &["UDP"])),
        }),
    ];
    let prog = Program::execute(stmts).expect("script failed");
    assert_eq!(prog.regs[0].1, Val::U8(17));
}

/// The DNS host helper: one query and one response carrying the
/// answer's four address bytes.
#[test]
fn dns_host_pair() {
    let mut args = Args::new(
        None,
        vec![
            Val::Ip4(Ip4Addr::new(192, 168, 1, 1)),
            Val::str(b"example.com"),
            Val::U32(229),
            Val::Ip4(Ip4Addr::new(1, 1, 1, 1)),
            Val::Bool(false),
        ],
        vec![Val::Ip4(Ip4Addr::new(93, 184, 216, 34))],
    );
    let pkts = match call_func(FuncId::DnsHost, &mut args) {
        Ok(Val::PktGen(ps)) => ps,
        other => panic!("expected a burst, got {:?}", other),
    };
    assert_eq!(pkts.len(), 2);
    let q = pkts[0].to_vec();
    // DNS starts after eth/ip/udp
    let qd = &q[42..];
    assert_eq!(&qd[0..2], &[0x12, 0x34]);
    // recursion desired
    assert_eq!(&qd[2..4], &[0x01, 0x00]);
    assert_eq!(&qd[4..6], &[0, 1]);
    assert_eq!(&qd[12..25], b"\x07example\x03com\x00");
    // qtype A, class IN
    assert_eq!(&qd[25..29], &[0, 1, 0, 1]);

    let r = pkts[1].to_vec();
    let rd = &r[42..];
    // response with recursion available
    assert_eq!(&rd[2..4], &[0x80, 0x80]);
    // one answer
    assert_eq!(&rd[6..8], &[0, 1]);
    let n = rd.len();
    assert_eq!(&rd[n - 4..], &[0x5d, 0xb8, 0xd8, 0x22]);
}

/// `io::file` answers from the provision table, and a miss records the
/// requested name and fails so the host can supply it and retry.
#[test]
fn program_file_provisioning() {
    let file_call = || {
        Stmt::Expr(Expr::Call(Box::new(Call {
            obj: obj_ref(&["io"], &["file"]),
            args: vec![anon(Val::str(b"greeting.bin"))],
        })))
    };
    let import = || Stmt::Import(Import { loc: Loc::new(1, 1), module: "io".to_string() });

    let mut prog = Program::dummy().expect("fresh interpreter");
    prog.add_stmt(import()).expect("import io");
    let err = prog.add_stmt(file_call()).expect_err("missing file must fail");
    assert_eq!(err, Error::RuntimeError);
    assert_eq!(prog.pending_file_name().as_deref(), Some(&b"greeting.bin"[..]));

    prog.provide_file(b"greeting.bin".to_vec(), b"hello".to_vec());
    assert!(prog.pending_file_name().is_none());
    prog.add_stmt(file_call()).expect("provisioned file must load");
}
