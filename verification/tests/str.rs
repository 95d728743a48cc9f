use resynth::strbuf::Buf;

#[test]
fn str_nohex() {
    // " and | are not allowed in the plain-text region
    let chars = "!#$%&'()*+,-./0123456789:;<=>?ABCDEFGHIJKLMNOPQRSTUVWXYZ[\\]^_`abcdefghijklmnopqrstuvwxyz{}~";
    let s = Buf::parse(chars.as_bytes()).expect("parse failed");
    assert_eq!(s.cow_buffer(), chars.as_bytes())
}

#[test]
fn str_backslash() {
    let s = Buf::parse("\\".as_bytes()).expect("parse failed");
    assert_eq!(s.cow_buffer(), "\\".as_bytes(),)
}

#[test]
fn str_bin() {
    let s = Buf::parse("|00 01 02|".as_bytes()).expect("parse failed");
    assert_eq!(s.cow_buffer(), b"\x00\x01\x02",)
}

/// A hex run encoding a hardware address, with cosmetic separators.
#[test]
fn str_hex_mac() {
    let s = Buf::parse("|78:24:af:23:f0:a9|".as_bytes()).expect("parse failed");
    assert_eq!(s.cow_buffer(), b"\x78\x24\xaf\x23\xf0\xa9");
}

/// An odd count of hex digits is a parse error.
#[test]
fn str_odd_hex() {
    assert!(Buf::parse("|123|".as_bytes()).is_err());
}

/// A non-hex character inside a hex run is a parse error.
#[test]
fn str_bad_hex() {
    assert!(Buf::parse("|0g|".as_bytes()).is_err());
}
