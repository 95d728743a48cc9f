use resynth::pkt::netbios::encode;

/// Test netbios name encode
#[test]
fn test_nb_encode() -> Result<(), ()> {
    let enc = encode(b"BILLG", 0).ok_or(())?;
    assert_eq!(b"ECEJEMEMEHCACACACACACACACACACAAA", enc.as_slice());
    Ok(())
}
