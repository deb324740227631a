//! Capsule build / load / verify tests.

use ed25519_dalek::{Signer, SigningKey};
use toka::canvas::{CanvasCall, Paint};
use toka::capsule::{Capsule, CapsuleBuilder};
use toka::errors::CapsuleError;
use toka::value::Colour;
use toka::vm::VM;
use vsf::types::VsfType;

fn demo_bytecode() -> Vec<u8> {
    // clear(black); a little arithmetic; halt
    let mut b = Vec::new();
    b.extend(VsfType::op(b'p', b's').flatten());
    b.extend(VsfType::rck.flatten());
    b.extend(VsfType::op(b'c', b'r').flatten());
    for n in [2u8, 3u8] {
        b.extend(VsfType::op(b'p', b's').flatten());
        b.extend(VsfType::u3(n).flatten());
    }
    b.extend(VsfType::op(b'a', b'd').flatten());
    b.extend(VsfType::op(b'p', b'p').flatten());
    b.extend(VsfType::op(b'h', b'l').flatten());
    b
}

#[test]
fn test_capsule_roundtrip() {
    let bytecode = demo_bytecode();

    let capsule_bytes = CapsuleBuilder::new(bytecode)
        .build()
        .expect("Failed to build capsule");

    let capsule = Capsule::load(&capsule_bytes).expect("Failed to load capsule");

    capsule.verify().expect("Verification failed");

    assert!(!capsule.bytecode().is_empty(), "Capsule bytecode is empty");
}

#[test]
fn load_of_build_returns_the_bytecode_byte_for_byte() {
    let bytecode = demo_bytecode();
    let capsule_bytes = CapsuleBuilder::new(bytecode.clone()).build().unwrap();
    let capsule = Capsule::load(&capsule_bytes).unwrap();
    assert_eq!(capsule.bytecode().as_slice(), bytecode.as_slice());
    assert!(!capsule.is_signed());
}

#[test]
fn provenance_is_thirty_two_bytes_of_hex() {
    let capsule_bytes = CapsuleBuilder::new(demo_bytecode()).build().unwrap();
    let capsule = Capsule::load(&capsule_bytes).unwrap();
    assert_eq!(capsule.provenance().len(), 32);
    let hex = capsule.provenance_hex();
    assert_eq!(hex.len(), 64);
    assert!(hex.chars().all(|c| c.is_ascii_hexdigit() && !c.is_ascii_uppercase()));
}

#[test]
fn tampering_with_the_bytecode_is_detected() {
    let bytecode = demo_bytecode();
    let mut capsule_bytes = CapsuleBuilder::new(bytecode.clone()).build().unwrap();

    // Find the first stored value's bytes inside the container and flip one
    // bit inside them.
    let needle = &bytecode[..4];
    let at = capsule_bytes
        .windows(needle.len())
        .rposition(|w| w == needle)
        .expect("bytecode bytes not found in the container");
    capsule_bytes[at + 1] ^= 0x01;

    match Capsule::load(&capsule_bytes) {
        Ok(capsule) => {
            assert_eq!(capsule.verify(), Err(CapsuleError::IntegrityFailed));
        }
        Err(_) => {
            // Tampering that breaks the container structure is also loud.
        }
    }
}

#[test]
fn every_single_byte_flip_in_the_bytecode_section_fails_verification() {
    let bytecode = demo_bytecode();
    let capsule_bytes = CapsuleBuilder::new(bytecode.clone()).build().unwrap();
    // The bytecode section's stored values start where the first value's
    // bytes appear and run to the end of the container.
    let start = capsule_bytes
        .windows(4)
        .rposition(|w| w == &bytecode[..4])
        .expect("bytecode bytes not found in the container");
    for i in start..capsule_bytes.len() {
        let mut tampered = capsule_bytes.clone();
        tampered[i] ^= 0x01;
        let ok = match Capsule::load(&tampered) {
            Ok(c) => c.verify().is_ok(),
            Err(_) => false,
        };
        assert!(!ok, "flip at byte {} went undetected", i);
    }
}

#[test]
fn malformed_bytecode_is_rejected_at_build() {
    let err = CapsuleBuilder::new(vec![0xff, 0xfe]).build().unwrap_err();
    assert!(matches!(err, CapsuleError::MalformedBytecode(0)));

    let mut truncated = VsfType::op(b'h', b'l').flatten();
    let good_len = truncated.len();
    truncated.push(b's');
    let err = CapsuleBuilder::new(truncated).build().unwrap_err();
    assert!(matches!(err, CapsuleError::MalformedBytecode(p) if p == good_len));
}

#[test]
fn garbage_signature_is_reported_never_downgraded() {
    let bytecode = demo_bytecode();
    let capsule_bytes = CapsuleBuilder::new(bytecode)
        .sign([1; 32], [2; 64])
        .build()
        .unwrap();
    let capsule = Capsule::load(&capsule_bytes).unwrap();
    assert!(capsule.is_signed());
    assert_eq!(capsule.verify(), Err(CapsuleError::SignatureInvalid));
}

#[test]
fn signed_capsule_with_a_genuine_signature_verifies() {
    let bytecode = demo_bytecode();
    let key = SigningKey::from_bytes(&[42; 32]);
    let pubkey: [u8; 32] = key.verifying_key().to_bytes();

    // The container's signature covers the BLAKE3 digest of the file with
    // the signature field zeroed, which is byte-identical to the container
    // built with an all-zero signature; building is deterministic, so sign
    // that image and rebuild with the real signature.
    let zero_signed = CapsuleBuilder::new(bytecode.clone())
        .sign(pubkey, [0; 64])
        .build()
        .unwrap();
    let digest: [u8; 32] = *blake3::hash(&zero_signed).as_bytes();
    let signature: [u8; 64] = key.sign(&digest).to_bytes();

    let capsule_bytes = CapsuleBuilder::new(bytecode)
        .sign(pubkey, signature)
        .build()
        .unwrap();
    let capsule = Capsule::load(&capsule_bytes).unwrap();
    assert!(capsule.is_signed());
    capsule.verify().expect("genuine signature should verify");
}

#[test]
fn scenario_capsule_built_loaded_verified_and_run() {
    // clear(white); halt — through the whole lifecycle, against a fresh
    // ten-by-ten canvas.
    let mut bytecode = Vec::new();
    bytecode.extend(VsfType::op(b'p', b's').flatten());
    bytecode.extend(VsfType::rcw.flatten());
    bytecode.extend(VsfType::op(b'c', b'r').flatten());
    bytecode.extend(VsfType::op(b'h', b'l').flatten());

    let capsule_bytes = CapsuleBuilder::new(bytecode).build().unwrap();
    let capsule = Capsule::load(&capsule_bytes).unwrap();
    capsule.verify().unwrap();

    let mut vm = VM::with_canvas(capsule.bytecode().clone(), 10, 10);
    vm.run(1000).unwrap();
    assert!(vm.is_halted());
    assert_eq!(
        vm.canvas().calls().as_slice(),
        &[CanvasCall::Clear(Paint::Named(Colour::White))],
        "the canvas must be cleared to white exactly once and nothing else"
    );
    assert_eq!(vm.stack_depth(), 0);
}

#[test]
fn version_is_set() {
    assert!(!toka::VERSION.is_empty());
    assert_eq!(toka::VERSION, "0.0.0");
}
