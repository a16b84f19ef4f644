use std::str::FromStr;

use bitcoin::script::PushBytesBuf;
use bitcoin::taproot::{LeafVersion, TapNodeHash};
use bitcoin::{PublicKey, Script, ScriptBuf};
use tw_ordinals::inscription::{create_envelope, OrdinalsInscription};
use tw_ordinals::recipient::Recipient;
use tw_ordinals::script::envelope_script;

const KEY_A: &str = "0279be667ef9dcbbac55a06295ce870b07029bfcdb2dce28d959f2815b16f81798";
const KEY_B: &str = "02c6047f9441ed7d6d3045406e95c07cd85c778e4b8cef3ca7abac09b95c709ee5";

fn key(hex: &str) -> PublicKey {
    PublicKey::from_str(hex).unwrap()
}

fn inscribe(mime: &[u8], data: &[u8], hex: &str) -> OrdinalsInscription {
    OrdinalsInscription::new(mime, data, Recipient::from_public_key(key(hex))).unwrap()
}

/// The same envelope, written with the script builder of the bitcoin crate.
fn builder_envelope(mime: &[u8], data: &[u8]) -> Vec<u8> {
    let mime_buf = PushBytesBuf::try_from(mime.to_vec()).unwrap();
    let data_buf = PushBytesBuf::try_from(data.to_vec()).unwrap();
    let mut builder = ScriptBuf::builder()
        .push_opcode(bitcoin::opcodes::OP_FALSE)
        .push_opcode(bitcoin::opcodes::all::OP_IF)
        .push_slice(b"ord")
        .push_opcode(bitcoin::opcodes::all::OP_PUSHBYTES_1);
    if data.len() < 76 {
        builder = builder.push_opcode(bitcoin::opcodes::all::OP_PUSHBYTES_1);
    }
    builder
        .push_slice(mime_buf)
        .push_opcode(bitcoin::opcodes::all::OP_PUSHBYTES_0)
        .push_slice(data_buf)
        .push_opcode(bitcoin::opcodes::all::OP_ENDIF)
        .into_bytes()
}

fn leaf_root(script: &[u8]) -> [u8; 32] {
    let hash = TapNodeHash::from_script(Script::from_bytes(script), LeafVersion::TapScript);
    bitcoin::hashes::Hash::to_byte_array(hash)
}

#[test]
fn text_plain_hello_layout() {
    let script = envelope_script(b"text/plain", b"hello").unwrap();
    let mut expected: Vec<u8> = vec![0x00, 0x63, 0x03, b'o', b'r', b'd', 0x01, 0x01, 0x0a];
    expected.extend_from_slice(b"text/plain");
    expected.extend_from_slice(&[0x00, 0x05]);
    expected.extend_from_slice(b"hello");
    expected.push(0x68);
    assert_eq!(script, expected);
}

#[test]
fn envelope_is_guarded() {
    for (mime, data) in [(&b""[..], &b""[..]), (&b"image/png"[..], &[7u8; 300][..])] {
        let script = envelope_script(mime, data).unwrap();
        assert_eq!(&script[..2], &[0x00, 0x63]);
        assert_eq!(*script.last().unwrap(), 0x68);
    }
}

#[test]
fn data_length_75_and_76() {
    let mime = b"text/plain";
    let short = envelope_script(mime, &[0xabu8; 75]).unwrap();
    let long = envelope_script(mime, &[0xabu8; 76]).unwrap();
    // With 75 bytes of data the MIME push gets the extra opcode.
    assert_eq!(&short[6..9], &[0x01, 0x01, 0x0a]);
    assert_eq!(&long[6..8], &[0x01, 0x0a]);
    assert_eq!(&short[..7], &long[..7]);
    assert_eq!(&short[8..19], &long[7..18]);
    // The data itself switches to OP_PUSHDATA1 at 76.
    assert_eq!(&short[19..21], &[0x00, 75]);
    assert_eq!(&long[18..21], &[0x00, 0x4c, 76]);
    assert_eq!(long.len(), short.len() + 1);
}

#[test]
fn mime_framing_follows_data_length_not_mime_length() {
    let mime = [b'm'; 80];
    let script = envelope_script(&mime, b"x").unwrap();
    assert_eq!(&script[6..10], &[0x01, 0x01, 0x4c, 80]);
    let script = envelope_script(b"a", &[1u8; 100]).unwrap();
    assert_eq!(&script[6..9], &[0x01, 0x01, b'a']);
}

#[test]
fn large_pushes_use_pushdata2_and_pushdata4() {
    let data = vec![3u8; 0x1234];
    let script = envelope_script(b"t", &data).unwrap();
    assert_eq!(&script[9..13], &[0x00, 0x4d, 0x34, 0x12]);
    let data = vec![5u8; 0x1_0203];
    let script = envelope_script(b"t", &data).unwrap();
    assert_eq!(&script[9..15], &[0x00, 0x4e, 0x03, 0x02, 0x01, 0x00]);
    assert_eq!(script.len(), 15 + 0x1_0203 + 1);
}

#[test]
fn matches_bitcoin_script_builder() {
    let cases: Vec<(Vec<u8>, Vec<u8>)> = vec![
        (b"text/plain".to_vec(), b"hello".to_vec()),
        (vec![], vec![]),
        (vec![1u8; 75], vec![2u8; 75]),
        (vec![1u8; 76], vec![2u8; 76]),
        (vec![9u8; 300], vec![8u8; 70_000]),
    ];
    for (mime, data) in cases {
        assert_eq!(envelope_script(&mime, &data).unwrap(), builder_envelope(&mime, &data));
    }
}

#[test]
fn create_envelope_commits_to_script() {
    let program = create_envelope(b"text/plain", b"hello", &key(KEY_A)).unwrap();
    assert_eq!(program.script, envelope_script(b"text/plain", b"hello").unwrap());
    assert_eq!(program.merkle_root, leaf_root(&program.script));
    assert_eq!(
        program.spend_info.merkle_root().map(bitcoin::hashes::Hash::to_byte_array),
        Some(program.merkle_root)
    );
}

#[test]
fn new_binds_root_to_recipient() {
    let ins = inscribe(b"text/plain", b"hello", KEY_A);
    assert_eq!(ins.taproot_program(), &envelope_script(b"text/plain", b"hello").unwrap()[..]);
    let root = leaf_root(ins.taproot_program());
    assert_eq!(ins.merkle_root(), root);
    let tr = ins.recipient().taproot_script();
    assert_eq!(tr.pubkey, key(KEY_A));
    assert_eq!(tr.merkle_root, root);
    assert_eq!(
        ins.spend_info().internal_key(),
        bitcoin::secp256k1::XOnlyPublicKey::from(key(KEY_A).inner)
    );
}

#[test]
fn construction_is_deterministic() {
    let a = inscribe(b"text/plain", b"hello", KEY_A);
    let b = inscribe(b"text/plain", b"hello", KEY_A);
    assert_eq!(a.taproot_program(), b.taproot_program());
    assert_eq!(a.merkle_root(), b.merkle_root());
    assert_eq!(a.spend_info(), b.spend_info());
}

#[test]
fn key_changes_output_key_only() {
    let a = inscribe(b"text/plain", b"hello", KEY_A);
    let b = inscribe(b"text/plain", b"hello", KEY_B);
    assert_eq!(a.taproot_program(), b.taproot_program());
    assert_eq!(a.merkle_root(), b.merkle_root());
    assert_ne!(a.spend_info().output_key(), b.spend_info().output_key());
    assert_eq!(b.recipient().taproot_script().pubkey, key(KEY_B));
}
