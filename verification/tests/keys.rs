use subnet_interpreter::keys::{
    fvm_key_info, FvmKeyInfo, KeyError, LotusJsonKeyType, SignatureType, WalletKeyType,
};
use subnet_interpreter::provider::IpcProvider;

fn provider() -> IpcProvider {
    IpcProvider::new(Vec::new())
}

fn export(key_type: &str, private_key: &str) -> LotusJsonKeyType {
    LotusJsonKeyType { key_type: key_type.to_string(), private_key: private_key.to_string() }
}

#[test]
fn key_types_have_their_lotus_names() {
    assert_eq!(WalletKeyType::from_name("bls"), Some(WalletKeyType::BLS));
    assert_eq!(WalletKeyType::from_name("secp256k1"), Some(WalletKeyType::Secp256k1));
    assert_eq!(WalletKeyType::from_name("secp256k1-ledger"), Some(WalletKeyType::Secp256k1Ledger));
    assert_eq!(WalletKeyType::from_name("BLS"), None);
    assert_eq!(WalletKeyType::from_name(""), None);
    assert_eq!(WalletKeyType::from_name("secp256k1 "), None);
    assert_eq!(WalletKeyType::from_name("ed25519"), None);
}

#[test]
fn new_key_of_each_kind() {
    let provider = provider();
    assert_eq!(provider.new_fvm_key(WalletKeyType::BLS), Ok(SignatureType::BLS));
    assert_eq!(provider.new_fvm_key(WalletKeyType::Secp256k1), Ok(SignatureType::Secp256k1));
    assert_eq!(
        provider.new_fvm_key(WalletKeyType::Secp256k1Ledger),
        Err(KeyError::LedgerNotSupported)
    );
}

#[test]
fn lotus_export_becomes_a_wallet_key() {
    let provider = provider();
    // "AQID/w==" is the base64 of the bytes 1, 2, 3, 255.
    assert_eq!(
        provider.import_fvm_key(export("bls", "AQID/w==")),
        Ok(FvmKeyInfo { key_type: SignatureType::BLS, private_key: vec![1, 2, 3, 255] })
    );
    assert_eq!(
        provider.import_fvm_key(export("secp256k1", "aGVsbG8=")),
        Ok(FvmKeyInfo { key_type: SignatureType::Secp256k1, private_key: b"hello".to_vec() })
    );
    // Every kind but BLS is taken as secp256k1.
    assert_eq!(
        provider.import_fvm_key(export("secp256k1-ledger", "")),
        Ok(FvmKeyInfo { key_type: SignatureType::Secp256k1, private_key: Vec::new() })
    );
}

#[test]
fn lotus_export_with_unknown_kind_or_bad_base64_is_turned_down() {
    let provider = provider();
    assert_eq!(provider.import_fvm_key(export("rsa", "AQID")), Err(KeyError::UnknownKeyType));
    // The kind is looked at first.
    assert_eq!(provider.import_fvm_key(export("rsa", "!!")), Err(KeyError::UnknownKeyType));
    assert_eq!(provider.import_fvm_key(export("bls", "!!!!")), Err(KeyError::InvalidBase64));
    // Padding is required, and stray bits are not taken.
    assert_eq!(provider.import_fvm_key(export("bls", "AQID/w")), Err(KeyError::InvalidBase64));
    assert_eq!(provider.import_fvm_key(export("bls", "AQID/x==")), Err(KeyError::InvalidBase64));
    assert_eq!(provider.import_fvm_key(export("bls", "AQ ID")), Err(KeyError::InvalidBase64));
}

#[test]
fn wallet_key_from_name_and_decoded_bytes() {
    assert_eq!(
        fvm_key_info("bls", Some(vec![9])),
        Ok(FvmKeyInfo { key_type: SignatureType::BLS, private_key: vec![9] })
    );
    assert_eq!(fvm_key_info("bls", None), Err(KeyError::InvalidBase64));
    assert_eq!(fvm_key_info("nope", Some(vec![9])), Err(KeyError::UnknownKeyType));
    assert_eq!(fvm_key_info("nope", None), Err(KeyError::UnknownKeyType));
}

#[test]
fn wipe_empties_the_private_key() {
    let mut keyinfo = export("bls", "AQID/w==");
    keyinfo.wipe();
    assert_eq!(keyinfo.private_key, "");
    assert_eq!(keyinfo.key_type, "bls");
    keyinfo.wipe();
    assert_eq!(keyinfo.private_key, "");
}

#[test]
fn private_key_in_hex_with_or_without_prefix() {
    let provider = provider();
    assert_eq!(provider.import_evm_key_from_privkey("0001ff"), Ok(vec![0, 1, 255]));
    assert_eq!(provider.import_evm_key_from_privkey("0x0001ff"), Ok(vec![0, 1, 255]));
    assert_eq!(provider.import_evm_key_from_privkey("0xDeadBEEF"), Ok(vec![0xDE, 0xAD, 0xBE, 0xEF]));
    assert_eq!(provider.import_evm_key_from_privkey("09afAF"), Ok(vec![0x09, 0xAF, 0xAF]));
    assert_eq!(provider.import_evm_key_from_privkey(""), Ok(Vec::new()));
    assert_eq!(provider.import_evm_key_from_privkey("0x"), Ok(Vec::new()));
}

#[test]
fn private_key_in_bad_hex_is_turned_down() {
    let provider = provider();
    assert_eq!(provider.import_evm_key_from_privkey("abc"), Err(KeyError::OddHexLength));
    assert_eq!(provider.import_evm_key_from_privkey("0xabc"), Err(KeyError::OddHexLength));
    // The odd length is seen before the bad digit.
    assert_eq!(provider.import_evm_key_from_privkey("zzz"), Err(KeyError::OddHexLength));
    assert_eq!(
        provider.import_evm_key_from_privkey("00zz"),
        Err(KeyError::InvalidHexCharacter { index: 2 })
    );
    // The place counts from behind the prefix.
    assert_eq!(
        provider.import_evm_key_from_privkey("0x00zz"),
        Err(KeyError::InvalidHexCharacter { index: 2 })
    );
    assert_eq!(
        provider.import_evm_key_from_privkey("0g"),
        Err(KeyError::InvalidHexCharacter { index: 1 })
    );
    // Only a lower-case x makes a prefix, and only once.
    assert_eq!(
        provider.import_evm_key_from_privkey("0X00"),
        Err(KeyError::InvalidHexCharacter { index: 1 })
    );
    assert_eq!(
        provider.import_evm_key_from_privkey("0x0x00"),
        Err(KeyError::InvalidHexCharacter { index: 1 })
    );
    assert_eq!(
        provider.import_evm_key_from_privkey("/0"),
        Err(KeyError::InvalidHexCharacter { index: 0 })
    );
    assert_eq!(
        provider.import_evm_key_from_privkey("0:"),
        Err(KeyError::InvalidHexCharacter { index: 1 })
    );
    assert_eq!(
        provider.import_evm_key_from_privkey("@a"),
        Err(KeyError::InvalidHexCharacter { index: 0 })
    );
    assert_eq!(
        provider.import_evm_key_from_privkey("aG"),
        Err(KeyError::InvalidHexCharacter { index: 1 })
    );
    assert_eq!(
        provider.import_evm_key_from_privkey("`a"),
        Err(KeyError::InvalidHexCharacter { index: 0 })
    );
    // Two bytes of one character outside ASCII.
    assert_eq!(
        provider.import_evm_key_from_privkey("é"),
        Err(KeyError::InvalidHexCharacter { index: 0 })
    );
}
