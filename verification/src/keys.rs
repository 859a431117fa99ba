//! Key material as it comes in from outside: its type by name, and its
//! bytes in base64 or in hexadecimal digits.

use crate::provider::IpcProvider;
use vstd::prelude::*;
use vstd::slice::slice_subrange;
use vstd::utf8::encode_utf8;

verus! {

/// The kinds of key that a wallet file may name.
#[derive(Clone, Copy, Debug, PartialEq, Eq, Structural)]
pub enum WalletKeyType {
    BLS,
    Secp256k1,
    Secp256k1Ledger,
}

/// The kinds of signature that a key can make.
#[derive(Clone, Copy, Debug, PartialEq, Eq, Structural)]
pub enum SignatureType {
    Secp256k1,
    BLS,
}

/// Why key material was turned down.
#[derive(Clone, Copy, Debug, PartialEq, Eq, Structural)]
pub enum KeyError {
    /// Keys that live on a ledger device cannot be made here.
    LedgerNotSupported,
    /// The name stands for no kind of key.
    UnknownKeyType,
    /// The private key is not base64.
    InvalidBase64,
    /// The private key has an odd number of hexadecimal digits.
    OddHexLength,
    /// The private key holds something that is no hexadecimal digit, first
    /// at this place.
    InvalidHexCharacter { index: usize },
}

/// What a reader is told of a key that was turned down.
pub open spec fn key_error_text(error: KeyError) -> Seq<char> {
    match error {
        KeyError::LedgerNotSupported => "ledger key type not supported"@,
        KeyError::UnknownKeyType => "unknown key type"@,
        KeyError::InvalidBase64 => "private key is not base64"@,
        KeyError::OddHexLength => "Odd number of digits"@,
        KeyError::InvalidHexCharacter { index } => "Invalid character in private key"@,
    }
}

impl KeyError {
    /// Says in words why the key was turned down.
    pub fn message(&self) -> (text: String)
        ensures
            text@ == key_error_text(*self),
    {
        match self {
            KeyError::LedgerNotSupported => String::from_str("ledger key type not supported"),
            KeyError::UnknownKeyType => String::from_str("unknown key type"),
            KeyError::InvalidBase64 => String::from_str("private key is not base64"),
            KeyError::OddHexLength => String::from_str("Odd number of digits"),
            KeyError::InvalidHexCharacter { index } => String::from_str(
                "Invalid character in private key",
            ),
        }
    }
}

/// A key in the form in which a Lotus wallet exports it: the name of its
/// kind, and the private key in base64.
#[derive(Debug, PartialEq, Eq)]
pub struct LotusJsonKeyType {
    pub key_type: String,
    pub private_key: String,
}

/// A key of the virtual machine's wallet: its kind and its private key.
#[derive(Debug, PartialEq, Eq)]
pub struct FvmKeyInfo {
    pub key_type: SignatureType,
    pub private_key: Vec<u8>,
}

/// The kind of key that a name stands for.
pub open spec fn wallet_key_type(name: Seq<char>) -> Option<WalletKeyType> {
    if name == "bls"@ {
        Some(WalletKeyType::BLS)
    } else if name == "secp256k1"@ {
        Some(WalletKeyType::Secp256k1)
    } else if name == "secp256k1-ledger"@ {
        Some(WalletKeyType::Secp256k1Ledger)
    } else {
        None
    }
}

/// The kind of signature that a kind of key makes. A key on a ledger device
/// makes none here.
pub open spec fn signature_type(tp: WalletKeyType) -> Option<SignatureType> {
    match tp {
        WalletKeyType::BLS => Some(SignatureType::BLS),
        WalletKeyType::Secp256k1 => Some(SignatureType::Secp256k1),
        WalletKeyType::Secp256k1Ledger => None,
    }
}

/// The value of a hexadecimal digit, upper or lower case.
pub open spec fn hex_digit(c: u8) -> Option<u8> {
    if 0x30 <= c <= 0x39 {
        Some((c - 0x30) as u8)
    } else if 0x41 <= c <= 0x46 {
        Some((c - 0x41 + 10) as u8)
    } else if 0x61 <= c <= 0x66 {
        Some((c - 0x61 + 10) as u8)
    } else {
        None
    }
}

/// The first place in a text that holds no hexadecimal digit; the length
/// of the text where every place holds one.
pub open spec fn first_non_hex(text: Seq<u8>) -> int
    decreases text.len(),
{
    if text.len() == 0 {
        0
    } else if hex_digit(text[0]) is None {
        0
    } else {
        1 + first_non_hex(text.drop_first())
    }
}

/// The bytes that a text of hexadecimal digits stands for: each pair of
/// digits is one byte, the first digit its upper half.
pub open spec fn hex_bytes(text: Seq<u8>) -> Seq<u8> {
    Seq::new(
        text.len() / 2,
        |i: int| (hex_digit(text[2 * i])->0 * 16 + hex_digit(text[2 * i + 1])->0) as u8,
    )
}

/// What decoding a text as hexadecimal digits gives: the bytes, where the
/// text is an even number of digits; else the odd length, before anything
/// else, or the first place that holds no digit.
pub open spec fn hex_decoding(text: Seq<u8>) -> Result<Seq<u8>, KeyError> {
    if text.len() % 2 != 0 {
        Err(KeyError::OddHexLength)
    } else if first_non_hex(text) < text.len() {
        Err(KeyError::InvalidHexCharacter { index: first_non_hex(text) as usize })
    } else {
        Ok(hex_bytes(text))
    }
}

/// A text without the `0x` that may stand before hexadecimal digits.
pub open spec fn without_0x(text: Seq<u8>) -> Seq<u8> {
    if text.len() >= 2 && text[0] == 0x30 && text[1] == 0x78 {
        text.skip(2)
    } else {
        text
    }
}

/// The private key that a text of hexadecimal digits holds, with or
/// without `0x` before the digits.
pub open spec fn evm_private_key(text: Seq<u8>) -> Result<Seq<u8>, KeyError> {
    hex_decoding(without_0x(text))
}

/// The private key as a mathematical value.
pub open spec fn key_bytes_view(key: Result<Vec<u8>, KeyError>) -> Result<Seq<u8>, KeyError> {
    match key {
        Ok(bytes) => Ok(bytes@),
        Err(error) => Err(error),
    }
}

/// The bytes that a text in base64 stands for, in the standard alphabet
/// with padding; `None` for a text that is not such base64.
pub uninterp spec fn base64_standard_decoding(text: Seq<u8>) -> Option<Seq<u8>>;

/// Decodes hexadecimal digits with `hex::decode`. Trusted: the call
/// succeeds exactly on an even number of digits, upper or lower case, and
/// then gives one byte for each pair; on an odd number of bytes it reports
/// the odd length, and otherwise the first place that holds no digit.
#[verifier::external_body]
fn hex_decode(text: &[u8]) -> (decoded: Result<Vec<u8>, KeyError>)
    ensures
        key_bytes_view(decoded) == hex_decoding(text@),
{
    match hex::decode(text) {
        Ok(bytes) => Ok(bytes),
        Err(hex::FromHexError::InvalidHexCharacter { index, .. }) => Err(
            KeyError::InvalidHexCharacter { index },
        ),
        Err(hex::FromHexError::OddLength) => Err(KeyError::OddHexLength),
        Err(hex::FromHexError::InvalidStringLength) => Err(KeyError::OddHexLength),
    }
}

/// Decodes base64 with the `STANDARD` engine of the `base64` crate.
/// Trusted: what comes back depends on the text alone.
#[verifier::external_body]
fn base64_decode(text: &[u8]) -> (decoded: Option<Vec<u8>>)
    ensures
        match decoded {
            Some(bytes) => base64_standard_decoding(text@) == Some(bytes@),
            None => base64_standard_decoding(text@) is None,
        },
{
    base64::Engine::decode(&base64::engine::general_purpose::STANDARD, text).ok()
}

/// Overwrites a text with zeros and empties it, with `Zeroize::zeroize` of
/// the `zeroize` crate. Trusted: the text is empty afterwards.
#[verifier::external_body]
fn zeroize_text(text: &mut String)
    ensures
        final(text)@ == Seq::<char>::empty(),
{
    zeroize::Zeroize::zeroize(text)
}

/// Tells whether two texts are the same.
fn same_text(a: &str, b: &str) -> (yes: bool)
    ensures
        yes == (a@ == b@),
{
    let left = String::from_str(a);
    let right = String::from_str(b);
    left == right
}

impl WalletKeyType {
    /// Reads the kind of key from its name: `bls`, `secp256k1` or
    /// `secp256k1-ledger`.
    pub fn from_name(name: &str) -> (tp: Option<WalletKeyType>)
        ensures
            tp == wallet_key_type(name@),
    {
        if same_text(name, "bls") {
            Some(WalletKeyType::BLS)
        } else if same_text(name, "secp256k1") {
            Some(WalletKeyType::Secp256k1)
        } else if same_text(name, "secp256k1-ledger") {
            Some(WalletKeyType::Secp256k1Ledger)
        } else {
            None
        }
    }
}

impl LotusJsonKeyType {
    /// Overwrites the private key with zeros and empties it. The name of
    /// the kind stays.
    pub fn wipe(&mut self)
        ensures
            final(self).private_key@ == Seq::<char>::empty(),
            final(self).key_type == old(self).key_type,
    {
        zeroize_text(&mut self.private_key);
    }
}


/// The key that a Lotus export stands for, where `decoded` is what its
/// private key is in base64: a BLS key if the export names that kind, and
/// a secp256k1 key for every other kind that it may name.
pub open spec fn fvm_key(name: Seq<char>, decoded: Option<Seq<u8>>) -> Result<
    (SignatureType, Seq<u8>),
    KeyError,
> {
    match wallet_key_type(name) {
        None => Err(KeyError::UnknownKeyType),
        Some(tp) => match decoded {
            None => Err(KeyError::InvalidBase64),
            Some(bytes) => Ok(
                (
                    if tp == WalletKeyType::BLS {
                        SignatureType::BLS
                    } else {
                        SignatureType::Secp256k1
                    },
                    bytes,
                ),
            ),
        },
    }
}

/// A key of the wallet, or the reason why there is none, as a mathematical
/// value.
pub open spec fn key_info_view(made: Result<FvmKeyInfo, KeyError>) -> Result<
    (SignatureType, Seq<u8>),
    KeyError,
> {
    match made {
        Ok(info) => Ok((info.key_type, info.private_key@)),
        Err(error) => Err(error),
    }
}

/// Makes the wallet key of a Lotus export from the name of its kind and
/// the decoded private key, `None` where the private key was no base64.
pub fn fvm_key_info(name: &str, decoded: Option<Vec<u8>>) -> (made: Result<FvmKeyInfo, KeyError>)
    ensures
        key_info_view(made) == fvm_key(
            name@,
            match decoded {
                Some(bytes) => Some(bytes@),
                None => None,
            },
        ),
{
    let tp: WalletKeyType = match WalletKeyType::from_name(name) {
        Some(tp) => tp,
        None => {
            return Err(KeyError::UnknownKeyType);
        },
    };
    let private_key: Vec<u8> = match decoded {
        Some(bytes) => bytes,
        None => {
            return Err(KeyError::InvalidBase64);
        },
    };
    let key_type = match tp {
        WalletKeyType::BLS => SignatureType::BLS,
        _ => SignatureType::Secp256k1,
    };
    Ok(FvmKeyInfo { key_type, private_key })
}

impl IpcProvider {
    /// Says which kind of signature a new key of the kind `tp` is to make,
    /// for the wallet to generate. A key on a ledger device cannot be made.
    pub fn new_fvm_key(&self, tp: WalletKeyType) -> (made: Result<SignatureType, KeyError>)
        ensures
            made == match signature_type(tp) {
                Some(kind) => Ok::<SignatureType, KeyError>(kind),
                None => Err(KeyError::LedgerNotSupported),
            },
    {
        match tp {
            WalletKeyType::BLS => Ok(SignatureType::BLS),
            WalletKeyType::Secp256k1 => Ok(SignatureType::Secp256k1),
            WalletKeyType::Secp256k1Ledger => Err(KeyError::LedgerNotSupported),
        }
    }

    /// Turns a Lotus export into the key that the wallet is to import, and
    /// wipes the private key of the export.
    pub fn import_fvm_key(&self, keyinfo: LotusJsonKeyType) -> (made: Result<FvmKeyInfo, KeyError>)
        ensures
            key_info_view(made) == fvm_key(
                keyinfo.key_type@,
                base64_standard_decoding(encode_utf8(keyinfo.private_key@)),
            ),
    {
        let mut keyinfo = keyinfo;
        let decoded = base64_decode(keyinfo.private_key.as_str().as_bytes());
        let made = fvm_key_info(keyinfo.key_type.as_str(), decoded);
        keyinfo.wipe();
        made
    }

    /// Reads the private key that the keystore is to import from a text of
    /// hexadecimal digits, with or without `0x` before them.
    pub fn import_evm_key_from_privkey(&self, private_key: &str) -> (key: Result<
        Vec<u8>,
        KeyError,
    >)
        ensures
            key_bytes_view(key) == evm_private_key(encode_utf8(private_key@)),
    {
        let text: &[u8] = private_key.as_bytes();
        let digits: &[u8] = if text.len() >= 2 && text[0] == 0x30 && text[1] == 0x78 {
            slice_subrange(text, 2, text.len())
        } else {
            text
        };
        assert(digits@ =~= without_0x(text@));
        hex_decode(digits)
    }
}

} // verus!
