//! Keys and signatures over the secp256k1 curve, and the capabilities to sign and to verify.

use crate::hex_codec::{decode, encode, hex_decode, hex_encode, is_hex};
use vstd::prelude::*;
use vstd::string::*;

verus! {

/// The signature of `message` under `secret_key`: ECDSA over the SHA-256 digest of the message,
/// in its compact form. `None` where the bytes are no secret key of the curve.
pub uninterp spec fn secp256k1_signature(secret_key: Seq<u8>, message: Seq<u8>) -> Option<
    Seq<u8>,
>;

/// The public key, in compressed form, that belongs to `secret_key`. `None` where the bytes are
/// no secret key of the curve.
pub uninterp spec fn secp256k1_public_key(secret_key: Seq<u8>) -> Option<Seq<u8>>;

/// Whether `signature` is one of `message` under `public_key`. `None` where the signature or the
/// key cannot be read.
pub uninterp spec fn secp256k1_verification(
    message: Seq<u8>,
    signature: Seq<u8>,
    public_key: Seq<u8>,
) -> Option<bool>;

/// `Signer::sign` of the cylinder crate, on a signer that its secp256k1 context makes for the
/// key: the compact signature, sixty-four bytes, that the key and the message determine, or the
/// crate's message where the key is refused. The key is refused for signing exactly where it is
/// refused for deriving the public key: both read it in the same way before anything else. A
/// signature that is made is one that the curve's verification accepts for the same message
/// under the public key of the key, as the curve's documentation shows for its signing and
/// verifying.
#[verifier::external_body]
fn secp256k1_sign(secret_key: &[u8], message: &[u8]) -> (r: Result<Vec<u8>, String>)
    ensures
        r is Ok <==> secp256k1_public_key(secret_key@) is Some,
        match r {
            Ok(signature) => secp256k1_signature(secret_key@, message@) == Some(signature@)
                && signature@.len() == 64 && (secp256k1_public_key(secret_key@) matches Some(
                public_key,
            ) ==> secp256k1_verification(message@, signature@, public_key) == Some(true)),
            Err(_) => secp256k1_signature(secret_key@, message@) is None,
        },
{
    let context = cylinder::secp256k1::Secp256k1Context::new();
    let key = cylinder::PrivateKey::new(secret_key.to_vec());
    match cylinder::Context::new_signer(&context, key).sign(message) {
        Ok(signature) => Ok(signature.take_bytes()),
        Err(error) => Err(error.to_string()),
    }
}

/// `Signer::public_key` of the cylinder crate, on a signer that its secp256k1 context makes for
/// the key: the compressed public key, thirty-three bytes, that the key determines, or the
/// crate's message where the key is refused.
#[verifier::external_body]
fn secp256k1_derive(secret_key: &[u8]) -> (r: Result<Vec<u8>, String>)
    ensures
        match r {
            Ok(public_key) => secp256k1_public_key(secret_key@) == Some(public_key@)
                && public_key@.len() == 33,
            Err(_) => secp256k1_public_key(secret_key@) is None,
        },
{
    let context = cylinder::secp256k1::Secp256k1Context::new();
    let key = cylinder::PrivateKey::new(secret_key.to_vec());
    match cylinder::Context::new_signer(&context, key).public_key() {
        Ok(public_key) => Ok(public_key.into_bytes()),
        Err(error) => Err(error.to_string()),
    }
}

/// `Verifier::verify` of the cylinder crate, on the verifier of its secp256k1 context: whether
/// the signature is one of the message under the key, as the three determine it, or the crate's
/// message where the signature or the key cannot be read.
#[verifier::external_body]
fn secp256k1_verify(message: &[u8], signature: &[u8], public_key: &[u8]) -> (r: Result<
    bool,
    String,
>)
    ensures
        match r {
            Ok(valid) => secp256k1_verification(message@, signature@, public_key@) == Some(valid),
            Err(_) => secp256k1_verification(message@, signature@, public_key@) is None,
        },
{
    let context = cylinder::secp256k1::Secp256k1Context::new();
    let signature = cylinder::Signature::new(signature.to_vec());
    let key = cylinder::PublicKey::new(public_key.to_vec());
    match cylinder::Context::new_verifier(&context).verify(message, &signature, &key) {
        Ok(valid) => Ok(valid),
        Err(error) => Err(error.to_string()),
    }
}

/// `Context::new_random_private_key` of the cylinder crate, on its secp256k1 context: thirty-two
/// bytes from the operating system's generator, drawn again until the curve accepts them as a
/// key, so that the key has a public key. Nothing else is claimed of the bytes. The call does
/// not return where the system gives no random bytes.
#[verifier::external_body]
fn secp256k1_random_key() -> (secret_key: Vec<u8>)
    ensures
        secret_key@.len() == 32,
        secp256k1_public_key(secret_key@) is Some,
{
    let context = cylinder::secp256k1::Secp256k1Context::new();
    cylinder::Context::new_random_private_key(&context).into_bytes()
}

/// Why a message could not be signed, or a public key not derived.
#[derive(Debug)]
pub struct SigningError {
    message: String,
}

impl SigningError {
    /// The reason, in words.
    pub closed spec fn text(&self) -> Seq<char> {
        self.message@
    }

    /// An error with the given reason.
    pub fn new(message: String) -> (e: SigningError)
        ensures
            e.text() == message@,
    {
        SigningError { message }
    }

    /// The reason, in words.
    pub fn to_string(&self) -> (text: String)
        ensures
            text@ == self.text(),
    {
        self.message.clone()
    }
}

/// Why a signature could not be checked.
#[derive(Debug)]
pub struct VerificationError {
    message: String,
}

impl VerificationError {
    /// The reason, in words.
    pub closed spec fn text(&self) -> Seq<char> {
        self.message@
    }

    /// An error with the given reason.
    pub fn new(message: String) -> (e: VerificationError)
        ensures
            e.text() == message@,
    {
        VerificationError { message }
    }

    /// The reason, in words.
    pub fn to_string(&self) -> (text: String)
        ensures
            text@ == self.text(),
    {
        self.message.clone()
    }
}

/// A key was given in text that is not an even number of hexadecimal digits.
#[derive(Debug)]
pub struct KeyParseError {
    message: String,
}

impl KeyParseError {
    /// The reason, in words.
    pub closed spec fn text(&self) -> Seq<char> {
        self.message@
    }

    /// The reason, in words.
    pub fn to_string(&self) -> (text: String)
        ensures
            text@ == self.text(),
    {
        self.message.clone()
    }
}

/// A signature was given in text that is not an even number of hexadecimal digits.
#[derive(Debug)]
pub struct SignatureParseError {
    message: String,
}

impl SignatureParseError {
    /// The reason, in words.
    pub closed spec fn text(&self) -> Seq<char> {
        self.message@
    }

    /// The reason, in words.
    pub fn to_string(&self) -> (text: String)
        ensures
            text@ == self.text(),
    {
        self.message.clone()
    }
}

/// The text that every refusal of hexadecimal input carries.
pub open spec fn invalid_hex_text() -> Seq<char> {
    "invalid hexadecimal text"@
}

/// A signature, as the bytes that make it up.
#[derive(Debug)]
pub struct Signature {
    bytes: Vec<u8>,
}

impl View for Signature {
    type V = Seq<u8>;

    closed spec fn view(&self) -> Seq<u8> {
        self.bytes@
    }
}

impl Clone for Signature {
    /// A copy with the same bytes.
    fn clone(&self) -> (copy: Signature)
        ensures
            copy@ == self@,
    {
        Signature { bytes: vstd::slice::slice_to_vec(self.bytes.as_slice()) }
    }
}

impl Signature {
    /// Reads a signature from hexadecimal digits.
    pub fn new(hex: String) -> (r: Result<Signature, SignatureParseError>)
        ensures
            match r {
                Ok(signature) => hex_decode(hex@) == Some(signature@),
                Err(e) => !is_hex(hex@) && e.text() == invalid_hex_text(),
            },
    {
        Signature::from_hex(hex.as_str())
    }

    /// Reads a signature from hexadecimal digits.
    pub fn from_hex(hex: &str) -> (r: Result<Signature, SignatureParseError>)
        ensures
            match r {
                Ok(signature) => hex_decode(hex@) == Some(signature@),
                Err(e) => !is_hex(hex@) && e.text() == invalid_hex_text(),
            },
    {
        match decode(hex) {
            Some(bytes) => Ok(Signature { bytes }),
            None => Err(
                SignatureParseError { message: String::from_str("invalid hexadecimal text") },
            ),
        }
    }

    /// A signature made of the given bytes.
    pub fn from_bytes(bytes: Vec<u8>) -> (signature: Signature)
        ensures
            signature@ == bytes@,
    {
        Signature { bytes }
    }

    /// The signature in lowercase hexadecimal digits.
    pub fn as_hex(&self) -> (hex: String)
        ensures
            hex@ == hex_encode(self@),
    {
        encode(self.bytes.as_slice())
    }

    /// The bytes of the signature.
    pub fn as_slice(&self) -> (bytes: &[u8])
        ensures
            bytes@ == self@,
    {
        self.bytes.as_slice()
    }
}

/// A public key, as the bytes that make it up.
#[derive(Debug)]
pub struct PublicKey {
    bytes: Vec<u8>,
}

impl View for PublicKey {
    type V = Seq<u8>;

    closed spec fn view(&self) -> Seq<u8> {
        self.bytes@
    }
}

impl Clone for PublicKey {
    /// A copy with the same bytes.
    fn clone(&self) -> (copy: PublicKey)
        ensures
            copy@ == self@,
    {
        PublicKey { bytes: vstd::slice::slice_to_vec(self.bytes.as_slice()) }
    }
}

impl PublicKey {
    /// A public key made of the given bytes. The bytes are not examined.
    pub fn load_from_bytes(key_bytes: &[u8]) -> (key: PublicKey)
        ensures
            key@ == key_bytes@,
    {
        PublicKey { bytes: vstd::slice::slice_to_vec(key_bytes) }
    }

    /// Reads a public key from hexadecimal digits.
    pub fn load_from_hex(key_hex: &str) -> (r: Result<PublicKey, KeyParseError>)
        ensures
            match r {
                Ok(key) => hex_decode(key_hex@) == Some(key@),
                Err(e) => !is_hex(key_hex@) && e.text() == invalid_hex_text(),
            },
    {
        match decode(key_hex) {
            Some(bytes) => Ok(PublicKey { bytes }),
            None => Err(KeyParseError { message: String::from_str("invalid hexadecimal text") }),
        }
    }

    /// Reads a public key from hexadecimal digits.
    pub fn new(hex: String) -> (r: Result<PublicKey, KeyParseError>)
        ensures
            match r {
                Ok(key) => hex_decode(hex@) == Some(key@),
                Err(e) => !is_hex(hex@) && e.text() == invalid_hex_text(),
            },
    {
        PublicKey::load_from_hex(hex.as_str())
    }

    /// The key in lowercase hexadecimal digits.
    pub fn as_hex(&self) -> (hex: String)
        ensures
            hex@ == hex_encode(self@),
    {
        encode(self.bytes.as_slice())
    }

    /// The bytes of the key.
    pub fn as_slice(&self) -> (bytes: &[u8])
        ensures
            bytes@ == self@,
    {
        self.bytes.as_slice()
    }
}

/// A private key, as the bytes that make it up.
#[derive(Debug)]
pub struct PrivateKey {
    bytes: Vec<u8>,
}

impl View for PrivateKey {
    type V = Seq<u8>;

    closed spec fn view(&self) -> Seq<u8> {
        self.bytes@
    }
}

impl Clone for PrivateKey {
    /// A copy with the same bytes.
    fn clone(&self) -> (copy: PrivateKey)
        ensures
            copy@ == self@,
    {
        PrivateKey { bytes: vstd::slice::slice_to_vec(self.bytes.as_slice()) }
    }
}

impl PrivateKey {
    /// A private key made of the given bytes. The bytes are not examined: a key that the curve
    /// refuses fails when it is first used.
    pub fn load_from_bytes(key_bytes: &[u8]) -> (key: PrivateKey)
        ensures
            key@ == key_bytes@,
    {
        PrivateKey { bytes: vstd::slice::slice_to_vec(key_bytes) }
    }

    /// Reads a private key from hexadecimal digits.
    pub fn load_from_hex(key_hex: &str) -> (r: Result<PrivateKey, KeyParseError>)
        ensures
            match r {
                Ok(key) => hex_decode(key_hex@) == Some(key@),
                Err(e) => !is_hex(key_hex@) && e.text() == invalid_hex_text(),
            },
    {
        match decode(key_hex) {
            Some(bytes) => Ok(PrivateKey { bytes }),
            None => Err(KeyParseError { message: String::from_str("invalid hexadecimal text") }),
        }
    }

    /// Reads a private key from hexadecimal digits.
    pub fn new(hex: String) -> (r: Result<PrivateKey, KeyParseError>)
        ensures
            match r {
                Ok(key) => hex_decode(hex@) == Some(key@),
                Err(e) => !is_hex(hex@) && e.text() == invalid_hex_text(),
            },
    {
        PrivateKey::load_from_hex(hex.as_str())
    }

    /// A fresh private key of thirty-two random bytes that the curve accepts: it has a public
    /// key, and signs.
    pub fn generate_random_key() -> (key: PrivateKey)
        ensures
            key@.len() == 32,
            secp256k1_public_key(key@) is Some,
    {
        PrivateKey { bytes: secp256k1_random_key() }
    }

    /// The key in lowercase hexadecimal digits.
    pub fn as_hex(&self) -> (hex: String)
        ensures
            hex@ == hex_encode(self@),
    {
        encode(self.bytes.as_slice())
    }

    /// The bytes of the key.
    pub fn as_slice(&self) -> (bytes: &[u8])
        ensures
            bytes@ == self@,
    {
        self.bytes.as_slice()
    }
}

/// The capability to sign. A signer may hold a key in this process or ask for signatures
/// elsewhere. Each signer says for itself which answers it may give; nothing more is assumed of
/// what it returns.
pub trait Signer {
    /// Whether `answer` is one that this signer may give when it is asked to sign `data`.
    /// Unless a signer says otherwise, it may give any answer.
    open spec fn may_sign(&self, data: Seq<u8>, answer: Result<Signature, SigningError>) -> bool {
        true
    }

    /// Whether `answer` is one that this signer may give when it is asked for its public key.
    /// Unless a signer says otherwise, it may give any answer.
    open spec fn may_tell_key(&self, answer: Result<PublicKey, SigningError>) -> bool {
        true
    }

    /// Signs `data`.
    fn sign(&self, data: &[u8]) -> (answer: Result<Signature, SigningError>)
        ensures
            self.may_sign(data@, answer),
    ;

    /// The public key under which the signatures verify.
    fn public_key(&self) -> (answer: Result<PublicKey, SigningError>)
        ensures
            self.may_tell_key(answer),
    ;
}

impl Signer for PrivateKey {
    /// A signature is the one that the key and the data determine, and verifies for the data
    /// under the public key of the key; signing fails exactly where the curve refuses the key,
    /// which is where the key has no public key.
    open spec fn may_sign(&self, data: Seq<u8>, answer: Result<Signature, SigningError>) -> bool {
        match answer {
            Ok(signature) => {
                &&& secp256k1_signature(self@, data) == Some(signature@)
                &&& signature@.len() == 64
                &&& secp256k1_public_key(self@) matches Some(public_key)
                &&& secp256k1_verification(data, signature@, public_key) == Some(true)
            },
            Err(_) => secp256k1_signature(self@, data) is None && secp256k1_public_key(self@)
                is None,
        }
    }

    /// The public key is the one that the key determines; there is none exactly where the curve
    /// refuses the key.
    open spec fn may_tell_key(&self, answer: Result<PublicKey, SigningError>) -> bool {
        match answer {
            Ok(key) => secp256k1_public_key(self@) == Some(key@) && key@.len() == 33,
            Err(_) => secp256k1_public_key(self@) is None,
        }
    }

    /// Signs with this key.
    fn sign(&self, data: &[u8]) -> (answer: Result<Signature, SigningError>) {
        match secp256k1_sign(self.bytes.as_slice(), data) {
            Ok(bytes) => Ok(Signature { bytes }),
            Err(message) => Err(SigningError { message }),
        }
    }

    /// The public key of this key.
    fn public_key(&self) -> (answer: Result<PublicKey, SigningError>) {
        match secp256k1_derive(self.bytes.as_slice()) {
            Ok(bytes) => Ok(PublicKey { bytes }),
            Err(message) => Err(SigningError { message }),
        }
    }
}

/// The capability to check a signature.
pub trait Verifier {
    /// Whether `signature` is one of `data`.
    fn verify(&self, data: &[u8], signature: &Signature) -> Result<bool, VerificationError>;
}

impl Verifier for PublicKey {
    /// Checks a signature against this key. The outcome is the one that the data, the signature
    /// and the key determine.
    fn verify(&self, data: &[u8], signature: &Signature) -> (r: Result<bool, VerificationError>)
        ensures
            match r {
                Ok(valid) => secp256k1_verification(data@, signature@, self@) == Some(valid),
                Err(_) => secp256k1_verification(data@, signature@, self@) is None,
            },
    {
        match secp256k1_verify(data, signature.bytes.as_slice(), self.bytes.as_slice()) {
            Ok(valid) => Ok(valid),
            Err(message) => Err(VerificationError { message }),
        }
    }
}

} // verus!
