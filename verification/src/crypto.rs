//! The OpenPGP work of a run: reading the certificate, choosing the keys to
//! encrypt to, and sealing one file's bytes.
//!
//! All of it is done by `sequoia_openpgp`. Little is claimed here of what it
//! computes: which keys are chosen depends on the time of the call, and the
//! ciphertext on a fresh session key. What is stated is which data the
//! parser is asked about, and that nothing can be sealed to nobody; what is
//! verified is the order of the calls and which failure each of them ends
//! in.

use crate::failure::Cause;
use sequoia_openpgp::packet::key::{PublicParts, UnspecifiedRole};
use sequoia_openpgp::packet::Key;
use sequoia_openpgp::parse::Parse;
use sequoia_openpgp::policy::StandardPolicy;
use sequoia_openpgp::serialize::stream::{Encryptor2, LiteralWriter, Message};
use sequoia_openpgp::Cert;
use std::io::Write;
use vstd::prelude::*;

verus! {

/// A parsed certificate of `sequoia_openpgp`, carried as it is.
#[verifier::external_type_specification]
#[verifier::external_body]
pub struct ExCert(Cert);

/// The writer stack of `sequoia_openpgp` that a message is streamed into.
#[verifier::external_type_specification]
#[verifier::external_body]
pub struct ExMessage<'a>(Message<'a>);

/// The error that `sequoia_openpgp` reports.
#[verifier::external_type_specification]
#[verifier::external_body]
pub struct ExError(anyhow::Error);

/// The error that writing into the stack reports.
#[verifier::external_type_specification]
#[verifier::external_body]
pub struct ExIoError(std::io::Error);

/// A public key that ciphertext is encrypted to. It holds a key of
/// `sequoia_openpgp`, whose type cannot be declared to the verifier, so the
/// whole struct is taken on trust and nothing is known of what it holds.
#[verifier::external_body]
#[derive(Debug)]
pub struct RecipientKey {
    key: Key<PublicParts, UnspecifiedRole>,
}

/// Whether `Cert::from_bytes` of `sequoia_openpgp` finds one certificate in
/// `data`, binary or armored.
pub uninterp spec fn holds_certificate(data: Seq<u8>) -> bool;

/// `Cert::from_bytes` of `sequoia_openpgp`: the certificate that `data`
/// holds, binary or armored, or the parser's error. The parser reads
/// nothing but `data`, so whether it succeeds has a name; nothing is claimed
/// of the certificate or of the error.
#[verifier::external_body]
fn parse_certificate(data: &[u8]) -> (parsed: Result<Cert, anyhow::Error>)
    ensures
        parsed is Ok <==> holds_certificate(data@),
{
    Cert::from_bytes(data)
}

/// The key iterator of `sequoia_openpgp`, `Cert::keys`, under the standard
/// policy at the time of the call, narrowed to keys with a supported
/// algorithm that are alive, not revoked and flagged for transport
/// encryption. The result depends on the clock, so nothing is claimed of it.
#[verifier::external_body]
fn transport_keys(cert: &Cert) -> (keys: Vec<RecipientKey>) {
    let policy = StandardPolicy::new();
    cert.keys()
        .with_policy(&policy, None)
        .supported()
        .alive()
        .revoked(false)
        .for_transport_encryption()
        .map(|k| RecipientKey { key: k.key().clone() })
        .collect()
}

/// `Message::new` of `sequoia_openpgp`: an empty writer stack that puts what
/// is written to it into `sink`. Nothing is claimed of the result.
#[verifier::external_body]
fn open_message<'a>(sink: &'a mut Vec<u8>) -> (stack: Message<'a>) {
    Message::new(sink)
}

/// `Encryptor2::for_recipients` and its `build`, of `sequoia_openpgp`: writes
/// a fresh session key, wrapped for each recipient, into `inner` and returns
/// the stack that encrypts what is written to it, or the error. Without a
/// recipient `build` refuses before it does anything. The session key is
/// random, so nothing else is claimed of the result.
#[verifier::external_body]
fn open_encryptor<'a>(inner: Message<'a>, recipients: &'a Vec<RecipientKey>) -> (stack: Result<
    Message<'a>,
    anyhow::Error,
>)
    ensures
        recipients@.len() == 0 ==> stack is Err,
{
    Encryptor2::for_recipients(inner, recipients.iter().map(|r| &r.key)).build()
}

/// `LiteralWriter::new` and its `build`, of `sequoia_openpgp`: frames what is
/// written next as one literal-data packet inside `inner`. Nothing is claimed
/// of the result.
#[verifier::external_body]
fn open_literal<'a>(inner: Message<'a>) -> (stack: Result<Message<'a>, anyhow::Error>) {
    LiteralWriter::new(inner).build()
}

/// `write_all` of `std::io::Write`, as `sequoia_openpgp` implements it for
/// `Message`: feeds `data` into the stack. Nothing is claimed of the result.
#[verifier::external_body]
fn write_plaintext<'a>(stack: &mut Message<'a>, data: &[u8]) -> (written: Result<
    (),
    std::io::Error,
>) {
    stack.write_all(data)
}

/// `Message::finalize` of `sequoia_openpgp`: flushes and closes every writer
/// of the stack. Nothing is claimed of the result.
#[verifier::external_body]
fn finalize<'a>(stack: Message<'a>) -> (closed: Result<(), anyhow::Error>) {
    stack.finalize()
}

/// The step of sealing at which the stream failed.
#[derive(Clone, Copy, Debug, PartialEq, Eq, Structural)]
pub enum SealStage {
    /// Setting up the encryptor.
    Encryptor,
    /// Setting up the literal-data writer.
    Writer,
    /// Writing the plaintext.
    Write,
    /// Finalizing the stream.
    Finalize,
}

impl SealStage {
    /// The cause that a failure at this stage is reported under.
    pub open spec fn spec_cause(self) -> Cause {
        match self {
            SealStage::Encryptor => Cause::CreateEncryptor,
            SealStage::Writer => Cause::CreateWriter,
            SealStage::Write => Cause::WriteData,
            SealStage::Finalize => Cause::Finalize,
        }
    }

    pub fn cause(self) -> (cause: Cause)
        ensures
            cause == self.spec_cause(),
            cause.spec_kind() == crate::failure::ErrorKind::EncryptionError,
    {
        match self {
            SealStage::Encryptor => Cause::CreateEncryptor,
            SealStage::Writer => Cause::CreateWriter,
            SealStage::Write => Cause::WriteData,
            SealStage::Finalize => Cause::Finalize,
        }
    }
}

/// Reads the certificate in `data` and picks the keys to encrypt to. It
/// fails exactly where `data` holds no certificate, and the error is the
/// parser's description of what is wrong with `data`. The list of keys may
/// be empty: which keys are usable is decided at the time of the call.
pub(crate) fn load_key(data: &[u8]) -> (loaded: Result<Vec<RecipientKey>, String>)
    ensures
        loaded is Ok <==> holds_certificate(data@),
{
    match parse_certificate(data) {
        Ok(cert) => Ok(transport_keys(&cert)),
        Err(error) => Err(error.to_string()),
    }
}

/// Encrypts `data` to all of `recipients` as one literal-data packet inside
/// an encryption stream. The ciphertext is assembled in memory and handed
/// out only when the stream has been finalized; the first step that fails
/// ends the attempt, with its stage and the stream's description. Without a
/// recipient that is the first step, the setting up of the encryptor; with
/// recipients the stream decides.
pub(crate) fn seal_bytes(recipients: &Vec<RecipientKey>, data: &[u8]) -> (sealed: Result<
    Vec<u8>,
    (SealStage, String),
>)
    ensures
        recipients@.len() == 0 ==> (sealed matches Err((stage, detail)) && stage
            == SealStage::Encryptor),
{
    let mut sink: Vec<u8> = Vec::new();
    let message = open_message(&mut sink);
    let encryptor = match open_encryptor(message, recipients) {
        Ok(stack) => stack,
        Err(error) => {
            return Err((SealStage::Encryptor, error.to_string()));
        },
    };
    let mut writer = match open_literal(encryptor) {
        Ok(stack) => stack,
        Err(error) => {
            return Err((SealStage::Writer, error.to_string()));
        },
    };
    match write_plaintext(&mut writer, data) {
        Ok(()) => {},
        Err(error) => {
            return Err((SealStage::Write, error.to_string()));
        },
    }
    match finalize(writer) {
        Ok(()) => {},
        Err(error) => {
            return Err((SealStage::Finalize, error.to_string()));
        },
    }
    Ok(sink)
}

} // verus!
