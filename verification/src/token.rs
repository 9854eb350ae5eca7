//! The gateway to the token: sessions, login, object search and attribute
//! reads on a native module that the caller has loaded. Every call opens what
//! it needs and drops it when done; a dropped session is closed by the module
//! binding.

use vstd::prelude::*;
use cryptoki::context::Pkcs11;
use cryptoki::error::Error;
use cryptoki::object::{Attribute, AttributeType, KeyType, ObjectClass, ObjectHandle};
use cryptoki::session::Session;
use crate::error::{BrokerError, Failure};

verus! {

/// The loaded native module.
#[verifier::external_type_specification]
#[verifier::external_body]
pub struct ExPkcs11(cryptoki::context::Pkcs11);

/// An open session on one slot.
#[verifier::external_type_specification]
#[verifier::external_body]
pub struct ExSession(cryptoki::session::Session);

/// The identifier of a slot.
#[verifier::external_type_specification]
#[verifier::external_body]
pub struct ExSlot(cryptoki::slot::Slot);

/// The token's handle of one object.
#[verifier::external_type_specification]
#[verifier::external_body]
pub struct ExObjectHandle(cryptoki::object::ObjectHandle);

/// An attribute with its value, as the module binding hands it out.
#[verifier::external_type_specification]
#[verifier::external_body]
pub struct ExAttribute(cryptoki::object::Attribute);

/// The name of an attribute, as the module binding asks for it.
#[verifier::external_type_specification]
#[verifier::external_body]
pub struct ExAttributeType(cryptoki::object::AttributeType);

/// The type of a key, as the module binding names it.
#[verifier::external_type_specification]
#[verifier::external_body]
pub struct ExKeyType(cryptoki::object::KeyType);

/// Whatever the module binding reports as having gone wrong.
#[verifier::external_type_specification]
#[verifier::external_body]
pub struct ExTokenError(cryptoki::error::Error);

/// Whether a session may change the token (signing) or only read it (discovery).
#[derive(Clone, Copy, Debug, PartialEq, Eq, Structural)]
pub enum SessionMode {
    ReadOnly,
    ReadWrite,
}

/// The classes of object the broker searches for.
#[derive(Clone, Copy, Debug, PartialEq, Eq, Structural)]
pub enum ObjectKind {
    Certificate,
    PublicKey,
    PrivateKey,
}

/// The attributes the broker reads.
#[derive(Clone, Copy, Debug, PartialEq, Eq, Structural)]
pub enum AttributeKind {
    Value,
    Id,
    Label,
    KeyType,
    Modulus,
    PublicExponent,
    EcPoint,
}

/// The declared type of a key.
#[derive(Clone, Copy, Debug, PartialEq, Eq, Structural)]
pub enum KeyKind {
    Rsa,
    Ec,
    Other,
}

/// One attribute read from an object, as plain values.
#[derive(Clone, Debug, PartialEq, Eq)]
pub enum TokenAttribute {
    Value(Vec<u8>),
    Id(Vec<u8>),
    Label(Vec<u8>),
    KeyType(KeyKind),
    Modulus(Vec<u8>),
    PublicExponent(Vec<u8>),
    EcPoint(Vec<u8>),
    Other,
}

/// The systems for which a native module is shipped.
#[derive(Clone, Copy, Debug, PartialEq, Eq, Structural)]
pub enum Platform {
    Linux,
    Windows,
    MacOs,
    Other,
}

/// The file name of the native module for a system, where one is shipped for it.
pub open spec fn spec_module_file_name(platform: Platform) -> Option<Seq<char>> {
    match platform {
        Platform::Linux => Some("libeToken.so"@),
        Platform::Windows => Some("IDPrimeTokenEngine.dll"@),
        Platform::MacOs => Some("libsofthsm2.dylib"@),
        Platform::Other => None,
    }
}

/// What an optional name holds.
pub open spec fn spec_name(name: Option<&str>) -> Option<Seq<char>> {
    match name {
        Some(n) => Some(n@),
        None => None,
    }
}

/// The file name of the native module for a system. It stands in the
/// directory of the module among the resources of the program.
pub fn module_file_name(platform: Platform) -> (name: Option<&'static str>)
    ensures
        spec_name(name) == spec_module_file_name(platform),
{
    match platform {
        Platform::Linux => Some("libeToken.so"),
        Platform::Windows => Some("IDPrimeTokenEngine.dll"),
        Platform::MacOs => Some("libsofthsm2.dylib"),
        Platform::Other => None,
    }
}

/// `Pkcs11::get_slots_with_token` of `cryptoki`: the slots that hold a token, in the module's order.
#[verifier::external_body]
fn module_slots_with_token(module: &Pkcs11) -> (slots: Result<
    Vec<cryptoki::slot::Slot>,
    Error,
>) {
    module.get_slots_with_token()
}

/// `Pkcs11::open_ro_session` of `cryptoki`.
#[verifier::external_body]
fn module_open_ro_session(module: &Pkcs11, slot: cryptoki::slot::Slot) -> (session:
    Result<Session, Error>) {
    module.open_ro_session(slot)
}

/// `Pkcs11::open_rw_session` of `cryptoki`.
#[verifier::external_body]
fn module_open_rw_session(module: &Pkcs11, slot: cryptoki::slot::Slot) -> (session:
    Result<Session, Error>) {
    module.open_rw_session(slot)
}

/// `Session::login` of `cryptoki`, as the ordinary user of the token, with the PIN given.
#[verifier::external_body]
fn session_login(session: &Session, pin: &str) -> (done: Result<
    (),
    Error,
>) {
    let secret = cryptoki::types::AuthPin::new(pin.into());
    session.login(cryptoki::session::UserType::User, Some(&secret))
}

/// `Attribute::Class` of `cryptoki`, with the class constant that stands for the kind.
#[verifier::external_body]
fn class_filter(kind: ObjectKind) -> (filter: Attribute) {
    Attribute::Class(
        match kind {
            ObjectKind::Certificate => ObjectClass::CERTIFICATE,
            ObjectKind::PublicKey => ObjectClass::PUBLIC_KEY,
            ObjectKind::PrivateKey => ObjectClass::PRIVATE_KEY,
        },
    )
}

/// The longest identifier that is searched for, in bytes: what the narrowest
/// length field of the native interface holds.
pub const MAX_IDENTIFIER_BYTES: usize = 0xffff_ffff;

/// `Attribute::Id` of `cryptoki`, holding a copy of the identifier. A search
/// writes the length of the value into a field of the native interface, and
/// does not return where the length does not fit it.
#[verifier::external_body]
fn id_filter(id: &[u8]) -> (filter: Attribute)
    requires
        id.len() <= MAX_IDENTIFIER_BYTES,
{
    Attribute::Id(id.to_vec())
}

/// `Session::find_objects` of `cryptoki`: the handles of the objects that match every filter.
#[verifier::external_body]
fn session_find_objects(
    session: &Session,
    filters: &Vec<Attribute>,
) -> (handles: Result<Vec<ObjectHandle>, Error>) {
    session.find_objects(filters)
}

/// The `AttributeType` of `cryptoki` that stands for the kind.
#[verifier::external_body]
fn attribute_name(kind: AttributeKind) -> (name: AttributeType) {
    match kind {
        AttributeKind::Value => AttributeType::Value,
        AttributeKind::Id => AttributeType::Id,
        AttributeKind::Label => AttributeType::Label,
        AttributeKind::KeyType => AttributeType::KeyType,
        AttributeKind::Modulus => AttributeType::Modulus,
        AttributeKind::PublicExponent => AttributeType::PublicExponent,
        AttributeKind::EcPoint => AttributeType::EcPoint,
    }
}

/// `Session::get_attributes` of `cryptoki`: the attributes asked for that the
/// object has and discloses, in the order asked; the others are left out, so
/// that no more come back than were asked for.
#[verifier::external_body]
fn session_get_attributes(
    session: &Session,
    object: ObjectHandle,
    names: &Vec<AttributeType>,
) -> (attributes: Result<Vec<Attribute>, Error>)
    ensures
        attributes matches Ok(found) ==> found.len() <= names.len(),
{
    session.get_attributes(object, names)
}

/// The key type that an `Attribute::KeyType` of `cryptoki` holds; none for any other variant.
#[verifier::external_body]
fn attribute_key_type(attribute: &Attribute) -> (key_type: Option<KeyType>) {
    match attribute {
        Attribute::KeyType(key_type) => Some(*key_type),
        _ => None,
    }
}

/// Tells `KeyType::RSA` and `KeyType::EC` of `cryptoki` apart from each other and from the rest.
#[verifier::external_body]
fn plain_key_kind(key_type: KeyType) -> (kind: KeyKind) {
    match key_type {
        KeyType::RSA => KeyKind::Rsa,
        KeyType::EC => KeyKind::Ec,
        _ => KeyKind::Other,
    }
}

/// Tells the byte-valued variants of `cryptoki`'s `Attribute` apart that the
/// broker reads, copying each value over.
#[verifier::external_body]
fn plain_attribute(attribute: &Attribute) -> (plain: TokenAttribute) {
    match attribute {
        Attribute::Value(v) => TokenAttribute::Value(v.clone()),
        Attribute::Id(v) => TokenAttribute::Id(v.clone()),
        Attribute::Label(v) => TokenAttribute::Label(v.clone()),
        Attribute::Modulus(v) => TokenAttribute::Modulus(v.clone()),
        Attribute::PublicExponent(v) => TokenAttribute::PublicExponent(v.clone()),
        Attribute::EcPoint(v) => TokenAttribute::EcPoint(v.clone()),
        _ => TokenAttribute::Other,
    }
}

/// The words of `cryptoki`'s error, through its `Display`.
#[verifier::external_body]
fn error_text(error: &Error) -> (text: String) {
    format!("{}", error)
}

/// A failure of the given kind that carries the module binding's own words.
fn failure_from(kind: BrokerError, error: &Error) -> (failure: Failure)
    ensures
        failure.kind == kind,
{
    Failure { kind, detail: error_text(error) }
}

/// The slots that hold a token, in the module's order.
pub fn token_slots(module: &Pkcs11) -> (slots: Result<Vec<cryptoki::slot::Slot>, Failure>)
    ensures
        slots matches Err(failure) ==> failure.kind == BrokerError::NoTokenPresent,
{
    reported(module_slots_with_token(module), BrokerError::NoTokenPresent)
}

/// The first slot that holds a token. There is no choice among several.
pub fn first_token_slot(module: &Pkcs11) -> (slot: Result<cryptoki::slot::Slot, Failure>)
    ensures
        slot matches Err(failure) ==> failure.kind == BrokerError::NoTokenPresent,
{
    let slots = token_slots(module)?;
    first_found(&slots, BrokerError::NoTokenPresent, "No token slot available")
}

/// Opens a session on a slot. Nothing is tried twice.
pub fn open_session(module: &Pkcs11, slot: cryptoki::slot::Slot, mode: SessionMode) -> (session:
    Result<Session, Failure>)
    ensures
        session matches Err(failure) ==> failure.kind == BrokerError::AuthFailure,
{
    let opened = match mode {
        SessionMode::ReadOnly => module_open_ro_session(module, slot),
        SessionMode::ReadWrite => module_open_rw_session(module, slot),
    };
    reported(opened, BrokerError::AuthFailure)
}

/// Logs the user in with a PIN. A wrong PIN is reported and not tried again.
pub fn login(session: &Session, pin: &str) -> (done: Result<(), Failure>)
    ensures
        done matches Err(failure) ==> failure.kind == BrokerError::AuthFailure,
{
    reported(session_login(session, pin), BrokerError::AuthFailure)
}

/// The handles of the objects of a class, narrowed to an identifier if one is
/// given, in the order the token finds them. A failed search is reported
/// under `missing`, the kind that says the object asked for is not there; an
/// identifier beyond `MAX_IDENTIFIER_BYTES` is not searched for.
pub fn find_objects(
    session: &Session,
    kind: ObjectKind,
    id: Option<&Vec<u8>>,
    missing: BrokerError,
) -> (handles: Result<Vec<ObjectHandle>, Failure>)
    ensures
        handles matches Err(failure) ==> failure.kind == missing,
        (id matches Some(identifier) && identifier.len() > MAX_IDENTIFIER_BYTES)
            ==> handles is Err,
{
    let mut filters: Vec<Attribute> = Vec::new();
    filters.push(class_filter(kind));
    match id {
        Some(id) => {
            if id.len() > MAX_IDENTIFIER_BYTES {
                return Err(Failure::new(missing, "Identifier too long to search for"));
            }
            filters.push(id_filter(id.as_slice()));
        },
        None => {},
    }
    reported(session_find_objects(session, &filters), missing)
}

/// The attributes of an object among those asked for, as plain values and in
/// the order the token gave them: never more than were asked for. A failed
/// read is reported under `missing`.
pub fn read_attributes(
    session: &Session,
    object: ObjectHandle,
    kinds: &[AttributeKind],
    missing: BrokerError,
) -> (attributes: Result<Vec<TokenAttribute>, Failure>)
    ensures
        attributes matches Ok(found) ==> found.len() <= kinds.len(),
        attributes matches Err(failure) ==> failure.kind == missing,
{
    let names = attribute_names(kinds);
    let raw = reported(session_get_attributes(session, object, &names), missing)?;
    Ok(plain_attributes(&raw))
}

/// What the broker reports for a result of the module binding: the value as
/// it is, or a failure of the kind given that carries the binding's own words.
pub fn reported<T>(outcome: Result<T, Error>, kind: BrokerError) -> (report: Result<T, Failure>)
    ensures
        match outcome {
            Ok(value) => report == Ok::<T, Failure>(value),
            Err(_) => report matches Err(failure) && failure.kind == kind,
        },
{
    match outcome {
        Ok(value) => Ok(value),
        Err(error) => Err(failure_from(kind, &error)),
    }
}

/// The first of what a search found; where it found nothing, a failure of
/// the kind given, in the words given.
pub fn first_found<T: Copy>(found: &Vec<T>, missing: BrokerError, detail: &str) -> (first: Result<
    T,
    Failure,
>)
    ensures
        match first {
            Ok(item) => found.len() > 0 && item == found[0],
            Err(failure) => found.len() == 0 && failure.kind == missing && failure.detail@
                == detail@,
        },
{
    if found.len() == 0 {
        Err(Failure::new(missing, detail))
    } else {
        Ok(found[0])
    }
}

/// The names under which the module binding is asked for attributes, one for
/// each kind and in the order of the kinds.
pub fn attribute_names(kinds: &[AttributeKind]) -> (names: Vec<AttributeType>)
    ensures
        names.len() == kinds.len(),
{
    let mut names: Vec<AttributeType> = Vec::new();
    let mut k: usize = 0;
    while k < kinds.len()
        invariant
            k <= kinds.len(),
            names.len() == k,
        decreases kinds.len() - k,
    {
        names.push(attribute_name(kinds[k]));
        k += 1;
    }
    names
}

/// The attributes that the module binding handed out, as plain values: one
/// for each, in their order. A key type becomes its kind; a byte-valued
/// attribute that the broker reads keeps its bytes; any other is `Other`.
pub fn plain_attributes(raw: &Vec<Attribute>) -> (plain: Vec<TokenAttribute>)
    ensures
        plain.len() == raw.len(),
{
    let mut plain: Vec<TokenAttribute> = Vec::new();
    let mut i: usize = 0;
    while i < raw.len()
        invariant
            i <= raw.len(),
            plain.len() == i,
        decreases raw.len() - i,
    {
        let attribute = match attribute_key_type(&raw[i]) {
            Some(key_type) => TokenAttribute::KeyType(plain_key_kind(key_type)),
            None => plain_attribute(&raw[i]),
        };
        plain.push(attribute);
        i += 1;
    }
    plain
}

/// What is reported of the look for the module's file, before anything is
/// loaded: nothing where it is there, and where it is not, that the module is
/// not found.
pub fn module_present(found: bool) -> (report: Result<(), Failure>)
    ensures
        match report {
            Ok(()) => found,
            Err(failure) => !found && failure.kind == BrokerError::ModuleNotFound
                && failure.detail@ == "PKCS#11 library not found"@,
        },
{
    if found {
        Ok(())
    } else {
        Err(Failure::new(BrokerError::ModuleNotFound, "PKCS#11 library not found"))
    }
}

} // verus!
