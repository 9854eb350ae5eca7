//! An object of the token as the broker sees it: the attributes it reads,
//! each present or not, gathered from the list that a read returns.

use vstd::prelude::*;
use crate::token::{AttributeKind, KeyKind, TokenAttribute};

verus! {

/// The attributes of one object that the broker reads, each present or not.
#[derive(Clone, Debug, PartialEq, Eq)]
pub struct ObjectAttributes {
    pub value: Option<Vec<u8>>,
    pub id: Option<Vec<u8>>,
    pub label: Option<Vec<u8>>,
    pub key_kind: Option<KeyKind>,
    pub modulus: Option<Vec<u8>>,
    pub public_exponent: Option<Vec<u8>>,
    pub ec_point: Option<Vec<u8>>,
}

/// What an `ObjectAttributes` holds.
pub struct ObjectAttributesView {
    pub value: Option<Seq<u8>>,
    pub id: Option<Seq<u8>>,
    pub label: Option<Seq<u8>>,
    pub key_kind: Option<KeyKind>,
    pub modulus: Option<Seq<u8>>,
    pub public_exponent: Option<Seq<u8>>,
    pub ec_point: Option<Seq<u8>>,
}

/// What an optional byte string holds.
pub open spec fn spec_bytes(bytes: Option<Vec<u8>>) -> Option<Seq<u8>> {
    match bytes {
        Some(b) => Some(b@),
        None => None,
    }
}

impl View for ObjectAttributes {
    type V = ObjectAttributesView;

    open spec fn view(&self) -> ObjectAttributesView {
        ObjectAttributesView {
            value: spec_bytes(self.value),
            id: spec_bytes(self.id),
            label: spec_bytes(self.label),
            key_kind: self.key_kind,
            modulus: spec_bytes(self.modulus),
            public_exponent: spec_bytes(self.public_exponent),
            ec_point: spec_bytes(self.ec_point),
        }
    }
}

/// The bytes of an attribute, if it is the byte-valued attribute of the kind.
pub open spec fn spec_payload(attribute: TokenAttribute, kind: AttributeKind) -> Option<Seq<u8>> {
    match (attribute, kind) {
        (TokenAttribute::Value(b), AttributeKind::Value) => Some(b@),
        (TokenAttribute::Id(b), AttributeKind::Id) => Some(b@),
        (TokenAttribute::Label(b), AttributeKind::Label) => Some(b@),
        (TokenAttribute::Modulus(b), AttributeKind::Modulus) => Some(b@),
        (TokenAttribute::PublicExponent(b), AttributeKind::PublicExponent) => Some(b@),
        (TokenAttribute::EcPoint(b), AttributeKind::EcPoint) => Some(b@),
        _ => None,
    }
}

/// The bytes of the last attribute of a kind in a list.
pub open spec fn spec_last_bytes(attributes: Seq<TokenAttribute>, kind: AttributeKind) -> Option<
    Seq<u8>,
>
    decreases attributes.len(),
{
    if attributes.len() == 0 {
        None
    } else {
        match spec_payload(attributes.last(), kind) {
            Some(b) => Some(b),
            None => spec_last_bytes(attributes.drop_last(), kind),
        }
    }
}

/// The key type that the last key-type attribute in a list declares.
pub open spec fn spec_last_key_kind(attributes: Seq<TokenAttribute>) -> Option<KeyKind>
    decreases attributes.len(),
{
    if attributes.len() == 0 {
        None
    } else {
        match attributes.last() {
            TokenAttribute::KeyType(k) => Some(k),
            _ => spec_last_key_kind(attributes.drop_last()),
        }
    }
}

/// The bytes of the first value attribute in a list.
pub open spec fn spec_first_value(attributes: Seq<TokenAttribute>) -> Option<Seq<u8>>
    decreases attributes.len(),
{
    if attributes.len() == 0 {
        None
    } else {
        match attributes.first() {
            TokenAttribute::Value(b) => Some(b@),
            _ => spec_first_value(attributes.drop_first()),
        }
    }
}

/// The key type that the first key-type attribute in a list declares.
pub open spec fn spec_first_key_kind(attributes: Seq<TokenAttribute>) -> Option<KeyKind>
    decreases attributes.len(),
{
    if attributes.len() == 0 {
        None
    } else {
        match attributes.first() {
            TokenAttribute::KeyType(k) => Some(k),
            _ => spec_first_key_kind(attributes.drop_first()),
        }
    }
}

/// An object as its attribute list describes it: of each kind, the last attribute counts.
pub open spec fn spec_collect(attributes: Seq<TokenAttribute>) -> ObjectAttributesView {
    ObjectAttributesView {
        value: spec_last_bytes(attributes, AttributeKind::Value),
        id: spec_last_bytes(attributes, AttributeKind::Id),
        label: spec_last_bytes(attributes, AttributeKind::Label),
        key_kind: spec_last_key_kind(attributes),
        modulus: spec_last_bytes(attributes, AttributeKind::Modulus),
        public_exponent: spec_last_bytes(attributes, AttributeKind::PublicExponent),
        ec_point: spec_last_bytes(attributes, AttributeKind::EcPoint),
    }
}

/// A copy of a byte string.
pub fn copy_bytes(bytes: &Vec<u8>) -> (copy: Vec<u8>)
    ensures
        copy@ == bytes@,
{
    let mut copy: Vec<u8> = Vec::new();
    let mut i: usize = 0;
    while i < bytes.len()
        invariant
            i <= bytes.len(),
            copy@ == bytes@.take(i as int),
        decreases bytes.len() - i,
    {
        copy.push(bytes[i]);
        proof {
            assert(bytes@.take(i + 1) =~= bytes@.take(i as int).push(bytes@[i as int]));
        }
        i += 1;
    }
    proof {
        assert(bytes@.take(bytes.len() as int) =~= bytes@);
    }
    copy
}

/// Gathers an attribute list into one object. Where a kind occurs twice, the
/// later attribute replaces the earlier.
pub fn collect_attributes(attributes: &Vec<TokenAttribute>) -> (object: ObjectAttributes)
    ensures
        object@ == spec_collect(attributes@),
{
    let mut object = ObjectAttributes {
        value: None,
        id: None,
        label: None,
        key_kind: None,
        modulus: None,
        public_exponent: None,
        ec_point: None,
    };
    let mut i: usize = 0;
    while i < attributes.len()
        invariant
            i <= attributes.len(),
            object@ == spec_collect(attributes@.take(i as int)),
        decreases attributes.len() - i,
    {
        proof {
            let next = attributes@.take(i + 1);
            assert(next.drop_last() =~= attributes@.take(i as int));
            assert(next.last() == attributes@[i as int]);
        }
        match &attributes[i] {
            TokenAttribute::Value(b) => {
                object.value = Some(copy_bytes(b));
            },
            TokenAttribute::Id(b) => {
                object.id = Some(copy_bytes(b));
            },
            TokenAttribute::Label(b) => {
                object.label = Some(copy_bytes(b));
            },
            TokenAttribute::KeyType(k) => {
                object.key_kind = Some(*k);
            },
            TokenAttribute::Modulus(b) => {
                object.modulus = Some(copy_bytes(b));
            },
            TokenAttribute::PublicExponent(b) => {
                object.public_exponent = Some(copy_bytes(b));
            },
            TokenAttribute::EcPoint(b) => {
                object.ec_point = Some(copy_bytes(b));
            },
            TokenAttribute::Other => {},
        }
        i += 1;
    }
    proof {
        assert(attributes@.take(attributes.len() as int) =~= attributes@);
    }
    object
}

/// The bytes of the first value attribute in a list.
pub fn first_value(attributes: &Vec<TokenAttribute>) -> (value: Option<Vec<u8>>)
    ensures
        spec_bytes(value) == spec_first_value(attributes@),
{
    let mut i: usize = 0;
    proof {
        assert(attributes@.skip(0) =~= attributes@);
    }
    while i < attributes.len()
        invariant
            i <= attributes.len(),
            spec_first_value(attributes@) == spec_first_value(attributes@.skip(i as int)),
        decreases attributes.len() - i,
    {
        proof {
            let rest = attributes@.skip(i as int);
            assert(rest.first() == attributes@[i as int]);
            assert(rest.drop_first() =~= attributes@.skip(i + 1));
        }
        match &attributes[i] {
            TokenAttribute::Value(b) => {
                return Some(copy_bytes(b));
            },
            _ => {},
        }
        i += 1;
    }
    None
}

/// The key type that the first key-type attribute in a list declares.
pub fn first_key_kind(attributes: &Vec<TokenAttribute>) -> (kind: Option<KeyKind>)
    ensures
        kind == spec_first_key_kind(attributes@),
{
    let mut i: usize = 0;
    proof {
        assert(attributes@.skip(0) =~= attributes@);
    }
    while i < attributes.len()
        invariant
            i <= attributes.len(),
            spec_first_key_kind(attributes@) == spec_first_key_kind(attributes@.skip(i as int)),
        decreases attributes.len() - i,
    {
        proof {
            let rest = attributes@.skip(i as int);
            assert(rest.first() == attributes@[i as int]);
            assert(rest.drop_first() =~= attributes@.skip(i + 1));
        }
        match &attributes[i] {
            TokenAttribute::KeyType(k) => {
                return Some(*k);
            },
            _ => {},
        }
        i += 1;
    }
    None
}


/// Whether two byte strings hold the same bytes.
pub fn same_bytes(left: &[u8], right: &[u8]) -> (same: bool)
    ensures
        same == (left@ == right@),
{
    if left.len() != right.len() {
        return false;
    }
    let mut i: usize = 0;
    while i < left.len()
        invariant
            i <= left.len(),
            left.len() == right.len(),
            left@.take(i as int) == right@.take(i as int),
        decreases left.len() - i,
    {
        if left[i] != right[i] {
            proof {
                assert(left@[i as int] != right@[i as int]);
            }
            return false;
        }
        proof {
            assert(left@.take(i + 1) =~= left@.take(i as int).push(left@[i as int]));
            assert(right@.take(i + 1) =~= right@.take(i as int).push(right@[i as int]));
        }
        i += 1;
    }
    proof {
        assert(left@.take(left.len() as int) =~= left@);
        assert(right@.take(right.len() as int) =~= right@);
    }
    true
}

} // verus!
