use vstd::prelude::*;

verus! {

/// A local request to register a thing with the cloud.
///
/// Identifiers issued by the cloud (UUIDs) are held as their 128-bit value.
#[derive(Debug)]
pub struct ThingRequest {
    pub name: String,
    pub serial_number: String,
    pub thing_type: u128,
}

impl Clone for ThingRequest {
    fn clone(&self) -> (r: Self)
        ensures
            r == *self,
    {
        ThingRequest {
            name: self.name.clone(),
            serial_number: self.serial_number.clone(),
            thing_type: self.thing_type,
        }
    }
}

/// The TLS material that the cloud issues for a thing.
#[derive(Debug)]
pub struct ThingCertificates {
    pub ca: String,
    pub cert: String,
    pub key: String,
}

impl Clone for ThingCertificates {
    fn clone(&self) -> (r: Self)
        ensures
            r == *self,
    {
        ThingCertificates { ca: self.ca.clone(), cert: self.cert.clone(), key: self.key.clone() }
    }
}

/// A thing as the cloud knows it.
#[derive(Debug)]
pub struct Thing {
    pub id: u128,
    pub name: String,
    pub serial_number: String,
    pub thing_type: u128,
    pub certs: Option<ThingCertificates>,
}

impl Clone for Thing {
    fn clone(&self) -> (r: Self)
        ensures
            r == *self,
    {
        let certs = match &self.certs {
            Some(c) => Some(c.clone()),
            None => None,
        };
        Thing {
            id: self.id,
            name: self.name.clone(),
            serial_number: self.serial_number.clone(),
            thing_type: self.thing_type,
            certs,
        }
    }
}

/// Whether the thing publishes on a resource or subscribes to it.
#[derive(Debug, Clone, Copy, PartialEq, Eq, Structural)]
pub enum ResourceMethod {
    Pub,
    Sub,
}

/// One topic of a thing type, with its direction.
#[derive(Debug)]
pub struct Resource {
    pub uri: String,
    pub method: ResourceMethod,
}

impl Clone for Resource {
    fn clone(&self) -> (r: Self)
        ensures
            r == *self,
    {
        Resource { uri: self.uri.clone(), method: self.method }
    }
}

/// The canonical hyphenated text of a UUID, as the `uuid` crate writes it.
pub uninterp spec fn hyphenated_of(id: u128) -> Seq<char>;

/// Relies on `uuid::Uuid::hyphenated` and its `Display`: the lower-case
/// 8-4-4-4-12 form, always `Hyphenated::LENGTH` (36) characters.
#[verifier::external_body]
pub(crate) fn uuid_text(id: u128) -> (r: String)
    ensures
        r@ == hyphenated_of(id),
        r@.len() == 36,
{
    uuid::Uuid::from_u128(id).hyphenated().to_string()
}

} // verus!
