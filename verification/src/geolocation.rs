//! Where a peer is: the country its address is registered in, as far as a
//! country database can tell.

use vstd::prelude::*;
use crate::events::NetAddress;
use crate::events::PushedEvent;

verus! {

/// The geographic origin of an event.
#[derive(Clone, Debug, PartialEq, Eq, Hash)]
pub enum Geolocation {
    /// The country the peer's address belongs to, by its ISO 3166-1 alpha-2
    /// code as the country database gives it.
    Alpha2(String),
    /// The origin could not be resolved: the event carries no address, the
    /// database has no country for it, or the lookup failed.
    Unknown,
    /// The origin under which events are counted whose own origin has no
    /// bundle of counters and cannot get one.
    Error,
}

/// A geographic origin as a mathematical value.
pub enum SpecGeolocation {
    Alpha2(Seq<char>),
    Unknown,
    Error,
}

impl View for Geolocation {
    type V = SpecGeolocation;

    open spec fn view(&self) -> SpecGeolocation {
        match self {
            Geolocation::Alpha2(code) => SpecGeolocation::Alpha2(code@),
            Geolocation::Unknown => SpecGeolocation::Unknown,
            Geolocation::Error => SpecGeolocation::Error,
        }
    }
}

/// An ISO 3166-1 alpha-2 code is two capital letters from A to Z.
pub open spec fn is_alpha2(code: Seq<char>) -> bool {
    &&& code.len() == 2
    &&& 'A' <= code[0] <= 'Z'
    &&& 'A' <= code[1] <= 'Z'
}

/// Whether `code` has the form of an ISO 3166-1 alpha-2 code.
pub fn has_alpha2_form(code: &str) -> (b: bool)
    ensures
        b == is_alpha2(code@),
{
    if code.unicode_len() != 2 {
        return false;
    }
    let first = code.get_char(0);
    let second = code.get_char(1);
    'A' <= first && first <= 'Z' && 'A' <= second && second <= 'Z'
}

impl SpecGeolocation {
    /// Whether counters can be kept under this origin: under a country only
    /// if its code has the form of one.
    pub open spec fn is_label(self) -> bool {
        match self {
            SpecGeolocation::Alpha2(code) => is_alpha2(code),
            SpecGeolocation::Unknown => true,
            SpecGeolocation::Error => true,
        }
    }

    /// The name under which the counters of this origin are shown: the
    /// code of a country, and a word for the other two.
    pub open spec fn label(self) -> Seq<char> {
        match self {
            SpecGeolocation::Alpha2(code) => code,
            SpecGeolocation::Unknown => "Unknown"@,
            SpecGeolocation::Error => "Error"@,
        }
    }
}

/// No two origins that counters are kept under are shown under the same
/// name.
pub proof fn labels_tell_origins_apart(a: SpecGeolocation, b: SpecGeolocation)
    requires
        a.is_label(),
        b.is_label(),
        a.label() == b.label(),
    ensures
        a == b,
{
    reveal_strlit("Unknown");
    reveal_strlit("Error");
    assert("Unknown"@.len() == 7);
    assert("Error"@.len() == 5);
    match (a, b) {
        (SpecGeolocation::Alpha2(x), SpecGeolocation::Alpha2(y)) => {
            assert(x == y);
        },
        (SpecGeolocation::Alpha2(x), _) => {
            assert(x.len() == 2);
        },
        (_, SpecGeolocation::Alpha2(y)) => {
            assert(y.len() == 2);
        },
        _ => {},
    }
}

impl Geolocation {
    /// Whether two origins are the same.
    pub fn same(&self, other: &Geolocation) -> (b: bool)
        ensures
            b == (self@ == other@),
    {
        match (self, other) {
            (Geolocation::Alpha2(a), Geolocation::Alpha2(b)) => *a == *b,
            (Geolocation::Unknown, Geolocation::Unknown) => true,
            (Geolocation::Error, Geolocation::Error) => true,
            _ => false,
        }
    }

    /// A copy of this origin.
    pub fn duplicate(&self) -> (copy: Geolocation)
        ensures
            copy@ == self@,
    {
        match self {
            Geolocation::Alpha2(code) => Geolocation::Alpha2(code.clone()),
            Geolocation::Unknown => Geolocation::Unknown,
            Geolocation::Error => Geolocation::Error,
        }
    }

    /// The name under which the counters of this origin are shown.
    pub fn label(&self) -> (name: String)
        ensures
            name@ == self@.label(),
    {
        match self {
            Geolocation::Alpha2(code) => code.clone(),
            Geolocation::Unknown => "Unknown".to_owned(),
            Geolocation::Error => "Error".to_owned(),
        }
    }

    /// Whether counters can be kept under this origin.
    pub fn is_label(&self) -> (b: bool)
        ensures
            b == self@.is_label(),
    {
        match self {
            Geolocation::Alpha2(code) => has_alpha2_form(code.as_str()),
            Geolocation::Unknown => true,
            Geolocation::Error => true,
        }
    }
}

/// What a country database says of an address.
#[derive(Clone, Debug, PartialEq, Eq)]
pub enum CountryAnswer {
    /// The record of the address names a country, by this code.
    Country(String),
    /// The address has a record, which names no country.
    NoCountry,
    /// The database has no record of the address.
    NotFound,
    /// The lookup failed: the database is damaged, or made for other
    /// addresses.
    Failed,
}

/// An answer as a mathematical value.
pub enum SpecCountryAnswer {
    Country(Seq<char>),
    NoCountry,
    NotFound,
    Failed,
}

impl View for CountryAnswer {
    type V = SpecCountryAnswer;

    open spec fn view(&self) -> SpecCountryAnswer {
        match self {
            CountryAnswer::Country(code) => SpecCountryAnswer::Country(code@),
            CountryAnswer::NoCountry => SpecCountryAnswer::NoCountry,
            CountryAnswer::NotFound => SpecCountryAnswer::NotFound,
            CountryAnswer::Failed => SpecCountryAnswer::Failed,
        }
    }
}

/// The origin that an answer of the database stands for: the country it
/// names, and the unknown origin where it names none.
pub open spec fn origin_of_answer(answer: SpecCountryAnswer) -> SpecGeolocation {
    match answer {
        SpecCountryAnswer::Country(code) => SpecGeolocation::Alpha2(code),
        SpecCountryAnswer::NoCountry => SpecGeolocation::Unknown,
        SpecCountryAnswer::NotFound => SpecGeolocation::Unknown,
        SpecCountryAnswer::Failed => SpecGeolocation::Unknown,
    }
}

/// The origin of an address, given what the database answers for each
/// address: unknown without an address.
pub open spec fn origin_of_address(
    answers: Map<NetAddress, SpecCountryAnswer>,
    address: Option<NetAddress>,
) -> SpecGeolocation {
    match address {
        Some(a) => origin_of_answer(answers[a]),
        None => SpecGeolocation::Unknown,
    }
}

/// Turns an answer of the database into an origin. Every answer has one.
pub fn classify(answer: CountryAnswer) -> (origin: Geolocation)
    ensures
        origin@ == origin_of_answer(answer@),
{
    match answer {
        CountryAnswer::Country(code) => Geolocation::Alpha2(code),
        CountryAnswer::NoCountry => Geolocation::Unknown,
        CountryAnswer::NotFound => Geolocation::Unknown,
        CountryAnswer::Failed => Geolocation::Unknown,
    }
}

/// A country database, held in memory and never changed. It holds a
/// `maxminddb::Reader`, of which nothing is known here but what the two
/// functions below say.
#[verifier::external_body]
pub struct CountryDb {
    reader: maxminddb::Reader<Vec<u8>>,
}

/// Makes `maxminddb::MaxMindDbError` known, as a value that is carried
/// through and never looked into.
#[verifier::external_type_specification]
#[verifier::external_body]
pub struct ExMaxMindDbError(maxminddb::MaxMindDbError);

/// Whether `maxminddb::Reader::from_source` accepts the bytes as a
/// database.
pub uninterp spec fn is_database(bytes: Seq<u8>) -> bool;

/// What a database answers for each address, by `maxminddb::Reader::lookup`
/// decoded as a country record.
pub uninterp spec fn country_answers(db: CountryDb) -> Map<NetAddress, SpecCountryAnswer>;

/// Calls `maxminddb::Reader::from_source`, which reads the metadata of a
/// database held in memory. Whether it accepts the bytes depends on the
/// bytes alone.
#[verifier::external_body]
fn open_reader(bytes: Vec<u8>) -> (r: Result<CountryDb, maxminddb::MaxMindDbError>)
    ensures
        r is Ok <==> is_database(bytes@),
{
    match maxminddb::Reader::from_source(bytes) {
        Ok(reader) => Ok(CountryDb { reader }),
        Err(e) => Err(e),
    }
}

/// The answer that stands for what a lookup gave: the country code of the
/// record, a record without one, no record, or an error.
pub open spec fn answer_of(
    found: Result<Option<Option<String>>, maxminddb::MaxMindDbError>,
) -> SpecCountryAnswer {
    match found {
        Ok(Some(Some(code))) => SpecCountryAnswer::Country(code@),
        Ok(Some(None)) => SpecCountryAnswer::NoCountry,
        Ok(None) => SpecCountryAnswer::NotFound,
        Err(_) => SpecCountryAnswer::Failed,
    }
}

/// Calls `maxminddb::Reader::lookup`, decodes what it finds as
/// `maxminddb::geoip2::Country` and picks the ISO code of the country. What
/// comes back depends on the database and the address alone; the lookup
/// walks at most one node of the search tree per bit of the address and
/// gives an error where the database is damaged.
#[verifier::external_body]
fn lookup_iso_code(db: &CountryDb, address: NetAddress) -> (found: Result<
    Option<Option<String>>,
    maxminddb::MaxMindDbError,
>)
    ensures
        country_answers(*db).contains_pair(address, answer_of(found)),
{
    let hit = db.reader.lookup(
        match address {
            NetAddress::V4(a) => a.to_be_bytes().into(),
            NetAddress::V6(a) => a.to_be_bytes().into(),
        },
    )?;
    let record = hit.decode::<maxminddb::geoip2::Country>()?;
    Ok(record.map(|r| r.country.iso_code.map(|code| code.to_string())))
}

/// Calls the `Display` of `maxminddb::MaxMindDbError`, for the words of an
/// error.
#[verifier::external_body]
fn error_message(e: &maxminddb::MaxMindDbError) -> String {
    e.to_string()
}

/// That bytes are no country database.
#[derive(Clone, Debug, PartialEq, Eq)]
pub struct InvalidCountryDb {
    /// Why the bytes were refused, in words.
    pub message: String,
}

impl View for CountryDb {
    type V = Map<NetAddress, SpecCountryAnswer>;

    /// What the database answers for each address.
    open spec fn view(&self) -> Map<NetAddress, SpecCountryAnswer> {
        country_answers(*self)
    }
}

impl CountryDb {
    /// Opens a database from the bytes of its file.
    pub fn from_bytes(bytes: Vec<u8>) -> (r: Result<CountryDb, InvalidCountryDb>)
        ensures
            r is Ok <==> is_database(bytes@),
    {
        match open_reader(bytes) {
            Ok(db) => Ok(db),
            Err(e) => Err(InvalidCountryDb { message: error_message(&e) }),
        }
    }

    /// What the database says of an address.
    pub fn lookup(&self, address: NetAddress) -> (answer: CountryAnswer)
        ensures
            self@.contains_pair(address, answer@),
    {
        match lookup_iso_code(self, address) {
            Ok(Some(Some(code))) => CountryAnswer::Country(code),
            Ok(Some(None)) => CountryAnswer::NoCountry,
            Ok(None) => CountryAnswer::NotFound,
            Err(_) => CountryAnswer::Failed,
        }
    }

    /// The origin of an address. Without an address, with an address that
    /// the database has no country for, and where the lookup fails, the
    /// origin is unknown.
    pub fn geolocate(&self, address: Option<NetAddress>) -> (origin: Geolocation)
        ensures
            origin@ == origin_of_address(self@, address),
    {
        match address {
            Some(a) => classify(self.lookup(a)),
            None => Geolocation::Unknown,
        }
    }

    /// The origin of an event, by the address that the event gives for its
    /// peer.
    pub fn geolocate_event(&self, event: &PushedEvent) -> (origin: Geolocation)
        ensures
            origin@ == origin_of_address(self@, event.origin()),
    {
        self.geolocate(event.origin_address())
    }
}

} // verus!
