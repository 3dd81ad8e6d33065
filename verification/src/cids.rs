//! Content identifiers in their canonical form: version 1, whatever
//! version they were written in.

use vstd::prelude::*;

verus! {

/// Makes `cid::Error` known, with its variants: an enum without fields.
#[verifier::external_type_specification]
pub struct ExCidError(cid::Error);

/// A content identifier, by what it is made of.
#[derive(Clone, Debug, PartialEq, Eq, Hash)]
pub struct Cid {
    /// The version of the CID: 0 or 1.
    pub version: u64,
    /// The number of its codec in the multicodec table.
    pub codec: u64,
    /// Its multihash, as bytes.
    pub hash: Vec<u8>,
}

/// A CID as a mathematical value.
pub struct SpecCid {
    pub version: u64,
    pub codec: u64,
    pub hash: Seq<u8>,
}

impl View for Cid {
    type V = SpecCid;

    open spec fn view(&self) -> SpecCid {
        SpecCid { version: self.version, codec: self.codec, hash: self.hash@ }
    }
}

/// What `cid::Cid::try_from` makes of a text: the CID that the text
/// denotes, or why it denotes none.
pub uninterp spec fn parsed_cid(text: Seq<char>) -> Result<SpecCid, InvalidCid>;

/// The text that `multibase::encode` gives for bytes in the base
/// `Base32Lower`.
pub uninterp spec fn base32_lower(bytes: Seq<u8>) -> Seq<char>;

/// A number as an unsigned varint: seven bits to a byte, the low ones
/// first, the high bit set on every byte but the last.
pub open spec fn varint(n: u64) -> Seq<u8>
    decreases n,
{
    if n < 128 {
        seq![n as u8]
    } else {
        seq![(n % 128 + 128) as u8] + varint(n / 128)
    }
}

impl SpecCid {
    /// The same content, named by a CID of version 1.
    pub open spec fn canonical(self) -> SpecCid {
        SpecCid { version: 1, codec: self.codec, hash: self.hash }
    }

    /// The binary form of the CID: for version 0 the multihash alone, else
    /// version, codec and multihash.
    pub open spec fn binary(self) -> Seq<u8> {
        if self.version == 0 {
            self.hash
        } else {
            varint(self.version) + varint(self.codec) + self.hash
        }
    }
}

/// Why a text is no CID.
#[derive(Clone, Copy, Debug, PartialEq, Eq, Hash, Structural)]
pub enum InvalidCid {
    UnknownCodec,
    InputTooShort,
    ParsingError,
    InvalidCidVersion,
    InvalidCidV0Codec,
    InvalidCidV0Multihash,
    InvalidCidV0Base,
    VarIntDecodeError,
}

impl InvalidCid {
    /// The reason that an error of `cid` stands for.
    pub open spec fn of(e: cid::Error) -> InvalidCid {
        match e {
            cid::Error::UnknownCodec => InvalidCid::UnknownCodec,
            cid::Error::InputTooShort => InvalidCid::InputTooShort,
            cid::Error::ParsingError => InvalidCid::ParsingError,
            cid::Error::InvalidCidVersion => InvalidCid::InvalidCidVersion,
            cid::Error::InvalidCidV0Codec => InvalidCid::InvalidCidV0Codec,
            cid::Error::InvalidCidV0Multihash => InvalidCid::InvalidCidV0Multihash,
            cid::Error::InvalidCidV0Base => InvalidCid::InvalidCidV0Base,
            cid::Error::VarIntDecodeError => InvalidCid::VarIntDecodeError,
        }
    }

    /// Takes over an error of `cid`.
    pub fn from_error(e: cid::Error) -> (reason: InvalidCid)
        ensures
            reason == Self::of(e),
    {
        match e {
            cid::Error::UnknownCodec => InvalidCid::UnknownCodec,
            cid::Error::InputTooShort => InvalidCid::InputTooShort,
            cid::Error::ParsingError => InvalidCid::ParsingError,
            cid::Error::InvalidCidVersion => InvalidCid::InvalidCidVersion,
            cid::Error::InvalidCidV0Codec => InvalidCid::InvalidCidV0Codec,
            cid::Error::InvalidCidV0Multihash => InvalidCid::InvalidCidV0Multihash,
            cid::Error::InvalidCidV0Base => InvalidCid::InvalidCidV0Base,
            cid::Error::VarIntDecodeError => InvalidCid::VarIntDecodeError,
        }
    }
}

/// Calls `cid::Cid::try_from` on a text, and takes the CID apart by its
/// methods `version`, `codec` and `hash`. Whether the text denotes a CID,
/// and which, depends on the text alone.
#[verifier::external_body]
fn cid_from_str(text: &str) -> (r: Result<Cid, cid::Error>)
    ensures
        match r {
            Ok(c) => parsed_cid(text@) == Ok::<SpecCid, InvalidCid>(c@),
            Err(e) => parsed_cid(text@) == Err::<SpecCid, InvalidCid>(InvalidCid::of(e)),
        },
{
    match cid::Cid::try_from(text) {
        Ok(c) => Ok(
            Cid {
                version: u64::from(c.version()),
                codec: u64::from(c.codec()),
                hash: c.hash().as_bytes().to_vec(),
            },
        ),
        Err(e) => Err(e),
    }
}

/// Calls `multibase::encode` with the base `Base32Lower`.
#[verifier::external_body]
fn encode_base32_lower(bytes: Vec<u8>) -> (text: String)
    ensures
        text@ == base32_lower(bytes@),
{
    multibase::encode(multibase::Base::Base32Lower, bytes)
}

/// Appends a number as an unsigned varint.
fn push_varint(bytes: &mut Vec<u8>, n: u64)
    ensures
        final(bytes)@ == old(bytes)@ + varint(n),
{
    let mut rest = n;
    proof {
        assert(bytes@ + varint(rest) == old(bytes)@ + varint(n));
    }
    while rest >= 128
        invariant
            bytes@ + varint(rest) == old(bytes)@ + varint(n),
        decreases rest,
    {
        let low = (rest % 128 + 128) as u8;
        proof {
            assert(bytes@.push(low) + varint(rest / 128) =~= bytes@ + varint(rest));
        }
        bytes.push(low);
        rest = rest / 128;
    }
    proof {
        assert(bytes@.push(rest as u8) =~= bytes@ + varint(rest));
    }
    bytes.push(rest as u8);
}

impl Cid {
    /// The binary form of the CID.
    pub fn to_bytes(&self) -> (bytes: Vec<u8>)
        ensures
            bytes@ == self@.binary(),
    {
        let mut bytes: Vec<u8> = Vec::new();
        if self.version != 0 {
            push_varint(&mut bytes, self.version);
            push_varint(&mut bytes, self.codec);
        }
        let mut i: usize = 0;
        let ghost head = bytes@;
        while i < self.hash.len()
            invariant
                i <= self.hash.len(),
                bytes@ == head + self.hash@.take(i as int),
            decreases self.hash.len() - i,
        {
            proof {
                assert(self.hash@.take(i + 1) =~= self.hash@.take(i as int).push(
                    self.hash@[i as int],
                ));
            }
            bytes.push(self.hash[i]);
            i += 1;
        }
        proof {
            assert(self.hash@.take(i as int) =~= self.hash@);
            assert(Seq::<u8>::empty() + self.hash@ =~= self.hash@);
            assert(head + self.hash@ =~= self@.binary());
        }
        bytes
    }
}

/// The CID of version 1 for the content that a CID names.
pub fn canonicalize_cid_to_cidv1(c: &Cid) -> (v1: Cid)
    ensures
        v1@ == c@.canonical(),
{
    Cid { version: 1, codec: c.codec, hash: c.hash.clone() }
}

/// Reads a CID and gives it in version 1.
pub fn canonicalize_cid_from_str_to_cidv1(cid: &str) -> (r: Result<Cid, InvalidCid>)
    ensures
        match parsed_cid(cid@) {
            Ok(provided) => r matches Ok(v1) && v1@ == provided.canonical(),
            Err(reason) => r == Err::<Cid, InvalidCid>(reason),
        },
{
    match cid_from_str(cid) {
        Ok(provided) => Ok(canonicalize_cid_to_cidv1(&provided)),
        Err(e) => Err(InvalidCid::from_error(e)),
    }
}

/// The text of a CID in version 1 and base 32.
pub fn canonicalize_cid_to_base32_cidv1(c: &Cid) -> (text: String)
    ensures
        text@ == base32_lower(c@.canonical().binary()),
{
    let v1 = canonicalize_cid_to_cidv1(c);
    encode_base32_lower(v1.to_bytes())
}

/// Reads a CID and gives its text in version 1 and base 32.
pub fn canonicalize_cid_from_str_to_base32_cidv1(cid: &str) -> (r: Result<String, InvalidCid>)
    ensures
        match parsed_cid(cid@) {
            Ok(provided) => r matches Ok(text) && text@ == base32_lower(
                provided.canonical().binary(),
            ),
            Err(reason) => r == Err::<String, InvalidCid>(reason),
        },
{
    match cid_from_str(cid) {
        Ok(provided) => Ok(canonicalize_cid_to_base32_cidv1(&provided)),
        Err(e) => Err(InvalidCid::from_error(e)),
    }
}

/// Reads a CID and gives it in version 1, with the number of the codec it
/// was written with.
pub fn canonicalize_cid_from_str_to_cidv1_and_codec(cid: &str) -> (r: Result<(Cid, u64), InvalidCid>)
    ensures
        match parsed_cid(cid@) {
            Ok(provided) => r matches Ok(pair) && pair.0@ == provided.canonical() && pair.1
                == provided.codec,
            Err(reason) => r == Err::<(Cid, u64), InvalidCid>(reason),
        },
{
    match cid_from_str(cid) {
        Ok(provided) => {
            let codec = provided.codec;
            Ok((canonicalize_cid_to_cidv1(&provided), codec))
        },
        Err(e) => Err(InvalidCid::from_error(e)),
    }
}

/// The canonical form of a CID is canonical already, and its binary form
/// starts with the version, 1.
pub proof fn canonical_is_version_one(c: SpecCid)
    ensures
        c.canonical().canonical() == c.canonical(),
        c.canonical().binary().len() >= 2,
        c.canonical().binary()[0] == 1,
        c.canonical().binary() == varint(1) + varint(c.codec) + c.hash,
{
    reveal_with_fuel(varint, 2);
    assert(varint(1) =~= seq![1u8]);
    assert(varint(c.codec).len() >= 1);
}

} // verus!
