//! Content keys: the validated form of a content identifier.
//!
//! A content identifier arrives as text. Decoding it is the `cid` crate's
//! work; everything the rest of the library needs from the decoded value is
//! kept here as plain data: the bytes that the network is asked for and the
//! identifier's canonical spelling.

use vstd::prelude::*;
use vstd::string::*;

verus! {

/// What decoding a content identifier yields: the bytes of its multihash and
/// its canonical text, or `None` when the text is not a content identifier.
///
/// The decoding itself is done by the `cid` crate; this names its outcome.
pub uninterp spec fn cid_decode(text: Seq<char>) -> Option<(Seq<u8>, Seq<char>)>;

/// Whether `text` is a content identifier.
pub open spec fn is_identifier(text: Seq<char>) -> bool {
    cid_decode(text) is Some
}

/// The bytes under which the content named by `text` is looked up.
pub open spec fn lookup_key(text: Seq<char>) -> Seq<u8>
    recommends
        is_identifier(text),
{
    match cid_decode(text) {
        Some(parts) => parts.0,
        None => Seq::empty(),
    }
}

/// The canonical spelling of the identifier `text`.
pub open spec fn canonical_text(text: Seq<char>) -> Seq<char>
    recommends
        is_identifier(text),
{
    match cid_decode(text) {
        Some(parts) => parts.1,
        None => Seq::empty(),
    }
}

/// The suffix of a file name derived from an identifier.
pub const DERIVED_SUFFIX: &'static str = ".bin";

/// The file name under which content is stored when no path was chosen: the
/// canonical identifier followed by [`DERIVED_SUFFIX`].
pub open spec fn derived_file_name(identifier: Seq<char>) -> Seq<char> {
    identifier + DERIVED_SUFFIX@
}

/// The error of the `cid` crate. Nothing is known of it here; it is only
/// told apart from success.
#[verifier::external_type_specification]
#[verifier::external_body]
pub struct ExCidError(cid::Error);

/// Decodes `text` with `cid::Cid::try_from` and hands out the multihash bytes
/// (`Cid::hash`, then `Multihash::to_bytes`) and the canonical text (the
/// `Display` of `Cid`). The contract claims only that the outcome is the one
/// named by [`cid_decode`]: the same text always decodes the same way.
#[verifier::external_body]
fn decode_identifier(text: &str) -> (r: Result<(Vec<u8>, String), cid::Error>)
    ensures
        match r {
            Ok(parts) => cid_decode(text@) == Some((parts.0@, parts.1@)),
            Err(_) => cid_decode(text@) is None,
        },
{
    let parsed = cid::Cid::try_from(text)?;
    Ok((parsed.hash().to_bytes(), parsed.to_string()))
}

/// Why a text was not accepted as a content key.
#[derive(Debug, Clone, Copy, PartialEq, Eq, Structural)]
pub enum KeyError {
    /// The text is not a content identifier.
    InvalidIdentifier,
}

impl KeyError {
    /// A short description for the operator.
    pub fn message(&self) -> (r: String)
        ensures
            r@ == "invalid identifier"@,
    {
        String::from_str("invalid identifier")
    }
}

/// The mathematical content of a [`ContentKey`].
pub struct ContentKeyView {
    /// The identifier as it was given.
    pub source: Seq<char>,
    /// The lookup key.
    pub bytes: Seq<u8>,
    /// The identifier in canonical spelling.
    pub identifier: Seq<char>,
}

/// A validated content identifier.
///
/// A value of this type exists only for a text that decodes, and it never
/// changes: the lookup key is derived once and reused as it is.
#[derive(Debug, PartialEq, Eq)]
pub struct ContentKey {
    source: String,
    bytes: Vec<u8>,
    canonical: String,
}

impl View for ContentKey {
    type V = ContentKeyView;

    closed spec fn view(&self) -> ContentKeyView {
        ContentKeyView {
            source: self.source@,
            bytes: self.bytes@,
            identifier: self.canonical@,
        }
    }
}

/// The key of the identifier `text`.
pub open spec fn key_of(text: Seq<char>) -> ContentKeyView
    recommends
        is_identifier(text),
{
    ContentKeyView { source: text, bytes: lookup_key(text), identifier: canonical_text(text) }
}

/// What [`ContentKey::parse`] returns for `text`: the key of `text` when it is
/// an identifier, the error otherwise.
pub open spec fn parse_outcome(text: Seq<char>, r: Result<ContentKey, KeyError>) -> bool {
    match r {
        Ok(key) => is_identifier(text) && key@ == key_of(text),
        Err(e) => !is_identifier(text) && e == KeyError::InvalidIdentifier,
    }
}

impl ContentKey {
    #[verifier::type_invariant]
    spec fn decodes(self) -> bool {
        cid_decode(self.source@) == Some((self.bytes@, self.canonical@))
    }

    /// Whether the parts of `v` are what decoding `v.source` yields.
    pub open spec fn consistent(v: ContentKeyView) -> bool {
        cid_decode(v.source) == Some((v.bytes, v.identifier))
    }

    /// Validates `text`. Succeeds exactly on content identifiers.
    pub fn parse(text: &str) -> (r: Result<ContentKey, KeyError>)
        ensures
            parse_outcome(text@, r),
    {
        match decode_identifier(text) {
            Ok(parts) => {
                let (bytes, canonical) = parts;
                Ok(ContentKey { source: String::from_str(text), bytes, canonical })
            },
            Err(_) => Err(KeyError::InvalidIdentifier),
        }
    }

    /// The bytes to ask the network for.
    pub fn as_bytes(&self) -> (r: &Vec<u8>)
        ensures
            r@ == self@.bytes,
            Self::consistent(self@),
    {
        proof {
            use_type_invariant(self);
        }
        &self.bytes
    }

    /// The identifier as it was given.
    pub fn source(&self) -> (r: &String)
        ensures
            r@ == self@.source,
            Self::consistent(self@),
    {
        proof {
            use_type_invariant(self);
        }
        &self.source
    }

    /// The identifier in canonical spelling.
    pub fn identifier(&self) -> (r: &String)
        ensures
            r@ == self@.identifier,
            Self::consistent(self@),
    {
        proof {
            use_type_invariant(self);
        }
        &self.canonical
    }

    /// The file name under which the content is stored when no path was
    /// chosen.
    pub fn file_name(&self) -> (r: String)
        ensures
            r@ == derived_file_name(self@.identifier),
    {
        let mut name = self.canonical.clone();
        name.append(DERIVED_SUFFIX);
        name
    }
}

impl Clone for ContentKey {
    fn clone(&self) -> (r: Self)
        ensures
            r@ == self@,
    {
        proof {
            use_type_invariant(self);
        }
        let bytes = self.bytes.clone();
        assert(bytes@ =~= self.bytes@);
        ContentKey { source: self.source.clone(), bytes, canonical: self.canonical.clone() }
    }
}

/// Parsing is a function of the text: whatever two runs of
/// [`ContentKey::parse`] return for the same text, they agree on success, on
/// the key and on the error.
pub proof fn lemma_parse_is_deterministic(
    text: Seq<char>,
    first: Result<ContentKey, KeyError>,
    second: Result<ContentKey, KeyError>,
)
    requires
        parse_outcome(text, first),
        parse_outcome(text, second),
    ensures
        first is Ok <==> second is Ok,
        first is Ok <==> is_identifier(text),
        first is Ok ==> first->Ok_0@ == second->Ok_0@,
        first is Err ==> first->Err_0 == second->Err_0,
{
}

/// A key is determined by the text it was parsed from: keys of the same
/// source carry the same lookup bytes and the same canonical identifier.
pub proof fn lemma_key_is_stable(a: ContentKeyView, b: ContentKeyView)
    requires
        ContentKey::consistent(a),
        ContentKey::consistent(b),
        a.source == b.source,
    ensures
        a == b,
{
}

} // verus!
