//! Signaling-text codec.
//!
//! A session description — a role tag (offer or answer) plus an opaque
//! signaling payload — is rendered to one exchangeable blob of bytes
//! and parsed back.  The rendering is lossless: a role line, then the
//! payload unchanged.  Parsing rejects blank input as a user error and
//! anything without a role line as malformed; it never partially
//! succeeds.

use vstd::prelude::*;

verus! {

/// Which half of the exchange a description is.
#[derive(Clone, Copy, PartialEq, Eq, Structural, Debug)]
pub enum DescriptionRole {
    /// Created by the initiator.
    Offer,
    /// Created by the responder.
    Answer,
}

/// A session description: a role tag and the platform's opaque
/// signaling payload.
#[derive(Clone, PartialEq, Eq, Debug)]
pub struct SessionDescription {
    /// Whether this is the offer or the answer.
    pub role: DescriptionRole,
    /// The opaque payload produced by the connection object.
    pub payload: Vec<u8>,
}

/// Why a blob of signaling text was rejected.
#[derive(Clone, Copy, PartialEq, Eq, Structural, Debug)]
pub enum CodecError {
    /// The input was empty or only whitespace: a user error, not a
    /// protocol error.
    EmptyInput,
    /// The input carries no role line.
    MalformedInput,
}

/// Whether a byte is ASCII whitespace (space, tab, line feed,
/// carriage return).
pub open spec fn is_space(b: u8) -> bool {
    b == 32 || b == 9 || b == 10 || b == 13
}

/// Whether the text holds nothing but whitespace (in particular,
/// whether it is empty).
pub open spec fn is_blank(text: Seq<u8>) -> bool {
    forall|i: int| 0 <= i < text.len() ==> is_space(text[i])
}

/// The role line that opens an encoded offer: `"offer"` and a line
/// feed.
pub open spec fn offer_tag() -> Seq<u8> {
    seq![111u8, 102u8, 102u8, 101u8, 114u8, 10u8]
}

/// The role line that opens an encoded answer: `"answer"` and a line
/// feed.
pub open spec fn answer_tag() -> Seq<u8> {
    seq![97u8, 110u8, 115u8, 119u8, 101u8, 114u8, 10u8]
}

/// The role line for the given role.
pub open spec fn role_tag(role: DescriptionRole) -> Seq<u8> {
    match role {
        DescriptionRole::Offer => offer_tag(),
        DescriptionRole::Answer => answer_tag(),
    }
}

/// The encoded form of a description: its role line, then its payload
/// unchanged.
pub open spec fn encoded(role: DescriptionRole, payload: Seq<u8>) -> Seq<u8> {
    role_tag(role) + payload
}

/// Whether the text opens with the role line of the given role.
pub open spec fn has_tag(text: Seq<u8>, role: DescriptionRole) -> bool {
    text.len() >= role_tag(role).len() && text.subrange(0, role_tag(role).len() as int)
        == role_tag(role)
}

/// Whether the text is a well-formed piece of signaling text: it opens
/// with one of the two role lines.
pub open spec fn well_formed(text: Seq<u8>) -> bool {
    has_tag(text, DescriptionRole::Offer) || has_tag(text, DescriptionRole::Answer)
}

/// The role a well-formed text declares.
pub open spec fn parsed_role(text: Seq<u8>) -> DescriptionRole {
    if has_tag(text, DescriptionRole::Offer) {
        DescriptionRole::Offer
    } else {
        DescriptionRole::Answer
    }
}

/// The payload a well-formed text carries: everything after its role
/// line.
pub open spec fn parsed_payload(text: Seq<u8>) -> Seq<u8> {
    text.subrange(role_tag(parsed_role(text)).len() as int, text.len() as int)
}

/// A well-formed text opens with a letter, so it is not blank.
pub proof fn lemma_well_formed_not_blank(text: Seq<u8>)
    requires
        well_formed(text),
    ensures
        !is_blank(text),
{
    if has_tag(text, DescriptionRole::Offer) {
        assert(text.subrange(0, offer_tag().len() as int)[0] == text[0]);
        assert(!is_space(text[0]));
    } else {
        assert(text.subrange(0, answer_tag().len() as int)[0] == text[0]);
        assert(!is_space(text[0]));
    }
}

/// Round trip: re-encoding what a well-formed text parses to gives the
/// text back unchanged.
pub proof fn lemma_encode_decode_round_trip(text: Seq<u8>)
    requires
        well_formed(text),
    ensures
        encoded(parsed_role(text), parsed_payload(text)) == text,
{
    let role = parsed_role(text);
    let n = role_tag(role).len() as int;
    assert(text.subrange(0, n) == role_tag(role));
    assert forall|i: int| 0 <= i < text.len() implies encoded(role, parsed_payload(text))[i]
        == text[i] by {
        if i < n {
            assert(text.subrange(0, n)[i] == text[i]);
        } else {
            assert(text.subrange(n, text.len() as int)[i - n] == text[i]);
        }
    }
    assert(encoded(role, parsed_payload(text)) =~= text);
}

/// Round trip the other way: what `encoded` produces is well formed
/// and parses back to the same role and payload.
pub proof fn lemma_decode_encode_round_trip(role: DescriptionRole, payload: Seq<u8>)
    ensures
        well_formed(encoded(role, payload)),
        parsed_role(encoded(role, payload)) == role,
        parsed_payload(encoded(role, payload)) == payload,
{
    let text = encoded(role, payload);
    assert(text.subrange(0, role_tag(role).len() as int) =~= role_tag(role));
    assert(has_tag(text, role));
    if role is Answer {
        // An answer cannot be mistaken for an offer: the first bytes
        // of the two role lines differ.
        if has_tag(text, DescriptionRole::Offer) {
            assert(text.subrange(0, offer_tag().len() as int)[0] == text[0]);
            assert(false);
        }
    }
    let n = role_tag(parsed_role(text)).len() as int;
    assert(parsed_payload(text) =~= payload) by {
        assert forall|i: int| 0 <= i < payload.len() implies text.subrange(n, text.len() as int)[i]
            == payload[i] by {}
    }
}

/// The role line of a role, as bytes.
fn tag_bytes(role: DescriptionRole) -> (r: Vec<u8>)
    ensures
        r@ == role_tag(role),
{
    let mut out: Vec<u8> = Vec::new();
    match role {
        DescriptionRole::Offer => {
            out.push(111);
            out.push(102);
            out.push(102);
            out.push(101);
            out.push(114);
            out.push(10);
            assert(out@ =~= offer_tag());
        },
        DescriptionRole::Answer => {
            out.push(97);
            out.push(110);
            out.push(115);
            out.push(119);
            out.push(101);
            out.push(114);
            out.push(10);
            assert(out@ =~= answer_tag());
        },
    }
    out
}

/// Render a description to signaling text: its role line, then its
/// payload unchanged.
pub fn encode(desc: &SessionDescription) -> (r: Vec<u8>)
    ensures
        r@ == encoded(desc.role, desc.payload@),
{
    let mut out = tag_bytes(desc.role);
    let mut i: usize = 0;
    while i < desc.payload.len()
        invariant
            i <= desc.payload.len(),
            out@ == role_tag(desc.role) + desc.payload@.subrange(0, i as int),
        decreases desc.payload.len() - i,
    {
        out.push(desc.payload[i]);
        i += 1;
        assert(out@ =~= role_tag(desc.role) + desc.payload@.subrange(0, i as int));
    }
    assert(out@ =~= encoded(desc.role, desc.payload@));
    out
}

/// Whether every byte of the text is whitespace.
pub fn is_blank_text(text: &Vec<u8>) -> (r: bool)
    ensures
        r == is_blank(text@),
{
    let mut i: usize = 0;
    while i < text.len()
        invariant
            i <= text.len(),
            forall|j: int| 0 <= j < i ==> is_space(text@[j]),
        decreases text.len() - i,
    {
        let b = text[i];
        if !(b == 32 || b == 9 || b == 10 || b == 13) {
            return false;
        }
        i += 1;
    }
    true
}

/// Whether the text opens with the role line of the given role.
fn opens_with(text: &Vec<u8>, role: DescriptionRole) -> (r: bool)
    ensures
        r == has_tag(text@, role),
{
    let tag = tag_bytes(role);
    if text.len() < tag.len() {
        return false;
    }
    let mut i: usize = 0;
    while i < tag.len()
        invariant
            i <= tag@.len() <= text@.len(),
            tag@ == role_tag(role),
            forall|j: int| 0 <= j < i ==> text@[j] == tag@[j],
        decreases tag.len() - i,
    {
        if text[i] != tag[i] {
            assert(text@.subrange(0, tag@.len() as int)[i as int] == text@[i as int]);
            return false;
        }
        i += 1;
    }
    assert(text@.subrange(0, tag@.len() as int) =~= tag@);
    true
}

/// Parse exchanged signaling text back into a description.
///
/// Blank input (empty or only whitespace) is a user error and fails
/// with `EmptyInput`; input without a role line fails with
/// `MalformedInput`; well-formed input always parses, to exactly the
/// role and payload it encodes.
pub fn decode(text: &Vec<u8>) -> (r: Result<SessionDescription, CodecError>)
    ensures
        is_blank(text@) ==> r == Err::<SessionDescription, CodecError>(CodecError::EmptyInput),
        !is_blank(text@) && !well_formed(text@) ==> r == Err::<SessionDescription, CodecError>(
            CodecError::MalformedInput,
        ),
        well_formed(text@) ==> (r matches Ok(d) && d.role == parsed_role(text@) && d.payload@
            == parsed_payload(text@)),
{
    proof {
        if well_formed(text@) {
            lemma_well_formed_not_blank(text@);
        }
    }
    if is_blank_text(text) {
        return Err(CodecError::EmptyInput);
    }
    let role = if opens_with(text, DescriptionRole::Offer) {
        DescriptionRole::Offer
    } else if opens_with(text, DescriptionRole::Answer) {
        DescriptionRole::Answer
    } else {
        return Err(CodecError::MalformedInput);
    };
    let tag = tag_bytes(role);
    let mut payload: Vec<u8> = Vec::new();
    let mut i: usize = tag.len();
    while i < text.len()
        invariant
            tag@.len() <= i <= text@.len(),
            tag@ == role_tag(role),
            payload@ == text@.subrange(tag@.len() as int, i as int),
        decreases text.len() - i,
    {
        payload.push(text[i]);
        i += 1;
        assert(payload@ =~= text@.subrange(tag@.len() as int, i as int));
    }
    assert(payload@ =~= parsed_payload(text@));
    Ok(SessionDescription { role, payload })
}

} // verus!
