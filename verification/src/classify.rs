//! Telling games from everything else the storefront lists.

use crate::error::LookupError;
use crate::json::{as_text, document, document_in, member, Json};
use crate::reply::{Reply, ReplyView};
use crate::text::same_text;
use vstd::prelude::*;

verus! {

/// The kind under which the details service files a game.
pub const GAME_KIND: &'static str = "game";

/// The key of the details' payload below the identifier.
pub const DATA_KEY: &'static str = "data";

/// The key of the kind within the payload.
pub const KIND_KEY: &'static str = "type";

/// What is known of a candidate after its details were asked for.
#[derive(Clone, Copy, Debug, PartialEq, Eq, Structural)]
pub enum Verdict {
    /// The details file it as a game.
    Game,
    /// The details came back and do not file it as a game.
    NotGame,
    /// The details could not be had or could not be read.
    Indeterminate,
}

/// The kind is the text `game`, exactly.
pub open spec fn is_game_kind(kind: Option<Seq<char>>) -> bool {
    kind matches Some(text) && text =~= GAME_KIND@
}

/// The verdict on a kind: a game if the kind is the text `game` exactly, and
/// not a game for any other text and where there is no text.
pub open spec fn kind_verdict(kind: Option<Seq<char>>) -> Verdict {
    if is_game_kind(kind) {
        Verdict::Game
    } else {
        Verdict::NotGame
    }
}

/// The kind that decoded details hold for an identifier: the text under the
/// identifier, its payload and the payload's kind, if all of that is there
/// and the kind is a JSON string.
pub open spec fn kind_in(details: Json, identifier: Seq<char>) -> Option<Seq<char>> {
    details.member(identifier).member(DATA_KEY@).member(KIND_KEY@).text()
}

/// The verdict that a details body gives on an identifier. A body that holds
/// no document, be it too long to decode or no JSON text, leaves the matter
/// open.
pub open spec fn body_verdict(body: Seq<u8>, identifier: Seq<char>) -> Verdict {
    match document_in(body) {
        Some(details) => kind_verdict(kind_in(details, identifier)),
        None => Verdict::Indeterminate,
    }
}

/// The verdict that the outcome of a details request gives on an identifier.
pub open spec fn reply_verdict(reply: ReplyView, identifier: Seq<char>) -> Verdict {
    match reply {
        ReplyView::Body(body) => body_verdict(body, identifier),
        ReplyView::Lost => Verdict::Indeterminate,
    }
}

impl Verdict {
    /// Only a confirmed game stays in a listing.
    pub fn keeps(&self) -> (kept: bool)
        ensures
            kept == (*self == Verdict::Game),
    {
        match self {
            Verdict::Game => true,
            _ => false,
        }
    }
}

/// The verdict on the kind that a candidate's details hold.
pub fn verdict_of_kind(kind: Option<&str>) -> (verdict: Verdict)
    ensures
        verdict == kind_verdict(
            match kind {
                Some(k) => Some(k@),
                None => None,
            },
        ),
{
    match kind {
        Some(k) => if same_text(k, GAME_KIND) {
            Verdict::Game
        } else {
            Verdict::NotGame
        },
        None => Verdict::NotGame,
    }
}

/// The verdict that decoded details give on an identifier.
fn verdict_in(details: &serde_json::Value, identifier: &str) -> (verdict: Verdict)
    ensures
        verdict == kind_verdict(kind_in(crate::json::json_model(*details), identifier@)),
{
    let entry = member(details, identifier);
    let payload = member(entry, DATA_KEY);
    let kind = member(payload, KIND_KEY);
    verdict_of_kind(as_text(kind))
}

/// Classifies a candidate by the body of its details.
pub fn classify_body(body: &[u8], identifier: &str) -> (verdict: Verdict)
    ensures
        verdict == body_verdict(body@, identifier@),
{
    match document(body) {
        Some(details) => verdict_in(&details, identifier),
        None => Verdict::Indeterminate,
    }
}

/// Classifies a candidate by the outcome of the request for its details.
pub fn classify(reply: &Reply, identifier: &str) -> (verdict: Verdict)
    ensures
        verdict == reply_verdict(reply@, identifier@),
{
    match reply {
        Reply::Body(body) => classify_body(body.as_slice(), identifier),
        Reply::Lost => Verdict::Indeterminate,
    }
}

/// Whether the details in `body` file the identifier as a game.
///
/// Fails with a parse error exactly where the body holds no document: where
/// it is longer than `MAX_DOCUMENT_BYTES` bytes or is no JSON text. In a
/// document, everything but the text `game` under the identifier's payload
/// kind, a missing member on the way included, is no game.
pub fn is_game(body: &[u8], identifier: &str) -> (game: Result<bool, LookupError>)
    ensures
        match game {
            Ok(yes) => document_in(body@) matches Some(details) && yes == is_game_kind(
                kind_in(details, identifier@),
            ),
            Err(e) => e == LookupError::Parse && document_in(body@) is None,
        },
{
    match classify_body(body, identifier) {
        Verdict::Game => Ok(true),
        Verdict::NotGame => Ok(false),
        Verdict::Indeterminate => Err(LookupError::Parse),
    }
}

/// A candidate is a game only by its kind: the request came back, its body is
/// a JSON document, and the kind that the document holds for the identifier is
/// the text `game`. A lost request, a body that does not decode, a kind that
/// is missing, no JSON string or any other text: none of them is a game.
pub proof fn lemma_game_only_by_kind(reply: ReplyView, identifier: Seq<char>)
    ensures
        reply_verdict(reply, identifier) == Verdict::Game <==> (reply matches ReplyView::Body(body)
            && document_in(body) matches Some(details) && kind_in(details, identifier) == Some(
            GAME_KIND@,
        )),
{
}

/// Details in which the kind is missing on the way from the identifier file
/// the candidate as no game, whatever else they hold.
pub proof fn lemma_missing_kind_is_no_game(details: Json, identifier: Seq<char>)
    requires
        details.member(identifier).member(DATA_KEY@).member(KIND_KEY@) is Null,
    ensures
        kind_verdict(kind_in(details, identifier)) == Verdict::NotGame,
{
}

/// A kind that is a text other than `game` is no game.
pub proof fn lemma_other_kind_is_no_game(kind: Seq<char>)
    requires
        kind != GAME_KIND@,
    ensures
        kind_verdict(Some(kind)) == Verdict::NotGame,
{
}

} // verus!
