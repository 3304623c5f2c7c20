//! Reading the ratings service's summary of one title.

use crate::error::LookupError;
use crate::json::{document, document_in, json_model, member, render, Json};
use crate::reply::{Reply, ReplyView};
use vstd::prelude::*;

verus! {

/// The keys of the six fields in a summary.
pub const BEST_REPORTED_TIER_KEY: &'static str = "bestReportedTier";

pub const CURRENT_TIER_KEY: &'static str = "tier";

pub const TRENDING_TIER_KEY: &'static str = "trendingTier";

pub const TOTAL_REPORTS_KEY: &'static str = "total";

pub const SCORE_KEY: &'static str = "score";

pub const CONFIDENCE_KEY: &'static str = "confidence";

/// The six fields of a ratings summary, each as the JSON text of the value
/// that the summary holds under the field's key: a string in its quotes, a
/// number as written, `null` where the summary has no such member.
#[derive(Clone, Debug, PartialEq, Eq)]
pub struct RatingRecord {
    pub best_reported_tier: String,
    pub current_tier: String,
    pub trending_tier: String,
    pub total_reports: String,
    pub score: String,
    pub confidence: String,
}

/// A record, its fields as sequences of characters.
pub struct RatingRecordView {
    pub best_reported_tier: Seq<char>,
    pub current_tier: Seq<char>,
    pub trending_tier: Seq<char>,
    pub total_reports: Seq<char>,
    pub score: Seq<char>,
    pub confidence: Seq<char>,
}

impl View for RatingRecord {
    type V = RatingRecordView;

    open spec fn view(&self) -> RatingRecordView {
        RatingRecordView {
            best_reported_tier: self.best_reported_tier@,
            current_tier: self.current_tier@,
            trending_tier: self.trending_tier@,
            total_reports: self.total_reports@,
            score: self.score@,
            confidence: self.confidence@,
        }
    }
}

/// The record that a decoded summary holds. Nothing is validated: whatever
/// stands under a key is written out, and a missing member as `null`.
pub open spec fn record_of(summary: Json) -> RatingRecordView {
    RatingRecordView {
        best_reported_tier: summary.member(BEST_REPORTED_TIER_KEY@).rendered(),
        current_tier: summary.member(CURRENT_TIER_KEY@).rendered(),
        trending_tier: summary.member(TRENDING_TIER_KEY@).rendered(),
        total_reports: summary.member(TOTAL_REPORTS_KEY@).rendered(),
        score: summary.member(SCORE_KEY@).rendered(),
        confidence: summary.member(CONFIDENCE_KEY@).rendered(),
    }
}

/// What a ratings body yields: the record of the document it holds, or a
/// parse error where it holds none.
pub open spec fn body_ratings(body: Seq<u8>) -> Result<RatingRecordView, LookupError> {
    match document_in(body) {
        Some(summary) => Ok(record_of(summary)),
        None => Err(LookupError::Parse),
    }
}

/// What the outcome of a ratings request yields.
pub open spec fn reply_ratings(reply: ReplyView) -> Result<RatingRecordView, LookupError> {
    match reply {
        ReplyView::Body(body) => body_ratings(body),
        ReplyView::Lost => Err(LookupError::Network),
    }
}

/// Reads the six fields out of a decoded summary.
fn record_in(summary: &serde_json::Value) -> (record: RatingRecord)
    ensures
        record@ == record_of(json_model(*summary)),
{
    RatingRecord {
        best_reported_tier: render(member(summary, BEST_REPORTED_TIER_KEY)),
        current_tier: render(member(summary, CURRENT_TIER_KEY)),
        trending_tier: render(member(summary, TRENDING_TIER_KEY)),
        total_reports: render(member(summary, TOTAL_REPORTS_KEY)),
        score: render(member(summary, SCORE_KEY)),
        confidence: render(member(summary, CONFIDENCE_KEY)),
    }
}

/// Reads the rating record from the body of a ratings response. A body of
/// more than `MAX_DOCUMENT_BYTES` bytes is not decoded and is a parse error,
/// as is a body that is no JSON text.
pub fn read_ratings(body: &[u8]) -> (ratings: Result<RatingRecord, LookupError>)
    ensures
        match ratings {
            Ok(record) => body_ratings(body@) == Ok::<_, LookupError>(record@),
            Err(e) => body_ratings(body@) == Err::<RatingRecordView, _>(e),
        },
{
    match document(body) {
        Some(summary) => Ok(record_in(&summary)),
        None => Err(LookupError::Parse),
    }
}

/// The rating record that the outcome of a ratings request yields.
pub fn ratings_from(reply: &Reply) -> (ratings: Result<RatingRecord, LookupError>)
    ensures
        match ratings {
            Ok(record) => reply_ratings(reply@) == Ok::<_, LookupError>(record@),
            Err(e) => reply_ratings(reply@) == Err::<RatingRecordView, _>(e),
        },
{
    match reply {
        Reply::Body(body) => read_ratings(body.as_slice()),
        Reply::Lost => Err(LookupError::Network),
    }
}

} // verus!
