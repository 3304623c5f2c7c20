//! Screening the candidates of a search, one details request at a time.
//!
//! The caller makes the requests. A `Screening` tells it which address to ask
//! next, takes what came back, and in the end hands out the games.

use crate::classify::{classify, reply_verdict, Verdict};
use crate::display::{warning, warning_line};
use crate::reply::Reply;
use crate::search::{result_views, SearchResult, SearchResultView};
use crate::url::{details_address, details_url};
use vstd::prelude::*;

verus! {

/// The candidates that have a verdict and whose verdict is `Game`, in the
/// candidates' order. The verdicts are those of the first candidates.
pub open spec fn retained(candidates: Seq<SearchResultView>, verdicts: Seq<Verdict>) -> Seq<
    SearchResultView,
> {
    candidates.take(verdicts.len() as int).zip_with(verdicts).filter(
        |pair: (SearchResultView, Verdict)| pair.1 == Verdict::Game,
    ).map_values(|pair: (SearchResultView, Verdict)| pair.0)
}

/// One more verdict adds the candidate it is about if it is `Game`, and
/// changes nothing else.
pub proof fn lemma_retained_push(
    candidates: Seq<SearchResultView>,
    verdicts: Seq<Verdict>,
    verdict: Verdict,
)
    requires
        verdicts.len() < candidates.len(),
    ensures
        retained(candidates, verdicts.push(verdict)) == if verdict == Verdict::Game {
            retained(candidates, verdicts).push(candidates[verdicts.len() as int])
        } else {
            retained(candidates, verdicts)
        },
{
    let n = verdicts.len() as int;
    let before = candidates.take(n).zip_with(verdicts);
    let after = candidates.take(n + 1).zip_with(verdicts.push(verdict));
    let is_game = |pair: (SearchResultView, Verdict)| pair.1 == Verdict::Game;
    let first = |pair: (SearchResultView, Verdict)| pair.0;
    assert(after =~= before.push((candidates[n], verdict)));
    before.lemma_filter_push((candidates[n], verdict), is_game);
    assert(before.filter(is_game).push((candidates[n], verdict)).map_values(first)
        =~= before.filter(is_game).map_values(first).push(candidates[n]));
}

/// Without verdicts nothing is retained.
pub proof fn lemma_retained_none(candidates: Seq<SearchResultView>)
    ensures
        retained(candidates, Seq::empty()) == Seq::<SearchResultView>::empty(),
{
    reveal(Seq::filter);
    assert(candidates.take(0).zip_with(Seq::<Verdict>::empty()) =~= Seq::empty());
    assert(retained(candidates, Seq::empty()) =~= Seq::<SearchResultView>::empty());
}

/// Where every candidate has the verdict `Game`, all of them are retained.
pub proof fn lemma_all_games_all_retained(
    candidates: Seq<SearchResultView>,
    verdicts: Seq<Verdict>,
)
    requires
        verdicts.len() == candidates.len(),
        forall|i: int| 0 <= i < verdicts.len() ==> #[trigger] verdicts[i] == Verdict::Game,
    ensures
        retained(candidates, verdicts) == candidates,
    decreases verdicts.len(),
{
    if verdicts.len() == 0 {
        lemma_retained_none(candidates);
        assert(candidates =~= Seq::<SearchResultView>::empty());
    } else {
        let fewer = candidates.drop_last();
        lemma_all_games_all_retained(fewer, verdicts.drop_last());
        lemma_retained_push(candidates, verdicts.drop_last(), verdicts.last());
        assert(verdicts.drop_last().push(verdicts.last()) =~= verdicts);
        assert(candidates.take(verdicts.len() - 1) =~= fewer.take(verdicts.len() - 1));
        assert(fewer.push(candidates.last()) =~= candidates);
    }
}

/// Every retained candidate stands among the candidates with the verdict
/// `Game`.
pub proof fn lemma_retained_are_games(
    candidates: Seq<SearchResultView>,
    verdicts: Seq<Verdict>,
    k: int,
)
    requires
        verdicts.len() <= candidates.len(),
        0 <= k < retained(candidates, verdicts).len(),
    ensures
        exists|i: int|
            0 <= i < verdicts.len() && #[trigger] verdicts[i] == Verdict::Game && candidates[i]
                == retained(candidates, verdicts)[k],
{
    let pairs = candidates.take(verdicts.len() as int).zip_with(verdicts);
    let is_game = |pair: (SearchResultView, Verdict)| pair.1 == Verdict::Game;
    let kept = pairs.filter(is_game);
    pairs.lemma_filter_pred(is_game, k);
    pairs.lemma_filter_contains_rev(is_game, kept[k]);
    let i = choose|i: int| 0 <= i < pairs.len() && pairs[i] == kept[k];
    assert(verdicts[i] == Verdict::Game && candidates[i] == retained(candidates, verdicts)[k]);
}

/// The candidates of one search and the verdicts reached so far.
pub struct Screening {
    candidates: Vec<SearchResult>,
    verdicts: Vec<Verdict>,
}

impl Screening {
    #[verifier::type_invariant]
    spec fn consistent(self) -> bool {
        self.verdicts.len() <= self.candidates.len()
    }

    /// The candidates under screening, in the order of the search.
    pub closed spec fn candidates(self) -> Seq<SearchResultView> {
        result_views(self.candidates@)
    }

    /// The verdicts reached so far: the i-th is that on the i-th candidate.
    pub closed spec fn verdicts(self) -> Seq<Verdict> {
        self.verdicts@
    }

    /// Every candidate has its verdict.
    pub open spec fn finished(self) -> bool {
        self.verdicts().len() == self.candidates().len()
    }

    /// Starts the screening of the candidates of a search.
    pub fn new(candidates: Vec<SearchResult>) -> (screening: Screening)
        ensures
            screening.candidates() == result_views(candidates@),
            screening.verdicts() == Seq::<Verdict>::empty(),
    {
        Screening { candidates, verdicts: Vec::new() }
    }

    /// Whether every candidate has its verdict.
    pub fn is_finished(&self) -> (done: bool)
        ensures
            done == self.finished(),
            self.verdicts().len() <= self.candidates().len(),
    {
        proof {
            use_type_invariant(self);
        }
        self.verdicts.len() == self.candidates.len()
    }

    /// The address to ask next: that of the details of the first candidate
    /// without a verdict. `None` once every candidate has one.
    pub fn pending(&self) -> (address: Option<String>)
        ensures
            self.verdicts().len() <= self.candidates().len(),
            match address {
                Some(url) => !self.finished() && url@ == details_address(
                    self.candidates()[self.verdicts().len() as int].identifier,
                ),
                None => self.finished(),
            },
    {
        proof {
            use_type_invariant(self);
        }
        let next = self.verdicts.len();
        if next < self.candidates.len() {
            Some(details_url(self.candidates[next].identifier.as_str()))
        } else {
            None
        }
    }

    /// Takes the outcome of the request for the pending address, and moves on
    /// to the next candidate whatever the outcome was.
    ///
    /// The candidate's verdict is the one that the outcome gives on its
    /// identifier. Where that is `Indeterminate`, the warning that names the
    /// candidate's title comes back beside the new state. Once the screening
    /// is finished an outcome changes nothing.
    pub fn record(self, reply: &Reply) -> (next: (Screening, Option<String>))
        ensures
            next.0.candidates() == self.candidates(),
            next.0.verdicts().len() <= next.0.candidates().len(),
            self.finished() ==> next.0.verdicts() == self.verdicts() && next.1 is None,
            !self.finished() ==> {
                let candidate = self.candidates()[self.verdicts().len() as int];
                let verdict = reply_verdict(reply@, candidate.identifier);
                &&& next.0.verdicts() == self.verdicts().push(verdict)
                &&& match next.1 {
                    Some(line) => verdict == Verdict::Indeterminate && line@ == warning_line(
                        candidate.title,
                    ),
                    None => verdict != Verdict::Indeterminate,
                }
            },
    {
        proof {
            use_type_invariant(&self);
        }
        let Screening { candidates, mut verdicts } = self;
        let at = verdicts.len();
        if at >= candidates.len() {
            return (Screening { candidates, verdicts }, None);
        }
        let verdict = classify(reply, candidates[at].identifier.as_str());
        let notice = match verdict {
            Verdict::Indeterminate => Some(warning(candidates[at].title.as_str())),
            _ => None,
        };
        verdicts.push(verdict);
        (Screening { candidates, verdicts }, notice)
    }

    /// The games among the candidates screened so far, in the order of the
    /// search: each as the search gave it.
    pub fn games(&self) -> (kept: Vec<SearchResult>)
        ensures
            result_views(kept@) == retained(self.candidates(), self.verdicts()),
    {
        proof {
            use_type_invariant(self);
            lemma_retained_none(self.candidates());
        }
        let mut kept: Vec<SearchResult> = Vec::new();
        let mut i: usize = 0;
        assert(self.verdicts@.take(0) =~= Seq::<Verdict>::empty());
        assert(result_views(kept@) =~= Seq::<SearchResultView>::empty());
        while i < self.verdicts.len()
            invariant
                i <= self.verdicts.len() <= self.candidates.len(),
                result_views(kept@) == retained(
                    result_views(self.candidates@),
                    self.verdicts@.take(i as int),
                ),
            decreases self.verdicts.len() - i,
        {
            let ghost before = kept@;
            proof {
                lemma_retained_push(
                    result_views(self.candidates@),
                    self.verdicts@.take(i as int),
                    self.verdicts@[i as int],
                );
                assert(self.verdicts@.take(i + 1) =~= self.verdicts@.take(i as int).push(
                    self.verdicts@[i as int],
                ));
            }
            if self.verdicts[i].keeps() {
                let game = self.candidates[i].duplicate();
                kept.push(game);
                assert(result_views(kept@) =~= result_views(before).push(game@));
            }
            i += 1;
        }
        assert(self.verdicts@.take(i as int) =~= self.verdicts@);
        kept
    }
}

} // verus!
