use crate::entry::{clone_page, LeaderboardEntry};
use crate::error::{spec_is_server_error, Error, SERVER_ERROR_STATUS};
use crate::json::{decode_leaderboard_page, page_view, spec_decode_page};
use vstd::prelude::*;
use vstd::string::*;

verus! {

/// The sequential pager over leaderboard pages. The page counter starts at
/// zero and is stepped up before each fetch, so the first page requested is
/// page one; it counts every attempted fetch, failed ones included, and is
/// never rewound. The most recently fetched non-empty page stays cached as
/// the cursor.
pub struct Leaderboard {
    pub page: u32,
    pub entries: Vec<LeaderboardEntry>,
}

/// The page number one advance queries after the counter stood at `p`.
pub open spec fn spec_next_page(p: nat) -> nat {
    p + 1
}

/// The counter of a fresh pager after `k` advances.
pub open spec fn spec_counter_after(k: nat) -> nat
    decreases k,
{
    if k == 0 {
        0
    } else {
        spec_next_page(spec_counter_after((k - 1) as nat))
    }
}

/// Law: after `k` calls to advance on a fresh pager the counter reads
/// exactly `k`, whether or not any of those pages came back empty: the
/// counter counts attempts, not contents.
pub proof fn lemma_counter_counts_advances(k: nat)
    ensures
        spec_counter_after(k) == k,
    decreases k,
{
    if k > 0 {
        lemma_counter_counts_advances((k - 1) as nat);
    }
}

/// Law: an advance made after the end-of-sequence signal at page `p`
/// queries the strictly higher page `p + 1`: the page that produced the
/// signal is never replayed.
pub proof fn lemma_no_replay_after_end(p: nat)
    ensures
        spec_next_page(p) > p,
{
}

/// The pager seen as a two-state machine: it either still has pages, with a
/// page number, or it has seen the end-of-sequence signal. Exhaustion is
/// detected reactively, never predicted.
pub enum PagerPhase {
    Active { page: nat },
    Exhausted,
}

/// One advance as the machine sees it: an empty decoded page exhausts an
/// active pager, a non-empty one steps its page number up, and an exhausted
/// pager stays exhausted.
pub open spec fn spec_phase_step(s: PagerPhase, empty: bool) -> PagerPhase {
    match s {
        PagerPhase::Active { page } => if empty {
            PagerPhase::Exhausted
        } else {
            PagerPhase::Active { page: spec_next_page(page) }
        },
        PagerPhase::Exhausted => PagerPhase::Exhausted,
    }
}

/// Law: there is no transition out of the exhausted state, whatever later
/// responses would have held.
pub proof fn lemma_exhausted_is_final(empty: bool)
    ensures
        spec_phase_step(PagerPhase::Exhausted, empty) == PagerPhase::Exhausted,
{
}

impl Leaderboard {
    /// A fresh pager: no page fetched yet, nothing cached.
    pub fn new() -> (r: Leaderboard)
        ensures
            r.page == 0,
            r.entries@.len() == 0,
    {
        Leaderboard { page: 0, entries: Vec::new() }
    }

    /// The number of the last attempted fetch, failed ones included; zero
    /// before the first.
    pub fn current_page(&self) -> (r: u32)
        ensures
            r == self.page,
    {
        self.page
    }

    /// Steps the counter up and yields the page number to request: the
    /// irreversible first half of an advance. The counter moves whatever the
    /// fetch later returns; there is no retry and no rollback.
    pub fn begin_fetch(&mut self) -> (n: u32)
        requires
            old(self).page < u32::MAX,
        ensures
            final(self).page as nat == spec_next_page(old(self).page as nat),
            n == final(self).page,
            final(self).entries == old(self).entries,
    {
        self.page = self.page + 1;
        self.page
    }

    /// The second half of an advance: decodes the fetched body and sorts the
    /// outcome. `None` for the body means the request itself failed and is a
    /// transport error. A body decoding to an empty page is the
    /// end-of-sequence signal `Ok(None)`; a non-empty page is returned and
    /// cached as the cursor; a body outside the grammar is a decode error.
    /// The counter never moves here.
    pub fn consume_response(&mut self, body: Option<&str>) -> (r: Result<
        Option<Vec<LeaderboardEntry>>,
        Error,
    >)
        ensures
            final(self).page == old(self).page,
            match body {
                None => spec_is_server_error(r, "Failed to get leaderboard"@) && final(self).entries == old(self).entries,
                Some(b) => match spec_decode_page(b@) {
                    None => spec_is_server_error(r, "Failed to parse leaderboard"@) && final(self).entries == old(self).entries,
                    Some(es) => if es.len() == 0 {
                        (r matches Ok(o) && o is None) && final(self).entries == old(self).entries
                    } else {
                        r matches Ok(o) && (o matches Some(v) && page_view(v@) == es && page_view(final(self).entries@) == es)
                    },
                },
            },
    {
        match body {
            None => Err(
                Error::new(SERVER_ERROR_STATUS, Some("Failed to get leaderboard".to_owned())),
            ),
            Some(b) => match decode_leaderboard_page(b) {
                None => Err(
                    Error::new(SERVER_ERROR_STATUS, Some("Failed to parse leaderboard".to_owned())),
                ),
                Some(v) => {
                    if v.len() == 0 {
                        Ok(None)
                    } else {
                        self.entries = clone_page(&v);
                        proof {
                            assert(page_view(self.entries@) =~= page_view(v@));
                        }
                        Ok(Some(v))
                    }
                },
            },
        }
    }
}

/// Maps the outcome of one advance to an iterator item: the end-of-sequence
/// signal ends the iteration, every other outcome is yielded as an item.
pub fn step_to_item(r: Result<Option<Vec<LeaderboardEntry>>, Error>) -> (o: Option<
    Result<Vec<LeaderboardEntry>, Error>,
>)
    ensures
        match r {
            Ok(Some(p)) => o matches Some(q) && (q matches Ok(p2) && p2 == p),
            Ok(None) => o is None,
            Err(e) => o matches Some(q) && (q matches Err(e2) && e2 == e),
        },
{
    match r {
        Ok(Some(page)) => Some(Ok(page)),
        Ok(None) => None,
        Err(err) => Some(Err(err)),
    }
}

impl Default for Leaderboard {
    /// The same fresh pager `new` yields.
    fn default() -> (r: Leaderboard)
        ensures
            r.page == 0,
            r.entries@.len() == 0,
    {
        Leaderboard::new()
    }
}

} // verus!
