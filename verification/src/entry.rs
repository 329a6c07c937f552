use crate::text::{spec_digits, u64_to_string};
use vstd::prelude::*;

verus! {

/// A single player entry from a leaderboard page: produced only by decoding
/// one element of a leaderboard page response.
#[derive(Debug)]
pub struct LeaderboardEntry {
    pub experience: u64,
    pub permissions: u8,
    pub username: String,
}

/// The mathematical content of a `LeaderboardEntry`.
pub struct EntryModel {
    pub experience: u64,
    pub permissions: u8,
    pub username: Seq<char>,
}

impl View for LeaderboardEntry {
    type V = EntryModel;

    open spec fn view(&self) -> EntryModel {
        EntryModel {
            experience: self.experience,
            permissions: self.permissions,
            username: self.username@,
        }
    }
}

impl Clone for LeaderboardEntry {
    fn clone(&self) -> (r: Self)
        ensures
            r@ == self@,
    {
        LeaderboardEntry {
            experience: self.experience,
            permissions: self.permissions,
            username: self.username.clone(),
        }
    }
}

/// The one-line rendering of an entry: the username, a colon, and the
/// experience total in decimal.
pub open spec fn spec_entry_display(m: EntryModel) -> Seq<char> {
    m.username + ": "@ + spec_digits(m.experience as nat) + " experience"@
}

impl LeaderboardEntry {
    /// Renders the entry as `{username}: {experience} experience`.
    pub fn display_string(&self) -> (r: String)
        ensures
            r@ == spec_entry_display(self@),
    {
        let mut s = self.username.clone();
        s.append(": ");
        let digits = u64_to_string(self.experience);
        s.append(digits.as_str());
        s.append(" experience");
        proof {
            assert(s@ =~= spec_entry_display(self@));
        }
        s
    }
}

/// Copies a page entry by entry; the copy carries the same content.
pub fn clone_page(v: &Vec<LeaderboardEntry>) -> (r: Vec<LeaderboardEntry>)
    ensures
        r@.len() == v@.len(),
        forall|i: int| 0 <= i < v@.len() ==> r@[i]@ == v@[i]@,
{
    let mut r: Vec<LeaderboardEntry> = Vec::new();
    let mut k: usize = 0;
    while k < v.len()
        invariant
            k <= v@.len(),
            r@.len() == k,
            forall|i: int| 0 <= i < k ==> r@[i]@ == v@[i]@,
        decreases v@.len() - k,
    {
        r.push(v[k].clone());
        k = k + 1;
    }
    r
}

} // verus!
