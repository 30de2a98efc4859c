//! The bounded, order-preserving history of identifiers that were already
//! notified, and its stored form.

use vstd::prelude::*;
use std::collections::VecDeque;

verus! {

/// An error of `serde_json`.
#[verifier::external_type_specification]
#[verifier::external_body]
pub struct ExJsonError(serde_json::Error);

/// What `serde_json::from_str` makes of `text` when asked for a sequence of
/// strings: the strings, or nothing where it reports an error.
pub uninterp spec fn json_string_array(text: Seq<char>) -> Option<Seq<Seq<char>>>;

/// The text that `serde_json::to_string_pretty` writes for a sequence of
/// strings.
pub uninterp spec fn json_pretty(ids: Seq<Seq<char>>) -> Seq<char>;

/// The characters of each string of a sequence.
pub open spec fn texts(ids: Seq<String>) -> Seq<Seq<char>> {
    ids.map_values(|s: String| s@)
}

/// Calls `serde_json::from_str` for a queue of strings. The outcome depends
/// on the text alone; it is named by [`json_string_array`].
#[verifier::external_body]
fn parse_ids(text: &str) -> (r: Result<VecDeque<String>, serde_json::Error>)
    ensures
        match r {
            Ok(ids) => json_string_array(text@) == Some(texts(ids@)),
            Err(_) => json_string_array(text@) is None,
        },
{
    serde_json::from_str::<VecDeque<String>>(text)
}

/// Calls `serde_json::to_string_pretty` on a queue of strings. The call
/// succeeds: the encoder reports an error only where a `Serialize` impl fails,
/// a map has a key that is no string, or its writer fails, and it encodes
/// strings into a byte vector. The text depends on the strings alone; it is
/// named by [`json_pretty`].
#[verifier::external_body]
fn render_ids(ids: &VecDeque<String>) -> (r: Result<String, serde_json::Error>)
    ensures
        r is Ok,
        r matches Ok(text) ==> text@ == json_pretty(texts(ids@)),
{
    serde_json::to_string_pretty(ids)
}

/// Why a history could not be put into its stored form.
#[derive(Debug)]
pub enum PersistError {
    /// The encoder reported an error.
    Encode(serde_json::Error),
}

/// The identifiers that a stored history stands for: those of a well-formed
/// file, none where the file is absent or malformed.
pub open spec fn stored_ids(parsed: Option<Option<Seq<Seq<char>>>>) -> Seq<Seq<char>> {
    match parsed {
        Some(Some(ids)) => ids,
        _ => Seq::empty(),
    }
}

/// `ids` cut down to its last `cap` entries.
pub open spec fn pruned(ids: Seq<Seq<char>>, cap: nat) -> Seq<Seq<char>> {
    if ids.len() > cap {
        ids.subrange(ids.len() - cap, ids.len() as int)
    } else {
        ids
    }
}

/// Pruning is first in, first out: a history longer than the cap is cut to
/// exactly the cap, and what is left is its newest entries in their order. A
/// history within the cap is left as it is.
pub proof fn lemma_prune_keeps_newest(ids: Seq<Seq<char>>, cap: nat)
    ensures
        ids.len() > cap ==> pruned(ids, cap).len() == cap,
        ids.len() > cap ==> forall|i: int|
            0 <= i < cap ==> pruned(ids, cap)[i] == ids[ids.len() - cap + i],
        ids.len() <= cap ==> pruned(ids, cap) == ids,
        pruned(ids, cap).len() <= cap,
{
}

/// Identifiers of the postings that were notified, oldest first.
#[derive(Debug)]
pub struct SeenHistory {
    ids: VecDeque<String>,
}

impl View for SeenHistory {
    type V = Seq<Seq<char>>;

    closed spec fn view(&self) -> Seq<Seq<char>> {
        texts(self.ids@)
    }
}

impl SeenHistory {
    /// The empty history.
    pub fn new() -> (h: SeenHistory)
        ensures
            h@ == Seq::<Seq<char>>::empty(),
    {
        let h = SeenHistory { ids: VecDeque::new() };
        assert(h@ =~= Seq::<Seq<char>>::empty());
        h
    }

    /// The history that holds `ids`, in their order.
    pub fn from_ids(ids: VecDeque<String>) -> (h: SeenHistory)
        ensures
            h@ == texts(ids@),
    {
        SeenHistory { ids }
    }

    /// The history that the outcome of decoding a stored file stands for: the
    /// decoded identifiers, or the empty history after an error.
    pub fn from_parsed(parsed: Result<VecDeque<String>, serde_json::Error>) -> (h: SeenHistory)
        ensures
            h@ == match parsed {
                Ok(ids) => texts(ids@),
                Err(_) => Seq::empty(),
            },
    {
        match parsed {
            Ok(ids) => SeenHistory::from_ids(ids),
            Err(_) => SeenHistory::new(),
        }
    }

    /// Loads a history from the content of its file, `None` standing for an
    /// absent file. Never fails: an absent or malformed file gives the empty
    /// history.
    pub fn load(stored: Option<&str>) -> (h: SeenHistory)
        ensures
            h@ == stored_ids(
                match stored {
                    Some(text) => Some(json_string_array(text@)),
                    None => None,
                },
            ),
    {
        match stored {
            Some(text) => SeenHistory::from_parsed(parse_ids(text)),
            None => SeenHistory::new(),
        }
    }

    /// The stored form that the outcome of encoding stands for: the text
    /// where encoding succeeded, the encoder's error as an error of this
    /// library where it did not.
    pub fn encoded(rendered: Result<String, serde_json::Error>) -> (r: Result<String, PersistError>)
        ensures
            match rendered {
                Ok(text) => r == Ok::<String, PersistError>(text),
                Err(e) => r == Err::<String, PersistError>(PersistError::Encode(e)),
            },
    {
        match rendered {
            Ok(text) => Ok(text),
            Err(e) => Err(PersistError::Encode(e)),
        }
    }

    /// The stored form of the history: a pretty-printed array of strings,
    /// oldest first. Encoding a history always succeeds.
    pub fn encode(&self) -> (r: Result<String, PersistError>)
        ensures
            r is Ok,
            r matches Ok(text) ==> text@ == json_pretty(self@),
    {
        SeenHistory::encoded(render_ids(&self.ids))
    }

    /// Number of identifiers held.
    pub fn len(&self) -> (n: usize)
        ensures
            n == self@.len(),
    {
        self.ids.len()
    }

    /// Whether the history holds no identifier.
    pub fn is_empty(&self) -> (r: bool)
        ensures
            r == (self@.len() == 0),
    {
        self.ids.len() == 0
    }

    /// The identifier at position `i`, counted from the oldest.
    pub fn get(&self, i: usize) -> (id: &String)
        requires
            i < self@.len(),
        ensures
            id@ == self@[i as int],
    {
        &self.ids[i]
    }

    /// Whether `id` is one of the identifiers held.
    pub fn contains(&self, id: &String) -> (r: bool)
        ensures
            r == self@.contains(id@),
    {
        let mut i: usize = 0;
        while i < self.ids.len()
            invariant
                i <= self.ids.len(),
                forall|j: int| 0 <= j < i ==> self@[j] != id@,
            decreases self.ids.len() - i,
        {
            if self.ids[i] == *id {
                assert(self@[i as int] == id@);
                return true;
            }
            i = i + 1;
        }
        false
    }

    /// Appends `id` as the newest identifier.
    pub fn push(&mut self, id: String)
        ensures
            final(self)@ == old(self)@.push(id@),
    {
        self.ids.push_back(id);
        assert(self@ =~= old(self)@.push(id@));
    }

    /// Drops the oldest identifiers until at most `cap` are left.
    pub fn prune(&mut self, cap: usize)
        ensures
            final(self)@ == pruned(old(self)@, cap as nat),
            final(self)@.len() <= cap,
    {
        while self.ids.len() > cap
            invariant
                self@.len() <= old(self)@.len(),
                self@.len() >= cap || self@.len() == old(self)@.len(),
                self@ == old(self)@.subrange(old(self)@.len() - self@.len(), old(self)@.len() as int),
            decreases self.ids.len(),
        {
            let ghost before = self@;
            self.ids.pop_front();
            assert(self@ =~= before.subrange(1, before.len() as int));
            assert(self@ =~= old(self)@.subrange(
                old(self)@.len() - self@.len(),
                old(self)@.len() as int,
            ));
        }
        assert(self@ =~= pruned(old(self)@, cap as nat));
    }

    /// A copy of the history.
    pub fn snapshot(&self) -> (h: SeenHistory)
        ensures
            h@ == self@,
    {
        let mut ids: VecDeque<String> = VecDeque::new();
        let mut i: usize = 0;
        while i < self.ids.len()
            invariant
                i <= self.ids.len(),
                texts(ids@) == self@.take(i as int),
            decreases self.ids.len() - i,
        {
            let ghost before = ids@;
            let copy = self.ids[i].clone();
            ids.push_back(copy);
            assert(texts(before).len() == i);
            assert forall|j: int| 0 <= j < i + 1 implies texts(ids@)[j] == self@[j] by {
                if j < i {
                    assert(texts(before)[j] == self@.take(i as int)[j]);
                }
            }
            assert(texts(ids@) =~= self@.take(i + 1));
            i = i + 1;
        }
        assert(self@.take(self.ids.len() as int) =~= self@);
        SeenHistory { ids }
    }
}

} // verus!
