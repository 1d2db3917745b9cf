//! The options that `argument` annotations attach to parameters, by
//! parameter name.

use crate::token::{TokenTree, TokenTreeView};
use vstd::prelude::*;

verus! {

/// The model of [`ArgumentOptions`]: for each annotated parameter name the
/// tokens of its options.
pub type OptionsView = Map<Seq<char>, Seq<TokenTreeView>>;

/// A map from parameter names to option tokens.
///
/// Recording options for a name that already has some replaces them.
#[derive(Clone, Debug)]
pub struct ArgumentOptions {
    /// One entry per recording, oldest first. The newest entry for a name is
    /// the one that counts.
    entries: Vec<(String, Vec<TokenTree>)>,
}

/// The map that a run of recordings amounts to.
spec fn recorded(entries: Seq<(String, Vec<TokenTree>)>) -> OptionsView
    decreases entries.len(),
{
    if entries.len() == 0 {
        Map::empty()
    } else {
        recorded(entries.drop_last()).insert(entries.last().0@, entries.last().1.deep_view())
    }
}

/// A name that no recording mentions is not in the map.
proof fn lemma_recorded_absent(entries: Seq<(String, Vec<TokenTree>)>, name: Seq<char>)
    requires
        forall|j: int| 0 <= j < entries.len() ==> (#[trigger] entries[j]).0@ != name,
    ensures
        !recorded(entries).dom().contains(name),
    decreases entries.len(),
{
    if entries.len() > 0 {
        lemma_recorded_absent(entries.drop_last(), name);
    }
}

/// The newest recording for a name decides what the map holds for it.
proof fn lemma_recorded_newest(entries: Seq<(String, Vec<TokenTree>)>, name: Seq<char>, i: int)
    requires
        0 <= i < entries.len(),
        entries[i].0@ == name,
        forall|j: int| i < j < entries.len() ==> (#[trigger] entries[j]).0@ != name,
    ensures
        recorded(entries).dom().contains(name),
        recorded(entries)[name] == entries[i].1.deep_view(),
    decreases entries.len(),
{
    if i < entries.len() - 1 {
        assert(entries.last().0@ != name);
        lemma_recorded_newest(entries.drop_last(), name, i);
    }
}

impl View for ArgumentOptions {
    type V = OptionsView;

    closed spec fn view(&self) -> OptionsView {
        recorded(self.entries@)
    }
}

impl ArgumentOptions {
    /// A map without entries.
    pub fn new() -> (options: ArgumentOptions)
        ensures
            options@ == OptionsView::empty(),
    {
        ArgumentOptions { entries: Vec::new() }
    }

    /// Records `tokens` as the options of the parameter `name`.
    pub fn insert(&mut self, name: String, tokens: Vec<TokenTree>)
        ensures
            final(self)@ == old(self)@.insert(name@, tokens.deep_view()),
    {
        self.entries.push((name, tokens));
        assert(self.entries@.drop_last() =~= old(self).entries@);
    }

    /// The position of the newest recording for `name`, if there is one.
    fn position(&self, name: &String) -> (found: Option<usize>)
        ensures
            match found {
                Some(i) => i < self.entries@.len() && self@.dom().contains(name@) && self@[name@]
                    == self.entries@[i as int].1.deep_view(),
                None => !self@.dom().contains(name@),
            },
    {
        let mut i: usize = self.entries.len();
        while i > 0
            invariant
                i <= self.entries@.len(),
                forall|j: int|
                    i <= j < self.entries@.len() ==> (#[trigger] self.entries@[j]).0@ != name@,
            decreases i,
        {
            i -= 1;
            if self.entries[i].0 == *name {
                proof {
                    lemma_recorded_newest(self.entries@, name@, i as int);
                }
                return Some(i);
            }
        }
        proof {
            lemma_recorded_absent(self.entries@, name@);
        }
        None
    }

    /// Whether options were recorded for the parameter `name`.
    pub fn contains_key(&self, name: &String) -> (present: bool)
        ensures
            present == self@.dom().contains(name@),
    {
        self.position(name).is_some()
    }

    /// The options recorded for the parameter `name`.
    pub fn get(&self, name: &String) -> (tokens: Option<&Vec<TokenTree>>)
        ensures
            match tokens {
                Some(tokens) => self@.dom().contains(name@) && tokens.deep_view() == self@[name@],
                None => !self@.dom().contains(name@),
            },
    {
        match self.position(name) {
            Some(i) => Some(&self.entries[i].1),
            None => None,
        }
    }
}

} // verus!
