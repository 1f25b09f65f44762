//! Suggestions while a user types a command.

use vstd::prelude::*;
use vstd::string::StringExecFns;

use crate::models::{QueuedTrack, Track};
use crate::queue::Queue;
use crate::text::{decimal, decimal_string, is_prefix, lowercased, starts_with, to_lowercase};

verus! {

/// The most titles suggested for a search.
pub const MAX_SEARCH_SUGGESTIONS: usize = 10;

/// The most choices the chat platform accepts.
pub const MAX_CHOICES: usize = 25;

/// A suggested track of the queue: what is shown, and the track number
/// that is filled in.
#[derive(Debug, PartialEq, Eq)]
pub struct AutocompleteChoice {
    pub name: String,
    pub value: usize,
}

pub struct AutocompleteChoiceView {
    pub name: Seq<char>,
    pub value: usize,
}

impl View for AutocompleteChoice {
    type V = AutocompleteChoiceView;

    open spec fn view(&self) -> AutocompleteChoiceView {
        AutocompleteChoiceView { name: self.name@, value: self.value }
    }
}

/// The titles of the first matches of a search, at most
/// [`MAX_SEARCH_SUGGESTIONS`].
pub fn autocomplete_search_query(results: &Vec<Track>) -> (titles: Vec<String>)
    ensures
        titles@.len() == if results@.len() < MAX_SEARCH_SUGGESTIONS {
            results@.len()
        } else {
            MAX_SEARCH_SUGGESTIONS as nat
        },
        forall|i: int| 0 <= i < titles@.len() ==> titles@[i] == results@[i].title,
{
    let mut titles: Vec<String> = Vec::new();
    let mut i: usize = 0;
    while i < results.len() && i < MAX_SEARCH_SUGGESTIONS
        invariant
            i <= results@.len(),
            i <= MAX_SEARCH_SUGGESTIONS,
            titles@.len() == i,
            forall|k: int| 0 <= k < titles@.len() ==> titles@[k] == results@[k].title,
        decreases results@.len() - i,
    {
        titles.push(results[i].title.clone());
        i += 1;
    }
    titles
}

/// The track at position `index` is suggested for what was typed: its
/// number starts with it, or its title does, whatever the case of the
/// letters.
pub open spec fn suggested(index: nat, queued: QueuedTrack, partial: Seq<char>) -> bool {
    is_prefix(partial, decimal(index + 1)) || is_prefix(
        lowercased(partial),
        lowercased(queued.track.title@),
    )
}

/// The choice that stands for the track at position `index`.
pub open spec fn choice_for(index: nat, queued: QueuedTrack) -> AutocompleteChoiceView {
    AutocompleteChoiceView {
        name: decimal(index + 1) + ". "@ + queued.track.title@,
        value: (index + 1) as usize,
    }
}

/// The choices among the first `n` tracks of the queue, in queue order.
pub open spec fn choices_among(queue: Seq<QueuedTrack>, partial: Seq<char>, n: nat) -> Seq<
    AutocompleteChoiceView,
>
    decreases n,
{
    if n == 0 {
        Seq::empty()
    } else {
        let earlier = choices_among(queue, partial, (n - 1) as nat);
        if suggested((n - 1) as nat, queue[n - 1], partial) {
            earlier.push(choice_for((n - 1) as nat, queue[n - 1]))
        } else {
            earlier
        }
    }
}

/// The first `limit` entries of `choices`, or all of them if there are
/// fewer.
pub open spec fn capped(choices: Seq<AutocompleteChoiceView>, limit: nat) -> Seq<
    AutocompleteChoiceView,
> {
    if choices.len() <= limit {
        choices
    } else {
        choices.take(limit as int)
    }
}

/// The views of the choices.
pub open spec fn choice_views(choices: Seq<AutocompleteChoice>) -> Seq<AutocompleteChoiceView> {
    Seq::new(choices.len(), |i: int| choices[i]@)
}

/// Tells whether a track is suggested, from its number written out, its
/// title in lower case, and what was typed, as typed and in lower case.
pub fn is_suggestion(number: &str, lowered_title: &str, typed: &str, lowered_typed: &str) -> (yes:
    bool)
    ensures
        yes == (is_prefix(typed@, number@) || is_prefix(lowered_typed@, lowered_title@)),
{
    starts_with(number, typed) || starts_with(lowered_title, lowered_typed)
}

fn is_suggested(index: usize, queued: &QueuedTrack, partial: &str) -> (yes: bool)
    requires
        index < usize::MAX,
    ensures
        yes == suggested(index as nat, *queued, partial@),
{
    let number = decimal_string((index + 1) as u64);
    let title = to_lowercase(queued.track.title.as_str());
    let typed = to_lowercase(partial);
    is_suggestion(number.as_str(), title.as_str(), partial, typed.as_str())
}

/// The tracks of the queue to suggest for what was typed of a track number,
/// in queue order, at most [`MAX_CHOICES`].
pub fn autocomplete_track_number(queue: &Queue, partial: &str) -> (choices: Vec<AutocompleteChoice>)
    ensures
        choice_views(choices@) == capped(
            choices_among(queue@, partial@, queue@.len()),
            MAX_CHOICES as nat,
        ),
{
    let mut choices: Vec<AutocompleteChoice> = Vec::new();
    let count = queue.get_count();
    let mut index: usize = 0;
    assert(choice_views(choices@) =~= Seq::<AutocompleteChoiceView>::empty());
    while index < count
        invariant
            index <= count,
            count == queue@.len(),
            choice_views(choices@) == capped(
                choices_among(queue@, partial@, index as nat),
                MAX_CHOICES as nat,
            ),
        decreases count - index,
    {
        let ghost before = choice_views(choices@);
        let ghost earlier = choices_among(queue@, partial@, index as nat);
        if choices.len() < MAX_CHOICES {
            assert(before.len() == choices@.len());
            assert(earlier.len() < MAX_CHOICES);
            match queue.get_track(index) {
                Some(queued) => {
                    if is_suggested(index, queued, partial) {
                        let mut name = decimal_string((index + 1) as u64);
                        name.append(". ");
                        name.append(queued.track.title.as_str());
                        choices.push(AutocompleteChoice { name, value: index + 1 });
                        assert(choice_views(choices@) =~= before.push(
                            choice_for(index as nat, queue@[index as int]),
                        ));
                    }
                },
                None => {},
            }
        } else {
            assert(before.len() == choices@.len());
            assert(earlier.len() >= MAX_CHOICES);
            assert(capped(choices_among(queue@, partial@, (index + 1) as nat), MAX_CHOICES as nat)
                =~= before);
        }
        index += 1;
    }
    choices
}

} // verus!
