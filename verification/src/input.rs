//! User-provided channels and channel groups for subscription.
//!
//! The two name sets are independent namespaces. The value is immutable
//! inside states: transitions replace it, never patch it in place.

use vstd::prelude::*;

use crate::error::clone_string_vec;

verus! {

broadcast use vstd::seq_lib::group_seq_properties;

/// Channels and channel groups for which real-time updates should be
/// retrieved. Either list is optional; the stored vectors hold each name
/// at most once.
#[derive(Debug, PartialEq)]
pub struct SubscribeInput {
    /// Channels to receive updates from, each name held once.
    pub channels: Option<Vec<String>>,
    /// Channel groups to receive updates from, each name held once.
    pub channel_groups: Option<Vec<String>>,
}

/// Mathematical content of a [`SubscribeInput`]: the two name sets.
pub ghost struct InputModel {
    pub channels: Option<Set<Seq<char>>>,
    pub channel_groups: Option<Set<Seq<char>>>,
}

/// The set a list of names denotes, when there is one.
pub open spec fn spec_opt_name_set(names: Option<Seq<Seq<char>>>) -> Option<Set<Seq<char>>> {
    match names {
        Some(s) => Some(s.to_set()),
        None => None,
    }
}

/// Whether an optional name set is missing or empty.
pub open spec fn spec_opt_set_empty(s: Option<Set<Seq<char>>>) -> bool {
    match s {
        Some(set) => set =~= Set::<Seq<char>>::empty(),
        None => true,
    }
}

impl InputModel {
    /// An input is empty when it names no channel and no channel group.
    pub open spec fn is_empty(&self) -> bool {
        spec_opt_set_empty(self.channels) && spec_opt_set_empty(self.channel_groups)
    }

    /// The input built from two optional name lists.
    pub open spec fn from_lists(
        channels: Option<Seq<Seq<char>>>,
        channel_groups: Option<Seq<Seq<char>>>,
    ) -> InputModel {
        InputModel {
            channels: spec_opt_name_set(channels),
            channel_groups: spec_opt_name_set(channel_groups),
        }
    }
}

impl DeepView for SubscribeInput {
    type V = InputModel;

    open spec fn deep_view(&self) -> InputModel {
        InputModel {
            channels: spec_opt_name_set(self.channels.deep_view()),
            channel_groups: spec_opt_name_set(self.channel_groups.deep_view()),
        }
    }
}

/// Whether an optional name list holds no duplicates.
pub open spec fn spec_opt_no_dups(names: Option<Seq<Seq<char>>>) -> bool {
    match names {
        Some(s) => s.no_duplicates(),
        None => true,
    }
}

impl SubscribeInput {
    /// Well-formedness: the stored lists hold each name once.
    pub open spec fn wf(&self) -> bool {
        &&& spec_opt_no_dups(self.channels.deep_view())
        &&& spec_opt_no_dups(self.channel_groups.deep_view())
    }
}

/// Whether the vector holds a string with these characters.
pub fn vec_contains_string(v: &Vec<String>, x: &String) -> (r: bool)
    ensures
        r == v.deep_view().contains(x@),
{
    let n = v.len();
    let mut i: usize = 0;
    while i < n
        invariant
            n == v.len(),
            0 <= i <= n,
            forall|j: int| 0 <= j < i ==> v.deep_view()[j] != x@,
        decreases n - i,
    {
        if (&v[i]).eq(x) {
            proof {
                assert(v.deep_view()[i as int] == x@);
            }
            return true;
        }
        i = i + 1;
    }
    proof {
        if v.deep_view().contains(x@) {
            let j = choose|j: int| 0 <= j < v.deep_view().len() && v.deep_view()[j] == x@;
            assert(false);
        }
    }
    false
}

/// Copy of the list with duplicates removed, keeping the first occurrence
/// of each name.
fn dedup_strings(v: &Vec<String>) -> (r: Vec<String>)
    ensures
        r.deep_view().to_set() == v.deep_view().to_set(),
        r.deep_view().no_duplicates(),
{
    let mut r: Vec<String> = Vec::new();
    let n = v.len();
    let mut i: usize = 0;
    while i < n
        invariant
            n == v.len(),
            0 <= i <= n,
            r.deep_view().no_duplicates(),
            r.deep_view().to_set() =~= v.deep_view().take(i as int).to_set(),
        decreases n - i,
    {
        let ghost prefix = v.deep_view().take(i as int);
        let ghost prev = r.deep_view();
        let x = v[i].clone();
        proof {
            assert(x@ == v.deep_view()[i as int]);
            v.deep_view().lemma_take_succ_push(i as int);
            prefix.lemma_push_to_set_commute(v.deep_view()[i as int]);
        }
        if !vec_contains_string(&r, &x) {
            r.push(x);
            proof {
                assert(r.deep_view() =~= prev.push(v.deep_view()[i as int]));
                prev.lemma_push_to_set_commute(v.deep_view()[i as int]);
                assert(r.deep_view().to_set() =~= v.deep_view().take(i as int + 1).to_set());
            }
        } else {
            proof {
                assert(prev.to_set().contains(v.deep_view()[i as int]));
                assert(r.deep_view().to_set() =~= v.deep_view().take(i as int + 1).to_set());
            }
        }
        i = i + 1;
    }
    proof {
        assert(v.deep_view().take(n as int) == v.deep_view());
    }
    r
}

/// A list denotes the empty name set exactly when it has no element.
proof fn lemma_empty_set_iff_empty_seq(s: Seq<Seq<char>>)
    ensures
        (s.to_set() =~= Set::<Seq<char>>::empty()) <==> s.len() == 0,
{
    if s.len() > 0 {
        assert(s.to_set().contains(s[0]));
    }
}

impl SubscribeInput {
    /// Build an input from optional channel and channel group lists,
    /// dropping duplicate names.
    pub fn new(channels: &Option<Vec<String>>, channel_groups: &Option<Vec<String>>) -> (r: Self)
        ensures
            r.deep_view() == InputModel::from_lists(
                channels.deep_view(),
                channel_groups.deep_view(),
            ),
            r.wf(),
    {
        let deduped_channels: Option<Vec<String>> = match channels {
            Some(list) => Some(dedup_strings(list)),
            None => None,
        };
        let deduped_groups: Option<Vec<String>> = match channel_groups {
            Some(list) => Some(dedup_strings(list)),
            None => None,
        };
        SubscribeInput { channels: deduped_channels, channel_groups: deduped_groups }
    }

    /// Whether the input names no channel and no channel group.
    pub fn is_empty(&self) -> (r: bool)
        ensures
            r == self.deep_view().is_empty(),
    {
        let channels_empty = match &self.channels {
            Some(list) => list.len() == 0,
            None => true,
        };
        let groups_empty = match &self.channel_groups {
            Some(list) => list.len() == 0,
            None => true,
        };
        proof {
            match &self.channels {
                Some(list) => lemma_empty_set_iff_empty_seq(list.deep_view()),
                None => (),
            }
            match &self.channel_groups {
                Some(list) => lemma_empty_set_iff_empty_seq(list.deep_view()),
                None => (),
            }
        }
        channels_empty && groups_empty
    }

    /// The channel list, when there is one: a copy of the stored list,
    /// so under well-formedness it names each channel exactly once.
    pub fn channels(&self) -> (r: Option<Vec<String>>)
        ensures
            r.deep_view() == self.channels.deep_view(),
            spec_opt_name_set(r.deep_view()) == self.deep_view().channels,
            self.wf() ==> spec_opt_no_dups(r.deep_view()),
    {
        match &self.channels {
            Some(list) => Some(clone_string_vec(list)),
            None => None,
        }
    }

    /// The channel group list, when there is one: a copy of the stored
    /// list, so under well-formedness it names each group exactly once.
    pub fn channel_groups(&self) -> (r: Option<Vec<String>>)
        ensures
            r.deep_view() == self.channel_groups.deep_view(),
            spec_opt_name_set(r.deep_view()) == self.deep_view().channel_groups,
            self.wf() ==> spec_opt_no_dups(r.deep_view()),
    {
        match &self.channel_groups {
            Some(list) => Some(clone_string_vec(list)),
            None => None,
        }
    }

    /// Whether the input names this channel.
    pub fn contains_channel(&self, channel: &String) -> (r: bool)
        ensures
            r == match self.deep_view().channels {
                Some(set) => set.contains(channel@),
                None => false,
            },
    {
        match &self.channels {
            Some(list) => vec_contains_string(list, channel),
            None => false,
        }
    }

    /// Whether the input names this channel group; a missing group name
    /// is never contained.
    pub fn contains_channel_group(&self, channel_group: &Option<String>) -> (r: bool)
        ensures
            r == match (channel_group.deep_view(), self.deep_view().channel_groups) {
                (Some(name), Some(set)) => set.contains(name),
                _ => false,
            },
    {
        match channel_group {
            Some(name) => match &self.channel_groups {
                Some(list) => vec_contains_string(list, name),
                None => false,
            },
            None => false,
        }
    }
}

/// Union of two optional name sets: a missing side contributes nothing,
/// two missing sides stay missing.
pub open spec fn spec_opt_set_union(
    a: Option<Set<Seq<char>>>,
    b: Option<Set<Seq<char>>>,
) -> Option<Set<Seq<char>>> {
    match (a, b) {
        (Some(x), Some(y)) => Some(x.union(y)),
        (Some(x), None) => Some(x),
        (None, Some(y)) => Some(y),
        (None, None) => None,
    }
}

/// Difference of two optional name sets: nothing is removed from a
/// missing left side, and a missing right side removes nothing.
pub open spec fn spec_opt_set_difference(
    a: Option<Set<Seq<char>>>,
    b: Option<Set<Seq<char>>>,
) -> Option<Set<Seq<char>>> {
    match (a, b) {
        (Some(x), Some(y)) => Some(x.difference(y)),
        (Some(x), None) => Some(x),
        (None, _) => None,
    }
}

impl InputModel {
    /// Union of two inputs, per name set.
    pub open spec fn union(self, other: InputModel) -> InputModel {
        InputModel {
            channels: spec_opt_set_union(self.channels, other.channels),
            channel_groups: spec_opt_set_union(self.channel_groups, other.channel_groups),
        }
    }

    /// Difference of two inputs, per name set.
    pub open spec fn difference(self, other: InputModel) -> InputModel {
        InputModel {
            channels: spec_opt_set_difference(self.channels, other.channels),
            channel_groups: spec_opt_set_difference(self.channel_groups, other.channel_groups),
        }
    }
}

/// Append to `a` the names of `b` it does not hold yet.
fn union_lists(a: Vec<String>, b: &Vec<String>) -> (r: Vec<String>)
    ensures
        r.deep_view().to_set() == a.deep_view().to_set().union(b.deep_view().to_set()),
        a.deep_view().no_duplicates() ==> r.deep_view().no_duplicates(),
{
    let ghost a0 = a.deep_view();
    let mut r = a;
    let n = b.len();
    let mut i: usize = 0;
    while i < n
        invariant
            n == b.len(),
            0 <= i <= n,
            a0.no_duplicates() ==> r.deep_view().no_duplicates(),
            r.deep_view().to_set() =~= a0.to_set().union(
                b.deep_view().take(i as int).to_set(),
            ),
        decreases n - i,
    {
        let ghost prev = r.deep_view();
        let x = b[i].clone();
        proof {
            assert(x@ == b.deep_view()[i as int]);
            b.deep_view().lemma_take_succ_push(i as int);
            b.deep_view().take(i as int).lemma_push_to_set_commute(b.deep_view()[i as int]);
        }
        if !vec_contains_string(&r, &x) {
            r.push(x);
            proof {
                assert(r.deep_view() =~= prev.push(b.deep_view()[i as int]));
                prev.lemma_push_to_set_commute(b.deep_view()[i as int]);
                assert(r.deep_view().to_set() =~= a0.to_set().union(
                    b.deep_view().take(i as int + 1).to_set(),
                ));
            }
        } else {
            proof {
                assert(r.deep_view().to_set() =~= a0.to_set().union(
                    b.deep_view().take(i as int + 1).to_set(),
                ));
            }
        }
        i = i + 1;
    }
    proof {
        assert(b.deep_view().take(n as int) == b.deep_view());
    }
    r
}

/// The names of `a` that are not named by `b`.
fn difference_lists(a: &Vec<String>, b: &Vec<String>) -> (r: Vec<String>)
    ensures
        r.deep_view().to_set() == a.deep_view().to_set().difference(b.deep_view().to_set()),
        a.deep_view().no_duplicates() ==> r.deep_view().no_duplicates(),
{
    let mut r: Vec<String> = Vec::new();
    let n = a.len();
    let mut i: usize = 0;
    while i < n
        invariant
            n == a.len(),
            0 <= i <= n,
            a.deep_view().no_duplicates() ==> r.deep_view().no_duplicates(),
            forall|j: int| 0 <= j < r.deep_view().len() ==> a.deep_view().take(i as int).contains(
                #[trigger] r.deep_view()[j],
            ),
            r.deep_view().to_set() =~= a.deep_view().take(i as int).to_set().difference(
                b.deep_view().to_set(),
            ),
        decreases n - i,
    {
        let ghost prev = r.deep_view();
        let x = a[i].clone();
        proof {
            assert(x@ == a.deep_view()[i as int]);
            a.deep_view().lemma_take_succ_push(i as int);
            a.deep_view().take(i as int).lemma_push_to_set_commute(a.deep_view()[i as int]);
        }
        if !vec_contains_string(b, &x) {
            proof {
                if a.deep_view().no_duplicates() {
                    if prev.to_set().contains(a.deep_view()[i as int]) {
                        let elem = a.deep_view()[i as int];
                        assert(a.deep_view().take(i as int).contains(elem));
                        let k = choose|k: int|
                            0 <= k < i && a.deep_view().take(i as int)[k] == elem;
                        assert(a.deep_view()[k] == elem);
                        assert(false);
                    }
                }
            }
            r.push(x);
            proof {
                assert(r.deep_view() =~= prev.push(a.deep_view()[i as int]));
                prev.lemma_push_to_set_commute(a.deep_view()[i as int]);
                assert(r.deep_view().to_set() =~= a.deep_view().take(
                    i as int + 1,
                ).to_set().difference(b.deep_view().to_set()));
            }
        } else {
            proof {
                assert(r.deep_view().to_set() =~= a.deep_view().take(
                    i as int + 1,
                ).to_set().difference(b.deep_view().to_set()));
            }
        }
        i = i + 1;
    }
    proof {
        assert(a.deep_view().take(n as int) == a.deep_view());
    }
    r
}

impl SubscribeInput {
    /// Union of this input with another: adds the other input's channels
    /// and channel groups.
    pub fn add(self, rhs: Self) -> (r: Self)
        ensures
            r.deep_view() == self.deep_view().union(rhs.deep_view()),
            self.wf() && rhs.wf() ==> r.wf(),
    {
        let channels: Option<Vec<String>> = match (self.channels, rhs.channels) {
            (Some(a), Some(b)) => Some(union_lists(a, &b)),
            (Some(a), None) => Some(a),
            (None, Some(b)) => Some(b),
            (None, None) => None,
        };
        let channel_groups: Option<Vec<String>> = match (self.channel_groups, rhs.channel_groups) {
            (Some(a), Some(b)) => Some(union_lists(a, &b)),
            (Some(a), None) => Some(a),
            (None, Some(b)) => Some(b),
            (None, None) => None,
        };
        SubscribeInput { channels, channel_groups }
    }

    /// Difference of this input with another: removes the other input's
    /// channels and channel groups.
    pub fn sub(self, rhs: Self) -> (r: Self)
        ensures
            r.deep_view() == self.deep_view().difference(rhs.deep_view()),
            self.wf() ==> r.wf(),
    {
        let channels: Option<Vec<String>> = match (self.channels, rhs.channels) {
            (Some(a), Some(b)) => Some(difference_lists(&a, &b)),
            (Some(a), None) => Some(a),
            (None, _) => None,
        };
        let channel_groups: Option<Vec<String>> = match (self.channel_groups, rhs.channel_groups) {
            (Some(a), Some(b)) => Some(difference_lists(&a, &b)),
            (Some(a), None) => Some(a),
            (None, _) => None,
        };
        SubscribeInput { channels, channel_groups }
    }

    /// Add the other input's names to this input, in place.
    pub fn add_assign(&mut self, rhs: Self)
        ensures
            final(self).deep_view() == old(self).deep_view().union(rhs.deep_view()),
            old(self).wf() && rhs.wf() ==> final(self).wf(),
    {
        let merged = self.clone().add(rhs);
        self.channels = merged.channels;
        self.channel_groups = merged.channel_groups;
    }

    /// Remove the other input's names from this input, in place.
    pub fn sub_assign(&mut self, rhs: Self)
        ensures
            final(self).deep_view() == old(self).deep_view().difference(rhs.deep_view()),
            old(self).wf() ==> final(self).wf(),
    {
        let reduced = self.clone().sub(rhs);
        self.channels = reduced.channels;
        self.channel_groups = reduced.channel_groups;
    }
}

impl Clone for SubscribeInput {
    /// Copy of the input with the same name sets.
    fn clone(&self) -> (r: Self)
        ensures
            r.deep_view() == self.deep_view(),
            self.wf() ==> r.wf(),
    {
        let channels: Option<Vec<String>> = match &self.channels {
            Some(list) => Some(clone_string_vec(list)),
            None => None,
        };
        let channel_groups: Option<Vec<String>> = match &self.channel_groups {
            Some(list) => Some(clone_string_vec(list)),
            None => None,
        };
        SubscribeInput { channels, channel_groups }
    }
}

} // verus!
