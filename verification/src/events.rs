//! Daily and weekly events: three authored options (slots A, B and C) plus
//! a presented order that is reshuffled on every draw.  The standing
//! invariant is that the presented options are always a permutation of the
//! three authored ones, with each option's authored slot recoverable
//! through `original_index`.

use vstd::prelude::*;

verus! {

/// One selectable option: a `(skill delta, stress delta)` pair, its display
/// text, the narrative shown once it is chosen, and the authored slot it
/// came from (0 = A, 1 = B, 2 = C).  Options never change after creation.
#[derive(Debug)]
pub struct OptionInfo {
    pub value: (i32, i32),
    pub desc: String,
    pub story: String,
    pub original_index: u32,
}

impl Clone for OptionInfo {
    fn clone(&self) -> (r: Self)
        ensures
            r == *self,
    {
        OptionInfo {
            value: self.value,
            desc: self.desc.clone(),
            story: self.story.clone(),
            original_index: self.original_index,
        }
    }
}

/// A daily event: identity, the three authored options, and the presented
/// (shuffled) order.
#[derive(Debug)]
pub struct DailyEvent {
    pub id: usize,
    pub name: String,
    pub description: String,
    pub option_a: (i32, i32),
    pub option_a_desc: String,
    pub option_a_story: String,
    pub option_b: (i32, i32),
    pub option_b_desc: String,
    pub option_b_story: String,
    pub option_c: (i32, i32),
    pub option_c_desc: String,
    pub option_c_story: String,
    pub shuffled_options: Vec<OptionInfo>,
}

/// Same identity and authored options; the presented order may live in a
/// different allocation but holds the same sequence of options.
pub open spec fn same_daily_content(a: DailyEvent, b: DailyEvent) -> bool {
    &&& a.id == b.id
    &&& a.name == b.name
    &&& a.description == b.description
    &&& a.option_a == b.option_a
    &&& a.option_a_desc == b.option_a_desc
    &&& a.option_a_story == b.option_a_story
    &&& a.option_b == b.option_b
    &&& a.option_b_desc == b.option_b_desc
    &&& a.option_b_story == b.option_b_story
    &&& a.option_c == b.option_c
    &&& a.option_c_desc == b.option_c_desc
    &&& a.option_c_story == b.option_c_story
}

impl Clone for DailyEvent {
    fn clone(&self) -> (r: Self)
        ensures
            same_daily_content(r, *self),
            r.shuffled_options@ == self.shuffled_options@,
            self.options_shuffled() ==> r.options_shuffled(),
    {
        let r = DailyEvent {
            id: self.id,
            name: self.name.clone(),
            description: self.description.clone(),
            option_a: self.option_a,
            option_a_desc: self.option_a_desc.clone(),
            option_a_story: self.option_a_story.clone(),
            option_b: self.option_b,
            option_b_desc: self.option_b_desc.clone(),
            option_b_story: self.option_b_story.clone(),
            option_c: self.option_c,
            option_c_desc: self.option_c_desc.clone(),
            option_c_story: self.option_c_story.clone(),
            shuffled_options: self.shuffled_options.clone(),
        };
        proof {
            assert(r.shuffled_options@ =~= self.shuffled_options@);
            assert(r.authored() =~= self.authored());
        }
        r
    }
}

impl DailyEvent {
    /// The option authored in slot `k` (0 = A, 1 = B, 2 = C).
    pub open spec fn authored_option(&self, k: int) -> OptionInfo {
        if k == 0 {
            OptionInfo {
                value: self.option_a,
                desc: self.option_a_desc,
                story: self.option_a_story,
                original_index: 0u32,
            }
        } else if k == 1 {
            OptionInfo {
                value: self.option_b,
                desc: self.option_b_desc,
                story: self.option_b_story,
                original_index: 1u32,
            }
        } else {
            OptionInfo {
                value: self.option_c,
                desc: self.option_c_desc,
                story: self.option_c_story,
                original_index: 2u32,
            }
        }
    }

    /// The authored options in slot order.
    pub open spec fn authored(&self) -> Seq<OptionInfo> {
        seq![self.authored_option(0), self.authored_option(1), self.authored_option(2)]
    }

    /// The presented options are exactly the three authored ones, in some
    /// order.
    pub open spec fn options_shuffled(&self) -> bool {
        &&& self.shuffled_options@.len() == 3
        &&& self.shuffled_options@.to_multiset() == self.authored().to_multiset()
    }

    /// Builds the event and lays out its options in a random presented
    /// order.
    pub fn new_shuffled(
        id: usize,
        name: String,
        description: String,
        option_a: (i32, i32),
        option_a_desc: String,
        option_a_story: String,
        option_b: (i32, i32),
        option_b_desc: String,
        option_b_story: String,
        option_c: (i32, i32),
        option_c_desc: String,
        option_c_story: String,
    ) -> (e: DailyEvent)
        ensures
            e.id == id,
            e.name == name,
            e.description == description,
            e.option_a == option_a,
            e.option_a_desc == option_a_desc,
            e.option_a_story == option_a_story,
            e.option_b == option_b,
            e.option_b_desc == option_b_desc,
            e.option_b_story == option_b_story,
            e.option_c == option_c,
            e.option_c_desc == option_c_desc,
            e.option_c_story == option_c_story,
            e.options_shuffled(),
    {
        let mut options: Vec<OptionInfo> = Vec::new();
        options.push(
            OptionInfo {
                value: option_a,
                desc: option_a_desc.clone(),
                story: option_a_story.clone(),
                original_index: 0,
            },
        );
        options.push(
            OptionInfo {
                value: option_b,
                desc: option_b_desc.clone(),
                story: option_b_story.clone(),
                original_index: 1,
            },
        );
        options.push(
            OptionInfo {
                value: option_c,
                desc: option_c_desc.clone(),
                story: option_c_story.clone(),
                original_index: 2,
            },
        );
        let ghost authored_order = options@;
        crate::rng::shuffle_vec(&mut options);
        let e = DailyEvent {
            id,
            name,
            description,
            option_a,
            option_a_desc,
            option_a_story,
            option_b,
            option_b_desc,
            option_b_story,
            option_c,
            option_c_desc,
            option_c_story,
            shuffled_options: options,
        };
        proof {
            assert(authored_order =~= e.authored());
        }
        e
    }

    /// Draws a fresh presented order for the same three authored options.
    pub fn reshuffle(&mut self)
        ensures
            *final(self) == (DailyEvent {
                shuffled_options: final(self).shuffled_options,
                ..*old(self)
            }),
            final(self).shuffled_options@.to_multiset()
                == old(self).shuffled_options@.to_multiset(),
            old(self).options_shuffled() ==> final(self).options_shuffled(),
    {
        crate::rng::shuffle_vec(&mut self.shuffled_options);
    }
}

/// A weekly event: same shape as a daily event, drawn only on each seventh
/// day.
#[derive(Debug)]
pub struct WeeklyEvent {
    pub id: usize,
    pub name: String,
    pub description: String,
    pub option_a: (i32, i32),
    pub option_a_desc: String,
    pub option_a_story: String,
    pub option_b: (i32, i32),
    pub option_b_desc: String,
    pub option_b_story: String,
    pub option_c: (i32, i32),
    pub option_c_desc: String,
    pub option_c_story: String,
    pub shuffled_options: Vec<OptionInfo>,
}

/// Same identity and authored options; the presented order may live in a
/// different allocation but holds the same sequence of options.
pub open spec fn same_weekly_content(a: WeeklyEvent, b: WeeklyEvent) -> bool {
    &&& a.id == b.id
    &&& a.name == b.name
    &&& a.description == b.description
    &&& a.option_a == b.option_a
    &&& a.option_a_desc == b.option_a_desc
    &&& a.option_a_story == b.option_a_story
    &&& a.option_b == b.option_b
    &&& a.option_b_desc == b.option_b_desc
    &&& a.option_b_story == b.option_b_story
    &&& a.option_c == b.option_c
    &&& a.option_c_desc == b.option_c_desc
    &&& a.option_c_story == b.option_c_story
}

impl Clone for WeeklyEvent {
    fn clone(&self) -> (r: Self)
        ensures
            same_weekly_content(r, *self),
            r.shuffled_options@ == self.shuffled_options@,
            self.options_shuffled() ==> r.options_shuffled(),
    {
        let r = WeeklyEvent {
            id: self.id,
            name: self.name.clone(),
            description: self.description.clone(),
            option_a: self.option_a,
            option_a_desc: self.option_a_desc.clone(),
            option_a_story: self.option_a_story.clone(),
            option_b: self.option_b,
            option_b_desc: self.option_b_desc.clone(),
            option_b_story: self.option_b_story.clone(),
            option_c: self.option_c,
            option_c_desc: self.option_c_desc.clone(),
            option_c_story: self.option_c_story.clone(),
            shuffled_options: self.shuffled_options.clone(),
        };
        proof {
            assert(r.shuffled_options@ =~= self.shuffled_options@);
            assert(r.authored() =~= self.authored());
        }
        r
    }
}

impl WeeklyEvent {
    /// The option authored in slot `k` (0 = A, 1 = B, 2 = C).
    pub open spec fn authored_option(&self, k: int) -> OptionInfo {
        if k == 0 {
            OptionInfo {
                value: self.option_a,
                desc: self.option_a_desc,
                story: self.option_a_story,
                original_index: 0u32,
            }
        } else if k == 1 {
            OptionInfo {
                value: self.option_b,
                desc: self.option_b_desc,
                story: self.option_b_story,
                original_index: 1u32,
            }
        } else {
            OptionInfo {
                value: self.option_c,
                desc: self.option_c_desc,
                story: self.option_c_story,
                original_index: 2u32,
            }
        }
    }

    /// The authored options in slot order.
    pub open spec fn authored(&self) -> Seq<OptionInfo> {
        seq![self.authored_option(0), self.authored_option(1), self.authored_option(2)]
    }

    /// The presented options are exactly the three authored ones, in some
    /// order.
    pub open spec fn options_shuffled(&self) -> bool {
        &&& self.shuffled_options@.len() == 3
        &&& self.shuffled_options@.to_multiset() == self.authored().to_multiset()
    }

    /// Builds the event and lays out its options in a random presented
    /// order.
    pub fn new_shuffled(
        id: usize,
        name: String,
        description: String,
        option_a: (i32, i32),
        option_a_desc: String,
        option_a_story: String,
        option_b: (i32, i32),
        option_b_desc: String,
        option_b_story: String,
        option_c: (i32, i32),
        option_c_desc: String,
        option_c_story: String,
    ) -> (e: WeeklyEvent)
        ensures
            e.id == id,
            e.name == name,
            e.description == description,
            e.option_a == option_a,
            e.option_a_desc == option_a_desc,
            e.option_a_story == option_a_story,
            e.option_b == option_b,
            e.option_b_desc == option_b_desc,
            e.option_b_story == option_b_story,
            e.option_c == option_c,
            e.option_c_desc == option_c_desc,
            e.option_c_story == option_c_story,
            e.options_shuffled(),
    {
        let mut options: Vec<OptionInfo> = Vec::new();
        options.push(
            OptionInfo {
                value: option_a,
                desc: option_a_desc.clone(),
                story: option_a_story.clone(),
                original_index: 0,
            },
        );
        options.push(
            OptionInfo {
                value: option_b,
                desc: option_b_desc.clone(),
                story: option_b_story.clone(),
                original_index: 1,
            },
        );
        options.push(
            OptionInfo {
                value: option_c,
                desc: option_c_desc.clone(),
                story: option_c_story.clone(),
                original_index: 2,
            },
        );
        let ghost authored_order = options@;
        crate::rng::shuffle_vec(&mut options);
        let e = WeeklyEvent {
            id,
            name,
            description,
            option_a,
            option_a_desc,
            option_a_story,
            option_b,
            option_b_desc,
            option_b_story,
            option_c,
            option_c_desc,
            option_c_story,
            shuffled_options: options,
        };
        proof {
            assert(authored_order =~= e.authored());
        }
        e
    }

    /// Draws a fresh presented order for the same three authored options.
    pub fn reshuffle(&mut self)
        ensures
            *final(self) == (WeeklyEvent {
                shuffled_options: final(self).shuffled_options,
                ..*old(self)
            }),
            final(self).shuffled_options@.to_multiset()
                == old(self).shuffled_options@.to_multiset(),
            old(self).options_shuffled() ==> final(self).options_shuffled(),
    {
        crate::rng::shuffle_vec(&mut self.shuffled_options);
    }
}

/// The presented order of a daily event is a permutation of its authored
/// options: every presented option is one of the three authored ones, and
/// every authored option appears in the presented order.
pub proof fn lemma_daily_presented_is_permutation(e: DailyEvent)
    requires
        e.options_shuffled(),
    ensures
        forall|i: int|
            0 <= i < e.shuffled_options@.len() ==> exists|k: int|
                0 <= k < 3 && #[trigger] e.shuffled_options@[i] == e.authored()[k],
        forall|k: int|
            0 <= k < 3 ==> e.shuffled_options@.contains(#[trigger] e.authored()[k]),
{
    broadcast use vstd::seq_lib::group_to_multiset_ensures;

    assert forall|i: int| 0 <= i < e.shuffled_options@.len() implies exists|k: int|
        0 <= k < 3 && #[trigger] e.shuffled_options@[i] == e.authored()[k] by {
        let x = e.shuffled_options@[i];
        assert(e.shuffled_options@.contains(x));
        assert(e.shuffled_options@.to_multiset().count(x) > 0);
        assert(e.authored().to_multiset().count(x) > 0);
        assert(e.authored().contains(x));
        let k = choose|k: int| 0 <= k < e.authored().len() && e.authored()[k] == x;
        assert(0 <= k < 3 && e.shuffled_options@[i] == e.authored()[k]);
    }
    assert forall|k: int| 0 <= k < 3 implies e.shuffled_options@.contains(
        #[trigger] e.authored()[k],
    ) by {
        assert(e.authored().contains(e.authored()[k]));
        assert(e.authored().to_multiset().count(e.authored()[k]) > 0);
        assert(e.shuffled_options@.to_multiset().count(e.authored()[k]) > 0);
    }
}

/// The same permutation law for a weekly event.
pub proof fn lemma_weekly_presented_is_permutation(e: WeeklyEvent)
    requires
        e.options_shuffled(),
    ensures
        forall|i: int|
            0 <= i < e.shuffled_options@.len() ==> exists|k: int|
                0 <= k < 3 && #[trigger] e.shuffled_options@[i] == e.authored()[k],
        forall|k: int|
            0 <= k < 3 ==> e.shuffled_options@.contains(#[trigger] e.authored()[k]),
{
    broadcast use vstd::seq_lib::group_to_multiset_ensures;

    assert forall|i: int| 0 <= i < e.shuffled_options@.len() implies exists|k: int|
        0 <= k < 3 && #[trigger] e.shuffled_options@[i] == e.authored()[k] by {
        let x = e.shuffled_options@[i];
        assert(e.shuffled_options@.contains(x));
        assert(e.shuffled_options@.to_multiset().count(x) > 0);
        assert(e.authored().to_multiset().count(x) > 0);
        assert(e.authored().contains(x));
        let k = choose|k: int| 0 <= k < e.authored().len() && e.authored()[k] == x;
        assert(0 <= k < 3 && e.shuffled_options@[i] == e.authored()[k]);
    }
    assert forall|k: int| 0 <= k < 3 implies e.shuffled_options@.contains(
        #[trigger] e.authored()[k],
    ) by {
        assert(e.authored().contains(e.authored()[k]));
        assert(e.authored().to_multiset().count(e.authored()[k]) > 0);
        assert(e.shuffled_options@.to_multiset().count(e.authored()[k]) > 0);
    }
}

} // verus!
