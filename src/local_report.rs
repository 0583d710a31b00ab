//! An analyst's own notes on a sample: a set of free-form tags.
use vstd::prelude::*;

verus! {

/// The texts of a list of tags.
pub open spec fn tag_texts(v: Seq<String>) -> Seq<Seq<char>> {
    v.map_values(|s: String| s@)
}

/// The tags that a list holds, as a set of texts.
pub open spec fn tag_set(v: Seq<String>) -> Set<Seq<char>> {
    Set::new(|t: Seq<char>| exists|i: int| 0 <= i < v.len() && #[trigger] v[i]@ == t)
}

/// Tag lists that hold no text twice.
pub open spec fn tags_distinct(v: Seq<String>) -> bool {
    forall|i: int, j: int| 0 <= i < v.len() && 0 <= j < v.len() && i != j ==> v[i]@ != v[j]@
}

/// The tags of a sample. An empty set is never stored: the list is absent
/// until the first tag comes and again once the last one goes.
#[derive(Debug)]
pub struct LocalReport {
    pub custom_tags: Option<Vec<String>>,
}

/// Where a tag stands in a list, if it does.
fn position(v: &Vec<String>, tag: &String) -> (r: Option<usize>)
    ensures
        match r {
            Some(i) => i < v@.len() && v@[i as int]@ == tag@,
            None => forall|i: int| 0 <= i < v@.len() ==> #[trigger] v@[i]@ != tag@,
        },
{
    let mut i: usize = 0;
    while i < v.len()
        invariant
            i <= v@.len(),
            forall|k: int| 0 <= k < i ==> #[trigger] v@[k]@ != tag@,
        decreases v.len() - i,
    {
        if v[i] == *tag {
            return Some(i);
        }
        i = i + 1;
    }
    None
}

impl LocalReport {
    /// A tag list is present only when it holds a tag, and holds none twice.
    pub open spec fn wf(&self) -> bool {
        match self.custom_tags {
            Some(v) => v@.len() > 0 && tags_distinct(v@),
            None => true,
        }
    }

    /// The set of tags.
    pub open spec fn tags(&self) -> Set<Seq<char>> {
        match self.custom_tags {
            Some(v) => tag_set(v@),
            None => Set::empty(),
        }
    }

    /// Notes without tags.
    pub fn new() -> (r: LocalReport)
        ensures
            r.wf(),
            r.custom_tags is None,
            r.tags() == Set::<Seq<char>>::empty(),
    {
        LocalReport { custom_tags: None }
    }

    /// Adds a tag; one that is already there stays once.
    pub fn add_tag(&mut self, tag: &str)
        requires
            old(self).wf(),
        ensures
            final(self).wf(),
            final(self).custom_tags is Some,
            final(self).tags() == old(self).tags().insert(tag@),
    {
        let t = tag.to_string();
        match &mut self.custom_tags {
            Some(custom_tags) => {
                let ghost before = custom_tags@;
                if position(custom_tags, &t).is_none() {
                    custom_tags.push(t);
                    proof {
                        let after = custom_tags@;
                        assert(after[after.len() - 1]@ == tag@);
                        assert forall|i: int, j: int|
                            0 <= i < after.len() && 0 <= j < after.len() && i != j implies after[i]@
                            != after[j]@ by {
                            if i < before.len() && j < before.len() {
                                assert(after[i] == before[i] && after[j] == before[j]);
                            }
                        }
                        assert forall|x: Seq<char>| #[trigger]
                            tag_set(after).contains(x) == tag_set(before).insert(tag@).contains(x) by {
                            if tag_set(before).contains(x) {
                                let i = choose|i: int| 0 <= i < before.len() && before[i]@ == x;
                                assert(after[i] == before[i]);
                            }
                            if tag_set(after).contains(x) && x != tag@ {
                                let i = choose|i: int| 0 <= i < after.len() && after[i]@ == x;
                                assert(before[i] == after[i]);
                            }
                        }
                        assert(tag_set(after) =~= tag_set(before).insert(tag@));
                    }
                } else {
                    assert(tag_set(before) =~= tag_set(before).insert(tag@));
                }
            },
            None => {
                let mut custom_tags: Vec<String> = Vec::new();
                custom_tags.push(t);
                proof {
                    let after = custom_tags@;
                    assert(after[0]@ == tag@);
                    assert(tag_set(after) =~= Set::<Seq<char>>::empty().insert(tag@));
                }
                self.custom_tags = Some(custom_tags);
            },
        }
    }

    /// Takes a tag away, where it is there; once the last one is gone the
    /// list is absent again.
    pub fn remove_tag(&mut self, tag: &str)
        requires
            old(self).wf(),
        ensures
            final(self).wf(),
            final(self).tags() == old(self).tags().remove(tag@),
            final(self).custom_tags is None <==> final(self).tags().is_empty(),
    {
        let t = tag.to_string();
        let mut now_empty = false;
        match &mut self.custom_tags {
            Some(custom_tags) => {
                let ghost before = custom_tags@;
                match position(custom_tags, &t) {
                    Some(k) => {
                        custom_tags.remove(k);
                        proof {
                            let after = custom_tags@;
                            assert(after =~= before.remove(k as int));
                            assert forall|x: Seq<char>| #[trigger]
                                tag_set(after).contains(x) == tag_set(before).remove(tag@).contains(
                                    x,
                                ) by {
                                if tag_set(before).contains(x) && x != tag@ {
                                    let i = choose|i: int| 0 <= i < before.len() && before[i]@ == x;
                                    if i < k {
                                        assert(after[i] == before[i]);
                                    } else {
                                        assert(i != k);
                                        assert(after[i - 1] == before[i]);
                                    }
                                }
                                if tag_set(after).contains(x) {
                                    let i = choose|i: int| 0 <= i < after.len() && after[i]@ == x;
                                    if i < k {
                                        assert(after[i] == before[i]);
                                        assert(i != k);
                                    } else {
                                        assert(after[i] == before[i + 1]);
                                    }
                                }
                            }
                            assert(tag_set(after) =~= tag_set(before).remove(tag@));
                        }
                    },
                    None => {
                        assert(tag_set(before) =~= tag_set(before).remove(tag@));
                    },
                }
                now_empty = custom_tags.len() == 0;
                proof {
                    if !now_empty {
                        let after = custom_tags@;
                        assert(tag_set(after).contains(after[0]@));
                    } else {
                        assert(tag_set(custom_tags@) =~= Set::<Seq<char>>::empty());
                    }
                }
            },
            None => {
                assert(Set::<Seq<char>>::empty() =~= Set::<Seq<char>>::empty().remove(tag@));
            },
        }
        if now_empty {
            self.custom_tags = None;
        }
    }
}

} // verus!
