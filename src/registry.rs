use vstd::prelude::*;
use crate::models::Rule;

verus! {

/// Whether `id` is one of `ids`.
pub open spec fn listed(ids: Seq<String>, id: Seq<char>) -> bool {
    exists|j: int| 0 <= j < ids.len() && ids[j]@ == id
}

/// The rules of `rules` whose id is not in `ids`, in their order.
pub open spec fn without_excluded(rules: Seq<Rule>, ids: Seq<String>) -> Seq<Rule> {
    rules.filter(|r: Rule| !listed(ids, r.id@))
}

/// The ids of `rules`, in order.
pub open spec fn ids_of(rules: Seq<Rule>) -> Seq<Seq<char>> {
    rules.map_values(|r: Rule| r.id@)
}

/// The ordered catalogue of rules evaluated in one pass.
pub struct RuleRegistry {
    rules: Vec<Rule>,
}

impl View for RuleRegistry {
    type V = Seq<Rule>;

    closed spec fn view(&self) -> Seq<Rule> {
        self.rules@
    }
}

fn is_listed(ids: &Vec<String>, id: &String) -> (r: bool)
    ensures
        r == listed(ids@, id@),
{
    let mut j: usize = 0;
    while j < ids.len()
        invariant
            j <= ids@.len(),
            forall|k: int| 0 <= k < j ==> ids@[k]@ != id@,
        decreases ids@.len() - j,
    {
        if ids[j] == *id {
            return true;
        }
        j = j + 1;
    }
    false
}

impl RuleRegistry {
    /// A registry holding `rules` in the order given, as the store listed
    /// them.
    pub fn new(rules: Vec<Rule>) -> (r: RuleRegistry)
        ensures
            r@ == rules@,
    {
        RuleRegistry { rules }
    }

    /// The rules, in iteration order.
    pub fn rules(&self) -> (r: &Vec<Rule>)
        ensures
            r@ == self@,
    {
        &self.rules
    }

    /// How many rules the registry holds.
    pub fn len(&self) -> (r: usize)
        ensures
            r == self@.len(),
    {
        self.rules.len()
    }

    /// Removes every rule.
    pub fn clear(&mut self)
        ensures
            final(self)@ == Seq::<Rule>::empty(),
    {
        self.rules.clear();
    }

    /// Drops the rules whose id is in `ids`; ids that name no rule are
    /// ignored. The remaining rules keep their order.
    pub fn exclude_checks(&mut self, ids: &Vec<String>)
        ensures
            final(self)@ == without_excluded(old(self)@, ids@),
    {
        let ghost orig = self.rules@;
        let mut src: Vec<Rule> = Vec::new();
        core::mem::swap(&mut src, &mut self.rules);
        let mut out: Vec<Rule> = Vec::new();
        let ghost mut k: int = 0;
        while src.len() > 0
            invariant
                0 <= k <= orig.len(),
                src@ == orig.skip(k),
                out@ == without_excluded(orig.take(k), ids@),
            decreases src@.len(),
        {
            let r = src.remove(0);
            let ghost rv = r;
            let ghost before = out@;
            proof {
                assert(orig.take(k + 1).drop_last() =~= orig.take(k));
                assert(orig.take(k + 1).last() == r);
                assert(src@ =~= orig.skip(k + 1));
            }
            let listed_here = is_listed(ids, &r.id);

            if !listed_here {
                out.push(r);
            }
            assert(out@ == (if !listed(ids@, rv.id@) { before.push(rv) } else { before }));
            proof {
                reveal_with_fuel(Seq::filter, 1);
                assert(without_excluded(orig.take(k + 1), ids@) == (if !listed(ids@, rv.id@) {
                    without_excluded(orig.take(k), ids@).push(rv)
                } else {
                    without_excluded(orig.take(k), ids@)
                }));
                k = k + 1;
            }
        }
        assert(orig.take(k) =~= orig);
        self.rules = out;
    }

    /// The ids of the rules, in iteration order.
    pub fn ids(&self) -> (r: Vec<String>)
        ensures
            r@.len() == self@.len(),
            forall|i: int| 0 <= i < r@.len() ==> r@[i]@ == self@[i].id@,
    {
        let mut out: Vec<String> = Vec::new();
        let mut i: usize = 0;
        while i < self.rules.len()
            invariant
                i <= self@.len(),
                out@.len() == i,
                forall|k: int| 0 <= k < i ==> out@[k]@ == self@[k].id@,
            decreases self@.len() - i,
        {
            out.push(self.rules[i].id.clone());
            i = i + 1;
        }
        out
    }
}

proof fn lemma_filter_twice(s: Seq<Rule>, p: spec_fn(Rule) -> bool)
    ensures
        s.filter(p).filter(p) == s.filter(p),
    decreases s.len(),
{
    reveal_with_fuel(Seq::filter, 2);
    if s.len() > 0 {
        lemma_filter_twice(s.drop_last(), p);
        let t = s.drop_last().filter(p);
        if p(s.last()) {
            assert(s.filter(p) == t.push(s.last()));
            assert(t.push(s.last()).drop_last() =~= t);
        }
    }
}

/// Exclusion is idempotent: excluding the same ids a second time changes
/// nothing.
pub proof fn lemma_exclusion_idempotent(rules: Seq<Rule>, ids: Seq<String>)
    ensures
        without_excluded(without_excluded(rules, ids), ids) == without_excluded(rules, ids),
{
    lemma_filter_twice(rules, |r: Rule| !listed(ids, r.id@));
}

/// No rule left after exclusion has an excluded id, and every rule of the
/// input whose id is not excluded is still there.
pub proof fn lemma_exclusion_exact(rules: Seq<Rule>, ids: Seq<String>)
    ensures
        forall|i: int| 0 <= i < without_excluded(rules, ids).len()
            ==> !listed(ids, #[trigger] without_excluded(rules, ids)[i].id@),
        forall|i: int| 0 <= i < rules.len() && !listed(ids, #[trigger] rules[i].id@)
            ==> without_excluded(rules, ids).contains(rules[i]),
{
    let p = |r: Rule| !listed(ids, r.id@);
    assert forall|i: int| 0 <= i < without_excluded(rules, ids).len()
        implies !listed(ids, #[trigger] without_excluded(rules, ids)[i].id@) by {
        rules.lemma_filter_pred(p, i);
    }
    assert forall|i: int| 0 <= i < rules.len() && !listed(ids, #[trigger] rules[i].id@)
        implies without_excluded(rules, ids).contains(rules[i]) by {
        rules.lemma_filter_contains(p, i);
    }
}

} // verus!
