//! The class composer: turns a base class, an optional caller-supplied
//! extra class and an ordered list of semantic modifiers into an ordered
//! class list, rendered as one space-joined attribute value.
//!
//! Precedence is fixed: base class first, caller class next (only if it
//! is non-empty), semantic-modifier classes last, in the order supplied.
//! The composer never de-duplicates and never invents tokens.

use vstd::prelude::*;

verus! {

/// One semantic modifier, rendered as the single token `prefix-value`.
pub struct Modifier {
    pub prefix: String,
    pub value: String,
}

/// The single token a (prefix, value) modifier contributes: `prefix-value`.
pub open spec fn spec_modifier_token(prefix: Seq<char>, value: Seq<char>) -> Seq<char> {
    prefix + seq!['-'] + value
}

impl Modifier {
    /// The token this modifier contributes to a class list.
    pub open spec fn spec_token(self) -> Seq<char> {
        spec_modifier_token(self.prefix@, self.value@)
    }

    pub fn new(prefix: &str, value: &str) -> (r: Modifier)
        ensures
            r.prefix@ == prefix@,
            r.value@ == value@,
    {
        Modifier { prefix: String::from_str(prefix), value: String::from_str(value) }
    }

    /// Renders `prefix-value`.
    pub fn token(&self) -> (r: String)
        ensures
            r@ == self.spec_token(),
            r@.len() > 0,
    {
        let mut s = self.prefix.clone();
        s.append("-");
        s.append(self.value.as_str());
        proof {
            reveal_strlit("-");
            assert(("-")@ =~= seq!['-']);
            assert(s@ =~= self.spec_token());
        }
        s
    }
}

/// An ordered sequence of class tokens; insertion order is significant.
/// Duplicates are permitted (the caller is responsible for not supplying
/// redundant tokens); empty tokens are never stored.
pub struct ClassList {
    pub tokens: Vec<String>,
}

impl View for ClassList {
    type V = Seq<Seq<char>>;

    open spec fn view(&self) -> Seq<Seq<char>> {
        Seq::new(self.tokens@.len(), |i: int| self.tokens@[i]@)
    }
}

/// What pushing one candidate token does to a class list: an empty
/// candidate contributes nothing, any other is appended unchanged.
pub open spec fn spec_push_class(cs: Seq<Seq<char>>, t: Seq<char>) -> Seq<Seq<char>> {
    if t.len() == 0 {
        cs
    } else {
        cs.push(t)
    }
}

/// The composed class list: base first, the extra class only if it is
/// non-empty, then every modifier token in order, and nothing else.
pub open spec fn spec_compose(base: Seq<char>, extra: Seq<char>, mods: Seq<Seq<char>>) -> Seq<
    Seq<char>,
> {
    seq![base] + spec_push_class(Seq::<Seq<char>>::empty(), extra) + mods
}

/// The rendered attribute value: tokens joined by single spaces.
pub open spec fn spec_join(cs: Seq<Seq<char>>) -> Seq<char>
    decreases cs.len(),
{
    if cs.len() == 0 {
        Seq::empty()
    } else if cs.len() == 1 {
        cs[0]
    } else {
        spec_join(cs.drop_last()) + seq![' '] + cs.last()
    }
}

/// Every stored token is non-empty, so the rendered attribute never
/// holds stray whitespace.
pub open spec fn wf_class_list(cs: Seq<Seq<char>>) -> bool {
    forall|i: int| 0 <= i < cs.len() ==> cs[i].len() > 0
}

impl ClassList {
    pub fn new() -> (r: ClassList)
        ensures
            r@ == Seq::<Seq<char>>::empty(),
    {
        let r = ClassList { tokens: Vec::new() };
        proof {
            assert(r@ =~= Seq::<Seq<char>>::empty());
        }
        r
    }

    /// Appends one candidate token; an empty candidate is dropped.
    pub fn push(&mut self, token: &str)
        ensures
            final (self)@ == spec_push_class(old(self)@, token@),
    {
        if token.unicode_len() > 0 {
            self.tokens.push(String::from_str(token));
            proof {
                assert(self@ =~= old(self)@.push(token@));
            }
        }
    }

    /// Composes base, extra and modifiers with the fixed precedence.
    pub fn compose(base: &str, extra: &str, modifiers: &Vec<Modifier>) -> (r: ClassList)
        ensures
            r@ == spec_compose(
                base@,
                extra@,
                modifiers@.map_values(|m: Modifier| m.spec_token()),
            ),
    {
        let ghost mods: Seq<Seq<char>> = modifiers@.map_values(|m: Modifier| m.spec_token());
        let mut r = ClassList::new();
        r.tokens.push(String::from_str(base));
        proof {
            assert(r@ =~= seq![base@]);
        }
        r.push(extra);
        proof {
            assert(r@ =~= spec_compose(base@, extra@, Seq::<Seq<char>>::empty()));
        }
        let mut i: usize = 0;
        while i < modifiers.len()
            invariant
                i <= modifiers@.len(),
                mods == modifiers@.map_values(|m: Modifier| m.spec_token()),
                r@ == spec_compose(base@, extra@, mods.take(i as int)),
            decreases modifiers@.len() - i,
        {
            let t = modifiers[i].token();
            r.push(t.as_str());
            proof {
                assert(mods.take(i + 1) =~= mods.take(i as int).push(mods[i as int]));
                assert(r@ =~= spec_compose(base@, extra@, mods.take(i + 1)));
            }
            i = i + 1;
        }
        proof {
            assert(mods.take(mods.len() as int) =~= mods);
        }
        r
    }

    /// Renders the list as one space-joined attribute value.
    pub fn render(&self) -> (r: String)
        ensures
            r@ == spec_join(self@),
    {
        let mut s = String::new();
        let mut i: usize = 0;
        proof {
            assert(self@.take(0) =~= Seq::<Seq<char>>::empty());
        }
        while i < self.tokens.len()
            invariant
                i <= self.tokens@.len(),
                self@.len() == self.tokens@.len(),
                s@ == spec_join(self@.take(i as int)),
            decreases self.tokens@.len() - i,
        {
            if i > 0 {
                s.append(" ");
                proof {
                    reveal_strlit(" ");
                    assert((" ")@ =~= seq![' ']);
                }
            }
            s.append(self.tokens[i].as_str());
            proof {
                let cs = self@.take(i + 1);
                assert(cs.drop_last() =~= self@.take(i as int));
                assert(cs.last() == self@[i as int]);
                assert(s@ =~= spec_join(cs));
            }
            i = i + 1;
        }
        proof {
            assert(self@.take(self@.len() as int) =~= self@);
        }
        s
    }
}

/// The fixed precedence of composition, stated of every composed list:
/// the base class comes first, the extra class follows exactly when it
/// is non-empty, and the modifier tokens follow in their given order
/// with nothing inserted or removed.
pub proof fn lemma_compose_shape(base: Seq<char>, extra: Seq<char>, mods: Seq<Seq<char>>)
    ensures
        spec_compose(base, extra, mods)[0] == base,
        extra.len() == 0 ==> spec_compose(base, extra, mods) == seq![base] + mods,
        extra.len() > 0 ==> spec_compose(base, extra, mods) == seq![base, extra] + mods,
        spec_compose(base, extra, mods).len() == 1 + (if extra.len() == 0 {
            0int
        } else {
            1int
        }) + mods.len(),
        forall|k: int|
            0 <= k < mods.len() ==> spec_compose(base, extra, mods)[spec_compose(
                base,
                extra,
                mods,
            ).len() - mods.len() + k] == mods[k],
{
    if extra.len() == 0 {
        assert(spec_compose(base, extra, mods) =~= seq![base] + mods);
    } else {
        assert(spec_compose(base, extra, mods) =~= seq![base, extra] + mods);
    }
}

} // verus!
