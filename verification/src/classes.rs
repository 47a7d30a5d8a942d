//! Composition of class strings.
//!
//! A class attribute is put together from a fixed base, the classes that the
//! chosen variants stand for, and whatever the caller adds, in that order,
//! with one space between neighbours. A part that is empty or absent leaves
//! no trace: no separator is written for it.
//!
//! The composer only concatenates. Where two parts style the same property,
//! which of them wins is up to the style sheet, not to the order here.

use vstd::prelude::*;

verus! {

/// Two class strings as one: separated by a single space where both have
/// something in them, else whichever is not empty.
pub open spec fn join(a: Seq<char>, b: Seq<char>) -> Seq<char> {
    if a.len() == 0 {
        b
    } else if b.len() == 0 {
        a
    } else {
        a + seq![' '] + b
    }
}

/// All the parts as one class string, in the order given.
pub open spec fn join_all(parts: Seq<Seq<char>>) -> Seq<char>
    decreases parts.len(),
{
    if parts.len() == 0 {
        Seq::empty()
    } else {
        join(join_all(parts.drop_last()), parts.last())
    }
}

/// The parts of a composed class string in their order: the base, the
/// variants' classes as declared, and last what the caller added, if anything.
pub open spec fn parts(base: Seq<char>, variants: Seq<Seq<char>>, extra: Option<Seq<char>>) -> Seq<
    Seq<char>,
> {
    seq![base] + variants + match extra {
        Some(added) => seq![added],
        None => Seq::empty(),
    }
}

/// The class string composed of a base, variants' classes and an optional
/// addition.
pub open spec fn composed(
    base: Seq<char>,
    variants: Seq<Seq<char>>,
    extra: Option<Seq<char>>,
) -> Seq<char> {
    join_all(parts(base, variants, extra))
}

/// What each of the strings reads.
pub open spec fn views(strs: Seq<&str>) -> Seq<Seq<char>> {
    strs.map_values(|s: &str| s@)
}

/// What an optional string reads, where there is one.
pub open spec fn optional_view(s: Option<&str>) -> Option<Seq<char>> {
    match s {
        Some(s) => Some(s@),
        None => None,
    }
}

/// A class string is tidy when every space in it stands between two
/// characters that are not spaces: none leads, none trails, none is doubled.
pub open spec fn tidy(s: Seq<char>) -> bool {
    forall|i: int|
        0 <= i < s.len() && #[trigger] s[i] == ' ' ==> 0 < i && i + 1 < s.len() && s[i - 1] != ' '
            && s[i + 1] != ' '
}

/// Joining is associative: how three class strings are grouped makes no
/// difference to what they join to.
pub proof fn lemma_join_associative(a: Seq<char>, b: Seq<char>, c: Seq<char>)
    ensures
        join(join(a, b), c) == join(a, join(b, c)),
{
    assert(join(join(a, b), c) =~= join(a, join(b, c)));
}

/// The empty class string is neutral: joining it on either side changes
/// nothing.
pub proof fn lemma_join_empty(a: Seq<char>)
    ensures
        join(Seq::empty(), a) == a,
        join(a, Seq::empty()) == a,
{
}

/// Composing one more part is joining it to what was composed so far.
pub proof fn lemma_join_all_push(parts: Seq<Seq<char>>, last: Seq<char>)
    ensures
        join_all(parts.push(last)) == join(join_all(parts), last),
{
    assert(parts.push(last).drop_last() =~= parts);
}

/// Composition is stable under regrouping: composing two runs of parts and
/// joining the results is composing the two runs laid end to end.
pub proof fn lemma_join_all_concat(front: Seq<Seq<char>>, back: Seq<Seq<char>>)
    ensures
        join_all(front + back) == join(join_all(front), join_all(back)),
    decreases back.len(),
{
    if back.len() == 0 {
        assert(front + back =~= front);
    } else {
        let init = back.drop_last();
        assert(front + back =~= (front + init).push(back.last()));
        lemma_join_all_push(front + init, back.last());
        lemma_join_all_concat(front, init);
        lemma_join_associative(join_all(front), join_all(init), back.last());
    }
}

/// With every part present and not empty, a base, two variants and an
/// addition compose to the four of them in that order with exactly one
/// space between neighbours, and nothing before or after.
pub proof fn lemma_composed_all_present(
    base: Seq<char>,
    first: Seq<char>,
    second: Seq<char>,
    extra: Seq<char>,
)
    requires
        base.len() > 0,
        first.len() > 0,
        second.len() > 0,
        extra.len() > 0,
    ensures
        composed(base, seq![first, second], Some(extra)) == base + seq![' '] + first + seq![' ']
            + second + seq![' '] + extra,
{
    let all = parts(base, seq![first, second], Some(extra));
    assert(all =~= seq![base, first, second, extra]);
    reveal_with_fuel(join_all, 5);
    assert(all.drop_last() =~= seq![base, first, second]);
    assert(all.drop_last().drop_last() =~= seq![base, first]);
    assert(all.drop_last().drop_last().drop_last() =~= seq![base]);
}

/// A part that is left out and a part that is empty are skipped alike: the
/// result is what the remaining parts compose to, with no separator written
/// for the one that is missing.
pub proof fn lemma_composed_skips_missing(base: Seq<char>, variants: Seq<Seq<char>>)
    ensures
        composed(base, variants, None) == join(base, join_all(variants)),
        composed(base, variants, Some(Seq::empty())) == composed(base, variants, None),
        composed(Seq::empty(), variants, None) == join_all(variants),
{
    let empty = Seq::<char>::empty();
    assert(parts(base, variants, None) =~= seq![base] + variants);
    lemma_join_all_concat(seq![base], variants);
    lemma_join_all_push(Seq::empty(), base);
    assert(Seq::<Seq<char>>::empty().push(base) =~= seq![base]);
    assert(parts(base, variants, Some(empty)) =~= parts(base, variants, None).push(empty));
    lemma_join_all_push(parts(base, variants, None), empty);
    assert(parts(empty, variants, None) =~= seq![empty] + variants);
    lemma_join_all_concat(seq![empty], variants);
    lemma_join_all_push(Seq::empty(), empty);
    assert(Seq::<Seq<char>>::empty().push(empty) =~= seq![empty]);
}

/// Joining two tidy class strings gives a tidy one.
pub proof fn lemma_join_tidy(a: Seq<char>, b: Seq<char>)
    requires
        tidy(a),
        tidy(b),
    ensures
        tidy(join(a, b)),
{
    if a.len() > 0 && b.len() > 0 {
        let joined = join(a, b);
        let at = a.len() as int;
        assert(a[at - 1] != ' ');
        assert(b[0] != ' ');
        assert forall|i: int| 0 <= i < joined.len() && #[trigger] joined[i] == ' ' implies 0 < i
            && i + 1 < joined.len() && joined[i - 1] != ' ' && joined[i + 1] != ' ' by {
            if i < at {
                assert(a[i] == ' ');
            } else if i > at {
                assert(b[i - at - 1] == ' ');
            }
        }
    }
}

/// Composition writes no stray space: of tidy parts it makes a tidy class
/// string, whichever of them are empty or absent.
pub proof fn lemma_join_all_tidy(parts: Seq<Seq<char>>)
    requires
        forall|i: int| 0 <= i < parts.len() ==> tidy(#[trigger] parts[i]),
    ensures
        tidy(join_all(parts)),
    decreases parts.len(),
{
    if parts.len() > 0 {
        lemma_join_all_tidy(parts.drop_last());
        lemma_join_tidy(join_all(parts.drop_last()), parts.last());
    }
}

/// A class string composed of tidy parts is tidy: it neither starts nor ends
/// with a space and has no two spaces in a row, whether or not the caller
/// added anything.
pub proof fn lemma_composed_tidy(
    base: Seq<char>,
    variants: Seq<Seq<char>>,
    extra: Option<Seq<char>>,
)
    requires
        tidy(base),
        forall|i: int| 0 <= i < variants.len() ==> tidy(#[trigger] variants[i]),
        extra matches Some(added) ==> tidy(added),
    ensures
        tidy(composed(base, variants, extra)),
{
    let all = parts(base, variants, extra);
    assert forall|i: int| 0 <= i < all.len() implies tidy(#[trigger] all[i]) by {
        if 1 <= i <= variants.len() {
            assert(all[i] == variants[i - 1]);
        }
    }
    lemma_join_all_tidy(all);
}

/// Joins one more class string onto `classes`.
pub fn push_class(classes: &mut String, class: &str)
    ensures
        final(classes)@ == join(old(classes)@, class@),
{
    if class.is_empty() {
        return ;
    }
    if !classes.as_str().is_empty() {
        classes.append(" ");
        proof {
            reveal_strlit(" ");
            assert(" "@ =~= seq![' ']);
        }
    }
    classes.append(class);
}

/// Composes a class string of a base, the variants' classes in the order
/// given and, last, what the caller added.
pub fn compose(base: &str, variants: &[&str], extra: Option<&str>) -> (classes: String)
    ensures
        classes@ == composed(base@, views(variants@), optional_view(extra)),
{
    let ghost all = parts(base@, views(variants@), optional_view(extra));
    let mut classes = String::new();
    push_class(&mut classes, base);
    proof {
        assert(all.take(1) =~= Seq::empty().push(base@));
        lemma_join_all_push(Seq::empty(), base@);
    }
    let mut i: usize = 0;
    while i < variants.len()
        invariant
            i <= variants.len(),
            all == parts(base@, views(variants@), optional_view(extra)),
            classes@ == join_all(all.take(i + 1)),
        decreases variants.len() - i,
    {
        proof {
            assert(all.take(i + 2) =~= all.take(i + 1).push(variants@[i as int]@));
            lemma_join_all_push(all.take(i + 1), variants@[i as int]@);
        }
        push_class(&mut classes, variants[i]);
        i += 1;
    }
    match extra {
        Some(added) => {
            proof {
                assert(all =~= all.take(i + 1).push(added@));
                lemma_join_all_push(all.take(i + 1), added@);
            }
            push_class(&mut classes, added);
        },
        None => {
            assert(all =~= all.take(i + 1));
        },
    }
    classes
}

} // verus!
