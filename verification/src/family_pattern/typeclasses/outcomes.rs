//! What a function asks of the values it is applied to, and what it may
//! return for them, lifted to sequences of values.
//!
//! An executable function is described by the arguments it accepts and by
//! the results it may return for each; it need not return the same result
//! twice. The typeclass operations are stated on the sequence of arguments
//! that they hand to a function and on the sequence of what came back.

use vstd::prelude::*;

verus! {

/// Whether `f` accepts each value of `xs`.
pub open spec fn accepts_all<X, Y, F: FnOnce(X) -> Y>(f: F, xs: Seq<X>) -> bool {
    forall|i: int| 0 <= i < xs.len() ==> f.requires((#[trigger] xs[i], ))
}

/// Whether `ys` holds, position by position, a result of `f` on the value
/// of `xs` at that position.
pub open spec fn results_of<X, Y, F: FnOnce(X) -> Y>(f: F, xs: Seq<X>, ys: Seq<Y>) -> bool {
    &&& ys.len() == xs.len()
    &&& forall|i: int| 0 <= i < xs.len() ==> f.ensures((xs[i], ), #[trigger] ys[i])
}

/// Whether `f` accepts each pair of `xs` as its two arguments.
pub open spec fn accepts_all_pairs<X, Y, Z, F: FnOnce(X, Y) -> Z>(f: F, xs: Seq<(X, Y)>) -> bool {
    forall|i: int| 0 <= i < xs.len() ==> f.requires(#[trigger] xs[i])
}

/// Whether `zs` holds, position by position, a result of `f` on the pair of
/// `xs` at that position.
pub open spec fn results_of_pairs<X, Y, Z, F: FnOnce(X, Y) -> Z>(
    f: F,
    xs: Seq<(X, Y)>,
    zs: Seq<Z>,
) -> bool {
    &&& zs.len() == xs.len()
    &&& forall|i: int| 0 <= i < xs.len() ==> f.ensures(xs[i], #[trigger] zs[i])
}

/// Whether each function of `xs` accepts the value it is paired with.
pub open spec fn applies_all<X, Y, F: FnOnce(X) -> Y>(xs: Seq<(F, X)>) -> bool {
    forall|i: int| 0 <= i < xs.len() ==> (#[trigger] xs[i]).0.requires((xs[i].1, ))
}

/// Whether `ys` holds, position by position, a result of the function of
/// `xs` at that position on the value it is paired with.
pub open spec fn results_of_applying<X, Y, F: FnOnce(X) -> Y>(xs: Seq<(F, X)>, ys: Seq<Y>) -> bool {
    &&& ys.len() == xs.len()
    &&& forall|i: int| 0 <= i < xs.len() ==> xs[i].0.ensures((xs[i].1, ), #[trigger] ys[i])
}

/// Whether `f` is the executable form of the mathematical function `g`:
/// whatever `f` returns for an argument is the value of `g` there.
pub open spec fn computes<X, Y, F: FnOnce(X) -> Y>(f: F, g: spec_fn(X) -> Y) -> bool {
    forall|x: X, y: Y| #[trigger] f.ensures((x, ), y) ==> y == g(x)
}

/// Whether `f` is the executable form of the mathematical function `g` of
/// two arguments: whatever `f` returns for two arguments is the value of
/// `g` there.
pub open spec fn computes2<X, Y, Z, F: FnOnce(X, Y) -> Z>(f: F, g: spec_fn(X, Y) -> Z) -> bool {
    forall|x: X, y: Y, z: Z| #[trigger] f.ensures((x, y), z) ==> z == g(x, y)
}

/// The arguments that the function `f` of one argument accepts.
pub open spec fn pre_of<X, Y, F: FnOnce(X) -> Y>(f: F) -> spec_fn(X) -> bool {
    |x: X| f.requires((x, ))
}

/// The results that the function `f` of one argument may return.
pub open spec fn post_of<X, Y, F: FnOnce(X) -> Y>(f: F) -> spec_fn(X, Y) -> bool {
    |x: X, y: Y| f.ensures((x, ), y)
}

/// The arguments that the function `f` of two arguments accepts.
pub open spec fn pre_of2<X, Y, Z, F: FnOnce(X, Y) -> Z>(f: F) -> spec_fn(X, Y) -> bool {
    |x: X, y: Y| f.requires((x, y))
}

/// The results that the function `f` of two arguments may return.
pub open spec fn post_of2<X, Y, Z, F: FnOnce(X, Y) -> Z>(f: F) -> spec_fn(X, Y, Z) -> bool {
    |x: X, y: Y, z: Z| f.ensures((x, y), z)
}

/// Whether `r` is a result of folding `es` from the right, starting from
/// `s`: the last element is combined with `s` first, and the first element
/// with what the rest gave. `step(a, t, r)` says that combining the element
/// `a` with the accumulator `t` may give `r`.
pub open spec fn fold_right_results<A, S>(
    es: Seq<A>,
    s: S,
    step: spec_fn(A, S, S) -> bool,
    r: S,
) -> bool
    decreases es.len(),
{
    if es.len() == 0 {
        r == s
    } else {
        exists|t: S| fold_right_results(es.drop_first(), s, step, t) && #[trigger] step(es[0], t, r)
    }
}

/// Whether folding `es` from the right, starting from `s`, applies the
/// function only to arguments that it accepts, whatever the steps before
/// gave. `pre(a, t)` says that the element `a` and the accumulator `t` are
/// accepted.
pub open spec fn fold_right_accepts<A, S>(
    es: Seq<A>,
    s: S,
    pre: spec_fn(A, S) -> bool,
    step: spec_fn(A, S, S) -> bool,
) -> bool
    decreases es.len(),
{
    es.len() == 0 || (fold_right_accepts(es.drop_first(), s, pre, step) && forall|t: S|
        fold_right_results(es.drop_first(), s, step, t) ==> #[trigger] pre(es[0], t))
}

/// Whether `r` is a result of folding `es` from the left, starting from
/// `s`: the elements are combined with the accumulator in order.
/// `step(t, a, r)` says that combining the accumulator `t` with the element
/// `a` may give `r`.
pub open spec fn fold_left_results<A, S>(
    es: Seq<A>,
    s: S,
    step: spec_fn(S, A, S) -> bool,
    r: S,
) -> bool
    decreases es.len(),
{
    if es.len() == 0 {
        r == s
    } else {
        exists|t: S| #[trigger] step(s, es[0], t) && fold_left_results(es.drop_first(), t, step, r)
    }
}

/// Whether folding `es` from the left, starting from `s`, applies the
/// function only to arguments that it accepts, whatever the steps before
/// gave. `pre(t, a)` says that the accumulator `t` and the element `a` are
/// accepted.
pub open spec fn fold_left_accepts<A, S>(
    es: Seq<A>,
    s: S,
    pre: spec_fn(S, A) -> bool,
    step: spec_fn(S, A, S) -> bool,
) -> bool
    decreases es.len(),
{
    es.len() == 0 || (pre(s, es[0]) && forall|t: S| #[trigger]
        step(s, es[0], t) ==> fold_left_accepts(es.drop_first(), t, pre, step))
}

/// A right fold that may take each step of `step1` may take each step of
/// `step2`, if `step2` allows all that `step1` allows.
pub proof fn lemma_fold_right_results_weaken<A, S>(
    es: Seq<A>,
    s: S,
    step1: spec_fn(A, S, S) -> bool,
    step2: spec_fn(A, S, S) -> bool,
    r: S,
)
    requires
        forall|a: A, t: S, u: S| #[trigger] step1(a, t, u) ==> step2(a, t, u),
        fold_right_results(es, s, step1, r),
    ensures
        fold_right_results(es, s, step2, r),
    decreases es.len(),
{
    if es.len() != 0 {
        let t = choose|t: S|
            fold_right_results(es.drop_first(), s, step1, t) && #[trigger] step1(es[0], t, r);
        lemma_fold_right_results_weaken(es.drop_first(), s, step1, step2, t);
    }
}

/// A right fold accepts every argument if the function accepts each
/// element whatever the accumulator is.
pub proof fn lemma_fold_right_accepts_all<A, S>(
    es: Seq<A>,
    s: S,
    pre: spec_fn(A, S) -> bool,
    step: spec_fn(A, S, S) -> bool,
)
    requires
        forall|i: int, t: S| 0 <= i < es.len() ==> #[trigger] pre(es[i], t),
    ensures
        fold_right_accepts(es, s, pre, step),
    decreases es.len(),
{
    if es.len() != 0 {
        assert forall|i: int, t: S| 0 <= i < es.drop_first().len() implies #[trigger] pre(
            es.drop_first()[i],
            t,
        ) by {
            assert(es.drop_first()[i] == es[i + 1]);
        }
        lemma_fold_right_accepts_all(es.drop_first(), s, pre, step);
    }
}

/// A left fold that may take each step of `step1` may take each step of
/// `step2`, if `step2` allows all that `step1` allows.
pub proof fn lemma_fold_left_results_weaken<A, S>(
    es: Seq<A>,
    s: S,
    step1: spec_fn(S, A, S) -> bool,
    step2: spec_fn(S, A, S) -> bool,
    r: S,
)
    requires
        forall|t: S, a: A, u: S| #[trigger] step1(t, a, u) ==> step2(t, a, u),
        fold_left_results(es, s, step1, r),
    ensures
        fold_left_results(es, s, step2, r),
    decreases es.len(),
{
    if es.len() != 0 {
        let t = choose|t: S| #[trigger]
            step1(s, es[0], t) && fold_left_results(es.drop_first(), t, step1, r);
        lemma_fold_left_results_weaken(es.drop_first(), t, step1, step2, r);
    }
}

/// A left fold accepts every argument if the function accepts each
/// element whatever the accumulator is.
pub proof fn lemma_fold_left_accepts_all<A, S>(
    es: Seq<A>,
    s: S,
    pre: spec_fn(S, A) -> bool,
    step: spec_fn(S, A, S) -> bool,
)
    requires
        forall|i: int, t: S| 0 <= i < es.len() ==> #[trigger] pre(t, es[i]),
    ensures
        fold_left_accepts(es, s, pre, step),
    decreases es.len(),
{
    if es.len() != 0 {
        assert forall|i: int, t: S| 0 <= i < es.drop_first().len() implies #[trigger] pre(
            t,
            es.drop_first()[i],
        ) by {
            assert(es.drop_first()[i] == es[i + 1]);
        }
        assert forall|t: S| #[trigger] step(s, es[0], t) implies fold_left_accepts(
            es.drop_first(),
            t,
            pre,
            step,
        ) by {
            lemma_fold_left_accepts_all(es.drop_first(), t, pre, step);
        }
    }
}

/// A right fold whose accumulator carries a value `g` along: if each step
/// hands `g` on and takes a step of `step` on the rest of the accumulator,
/// the fold hands `g` on and is a fold by `step` on the rest.
pub proof fn lemma_fold_right_carried<A, S, G>(
    es: Seq<A>,
    s: S,
    g: G,
    carrying: spec_fn(A, (S, G), (S, G)) -> bool,
    step: spec_fn(A, S, S) -> bool,
    r: (S, G),
)
    requires
        forall|a: A, t: (S, G), u: (S, G)| #[trigger]
            carrying(a, t, u) && t.1 == g ==> u.1 == g && step(a, t.0, u.0),
        fold_right_results(es, (s, g), carrying, r),
    ensures
        r.1 == g,
        fold_right_results(es, s, step, r.0),
    decreases es.len(),
{
    if es.len() != 0 {
        let t = choose|t: (S, G)|
            fold_right_results(es.drop_first(), (s, g), carrying, t) && #[trigger] carrying(
                es[0],
                t,
                r,
            );
        lemma_fold_right_carried(es.drop_first(), s, g, carrying, step, t);
        assert(step(es[0], t.0, r.0));
    }
}

/// A right fold whose accumulator carries a value `g` along accepts every
/// argument if each element is accepted with any accumulator that
/// carries `g`.
pub proof fn lemma_fold_right_carried_accepts<A, S, G>(
    es: Seq<A>,
    s: S,
    g: G,
    pre: spec_fn(A, (S, G)) -> bool,
    carrying: spec_fn(A, (S, G), (S, G)) -> bool,
    step: spec_fn(A, S, S) -> bool,
)
    requires
        forall|a: A, t: (S, G), u: (S, G)| #[trigger]
            carrying(a, t, u) && t.1 == g ==> u.1 == g && step(a, t.0, u.0),
        forall|i: int, t: (S, G)| 0 <= i < es.len() && t.1 == g ==> #[trigger] pre(es[i], t),
    ensures
        fold_right_accepts(es, (s, g), pre, carrying),
    decreases es.len(),
{
    if es.len() != 0 {
        let rest = es.drop_first();
        assert forall|i: int, t: (S, G)| 0 <= i < rest.len() && t.1 == g implies #[trigger] pre(
            rest[i],
            t,
        ) by {
            assert(rest[i] == es[i + 1]);
        }
        lemma_fold_right_carried_accepts(rest, s, g, pre, carrying, step);
        assert forall|t: (S, G)| fold_right_results(rest, (s, g), carrying, t) implies #[trigger] pre(
            es[0],
            t,
        ) by {
            lemma_fold_right_carried(rest, s, g, carrying, step, t);
        }
    }
}

/// A left fold whose accumulator carries a value `g` along: if each step
/// hands `g` on and takes a step of `step` on the rest of the accumulator,
/// the fold hands `g` on and is a fold by `step` on the rest.
pub proof fn lemma_fold_left_carried<A, S, G>(
    es: Seq<A>,
    s: S,
    g: G,
    carrying: spec_fn((S, G), A, (S, G)) -> bool,
    step: spec_fn(S, A, S) -> bool,
    r: (S, G),
)
    requires
        forall|t: (S, G), a: A, u: (S, G)| #[trigger]
            carrying(t, a, u) && t.1 == g ==> u.1 == g && step(t.0, a, u.0),
        fold_left_results(es, (s, g), carrying, r),
    ensures
        r.1 == g,
        fold_left_results(es, s, step, r.0),
    decreases es.len(),
{
    if es.len() != 0 {
        let t = choose|t: (S, G)| #[trigger]
            carrying((s, g), es[0], t) && fold_left_results(es.drop_first(), t, carrying, r);
        assert(t == (t.0, g));
        lemma_fold_left_carried(es.drop_first(), t.0, g, carrying, step, r);
        assert(step(s, es[0], t.0));
    }
}

/// A left fold whose accumulator carries a value `g` along accepts every
/// argument if each element is accepted with any accumulator that
/// carries `g`.
pub proof fn lemma_fold_left_carried_accepts<A, S, G>(
    es: Seq<A>,
    s: S,
    g: G,
    pre: spec_fn((S, G), A) -> bool,
    carrying: spec_fn((S, G), A, (S, G)) -> bool,
    step: spec_fn(S, A, S) -> bool,
)
    requires
        forall|t: (S, G), a: A, u: (S, G)| #[trigger]
            carrying(t, a, u) && t.1 == g ==> u.1 == g && step(t.0, a, u.0),
        forall|i: int, t: (S, G)| 0 <= i < es.len() && t.1 == g ==> #[trigger] pre(t, es[i]),
    ensures
        fold_left_accepts(es, (s, g), pre, carrying),
    decreases es.len(),
{
    if es.len() != 0 {
        let rest = es.drop_first();
        assert forall|i: int, t: (S, G)| 0 <= i < rest.len() && t.1 == g implies #[trigger] pre(
            t,
            rest[i],
        ) by {
            assert(rest[i] == es[i + 1]);
        }
        assert(pre((s, g), es[0]));
        assert forall|t: (S, G)| #[trigger] carrying((s, g), es[0], t) implies fold_left_accepts(
            rest,
            t,
            pre,
            carrying,
        ) by {
            assert(t == (t.0, g));
            lemma_fold_left_carried_accepts(rest, t.0, g, pre, carrying, step);
        }
    }
}

/// Folding no element gives the initial value, and folding one element
/// takes one step from it, in either direction.
pub proof fn lemma_fold_right_short<A, S>(
    a: A,
    s: S,
    pre: spec_fn(A, S) -> bool,
    step: spec_fn(A, S, S) -> bool,
    r: S,
)
    ensures
        fold_right_accepts(Seq::<A>::empty(), s, pre, step),
        fold_right_results(Seq::<A>::empty(), s, step, r) <==> r == s,
        fold_right_accepts(seq![a], s, pre, step) <==> pre(a, s),
        fold_right_results(seq![a], s, step, r) <==> step(a, s, r),
{
    let one = seq![a];
    assert(one.drop_first() =~= Seq::<A>::empty());
    assert(one[0] == a);
    assert(fold_right_results(one.drop_first(), s, step, s));
    if fold_right_accepts(one, s, pre, step) {
        assert(pre(one[0], s));
    }
    if step(a, s, r) {
        assert(step(one[0], s, r));
    }
    if fold_right_results(one, s, step, r) {
        let t = choose|t: S|
            fold_right_results(one.drop_first(), s, step, t) && #[trigger] step(one[0], t, r);
        assert(t == s);
    }
}

/// Folding no element gives the initial value, and folding one element
/// takes one step from it, in either direction.
pub proof fn lemma_fold_left_short<A, S>(
    a: A,
    s: S,
    pre: spec_fn(S, A) -> bool,
    step: spec_fn(S, A, S) -> bool,
    r: S,
)
    ensures
        fold_left_accepts(Seq::<A>::empty(), s, pre, step),
        fold_left_results(Seq::<A>::empty(), s, step, r) <==> r == s,
        fold_left_accepts(seq![a], s, pre, step) <==> pre(s, a),
        fold_left_results(seq![a], s, step, r) <==> step(s, a, r),
{
    let one = seq![a];
    assert(one.drop_first() =~= Seq::<A>::empty());
    assert(one[0] == a);
    assert forall|t: S| #[trigger] step(s, one[0], t) implies fold_left_accepts(
        one.drop_first(),
        t,
        pre,
        step,
    ) by {}
    if step(s, a, r) {
        assert(step(s, one[0], r));
        assert(fold_left_results(one.drop_first(), r, step, r));
    }
    if fold_left_results(one, s, step, r) {
        let t = choose|t: S| #[trigger]
            step(s, one[0], t) && fold_left_results(one.drop_first(), t, step, r);
        assert(t == r);
    }
}

} // verus!
