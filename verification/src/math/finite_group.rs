//! Finite abelian groups: the order of the group kills every element.
use vstd::prelude::*;
use vstd::relations::*;
use vstd::set::fold::*;
use vstd::set_lib::*;

verus! {

/// `s` with the operation `op` and the neutral element `e` is a commutative
/// monoid in which cancellation holds. A finite one is an abelian group.
#[verifier::opaque]
pub open spec fn is_abelian<T>(s: Set<T>, op: spec_fn(T, T) -> T, e: T) -> bool {
    &&& s.contains(e)
    &&& forall|a: T, b: T| s.contains(a) && s.contains(b) ==> s.contains(#[trigger] op(a, b))
    &&& forall|a: T, b: T| s.contains(a) && s.contains(b) ==> #[trigger] op(a, b) == op(b, a)
    &&& forall|a: T, b: T, c: T|
        s.contains(a) && s.contains(b) && s.contains(c) ==> #[trigger] op(op(a, b), c) == op(
            a,
            op(b, c),
        )
    &&& forall|a: T| s.contains(a) ==> #[trigger] op(e, a) == a
    &&& forall|a: T, b: T, c: T|
        s.contains(a) && s.contains(b) && s.contains(c) && #[trigger] op(a, c) == #[trigger] op(
            b,
            c,
        ) ==> a == b
}

/// What `is_abelian` says of two elements.
pub proof fn lemma_pair<T>(s: Set<T>, op: spec_fn(T, T) -> T, e: T, a: T, b: T)
    requires
        is_abelian(s, op, e),
        s.contains(a),
        s.contains(b),
    ensures
        s.contains(e),
        s.contains(op(a, b)),
        op(a, b) == op(b, a),
        op(e, a) == a,
{
    reveal(is_abelian);
}

/// Associativity for three elements.
pub proof fn lemma_assoc<T>(s: Set<T>, op: spec_fn(T, T) -> T, e: T, a: T, b: T, c: T)
    requires
        is_abelian(s, op, e),
        s.contains(a),
        s.contains(b),
        s.contains(c),
    ensures
        op(op(a, b), c) == op(a, op(b, c)),
{
    reveal(is_abelian);
}

/// Cancellation for three elements.
pub proof fn lemma_cancel<T>(s: Set<T>, op: spec_fn(T, T) -> T, e: T, a: T, b: T, c: T)
    requires
        is_abelian(s, op, e),
        s.contains(a),
        s.contains(b),
        s.contains(c),
        op(a, c) == op(b, c),
    ensures
        a == b,
{
    reveal(is_abelian);
}

/// The `n`-fold combination of `a` with itself.
pub open spec fn power<T>(op: spec_fn(T, T) -> T, e: T, a: T, n: nat) -> T
    decreases n,
{
    if n == 0 {
        e
    } else {
        op(power(op, e, a, (n - 1) as nat), a)
    }
}

/// The step of a fold over subsets of `s`; it ignores what is not in `s`.
spec fn step<T>(s: Set<T>, op: spec_fn(T, T) -> T) -> spec_fn(T, T) -> T {
    |acc: T, x: T|
        if s.contains(acc) && s.contains(x) {
            op(acc, x)
        } else {
            acc
        }
}

/// The combination of all elements of `t`.
spec fn total<T>(s: Set<T>, op: spec_fn(T, T) -> T, e: T, t: Set<T>) -> T {
    t.fold(e, step(s, op))
}

proof fn lemma_step_commutes<T>(s: Set<T>, op: spec_fn(T, T) -> T, e: T)
    requires
        is_abelian(s, op, e),
    ensures
        is_fun_commutative(step(s, op)),
{
    let f = step(s, op);
    assert forall|a1: T, a2: T, b: T| #[trigger] f(f(b, a2), a1) == f(f(b, a1), a2) by {
        if s.contains(b) && s.contains(a1) && s.contains(a2) {
            lemma_pair(s, op, e, b, a1);
            lemma_pair(s, op, e, b, a2);
            lemma_pair(s, op, e, a1, a2);
            lemma_assoc(s, op, e, b, a2, a1);
            lemma_assoc(s, op, e, b, a1, a2);
        }
    }
}

/// Powers stay in the group.
pub proof fn lemma_power_closed<T>(s: Set<T>, op: spec_fn(T, T) -> T, e: T, a: T, n: nat)
    requires
        is_abelian(s, op, e),
        s.contains(a),
    ensures
        s.contains(power(op, e, a, n)),
    decreases n,
{
    lemma_pair(s, op, e, a, a);
    if n > 0 {
        lemma_power_closed(s, op, e, a, (n - 1) as nat);
        lemma_pair(s, op, e, power(op, e, a, (n - 1) as nat), a);
    }
}

/// Translating a set by `a` multiplies its total by a power of `a`.
proof fn lemma_translate<T>(s: Set<T>, op: spec_fn(T, T) -> T, e: T, a: T, t: Set<T>)
    requires
        is_abelian(s, op, e),
        s.contains(a),
        t.finite(),
        t.subset_of(s),
    ensures
        s.contains(total(s, op, e, t)),
        t.map(|x: T| op(a, x)).finite(),
        total(s, op, e, t.map(|x: T| op(a, x))) == op(
            power(op, e, a, t.len()),
            total(s, op, e, t),
        ),
    decreases t.len(),
{
    let f = step(s, op);
    let tau = |x: T| op(a, x);
    lemma_step_commutes(s, op, e);
    lemma_pair(s, op, e, a, a);
    if t.len() == 0 {
        assert(t =~= Set::empty());
        assert(t.map(tau) =~= Set::empty());
        lemma_fold_empty(e, f);
        lemma_pair(s, op, e, e, e);
    } else {
        let x = t.choose();
        let u = t.remove(x);
        assert(t =~= u.insert(x));
        lemma_translate(s, op, e, a, u);
        assert(u.map(tau).insert(tau(x)) =~= t.map(tau)) by {
            assert forall|y: T| t.map(tau).contains(y) implies u.map(tau).insert(tau(x)).contains(
                y,
            ) by {
                let w = choose|w: T| t.contains(w) && tau(w) == y;
                if w != x {
                    assert(u.contains(w));
                }
            }
            assert forall|y: T| u.map(tau).insert(tau(x)).contains(y) implies t.map(tau).contains(
                y,
            ) by {
                if y == tau(x) {
                    assert(t.contains(x));
                } else {
                    let w = choose|w: T| u.contains(w) && tau(w) == y;
                    assert(t.contains(w));
                }
            }
        }
        assert(!u.map(tau).contains(tau(x))) by {
            if u.map(tau).contains(tau(x)) {
                let w = choose|w: T| u.contains(w) && tau(w) == tau(x);
                lemma_pair(s, op, e, w, a);
                lemma_pair(s, op, e, x, a);
                lemma_cancel(s, op, e, w, x, a);
            }
        }
        lemma_fold_insert(u, e, f, x);
        lemma_fold_insert(u.map(tau), e, f, tau(x));
        lemma_power_closed(s, op, e, a, u.len());
        let p = power(op, e, a, u.len());
        let g = total(s, op, e, u);
        lemma_pair(s, op, e, p, g);
        lemma_pair(s, op, e, a, x);
        lemma_pair(s, op, e, g, x);
        // (p g)(a x) == (p a)(g x)
        assert(op(op(p, g), op(a, x)) == op(op(p, a), op(g, x))) by {
            lemma_assoc(s, op, e, p, g, op(a, x));
            lemma_assoc(s, op, e, g, a, x);
            lemma_assoc(s, op, e, a, g, x);
            lemma_pair(s, op, e, g, a);
            lemma_assoc(s, op, e, p, a, op(g, x));
        }
    }
}

/// In a finite abelian group, the power of every element by the number of
/// elements is the neutral element.
pub proof fn lemma_order_kills<T>(s: Set<T>, op: spec_fn(T, T) -> T, e: T, a: T)
    requires
        is_abelian(s, op, e),
        s.finite(),
        s.contains(a),
    ensures
        power(op, e, a, s.len()) == e,
{
    let tau = |x: T| op(a, x);
    let image = s.map(tau);
    assert(injective_on(tau, s)) by {
        assert forall|x: T, y: T| s.contains(x) && s.contains(y) && #[trigger] tau(x)
            == #[trigger] tau(y) implies x == y by {
            lemma_pair(s, op, e, x, a);
            lemma_pair(s, op, e, y, a);
            lemma_cancel(s, op, e, x, y, a);
        }
    }
    lemma_map_size(s, image, tau);
    assert(image.subset_of(s)) by {
        assert forall|y: T| image.contains(y) implies s.contains(y) by {
            let w = choose|w: T| s.contains(w) && tau(w) == y;
            lemma_pair(s, op, e, a, w);
        }
    }
    lemma_subset_equality(image, s);
    lemma_translate(s, op, e, a, s);
    lemma_power_closed(s, op, e, a, s.len());
    let g = total(s, op, e, s);
    lemma_pair(s, op, e, g, g);
    lemma_cancel(s, op, e, power(op, e, a, s.len()), e, g);
}

} // verus!
