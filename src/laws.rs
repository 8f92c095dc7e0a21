use vstd::prelude::*;
use crate::second::{top, rest, List};

verus! {

/// The contents of a stack that held `s`, after the elements of `xs` were
/// pushed onto it in order.
pub open spec fn push_all<T>(s: Seq<T>, xs: Seq<T>) -> Seq<T>
    decreases xs.len(),
{
    if xs.len() == 0 {
        s
    } else {
        push_all(seq![xs[0]].add(s), xs.drop_first())
    }
}

/// What `n` pops in a row hand out, starting from a stack that holds `s`.
pub open spec fn pop_n<T>(s: Seq<T>, n: nat) -> Seq<Option<T>>
    decreases n,
{
    if n == 0 {
        Seq::empty()
    } else {
        seq![top(s)].add(pop_n(rest(s), (n - 1) as nat))
    }
}

/// The contents of a stack that held `s`, after `n` pops in a row.
pub open spec fn rest_n<T>(s: Seq<T>, n: nat) -> Seq<T>
    decreases n,
{
    if n == 0 {
        s
    } else {
        rest_n(rest(s), (n - 1) as nat)
    }
}

proof fn lemma_pop_n<T>(s: Seq<T>, n: nat)
    ensures
        pop_n(s, n).len() == n,
        forall|i: int| 0 <= i < n ==> pop_n(s, n)[i] == (if i < s.len() { Some(s[i]) } else { None::<T> }),
        n <= s.len() ==> rest_n(s, n) == s.skip(n as int),
        n > s.len() ==> rest_n(s, n) == Seq::<T>::empty(),
    decreases n,
{
    if n > 0 {
        let m = (n - 1) as nat;
        lemma_pop_n(rest(s), m);
        if s.len() == 0 {
            assert(rest(s) == s);
        } else {
            assert(rest(s) == s.drop_first());
            assert forall|i: int| 0 <= i < n implies pop_n(s, n)[i] == (if i < s.len() {
                Some(s[i])
            } else {
                None::<T>
            }) by {
                if i > 0 {
                    assert(pop_n(s, n)[i] == pop_n(rest(s), m)[i - 1]);
                }
            }
            if n <= s.len() {
                assert(s.drop_first().skip(m as int) =~= s.skip(n as int));
            }
        }
    } else {
        assert(s.skip(0) =~= s);
    }
}

proof fn lemma_push_all<T>(s: Seq<T>, xs: Seq<T>)
    ensures
        push_all(s, xs).len() == s.len() + xs.len(),
        forall|i: int| 0 <= i < xs.len() ==> push_all(s, xs)[i] == xs[xs.len() - 1 - i],
        forall|i: int| xs.len() <= i < s.len() + xs.len() ==> push_all(s, xs)[i] == s[i - xs.len()],
    decreases xs.len(),
{
    if xs.len() > 0 {
        let s2 = seq![xs[0]].add(s);
        let xs2 = xs.drop_first();
        lemma_push_all(s2, xs2);
        assert forall|i: int| 0 <= i < xs.len() implies push_all(s, xs)[i] == xs[xs.len() - 1 - i] by {
            if i < xs2.len() {
                assert(xs2[xs2.len() - 1 - i] == xs[xs.len() - 1 - i]);
            } else {
                assert(push_all(s, xs)[i] == s2[0]);
            }
        }
        assert forall|i: int| xs.len() <= i < s.len() + xs.len() implies push_all(s, xs)[i] == s[i
            - xs.len()] by {
            assert(push_all(s, xs)[i] == s2[i - xs2.len()]);
        }
    }
}

/// Pops hand out the elements of a stack from the head down, then `None`
/// forever; afterwards the stack is empty. Draining through the consuming
/// iterator or walking with the borrowing one follows the same steps
/// (`top`, `rest`), so yields the same order.
pub proof fn lemma_drain_order<T>(s: Seq<T>)
    ensures
        pop_n(s, s.len() + 1) == s.map_values(|x: T| Some(x)).push(None),
        rest_n(s, s.len()) == Seq::<T>::empty(),
{
    lemma_pop_n(s, s.len() + 1);
    lemma_pop_n(s, s.len());
    assert(pop_n(s, s.len() + 1) =~= s.map_values(|x: T| Some(x)).push(None));
    assert(s.skip(s.len() as int) =~= Seq::<T>::empty());
}

/// Pushing the elements of `xs` onto an empty stack and then popping one more
/// time than there are elements hands them back in the reverse order of the
/// pushes, then `None`, and leaves the stack empty.
pub proof fn lemma_lifo<T>(xs: Seq<T>)
    ensures
        pop_n(push_all(Seq::<T>::empty(), xs), xs.len() + 1) == xs.reverse().map_values(
            |x: T| Some(x),
        ).push(None),
        rest_n(push_all(Seq::<T>::empty(), xs), xs.len() + 1) == Seq::<T>::empty(),
{
    let s = push_all(Seq::<T>::empty(), xs);
    lemma_push_all(Seq::<T>::empty(), xs);
    assert(s =~= xs.reverse());
    lemma_drain_order(s);
    lemma_pop_n(s, xs.len() + 1);
}

/// What `peek` and `peek_mut` see on a non-empty stack is what the next pop
/// hands out; after a write of `v` through `peek_mut`, the next pop hands out
/// `v`, and the rest of the stack is untouched.
pub proof fn lemma_peek_then_pop<T>(s: Seq<T>, v: T)
    requires
        s.len() > 0,
    ensures
        top(s) == Some(s[0]),
        top(s.update(0, v)) == Some(v),
        rest(s.update(0, v)) == rest(s),
{
    assert(s.update(0, v).drop_first() =~= s.drop_first());
}

/// Adding one to every element handed out by a mutating traversal leaves
/// each element one larger, in place and in the same order, so the pops that
/// follow hand out the original elements plus one.
pub fn increment_all(list: &mut List<i32>)
    requires
        forall|i: int| 0 <= i < old(list)@.len() ==> old(list)@[i] < i32::MAX,
    ensures
        final(list)@ == old(list)@.map_values(|x: i32| (x + 1) as i32),
{
    let ghost orig = list@;
    let ghost mut k: int = 0;
    let mut it = list.iter_mut();
    loop
        invariant_except_break
            after_borrow(*list)@ == orig.take(k).map_values(|x: i32| (x + 1) as i32).add(
                match it.cursor() {
                    None => Seq::<i32>::empty(),
                    Some(n) => (*final(n)).elems(),
                },
            ),
        invariant
            0 <= k <= orig.len(),
            forall|i: int| 0 <= i < orig.len() ==> orig[i] < i32::MAX,
            it@ == orig.skip(k),
        ensures
            after_borrow(*list)@ == orig.map_values(|x: i32| (x + 1) as i32),
        decreases orig.len() - k,
    {
        match it.next() {
            None => {
                assert(orig.take(k) =~= orig);
                assert(orig.take(k).map_values(|x: i32| (x + 1) as i32).add(Seq::<i32>::empty())
                    =~= orig.map_values(|x: i32| (x + 1) as i32));
                break;
            },
            Some(x) => {
                *x = *x + 1;
                proof {
                    assert(orig.take(k + 1) =~= orig.take(k).push(orig[k]));
                    k = k + 1;
                }
            },
        }
    }
}

} // verus!
