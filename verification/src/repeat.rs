//! Counted sequences: `count` values encoded one after another.
use vstd::prelude::*;
use crate::error::Error;

verus! {

/// Skipping twice is skipping the sum.
pub broadcast proof fn lemma_skip_skip<T>(s: Seq<T>, a: int, b: int)
    requires
        0 <= a <= s.len(),
        0 <= b <= s.len() - a,
    ensures
        #[trigger] s.skip(a).skip(b) == s.skip(a + b),
{
    assert(s.skip(a).skip(b) =~= s.skip(a + b));
}

/// Concatenation is associative.
pub proof fn lemma_assoc<T>(a: Seq<T>, b: Seq<T>, c: Seq<T>)
    ensures
        (a + b) + c == a + (b + c),
{
    assert((a + b) + c =~= a + (b + c));
}

/// A parse never consumes more than it is given.
pub open spec fn parse_in_bounds<T>(p: spec_fn(Seq<u8>) -> Option<(T, int)>) -> bool {
    forall|s: Seq<u8>| #[trigger] p(s) matches Some((_, n)) ==> 0 <= n <= s.len()
}

/// Parse of `count` consecutive values: the values and the bytes consumed.
pub open spec fn parse_repeat<T>(p: spec_fn(Seq<u8>) -> Option<(T, int)>, s: Seq<u8>, count: nat) -> Option<(Seq<T>, int)>
    decreases count,
{
    if count == 0 {
        Some((Seq::empty(), 0))
    } else {
        match parse_repeat(p, s, (count - 1) as nat) {
            None => None,
            Some((xs, n)) => match p(s.skip(n)) {
                None => None,
                Some((x, m)) => Some((xs.push(x), n + m)),
            },
        }
    }
}

/// Why a parse of `count` consecutive values fails: the error `e` gives for
/// the first value that does not parse.
pub open spec fn repeat_error<T>(
    p: spec_fn(Seq<u8>) -> Option<(T, int)>,
    e: spec_fn(Seq<u8>) -> Error,
    s: Seq<u8>,
    count: nat,
) -> Error
    decreases count,
{
    if count == 0 {
        Error::UnexpectedEof
    } else {
        match parse_repeat(p, s, (count - 1) as nat) {
            None => repeat_error(p, e, s, (count - 1) as nat),
            Some((_, n)) => e(s.skip(n)),
        }
    }
}

/// Once a repeat parse fails, parsing more values fails for the same reason.
pub proof fn lemma_repeat_error<T>(
    p: spec_fn(Seq<u8>) -> Option<(T, int)>,
    e: spec_fn(Seq<u8>) -> Error,
    s: Seq<u8>,
    i: nat,
    count: nat,
)
    requires
        i <= count,
        parse_repeat(p, s, i) is None,
    ensures
        parse_repeat(p, s, count) is None,
        repeat_error(p, e, s, count) == repeat_error(p, e, s, i),
    decreases count - i,
{
    if i < count {
        lemma_repeat_error(p, e, s, i + 1, count);
    }
}

/// Encoding of values one after another.
pub open spec fn ser_repeat<T>(f: spec_fn(T) -> Seq<u8>, xs: Seq<T>) -> Seq<u8>
    decreases xs.len(),
{
    if xs.len() == 0 {
        Seq::empty()
    } else {
        ser_repeat(f, xs.drop_last()) + f(xs.last())
    }
}

/// A repeat parse consumes no more than it is given.
pub proof fn lemma_repeat_bounds<T>(p: spec_fn(Seq<u8>) -> Option<(T, int)>, s: Seq<u8>, count: nat)
    requires
        parse_in_bounds(p),
    ensures
        parse_repeat(p, s, count) matches Some((xs, n)) ==> 0 <= n <= s.len() && xs.len() == count,
    decreases count,
{
    if count > 0 {
        lemma_repeat_bounds(p, s, (count - 1) as nat);
        if let Some((xs, n)) = parse_repeat(p, s, (count - 1) as nat) {
            let _ = p(s.skip(n));
        }
    }
}

/// Once a repeat parse fails, parsing more values fails too.
pub proof fn lemma_repeat_fail<T>(p: spec_fn(Seq<u8>) -> Option<(T, int)>, s: Seq<u8>, i: nat, count: nat)
    requires
        i <= count,
        parse_repeat(p, s, i) is None,
    ensures
        parse_repeat(p, s, count) is None,
    decreases count - i,
{
    if i < count {
        lemma_repeat_fail(p, s, i + 1, count);
    }
}

/// Values encoded one after another are parsed back, whatever follows, when
/// each of them is.
pub proof fn lemma_repeat_roundtrip<T>(
    p: spec_fn(Seq<u8>) -> Option<(T, int)>,
    f: spec_fn(T) -> Seq<u8>,
    ok: spec_fn(T) -> bool,
    xs: Seq<T>,
    rest: Seq<u8>,
)
    requires
        forall|x: T, r: Seq<u8>| ok(x) ==> #[trigger] p(f(x) + r) == Some((x, f(x).len() as int)),
        forall|i: int| 0 <= i < xs.len() ==> #[trigger] ok(xs[i]),
    ensures
        parse_repeat(p, ser_repeat(f, xs) + rest, xs.len()) == Some((xs, ser_repeat(f, xs).len() as int)),
    decreases xs.len(),
{
    if xs.len() > 0 {
        let init = xs.drop_last();
        let last = xs.last();
        assert forall|i: int| 0 <= i < init.len() implies #[trigger] ok(init[i]) by {
            assert(init[i] == xs[i]);
        }
        assert(ok(xs[xs.len() - 1]));
        lemma_repeat_roundtrip(p, f, ok, init, f(last) + rest);
        let s = ser_repeat(f, xs) + rest;
        assert(s =~= ser_repeat(f, init) + (f(last) + rest));
        let n = ser_repeat(f, init).len() as int;
        assert(s.skip(n) =~= f(last) + rest);
        assert(init.push(last) =~= xs);
    }
}

/// `c` holds at the start of each of the first `count` values that `p`
/// parses one after another.
pub open spec fn repeat_all<T>(
    p: spec_fn(Seq<u8>) -> Option<(T, int)>,
    c: spec_fn(Seq<u8>) -> bool,
    s: Seq<u8>,
    count: nat,
) -> bool
    decreases count,
{
    if count == 0 {
        true
    } else {
        &&& repeat_all(p, c, s, (count - 1) as nat)
        &&& match parse_repeat(p, s, (count - 1) as nat) {
            Some((_, n)) => c(s.skip(n)),
            None => true,
        }
    }
}

/// Values parsed one after another are written back as the bytes they were
/// read from, when each of them is wherever `c` holds.
pub proof fn lemma_repeat_resave<T>(
    p: spec_fn(Seq<u8>) -> Option<(T, int)>,
    f: spec_fn(T) -> Seq<u8>,
    c: spec_fn(Seq<u8>) -> bool,
    s: Seq<u8>,
    count: nat,
)
    requires
        parse_in_bounds(p),
        forall|t: Seq<u8>| #[trigger] p(t) matches Some((x, n)) ==> (c(t) ==> f(x) == t.take(n)),
        parse_repeat(p, s, count) is Some,
        repeat_all(p, c, s, count),
    ensures
        ser_repeat(f, (parse_repeat(p, s, count)->0).0) == s.take((parse_repeat(p, s, count)->0).1),
    decreases count,
{
    if count == 0 {
        assert(s.take(0) =~= Seq::<u8>::empty());
    } else {
        let k = (count - 1) as nat;
        lemma_repeat_resave(p, f, c, s, k);
        lemma_repeat_bounds(p, s, k);
        let (xs, n) = parse_repeat(p, s, k)->0;
        let (x, m) = p(s.skip(n))->0;
        assert(xs.push(x).drop_last() =~= xs);
        assert(xs.push(x).last() == x);
        assert(s.take(n) + s.skip(n).take(m) =~= s.take(n + m));
    }
}

/// A condition that holds everywhere holds at the start of every value.
pub proof fn lemma_repeat_all_holds<T>(
    p: spec_fn(Seq<u8>) -> Option<(T, int)>,
    c: spec_fn(Seq<u8>) -> bool,
    s: Seq<u8>,
    count: nat,
)
    requires
        forall|t: Seq<u8>| #[trigger] c(t),
    ensures
        repeat_all(p, c, s, count),
    decreases count,
{
    if count > 0 {
        lemma_repeat_all_holds(p, c, s, (count - 1) as nat);
    }
}

} // verus!
