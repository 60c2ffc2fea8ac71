use vstd::prelude::*;

verus! {

/// The successfully built requests among `s`, in order.
pub open spec fn built_ok<R, E>(s: Seq<Result<R, E>>) -> Seq<R>
    decreases s.len(),
{
    if s.len() == 0 {
        Seq::empty()
    } else {
        match s[0] {
            Ok(r) => seq![r] + built_ok(s.skip(1)),
            Err(_) => built_ok(s.skip(1)),
        }
    }
}

/// The build failures among `s`, in order.
pub open spec fn build_errors<R, E>(s: Seq<Result<R, E>>) -> Seq<E>
    decreases s.len(),
{
    if s.len() == 0 {
        Seq::empty()
    } else {
        match s[0] {
            Ok(_) => build_errors(s.skip(1)),
            Err(e) => seq![e] + build_errors(s.skip(1)),
        }
    }
}

/// Where the `i`-th built entry lands among the dispatched requests.
pub open spec fn dispatch_position<R, E>(s: Seq<Result<R, E>>, i: int) -> int {
    built_ok(s.take(i)).len() as int
}

/// Splits the outcome of building one batch into the requests to dispatch and
/// the failures to report; a failed sub-chunk removes only itself.
pub fn split_built<R, E>(built: Vec<Result<R, E>>) -> (r: (Vec<R>, Vec<E>))
    ensures
        r.0@ == built_ok(built@),
        r.1@ == build_errors(built@),
{
    let ghost all = built@;
    let mut rest = built;
    let mut requests: Vec<R> = Vec::new();
    let mut errors: Vec<E> = Vec::new();
    while rest.len() > 0
        invariant
            requests@ + built_ok(rest@) == built_ok(all),
            errors@ + build_errors(rest@) == build_errors(all),
        decreases rest.len(),
    {
        let ghost before = rest@;
        let item = rest.remove(0);
        assert(rest@ =~= before.skip(1));
        match item {
            Ok(req) => {
                assert(requests@.push(req) + built_ok(rest@) =~= requests@ + built_ok(before));
                requests.push(req);
            },
            Err(e) => {
                assert(errors@.push(e) + build_errors(rest@) =~= errors@ + build_errors(before));
                errors.push(e);
            },
        }
    }
    assert(requests@ =~= built_ok(all));
    assert(errors@ =~= build_errors(all));
    (requests, errors)
}

proof fn lemma_built_ok_concat<R, E>(a: Seq<Result<R, E>>, b: Seq<Result<R, E>>)
    ensures
        built_ok(a + b) == built_ok(a) + built_ok(b),
    decreases a.len(),
{
    if a.len() == 0 {
        assert(a + b =~= b);
        assert(built_ok(a) + built_ok(b) =~= built_ok(b));
    } else {
        assert((a + b).skip(1) =~= a.skip(1) + b);
        assert((a + b)[0] == a[0]);
        lemma_built_ok_concat(a.skip(1), b);
        match a[0] {
            Ok(r) => {
                assert(seq![r] + (built_ok(a.skip(1)) + built_ok(b)) =~= (seq![r] + built_ok(
                    a.skip(1),
                )) + built_ok(b));
            },
            Err(_) => {},
        }
    }
}

/// Every successfully built request is dispatched exactly once: the `i`-th
/// entry, when built, stands at its own position among the dispatched
/// requests, later built entries stand strictly after it, and failures before
/// it do not keep it back.
pub proof fn lemma_built_request_dispatched_once<R, E>(s: Seq<Result<R, E>>, i: int, j: int)
    requires
        0 <= i < j < s.len(),
        s[i] is Ok,
    ensures
        0 <= dispatch_position(s, i) < built_ok(s).len(),
        built_ok(s)[dispatch_position(s, i)] == s[i]->Ok_0,
        dispatch_position(s, i) < dispatch_position(s, j),
{
    assert(s =~= s.take(i) + s.skip(i));
    lemma_built_ok_concat(s.take(i), s.skip(i));
    assert(s.skip(i)[0] == s[i]);
    assert(s.take(j) =~= s.take(i) + s.subrange(i, j));
    lemma_built_ok_concat(s.take(i), s.subrange(i, j));
    assert(s.subrange(i, j)[0] == s[i]);
    assert(built_ok(s.subrange(i, j)).len() >= 1);
}

} // verus!
