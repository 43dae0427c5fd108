use vstd::prelude::*;

verus! {

/// Every draw of the ensemble succeeded.
pub open spec fn all_ok<T, E>(s: Seq<Result<T, E>>) -> bool {
    forall|i: int| 0 <= i < s.len() ==> (#[trigger] s[i]) is Ok
}

/// Index `i` holds the first failed draw.
pub open spec fn first_err_at<T, E>(s: Seq<Result<T, E>>, i: int) -> bool {
    &&& 0 <= i < s.len()
    &&& s[i] is Err
    &&& forall|j: int| 0 <= j < i ==> (#[trigger] s[j]) is Ok
}

/// Gathers the outcomes of independent draws into one ensemble. It succeeds,
/// with the paths in the order given, exactly when every draw succeeded;
/// otherwise it fails with the first error and hands back no partial ensemble.
pub fn collect_ensemble<T, E>(results: Vec<Result<T, E>>) -> (r: Result<Vec<T>, E>)
    ensures
        r is Ok <==> all_ok(results@),
        r is Ok ==> r->Ok_0@.len() == results@.len() && forall|i: int|
            0 <= i < results@.len() ==> results@[i] == Ok::<T, E>(#[trigger] r->Ok_0@[i]),
        r is Err ==> exists|i: int|
            first_err_at(results@, i) && results@[i] == Err::<T, E>(r->Err_0),
{
    let ghost orig = results@;
    let len = results.len();
    let mut rest = results;
    let mut rev: Vec<Result<T, E>> = Vec::new();
    while rest.len() > 0
        invariant
            len == orig.len(),
            orig == results@,
            rest@ == orig.subrange(0, rest@.len() as int),
            rev@.len() + rest@.len() == len,
            forall|k: int| 0 <= k < rev@.len() ==> #[trigger] rev@[k] == orig[len - 1 - k],
        decreases rest@.len(),
    {
        let x = rest.pop().unwrap();
        rev.push(x);
    }
    let mut out: Vec<T> = Vec::new();
    let mut i: usize = 0;
    while i < len
        invariant
            len == orig.len(),
            orig == results@,
            i <= len,
            rev@.len() == len - i,
            forall|k: int| 0 <= k < rev@.len() ==> #[trigger] rev@[k] == orig[len - 1 - k],
            out@.len() == i,
            forall|k: int| 0 <= k < i ==> orig[k] == Ok::<T, E>(#[trigger] out@[k]),
            forall|k: int| 0 <= k < i ==> (#[trigger] orig[k]) is Ok,
        decreases len - i,
    {
        assert(rev@[rev@.len() - 1] == orig[i as int]);
        let x = rev.pop().unwrap();
        assert(x == orig[i as int]);
        match x {
            Ok(p) => {
                out.push(p);
            },
            Err(e) => {
                assert(orig[i as int] == Err::<T, E>(e));
                assert(first_err_at(orig, i as int));
                assert(!all_ok(orig));
                return Err(e);
            },
        }
        i = i + 1;
    }
    assert(all_ok(orig));
    Ok(out)
}

} // verus!
