use crate::error::{ExchangeError, Fault};
use vstd::prelude::*;

verus! {

/// A byte result seen as a value of specification.
pub open spec fn bytes_result(r: Result<Vec<u8>, ExchangeError>) -> Result<Seq<u8>, ExchangeError> {
    match r {
        Ok(v) => Ok(v@),
        Err(e) => Err(e),
    }
}

/// An optional byte string seen as a value of specification.
pub open spec fn option_view(o: Option<Vec<u8>>) -> Option<Seq<u8>> {
    match o {
        Some(v) => Some(v@),
        None => None,
    }
}

/// An optional pair of byte strings seen as a value of specification.
pub open spec fn pair_option_view(o: Option<(Vec<u8>, Vec<u8>)>) -> Option<(Seq<u8>, Seq<u8>)> {
    match o {
        Some(p) => Some((p.0@, p.1@)),
        None => None,
    }
}

/// The outcome of a step that gives one byte string, seen as a value of
/// specification.
pub open spec fn single_view(r: Result<Vec<u8>, Fault>) -> Result<Seq<u8>, Fault> {
    match r {
        Ok(v) => Ok(v@),
        Err(f) => Err(f),
    }
}

/// The outcome of a step that gives two byte strings, seen as a value of
/// specification.
pub open spec fn pair_result_view(r: Result<(Vec<u8>, Vec<u8>), Fault>) -> Result<
    (Seq<u8>, Seq<u8>),
    Fault,
> {
    match r {
        Ok(p) => Ok((p.0@, p.1@)),
        Err(f) => Err(f),
    }
}

/// The outcome of a step that gives three byte strings, seen as a value of
/// specification.
pub open spec fn triple_view(r: Result<(Vec<u8>, Vec<u8>, Vec<u8>), Fault>) -> Result<
    (Seq<u8>, Seq<u8>, Seq<u8>),
    Fault,
> {
    match r {
        Ok(t) => Ok((t.0@, t.1@, t.2@)),
        Err(f) => Err(f),
    }
}

/// A fresh vector with the bytes of `source`.
pub fn copy_bytes(source: &Vec<u8>) -> (out: Vec<u8>)
    ensures
        out@ == source@,
{
    let mut out: Vec<u8> = Vec::new();
    let mut i: usize = 0;
    while i < source.len()
        invariant
            i <= source.len(),
            out@ == source@.subrange(0, i as int),
        decreases source.len() - i,
    {
        out.push(source[i]);
        i += 1;
        proof {
            assert(out@ =~= source@.subrange(0, i as int));
        }
    }
    proof {
        assert(source@.subrange(0, source.len() as int) =~= source@);
    }
    out
}

/// Whether two byte strings are equal. Every position up to the shorter
/// length is looked at, wherever the first difference lies.
pub fn same_bytes(a: &Vec<u8>, b: &Vec<u8>) -> (same: bool)
    ensures
        same == (a@ == b@),
{
    let mut same = a.len() == b.len();
    let n: usize = if a.len() < b.len() {
        a.len()
    } else {
        b.len()
    };
    let mut i: usize = 0;
    while i < n
        invariant
            i <= n,
            n <= a.len(),
            n <= b.len(),
            same == (a.len() == b.len() && forall|j: int| 0 <= j < i ==> a@[j] == b@[j]),
        decreases n - i,
    {
        let here = a[i] == b[i];
        same = same && here;
        i += 1;
    }
    proof {
        if same {
            assert(a@ =~= b@);
        }
    }
    same
}

} // verus!
