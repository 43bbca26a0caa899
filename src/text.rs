use vstd::prelude::*;

verus! {

/// Relies on `String::push`: appends one character at the end.
#[verifier::external_body]
pub(crate) fn push_char(s: &mut String, c: char)
    ensures
        final(s)@ == old(s)@.push(c),
{
    s.push(c)
}

/// The characters of `s` with every `/` taken out.
pub open spec fn strip_slashes(s: Seq<char>) -> Seq<char>
    decreases s.len(),
{
    if s.len() == 0 {
        Seq::empty()
    } else if s.last() == '/' {
        strip_slashes(s.drop_last())
    } else {
        strip_slashes(s.drop_last()).push(s.last())
    }
}

/// The names one after another, with nothing between them.
pub open spec fn joined(names: Seq<String>) -> Seq<char>
    decreases names.len(),
{
    if names.len() == 0 {
        Seq::empty()
    } else {
        joined(names.drop_last()) + names.last()@
    }
}

/// The display name of an instance: the runtime's names joined, with the
/// `/` prefix the runtime puts on them removed.
pub open spec fn clean_name(names: Option<Vec<String>>) -> Seq<char> {
    match names {
        Some(v) => strip_slashes(joined(v@)),
        None => Seq::empty(),
    }
}

/// Builds the display name of an instance from the names the runtime reports.
pub fn instance_name(names: &Option<Vec<String>>) -> (r: String)
    ensures
        r@ == clean_name(*names),
{
    let mut out = String::new();
    match names {
        None => {},
        Some(v) => {
            let mut k: usize = 0;
            while k < v.len()
                invariant
                    k <= v@.len(),
                    out@ == strip_slashes(joined(v@.subrange(0, k as int))),
                decreases v@.len() - k,
            {
                let ghost done = joined(v@.subrange(0, k as int));
                assert(v@.subrange(0, k + 1).drop_last() =~= v@.subrange(0, k as int));
                let name = v[k].as_str();
                let n = name.unicode_len();
                let mut j: usize = 0;
                while j < n
                    invariant
                        j <= n == name@.len(),
                        name@ == v@[k as int]@,
                        out@ == strip_slashes(done + name@.subrange(0, j as int)),
                    decreases n - j,
                {
                    let c = name.get_char(j);
                    let ghost next = done + name@.subrange(0, j + 1);
                    assert(next.drop_last() =~= done + name@.subrange(0, j as int));
                    assert(next.last() == c);
                    if c != '/' {
                        push_char(&mut out, c);
                    }
                    j = j + 1;
                }
                assert(done + name@.subrange(0, j as int) =~= joined(v@.subrange(0, k + 1)));
                k = k + 1;
            }
            assert(v@.subrange(0, k as int) =~= v@);
        },
    }
    out
}

} // verus!
