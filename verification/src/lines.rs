use vstd::prelude::*;
use vstd::string::StrSliceExecFns;

verus! {

/// Index of the first line feed in `t`, or `t.len()` when there is none.
pub open spec fn first_nl(t: Seq<char>) -> nat
    decreases t.len(),
{
    if t.len() == 0 {
        0
    } else if t[0] == '\n' {
        0
    } else {
        1 + first_nl(t.drop_first())
    }
}

/// A line as split off the text: one carriage return is stripped from its
/// end, the way a `\r\n` terminator leaves the line bare.
pub open spec fn strip_cr(line: Seq<char>) -> Seq<char> {
    if line.len() > 0 && line[line.len() - 1] == '\r' {
        line.drop_last()
    } else {
        line
    }
}

/// The lines of a text: split at each line feed, a carriage return directly
/// before a line feed stripped, and no empty final line when the text ends
/// with a terminator. A final line without a terminator keeps a trailing
/// carriage return.
pub open spec fn spec_lines(t: Seq<char>) -> Seq<Seq<char>>
    decreases t.len(),
{
    if t.len() == 0 {
        seq![]
    } else {
        let i = first_nl(t);
        if i >= t.len() {
            seq![t]
        } else {
            seq![strip_cr(t.subrange(0, i as int))] + spec_lines(
                t.subrange(i as int + 1, t.len() as int),
            )
        }
    }
}

/// Where the first line feed stands: at the first position that holds one,
/// or at the end when none does.
proof fn lemma_first_nl_at(t: Seq<char>, k: int)
    requires
        0 <= k <= t.len(),
        forall|j: int| 0 <= j < k ==> t[j] != '\n',
        k < t.len() ==> t[k] == '\n',
    ensures
        first_nl(t) == k,
    decreases t.len(),
{
    if t.len() == 0 {
    } else if t[0] == '\n' {
        assert(k == 0);
    } else {
        assert(k >= 1);
        assert forall|j: int| 0 <= j < k - 1 implies t.drop_first()[j] != '\n' by {
            assert(t.drop_first()[j] == t[j + 1]);
        }
        assert(k - 1 < t.drop_first().len() ==> t.drop_first()[k - 1] == t[k]);
        lemma_first_nl_at(t.drop_first(), k - 1);
    }
}

/// Returns the line at index `n` of the text, or nothing when the text has
/// no more than `n` lines.
pub fn nth_line(s: &str, n: usize) -> (r: Option<String>)
    ensures
        match r {
            Some(l) => n < spec_lines(s@).len() && l@ == spec_lines(s@)[n as int],
            None => n >= spec_lines(s@).len(),
        },
{
    let len = s.unicode_len();
    let mut start: usize = 0;
    let mut line: usize = 0;
    let mut j: usize = 0;
    let ghost mut taken: Seq<Seq<char>> = Seq::empty();
    proof {
        assert(s@.subrange(0, len as int) =~= s@);
        assert(taken + spec_lines(s@) =~= spec_lines(s@));
    }
    while j < len
        invariant
            len == s@.len(),
            start <= j <= len,
            line <= n,
            taken.len() == line,
            spec_lines(s@) =~= taken + spec_lines(s@.subrange(start as int, len as int)),
            forall|k: int| start <= k < j ==> s@[k] != '\n',
        decreases len - j,
    {
        let c = s.get_char(j);
        if c == '\n' {
            let ghost rest = s@.subrange(start as int, len as int);
            proof {
                assert forall|m: int| 0 <= m < j - start implies rest[m] != '\n' by {
                    assert(rest[m] == s@[start + m]);
                }
                assert(rest[j - start] == s@[j as int]);
                lemma_first_nl_at(rest, j - start);
            }
            if line == n {
                let end: usize = if j > start && s.get_char(j - 1) == '\r' {
                    j - 1
                } else {
                    j
                };
                let out = s.substring_char(start, end).to_owned();
                proof {
                    let head = strip_cr(rest.subrange(0, j - start));
                    assert(spec_lines(rest) == seq![head] + spec_lines(
                        rest.subrange(j - start + 1, rest.len() as int),
                    ));
                    assert(spec_lines(s@)[n as int] == head);
                    assert(rest.subrange(0, j - start) =~= s@.subrange(start as int, j as int));
                    if j > start && s@[j - 1] == '\r' {
                        assert(head =~= s@.subrange(start as int, j as int - 1));
                    } else {
                        assert(head =~= s@.subrange(start as int, j as int));
                    }
                }
                return Some(out);
            }
            proof {
                let head = strip_cr(rest.subrange(0, j - start));
                assert(spec_lines(rest) == seq![head] + spec_lines(
                    rest.subrange(j - start + 1, rest.len() as int),
                ));
                assert(rest.subrange(j - start + 1, rest.len() as int) =~= s@.subrange(
                    j as int + 1,
                    len as int,
                ));
                taken = taken.push(head);
                assert(spec_lines(s@) =~= taken + spec_lines(
                    s@.subrange(j as int + 1, len as int),
                ));
            }
            start = j + 1;
            line = line + 1;
            j = j + 1;
        } else {
            j = j + 1;
        }
    }
    let ghost rest = s@.subrange(start as int, len as int);
    proof {
        assert forall|m: int| 0 <= m < rest.len() implies rest[m] != '\n' by {
            assert(rest[m] == s@[start + m]);
        }
        lemma_first_nl_at(rest, rest.len() as int);
    }
    if start < len {
        if line == n {
            let out = s.substring_char(start, len).to_owned();
            proof {
                assert(spec_lines(rest) == seq![rest]);
                assert(spec_lines(s@)[n as int] == rest);
            }
            return Some(out);
        }
        proof {
            assert(spec_lines(rest) == seq![rest]);
            assert(spec_lines(s@).len() == line + 1);
        }
        None
    } else {
        proof {
            assert(rest.len() == 0);
            assert(spec_lines(rest) =~= Seq::<Seq<char>>::empty());
            assert(spec_lines(s@).len() == line);
        }
        None
    }
}

} // verus!
