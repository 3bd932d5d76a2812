use vstd::prelude::*;

verus! {

/// `s` with each occurrence of `pat`, found left to right without overlap,
/// replaced by `with`.
pub open spec fn replaced(s: Seq<char>, pat: Seq<char>, with: Seq<char>) -> Seq<char>
    decreases s.len(),
{
    if pat.len() == 0 || s.len() < pat.len() {
        s
    } else if s.subrange(0, pat.len() as int) == pat {
        with + replaced(s.subrange(pat.len() as int, s.len() as int), pat, with)
    } else {
        seq![s[0]] + replaced(s.subrange(1, s.len() as int), pat, with)
    }
}

/// Whether `pat` stands in `s` at character position `at`.
fn occurs_at(s: &str, pat: &str, at: usize, n: usize, m: usize) -> (r: bool)
    requires
        n == s@.len(),
        m == pat@.len(),
        at + m <= n,
    ensures
        r == (s@.subrange(at as int, at + m) == pat@),
{
    let mut j: usize = 0;
    while j < m
        invariant
            n == s@.len(),
            m == pat@.len(),
            at + m <= n,
            j <= m,
            forall|k: int| 0 <= k < j ==> s@[at + k] == pat@[k],
        decreases m - j,
    {
        if s.get_char(at + j) != pat.get_char(j) {
            assert(s@.subrange(at as int, at + m)[j as int] != pat@[j as int]);
            return false;
        }
        j = j + 1;
    }
    assert(s@.subrange(at as int, at + m) =~= pat@);
    true
}

/// `s` with each occurrence of `pat`, found left to right without overlap,
/// replaced by `with`.
pub fn replace_all(s: &str, pat: &str, with: &str) -> (r: String)
    requires
        pat@.len() > 0,
    ensures
        r@ == replaced(s@, pat@, with@),
{
    let n = s.unicode_len();
    let m = pat.unicode_len();
    let mut out = String::new();
    let mut i: usize = 0;
    assert(s@.subrange(0, n as int) =~= s@);
    assert(out@ + replaced(s@, pat@, with@) =~= replaced(s@, pat@, with@));
    while i < n
        invariant
            i <= n,
            n == s@.len(),
            m == pat@.len(),
            m > 0,
            out@ + replaced(s@.subrange(i as int, n as int), pat@, with@) == replaced(
                s@,
                pat@,
                with@,
            ),
        decreases n - i,
    {
        let ghost rest = s@.subrange(i as int, n as int);
        if n - i >= m && occurs_at(s, pat, i, n, m) {
            assert(rest.subrange(0, m as int) =~= s@.subrange(i as int, i + m));
            assert(rest.subrange(m as int, rest.len() as int) =~= s@.subrange(i + m, n as int));
            out.append(with);
            i = i + m;
        } else {
            let c = s.substring_char(i, i + 1);
            assert(rest.subrange(1, rest.len() as int) =~= s@.subrange(i + 1, n as int));
            assert(c@ =~= seq![rest[0]]);
            proof {
                if rest.len() >= m {
                    assert(rest.subrange(0, m as int) =~= s@.subrange(i as int, i + m));
                } else {
                    let tail = rest.subrange(1, rest.len() as int);
                    assert(replaced(tail, pat@, with@) == tail);
                    assert(rest =~= seq![rest[0]] + tail);
                }
            }
            out.append(c);
            i = i + 1;
        }
        assert(out@ + replaced(s@.subrange(i as int, n as int), pat@, with@) =~= replaced(
            s@,
            pat@,
            with@,
        ));
    }
    assert(s@.subrange(n as int, n as int).len() == 0);
    assert(out@ =~= out@ + replaced(s@.subrange(n as int, n as int), pat@, with@));
    out
}

/// The characters of `p` after its last `/` (all of `p` if it has none).
pub open spec fn last_component(p: Seq<char>) -> Seq<char>
    decreases p.len(),
{
    if p.len() == 0 || p.last() == '/' {
        seq![]
    } else {
        last_component(p.drop_last()).push(p.last())
    }
}

/// The final component of the path `p`: trailing `/` and `.` components are
/// passed over; there is none where the path ends in `..`, or consists of
/// separators and `.` alone.
pub open spec fn file_name_of(p: Seq<char>) -> Option<Seq<char>>
    decreases p.len(),
{
    let c = last_component(p);
    if p.len() == 0 {
        None
    } else if p.last() == '/' {
        file_name_of(p.drop_last())
    } else if c == seq!['.'] {
        if p.len() == 1 {
            None
        } else {
            file_name_of(p.drop_last())
        }
    } else if c == seq!['.', '.'] {
        None
    } else {
        Some(c)
    }
}

/// Where the last component of `p@.subrange(0, end)` starts.
fn component_start(p: &str, end: usize) -> (r: usize)
    requires
        end <= p@.len(),
    ensures
        r <= end,
        p@.subrange(r as int, end as int) == last_component(p@.subrange(0, end as int)),
{
    let mut j: usize = end;
    while j > 0 && p.get_char(j - 1) != '/'
        invariant
            j <= end <= p@.len(),
            last_component(p@.subrange(0, end as int)) == last_component(p@.subrange(0, j as int))
                + p@.subrange(j as int, end as int),
        decreases j,
    {
        let ghost q = p@.subrange(0, j as int);
        assert(q.drop_last() =~= p@.subrange(0, j - 1));
        assert(p@.subrange(j - 1, end as int) =~= seq![q.last()] + p@.subrange(j as int, end as int));
        assert(last_component(q) == last_component(q.drop_last()).push(q.last()));
        assert(last_component(q.drop_last()).push(q.last()) + p@.subrange(j as int, end as int)
            =~= last_component(q.drop_last()) + p@.subrange(j - 1, end as int));
        j = j - 1;
    }
    assert(last_component(p@.subrange(0, j as int)) =~= seq![]);
    assert(last_component(p@.subrange(0, end as int)) =~= p@.subrange(j as int, end as int));
    j
}

/// The final component of the path `p`, in the sense of `file_name_of`.
pub fn file_name(p: &str) -> (r: Option<String>)
    ensures
        match r {
            Some(name) => file_name_of(p@) == Some(name@),
            None => file_name_of(p@) is None,
        },
{
    let mut end = p.unicode_len();
    assert(p@.subrange(0, end as int) =~= p@);
    loop
        invariant
            end <= p@.len(),
            file_name_of(p@.subrange(0, end as int)) == file_name_of(p@),
        decreases end,
    {
        let ghost q = p@.subrange(0, end as int);
        if end == 0 {
            return None;
        }
        assert(q.drop_last() =~= p@.subrange(0, end - 1));
        let c = p.get_char(end - 1);
        if c == '/' {
            end = end - 1;
        } else {
            let start = component_start(p, end);
            let len = end - start;
            assert(last_component(q) == p@.subrange(start as int, end as int));
            if len == 1 && c == '.' {
                assert(last_component(q) =~= seq!['.']);
                if end == 1 {
                    return None;
                }
                end = end - 1;
            } else if len == 2 && c == '.' && p.get_char(end - 2) == '.' {
                assert(last_component(q) =~= seq!['.', '.']);
                return None;
            } else {
                let name = p.substring_char(start, end);
                let r = String::from_str(name);
                assert(last_component(q) != seq!['.']) by {
                    if last_component(q) == seq!['.'] {
                        assert(seq!['.'].len() == 1);
                        assert(p@.subrange(start as int, end as int)[0] == p@[end - 1]);
                    }
                }
                assert(last_component(q) != seq!['.', '.']) by {
                    if last_component(q) == seq!['.', '.'] {
                        assert(seq!['.', '.'].len() == 2);
                        assert(p@.subrange(start as int, end as int)[0] == p@[end - 2]);
                        assert(p@.subrange(start as int, end as int)[1] == p@[end - 1]);
                    }
                }
                return Some(r);
            }
        }
    }
}

/// A character that the POSIX shell reads as itself outside quotes.
pub open spec fn sh_plain(c: char) -> bool {
    let u = c as u32;
    ||| (97 <= u <= 122)
    ||| (65 <= u <= 90)
    ||| (48 <= u <= 57)
    ||| c == '-'
    ||| c == '_'
    ||| c == '='
    ||| c == '/'
    ||| c == ','
    ||| c == '.'
    ||| c == '+'
}

/// One character inside single quotes: `'` and `!` leave the quotes, escaped.
pub open spec fn sh_quoted_char(c: char) -> Seq<char> {
    if c == '\'' || c == '!' {
        seq!['\'', '\\', c, '\'']
    } else {
        seq![c]
    }
}

/// `s` as one word for a POSIX shell: itself where it is non-empty and all
/// plain, else single-quoted.
pub open spec fn sh_escaped(s: Seq<char>) -> Seq<char> {
    if s.len() > 0 && forall|i: int| 0 <= i < s.len() ==> sh_plain(#[trigger] s[i]) {
        s
    } else {
        seq!['\''] + s.map_values(|c: char| sh_quoted_char(c)).flatten() + seq!['\'']
    }
}

/// Relies on `shell_escape::unix::escape`: a non-empty word of plain characters
/// is kept; any other is wrapped in single quotes, with each `'` and `!` written
/// as `'\'` and `'\!` followed by a quote that reopens the quoting.
#[verifier::external_body]
pub(crate) fn shell_escape(s: &str) -> (r: String)
    ensures
        r@ == sh_escaped(s@),
{
    shell_escape::unix::escape(std::borrow::Cow::Borrowed(s)).into_owned()
}

/// The decimal digits of `n`, most significant first, without leading zeros.
pub open spec fn decimal(n: nat) -> Seq<char>
    decreases n,
{
    if n < 10 {
        seq![digit_char(n)]
    } else {
        decimal(n / 10).push(digit_char(n % 10))
    }
}

/// The decimal digit for `d < 10`.
pub open spec fn digit_char(d: nat) -> char {
    seq!['0', '1', '2', '3', '4', '5', '6', '7', '8', '9'][d as int]
}

/// The decimal text of `n`.
pub fn decimal_text(n: usize) -> (r: String)
    ensures
        r@ == decimal(n as nat),
{
    let digits = "0123456789";
    proof {
        reveal_strlit("0123456789");
    }
    let mut m = n;
    let mut out = String::new();
    loop
        invariant
            digits@ == seq!['0', '1', '2', '3', '4', '5', '6', '7', '8', '9'],
            decimal(n as nat) == decimal(m as nat) + out@,
        decreases m,
    {
        let d = m % 10;
        let c = digits.substring_char(d, d + 1);
        assert(c@ =~= seq![digit_char(d as nat)]);
        let prev = out;
        out = String::from_str(c);
        out.append(prev.as_str());
        if m < 10 {
            assert(decimal(m as nat) =~= c@);
            assert(decimal(n as nat) =~= out@);
            return out;
        }
        assert(decimal(m as nat) =~= decimal((m / 10) as nat) + c@);
        m = m / 10;
        assert(decimal(n as nat) =~= decimal(m as nat) + out@);
    }
}

} // verus!
