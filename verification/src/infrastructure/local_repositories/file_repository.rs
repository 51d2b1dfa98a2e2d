//! The on-disk format of orders that could not be delivered yet.
//!
//! Every raw order is written as its text followed by the delimiter line
//! `"\n#\n"`; reading a file splits its whole content at each delimiter
//! (leftmost match first, as `str::split` does) and keeps the non-empty pieces.
use vstd::prelude::*;

verus! {

/// The three characters that end every stored raw order.
pub open spec fn record_delimiter() -> Seq<char> {
    seq!['\n', '#', '\n']
}

/// A delimiter starts at index `i` of `s`.
pub open spec fn delimiter_at(s: Seq<char>, i: int) -> bool {
    &&& 0 <= i
    &&& i + 3 <= s.len()
    &&& s[i] == '\n'
    &&& s[i + 1] == '#'
    &&& s[i + 2] == '\n'
}

/// The pieces of `s` between delimiters, scanning from `i` with the current
/// piece starting at `start` (the semantics of `str::split`).
pub open spec fn split_from(s: Seq<char>, start: int, i: int) -> Seq<Seq<char>>
    decreases s.len() - i,
{
    if i + 3 > s.len() {
        seq![s.subrange(start, s.len() as int)]
    } else if delimiter_at(s, i) {
        seq![s.subrange(start, i)] + split_from(s, i + 3, i + 3)
    } else {
        split_from(s, start, i + 1)
    }
}

/// `s.split("\n#\n")`.
pub open spec fn split_pieces(s: Seq<char>) -> Seq<Seq<char>> {
    split_from(s, 0, 0)
}

pub open spec fn is_nonempty(p: Seq<char>) -> bool {
    p.len() > 0
}

/// The raw orders held by a file whose content is `s`: the non-empty pieces.
pub open spec fn raw_records(s: Seq<char>) -> Seq<Seq<char>> {
    split_pieces(s).filter(|p: Seq<char>| is_nonempty(p))
}

/// What a read of the file gives back: `None` when it holds no raw order.
pub open spec fn parsed_raw_orders(s: Seq<char>) -> Option<Seq<Seq<char>>> {
    if raw_records(s).len() == 0 {
        None
    } else {
        Some(raw_records(s))
    }
}

/// The text written for one raw order.
pub open spec fn framed(r: Seq<char>) -> Seq<char> {
    r + record_delimiter()
}

/// The text written for a sequence of raw orders, one after the other.
pub open spec fn framed_all(rs: Seq<Seq<char>>) -> Seq<char>
    decreases rs.len(),
{
    if rs.len() == 0 {
        Seq::empty()
    } else {
        framed(rs[0]) + framed_all(rs.drop_first())
    }
}

/// Once framed, the raw order's own text holds no delimiter: the first one
/// in `framed(r)` is the one added after it.
pub open spec fn frames_cleanly(r: Seq<char>) -> bool {
    forall|j: int| 0 <= j < r.len() ==> !delimiter_at(#[trigger] framed(r), j)
}

pub open spec fn string_views(v: Seq<String>) -> Seq<Seq<char>> {
    v.map_values(|x: String| x@)
}

/// Appends one character to a string (`String::push`).
#[verifier::external_body]
fn string_push(s: &mut String, c: char)
    ensures
        final(s)@ == old(s)@.push(c),
{
    s.push(c);
}

proof fn lemma_filter_single(p: Seq<char>)
    ensures
        seq![p].filter(|q: Seq<char>| is_nonempty(q)) == (if is_nonempty(p) {
            seq![p]
        } else {
            Seq::<Seq<char>>::empty()
        }),
{
    reveal_with_fuel(Seq::filter, 2);
    assert(seq![p].drop_last() =~= Seq::<Seq<char>>::empty());
}

proof fn lemma_split_step(s: Seq<char>, start: int, i: int)
    requires
        i + 3 <= s.len(),
        delimiter_at(s, i),
    ensures
        split_from(s, start, i).filter(|q: Seq<char>| is_nonempty(q)) == seq![s.subrange(
            start,
            i,
        )].filter(|q: Seq<char>| is_nonempty(q)) + split_from(s, i + 3, i + 3).filter(
            |q: Seq<char>| is_nonempty(q),
        ),
{
    broadcast use Seq::filter_distributes_over_add;
}

/// The text stored for one raw order: the order followed by the delimiter.
pub fn frame_raw_order(data: String) -> (r: String)
    ensures
        r@ == framed(data@),
{
    let r = data.concat("\n#\n");
    proof {
        reveal_strlit("\n#\n");
        assert(r@ =~= framed(data@));
    }
    r
}

/// The text stored for several raw orders written one after another.
pub fn frame_raw_orders(records: &Vec<String>) -> (r: String)
    ensures
        r@ == framed_all(string_views(records@)),
{
    let mut out = String::new();
    let n = records.len();
    let ghost rs = string_views(records@);
    for k in 0..n
        invariant
            n == records.len(),
            rs == string_views(records@),
            out@ == framed_all(rs.take(k as int)),
    {
        proof {
            reveal_strlit("\n#\n");
            lemma_framed_all_push(rs.take(k as int), rs[k as int]);
            assert(rs.take(k as int).push(rs[k as int]) =~= rs.take(k + 1));
        }
        out.append(records[k].as_str());
        out.append("\n#\n");
        assert(out@ =~= framed_all(rs.take(k as int)) + framed(rs[k as int]));
    }
    assert(rs.take(n as int) =~= rs);
    out
}

/// Framing one more raw order appends its text to what was written before.
pub proof fn lemma_framed_all_push(rs: Seq<Seq<char>>, r: Seq<char>)
    ensures
        framed_all(rs.push(r)) == framed_all(rs) + framed(r),
    decreases rs.len(),
{
    if rs.len() == 0 {
        assert(rs.push(r).drop_first() =~= Seq::<Seq<char>>::empty());
        assert(framed_all(rs.push(r).drop_first()) == Seq::<char>::empty());
        assert(framed_all(rs) == Seq::<char>::empty());
        assert(framed_all(rs.push(r)) =~= framed(r) + Seq::<char>::empty());
        assert(framed_all(rs.push(r)) =~= framed_all(rs) + framed(r));
    } else {
        lemma_framed_all_push(rs.drop_first(), r);
        assert(rs.push(r).drop_first() =~= rs.drop_first().push(r));
        assert(framed_all(rs.push(r)) =~= framed_all(rs) + framed(r));
    }
}

/// Splits the content of a file of raw orders into the raw orders it holds;
/// `None` when there is none.
pub fn parse_raw_orders(data: &str) -> (res: Option<Vec<String>>)
    ensures
        match res {
            None => parsed_raw_orders(data@) is None,
            Some(v) => parsed_raw_orders(data@) == Some(string_views(v@)),
        },
{
    let mut cs: Vec<char> = Vec::new();
    for c in it: data.chars()
        invariant
            cs@ == it.seq().take(it.index() as int),
            it.seq() == data@,
    {
        cs.push(c);
    }
    let ghost s = data@;
    assert(cs@ =~= s);
    let n = cs.len();
    let mut out: Vec<String> = Vec::new();
    let mut cur = String::new();
    let mut start: usize = 0;
    let mut i: usize = 0;
    while i < n && n - i >= 3
        invariant
            cs@ == s,
            n == s.len(),
            start <= i <= n,
            cur@ == s.subrange(start as int, i as int),
            string_views(out@) + split_from(s, start as int, i as int).filter(
                |q: Seq<char>| is_nonempty(q),
            ) == raw_records(s),
        decreases n - i,
    {
        if cs[i] == '\n' && cs[i + 1] == '#' && cs[i + 2] == '\n' {
            proof {
                lemma_split_step(s, start as int, i as int);
                lemma_filter_single(s.subrange(start as int, i as int));
            }
            let ghost old_out = out@;
            if !cur.as_str().is_empty() {
                out.push(cur);
                assert(string_views(out@) =~= string_views(old_out).push(
                    s.subrange(start as int, i as int),
                ));
            }
            assert(string_views(out@) + split_from(s, i + 3, i + 3).filter(
                |q: Seq<char>| is_nonempty(q),
            ) =~= raw_records(s));
            cur = String::new();
            i = i + 3;
            start = i;
            assert(cur@ =~= s.subrange(start as int, i as int));
        } else {
            let c = cs[i];
            string_push(&mut cur, c);
            i = i + 1;
            assert(cur@ =~= s.subrange(start as int, i as int));
        }
    }
    let ghost last_start = start as int;
    assert(split_from(s, start as int, i as int) == seq![s.subrange(last_start, s.len() as int)]);
    while i < n
        invariant
            cs@ == s,
            n == s.len(),
            start <= i <= n,
            start == last_start,
            cur@ == s.subrange(start as int, i as int),
        decreases n - i,
    {
        let c = cs[i];
        string_push(&mut cur, c);
        i = i + 1;
        assert(cur@ =~= s.subrange(start as int, i as int));
    }
    proof {
        lemma_filter_single(s.subrange(last_start, s.len() as int));
    }
    let ghost old_out = out@;
    if !cur.as_str().is_empty() {
        out.push(cur);
        assert(string_views(out@) =~= string_views(old_out).push(
            s.subrange(last_start, s.len() as int),
        ));
    }
    assert(string_views(out@) =~= raw_records(s));
    if out.len() == 0 {
        None
    } else {
        Some(out)
    }
}

proof fn lemma_skip_clean(s: Seq<char>, start: int, r: Seq<char>, rest: Seq<char>, j: int)
    requires
        0 <= start <= s.len(),
        s.subrange(start, s.len() as int) == framed(r) + rest,
        frames_cleanly(r),
        start <= j <= start + r.len(),
    ensures
        split_from(s, start, j) == split_from(s, start, start + r.len()),
    decreases start + r.len() - j,
{
    if j < start + r.len() {
        let f = framed(r);
        let t = s.subrange(start, s.len() as int);
        assert(t.len() == f.len() + rest.len());
        assert(j + 3 <= s.len());
        let k = j - start;
        assert(t[k] == f[k] && t[k + 1] == f[k + 1] && t[k + 2] == f[k + 2]);
        assert(s[j] == t[k] && s[j + 1] == t[k + 1] && s[j + 2] == t[k + 2]);
        assert(!delimiter_at(f, k));
        assert(!delimiter_at(s, j));
        lemma_skip_clean(s, start, r, rest, j + 1);
    }
}

proof fn lemma_parse_framed_from(s: Seq<char>, start: int, rs: Seq<Seq<char>>)
    requires
        0 <= start <= s.len(),
        s.subrange(start, s.len() as int) == framed_all(rs),
        forall|k: int| 0 <= k < rs.len() ==> #[trigger] rs[k].len() > 0 && frames_cleanly(rs[k]),
    ensures
        split_from(s, start, start).filter(|q: Seq<char>| is_nonempty(q)) == rs,
    decreases rs.len(),
{
    if rs.len() == 0 {
        assert(s.subrange(start, s.len() as int).len() == 0);
        assert(split_from(s, start, start) == seq![s.subrange(start, s.len() as int)]);
        lemma_filter_single(s.subrange(start, s.len() as int));
        assert(rs =~= Seq::<Seq<char>>::empty());
    } else {
        let r = rs[0];
        let rest = rs.drop_first();
        assert(rs[0].len() > 0 && frames_cleanly(rs[0]));
        let i = start + r.len();
        let t = s.subrange(start, s.len() as int);
        assert(t == framed(r) + framed_all(rest));
        lemma_skip_clean(s, start, r, framed_all(rest), start);
        assert(t[r.len() as int] == '\n' && t[r.len() + 1int] == '#' && t[r.len() + 2int] == '\n');
        assert(delimiter_at(s, i));
        assert(s.subrange(start, i) =~= t.subrange(0, r.len() as int));
        assert(t.subrange(0, r.len() as int) =~= r);
        lemma_split_step(s, start, i);
        lemma_filter_single(r);
        assert(framed(r).len() == r.len() + 3);
        assert(t.subrange(r.len() + 3int, t.len() as int) =~= framed_all(rest));
        assert(s.subrange(i + 3, s.len() as int) =~= t.subrange(r.len() + 3int, t.len() as int));
        assert forall|k: int| 0 <= k < rest.len() implies #[trigger] rest[k].len() > 0
            && frames_cleanly(rest[k]) by {
            assert(rest[k] == rs[k + 1]);
        }
        lemma_parse_framed_from(s, i + 3, rest);
        assert(seq![r] + rest =~= rs);
    }
}

/// Reading back a file that holds only raw orders written by `frame_raw_order`
/// gives exactly those raw orders, in the order they were written, provided
/// each is non-empty and holds no delimiter once framed.
pub proof fn lemma_raw_orders_round_trip(rs: Seq<Seq<char>>)
    requires
        forall|k: int| 0 <= k < rs.len() ==> #[trigger] rs[k].len() > 0 && frames_cleanly(rs[k]),
    ensures
        raw_records(framed_all(rs)) == rs,
        parsed_raw_orders(framed_all(rs)) == (if rs.len() == 0 {
            None
        } else {
            Some(rs)
        }),
{
    let s = framed_all(rs);
    assert(s.subrange(0, s.len() as int) =~= s);
    lemma_parse_framed_from(s, 0, rs);
}

/// The text of two batches written one after the other is the text of
/// their concatenation.
pub proof fn lemma_framed_all_concat(a: Seq<Seq<char>>, b: Seq<Seq<char>>)
    ensures
        framed_all(a + b) == framed_all(a) + framed_all(b),
    decreases a.len(),
{
    if a.len() == 0 {
        assert(a + b =~= b);
        assert(framed_all(a) =~= Seq::<char>::empty());
        assert(framed_all(a) + framed_all(b) =~= framed_all(b));
    } else {
        lemma_framed_all_concat(a.drop_first(), b);
        assert((a + b).drop_first() =~= a.drop_first() + b);
        assert((a + b)[0] == a[0]);
        assert(framed_all(a + b) =~= framed_all(a) + framed_all(b));
    }
}

/// Raw orders appended to a file in two batches (a shutdown after a
/// start-up that could not empty the file, say) read back as the first
/// batch followed by the second.
pub proof fn lemma_appended_batches_read_back(a: Seq<Seq<char>>, b: Seq<Seq<char>>)
    requires
        forall|k: int| 0 <= k < a.len() ==> #[trigger] a[k].len() > 0 && frames_cleanly(a[k]),
        forall|k: int| 0 <= k < b.len() ==> #[trigger] b[k].len() > 0 && frames_cleanly(b[k]),
    ensures
        raw_records(framed_all(a) + framed_all(b)) == a + b,
{
    lemma_framed_all_concat(a, b);
    let ab = a + b;
    assert forall|k: int| 0 <= k < ab.len() implies #[trigger] ab[k].len() > 0 && frames_cleanly(
        ab[k],
    ) by {
        if k < a.len() {
            assert(ab[k] == a[k]);
        } else {
            assert(ab[k] == b[k - a.len()]);
        }
    }
    lemma_raw_orders_round_trip(ab);
}

} // verus!
