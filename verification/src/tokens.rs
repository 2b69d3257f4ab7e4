use vstd::prelude::*;

verus! {

pub open spec fn has_no_char(s: Seq<char>, sep: char) -> bool {
    forall|i: int| 0 <= i < s.len() ==> s[i] != sep
}

/// Split a text on a separator the way the standard library's split does:
/// consecutive separators give empty pieces, and the empty text is one empty
/// piece, so there is always at least one piece.
pub open spec fn split_on(s: Seq<char>, sep: char) -> Seq<Seq<char>>
    decreases s.len(),
{
    if s.len() == 0 {
        seq![Seq::<char>::empty()]
    } else if s[0] == sep {
        seq![Seq::<char>::empty()] + split_on(s.skip(1), sep)
    } else {
        let rest = split_on(s.skip(1), sep);
        seq![seq![s[0]] + rest[0]] + rest.skip(1)
    }
}

pub proof fn lemma_split_len(s: Seq<char>, sep: char)
    ensures
        split_on(s, sep).len() >= 1,
    decreases s.len(),
{
    if s.len() == 0 {
    } else {
        lemma_split_len(s.skip(1), sep);
    }
}

/// A text without the separator is one piece: itself.
pub proof fn lemma_split_whole(s: Seq<char>, sep: char)
    requires
        has_no_char(s, sep),
    ensures
        split_on(s, sep) == seq![s],
    decreases s.len(),
{
    if s.len() == 0 {
        assert(split_on(s, sep) =~~= seq![s]);
    } else {
        lemma_split_whole(s.skip(1), sep);
        assert(seq![s[0]] + s.skip(1) =~= s);
        assert(split_on(s, sep) =~~= seq![s]);
    }
}

/// Splitting at the first separator: the piece before it, then the split of
/// what follows it.
pub proof fn lemma_split_at(s: Seq<char>, sep: char, j: int)
    requires
        0 <= j < s.len(),
        s[j] == sep,
        has_no_char(s.take(j), sep),
    ensures
        split_on(s, sep) == seq![s.take(j)] + split_on(s.skip(j + 1), sep),
    decreases j,
{
    if j == 0 {
        assert(s.take(0) =~= Seq::<char>::empty());
        assert(split_on(s, sep) =~~= seq![s.take(0)] + split_on(s.skip(1), sep));
    } else {
        assert(s.take(j)[0] == s[0]);
        let t = s.skip(1);
        assert(t[j - 1] == s[j]);
        assert(t.take(j - 1) =~= s.take(j).skip(1));
        lemma_split_at(t, sep, j - 1);
        let rest = split_on(t, sep);
        assert(rest[0] == t.take(j - 1));
        assert(seq![s[0]] + t.take(j - 1) =~= s.take(j));
        assert(t.skip(j - 1 + 1) =~= s.skip(j + 1));
        assert(rest.skip(1) =~= split_on(s.skip(j + 1), sep));
        assert(split_on(s, sep) =~~= seq![s.take(j)] + split_on(s.skip(j + 1), sep));
    }
}

/// No piece of a split contains the separator.
pub proof fn lemma_split_pieces_clean(s: Seq<char>, sep: char)
    ensures
        forall|k: int|
            0 <= k < split_on(s, sep).len() ==> has_no_char(#[trigger] split_on(s, sep)[k], sep),
    decreases s.len(),
{
    if s.len() == 0 {
    } else if s[0] == sep {
        lemma_split_pieces_clean(s.skip(1), sep);
        assert forall|k: int| 0 <= k < split_on(s, sep).len() implies has_no_char(
            #[trigger] split_on(s, sep)[k],
            sep,
        ) by {
            if k > 0 {
                assert(split_on(s, sep)[k] == split_on(s.skip(1), sep)[k - 1]);
            }
        }
    } else {
        lemma_split_pieces_clean(s.skip(1), sep);
        let rest = split_on(s.skip(1), sep);
        assert forall|k: int| 0 <= k < split_on(s, sep).len() implies has_no_char(
            #[trigger] split_on(s, sep)[k],
            sep,
        ) by {
            if k == 0 {
                assert(has_no_char(rest[0], sep));
                assert forall|i: int|
                    0 <= i < (seq![s[0]] + rest[0]).len() implies (seq![s[0]] + rest[0])[i]
                    != sep by {
                    if i > 0 {
                        assert((seq![s[0]] + rest[0])[i] == rest[0][i - 1]);
                    }
                }
            } else {
                assert(split_on(s, sep)[k] == rest[k]);
            }
        }
    }
}

/// The first piece of a split is a prefix of the text; when there are more
/// pieces, the separator follows it, and the rest of the text splits into
/// the remaining pieces.
pub proof fn lemma_split_head(s: Seq<char>, sep: char)
    ensures
        split_on(s, sep)[0].len() <= s.len(),
        s.take(split_on(s, sep)[0].len() as int) == split_on(s, sep)[0],
        split_on(s, sep).len() == 1 ==> split_on(s, sep)[0] == s,
        split_on(s, sep).len() >= 2 ==> split_on(s, sep)[0].len() < s.len() && s[split_on(
            s,
            sep,
        )[0].len() as int] == sep && split_on(s.skip(split_on(s, sep)[0].len() as int + 1), sep)
            == split_on(s, sep).skip(1),
    decreases s.len(),
{
    lemma_split_len(s, sep);
    if s.len() == 0 {
        assert(s.take(0) =~= s);
    } else if s[0] == sep {
        lemma_split_len(s.skip(1), sep);
        assert(split_on(s, sep)[0] == Seq::<char>::empty());
        assert(s.take(0) =~= Seq::<char>::empty());
        assert(split_on(s, sep).skip(1) =~= split_on(s.skip(1), sep));
    } else {
        lemma_split_head(s.skip(1), sep);
        let rest = split_on(s.skip(1), sep);
        let t0 = rest[0];
        let h = split_on(s, sep)[0];
        assert(h == seq![s[0]] + t0);
        assert(s.skip(1).take(t0.len() as int) == t0);
        assert(s.take(h.len() as int) =~= seq![s[0]] + s.skip(1).take(t0.len() as int));
        if rest.len() == 1 {
            assert(split_on(s, sep).len() == 1);
            assert(t0 == s.skip(1));
            assert(h =~= s);
        } else {
            assert(split_on(s, sep).len() == rest.len());
            assert(t0.len() < s.skip(1).len());
            assert(s[h.len() as int] == s.skip(1)[t0.len() as int]);
            assert(s.skip(h.len() as int + 1) =~= s.skip(1).skip(t0.len() as int + 1));
            assert(split_on(s, sep).skip(1) =~= rest.skip(1));
        }
    }
}

/// Whether two string slices hold the same characters.
pub fn str_eq(a: &str, b: &str) -> (r: bool)
    ensures
        r == (a@ == b@),
{
    let n = a.unicode_len();
    let m = b.unicode_len();
    if n != m {
        return false;
    }
    let mut i: usize = 0;
    while i < n
        invariant
            0 <= i <= n,
            n == a@.len(),
            n == b@.len(),
            forall|k: int| 0 <= k < i ==> a@[k] == b@[k],
        decreases n - i,
    {
        if a.get_char(i) != b.get_char(i) {
            return false;
        }
        i += 1;
    }
    proof {
        assert(a@ =~= b@);
    }
    true
}

/// Split a string slice on a separator character; the pieces are slices of
/// the input, in order.
pub fn split_str<'a>(s: &'a str, sep: char) -> (r: Vec<&'a str>)
    ensures
        r.deep_view() == split_on(s@, sep),
        r.len() == split_on(s@, sep).len(),
{
    let n = s.unicode_len();
    let mut r: Vec<&'a str> = Vec::new();
    let mut start: usize = 0;
    let mut i: usize = 0;
    proof {
        assert(s@.skip(0) =~= s@);
        assert(r.deep_view() =~= Seq::<Seq<char>>::empty());
        assert(r.deep_view() + split_on(s@.skip(0), sep) =~= split_on(s@, sep));
    }
    while i < n
        invariant
            0 <= start <= i <= n,
            n == s@.len(),
            has_no_char(s@.subrange(start as int, i as int), sep),
            split_on(s@, sep) =~= r.deep_view() + split_on(s@.skip(start as int), sep),
            r.deep_view().len() == r.len(),
        decreases n - i,
    {
        let c = s.get_char(i);
        if c == sep {
            let piece = s.substring_char(start, i);
            proof {
                let tail = s@.skip(start as int);
                assert(tail.take(i - start) =~= s@.subrange(start as int, i as int));
                assert(tail[i - start] == sep);
                lemma_split_at(tail, sep, i - start);
                assert(tail.skip(i - start + 1) =~= s@.skip(i + 1));
                assert(piece@ == tail.take(i - start));
            }
            r.push(piece);
            proof {
                assert(r.deep_view() =~= r.deep_view().take(r.len() - 1).push(piece@));
            }
            start = i + 1;
        }
        i += 1;
    }
    let piece = s.substring_char(start, n);
    proof {
        assert(piece@ =~= s@.skip(start as int));
        lemma_split_whole(s@.skip(start as int), sep);
    }
    r.push(piece);
    proof {
        assert(r.deep_view() =~= split_on(s@, sep));
    }
    r
}

} // verus!
