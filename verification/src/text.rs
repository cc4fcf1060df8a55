//! Text: how wide it is, how rows of it are aligned, how it is ordered and joined.
use itertools::Itertools;
use vstd::prelude::*;

verus! {

/// The number of bytes that a text takes up as UTF-8, which is what `str::len` counts.
pub open spec fn byte_len(s: Seq<char>) -> nat {
    vstd::utf8::encode_utf8(s).len()
}

pub open spec fn max(a: int, b: int) -> int {
    if a < b {
        b
    } else {
        a
    }
}

/// `n` spaces, none where `n` is negative.
pub open spec fn spaces(n: int) -> Seq<char> {
    Seq::new(max(0, n) as nat, |i: int| ' ')
}

/// `s` after as many spaces as make it `width` characters wide; `s` itself where it is
/// that wide already.
pub open spec fn right_align(s: Seq<char>, width: int) -> Seq<char> {
    spaces(width - s.len()) + s
}

/// A label, and a text that is aligned to end in column `columns` of the label's line.
pub open spec fn row(label: Seq<char>, s: Seq<char>, columns: int) -> Seq<char> {
    label + right_align(s, columns - label.len())
}

/// The texts of `parts` in order, with `sep` between each two neighbours.
pub open spec fn join(parts: Seq<Seq<char>>, sep: Seq<char>) -> Seq<char>
    decreases parts.len(),
{
    if parts.len() == 0 {
        Seq::empty()
    } else if parts.len() == 1 {
        parts[0]
    } else {
        parts[0] + sep + join(parts.drop_first(), sep)
    }
}

/// The contents of a vector of strings.
pub open spec fn texts(parts: Seq<String>) -> Seq<Seq<char>> {
    parts.map_values(|part: String| part@)
}

/// The contents of an optional string.
pub open spec fn opt_text(text: Option<String>) -> Option<Seq<char>> {
    match text {
        Some(text) => Some(text@),
        None => None,
    }
}

/// `a` and `b` agree on their first `k` bytes, and there `a` ends or has the smaller byte.
pub open spec fn smaller_at(a: Seq<u8>, b: Seq<u8>, k: int) -> bool {
    &&& 0 <= k <= a.len()
    &&& k < b.len()
    &&& a.take(k) == b.take(k)
    &&& k < a.len() ==> a[k] < b[k]
}

/// The order of `str`: lexicographic by the bytes of the UTF-8 encoding.
pub open spec fn precedes(a: Seq<char>, b: Seq<char>) -> bool {
    exists|k: int| smaller_at(vstd::utf8::encode_utf8(a), vstd::utf8::encode_utf8(b), k)
}

/// How one text stands to another in the order of `str`.
#[derive(Clone, Copy, PartialEq, Eq, Debug)]
pub enum Order {
    Before,
    Same,
    After,
}

/// Different texts have different encodings.
pub proof fn lemma_encoding_is_injective(a: Seq<char>, b: Seq<char>)
    requires
        vstd::utf8::encode_utf8(a) == vstd::utf8::encode_utf8(b),
    ensures
        a == b,
{
    vstd::utf8::encode_utf8_decode_utf8(a);
    vstd::utf8::encode_utf8_decode_utf8(b);
}

/// A text takes up at least one byte for each of its characters.
pub proof fn lemma_chars_fit_in_bytes(s: Seq<char>)
    ensures
        s.len() <= byte_len(s),
    decreases s.len(),
{
    if s.len() > 0 {
        lemma_chars_fit_in_bytes(s.drop_first());
    }
}

/// Compares two texts in the order of `str`.
pub fn order(a: &str, b: &str) -> (res: Order)
    ensures
        res is Before <==> precedes(a@, b@),
        res is Same <==> a@ == b@,
        res is After <==> precedes(b@, a@),
{
    let x = a.as_bytes();
    let y = b.as_bytes();
    let mut i: usize = 0;
    while i < x.len() && i < y.len() && x[i] == y[i]
        invariant
            0 <= i <= x@.len(),
            i <= y@.len(),
            forall|j: int| 0 <= j < i ==> x@[j] == y@[j],
        decreases x@.len() - i,
    {
        i = i + 1;
    }
    proof {
        let (xs, ys) = (vstd::utf8::encode_utf8(a@), vstd::utf8::encode_utf8(b@));
        assert(xs.take(i as int) =~= ys.take(i as int));
        assert forall|k: int| smaller_at(xs, ys, k) implies k == i by {
            assert(k < i ==> xs[k] == ys[k]);
            if i < k {
                assert(xs.take(k)[i as int] == ys.take(k)[i as int]);
            }
        }
        assert forall|k: int| smaller_at(ys, xs, k) implies k == i by {
            assert(k < i ==> xs[k] == ys[k]);
            if i < k {
                assert(xs.take(k)[i as int] == ys.take(k)[i as int]);
            }
        }
        if i == x@.len() && i == y@.len() {
            assert(xs =~= ys);
            lemma_encoding_is_injective(a@, b@);
        }
    }
    if i < x.len() && i < y.len() {
        if x[i] < y[i] {
            assert(smaller_at(x@, y@, i as int));
            Order::Before
        } else {
            assert(smaller_at(y@, x@, i as int));
            Order::After
        }
    } else if i < y.len() {
        assert(smaller_at(x@, y@, i as int));
        Order::Before
    } else if i < x.len() {
        assert(smaller_at(y@, x@, i as int));
        Order::After
    } else {
        Order::Same
    }
}

/// Whether two texts are the same.
pub fn same_text(a: &str, b: &str) -> (res: bool)
    ensures
        res == (a@ == b@),
{
    matches!(order(a, b), Order::Same)
}

/// The number of bytes of a text.
pub(crate) fn byte_count(s: &str) -> (n: u128)
    ensures
        n == byte_len(s@),
        n <= usize::MAX,
{
    s.as_bytes().len() as u128
}

/// The number of characters of a text.
pub(crate) fn char_count(s: &str) -> (n: u128)
    ensures
        n == s@.len(),
        n <= usize::MAX,
{
    s.unicode_len() as u128
}

/// The larger of two numbers.
pub(crate) fn larger(a: u128, b: u128) -> (m: u128)
    ensures
        m == max(a as int, b as int),
{
    if a < b {
        b
    } else {
        a
    }
}

/// Appends `n` spaces.
fn push_spaces(buf: &mut String, n: u128)
    ensures
        final(buf)@ == old(buf)@ + spaces(n as int),
{
    let mut i: u128 = 0;
    assert(buf@ =~= buf@ + spaces(0));
    while i < n
        invariant
            i <= n,
            buf@ == old(buf)@ + spaces(i as int),
        decreases n - i,
    {
        buf.append(" ");
        i = i + 1;
        proof {
            reveal_strlit(" ");
            assert(buf@ =~= old(buf)@ + spaces(i as int));
        }
    }
}

/// Appends a label and a text that ends in column `columns` of the label's line.
pub(crate) fn push_row(buf: &mut String, label: &str, s: &str, columns: u128)
    ensures
        final(buf)@ == old(buf)@ + row(label@, s@, columns as int),
{
    let used = char_count(label) + char_count(s);
    buf.append(label);
    if used < columns {
        push_spaces(buf, columns - used);
    } else {
        assert(spaces(columns - used) =~= Seq::empty());
    }
    buf.append(s);
    assert(buf@ =~= old(buf)@ + row(label@, s@, columns as int));
}

/// Calls `Itertools::join` on the strings of `parts`: they come out in order, as their
/// `Display` writes them, with `sep` between each two neighbours.
///
/// The call reserves `sep.len()` bytes for each part at once. The bound on `sep` keeps
/// that product below the size of the vector that holds the parts.
#[verifier::external_body]
pub(crate) fn join_strings(parts: &Vec<String>, sep: &str) -> (res: String)
    requires
        byte_len(sep@) <= 8,
    ensures
        res@ == join(texts(parts@), sep@),
{
    parts.iter().join(sep)
}

} // verus!
