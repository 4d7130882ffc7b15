//! Query-string serialization.
//!
//! Query parameters are serialized with form urlencoding, as the
//! transport layer does it: bytes that are ASCII alphanumeric or one
//! of `*`, `-`, `.`, `_` pass unchanged, a space becomes `+`, and
//! every other byte of the value's UTF-8 encoding becomes `%` followed
//! by two uppercase hexadecimal digits.  Pairs are rendered as
//! `key=value` and joined with `&` in the order given; the library
//! neither deduplicates nor reorders them.

use vstd::prelude::*;
use vstd::string::StringExecFns;
use vstd::utf8::encode_utf8;

verus! {

/// True of a byte that form urlencoding passes through unchanged.
pub open spec fn is_unreserved_byte(b: u8) -> bool {
    (48 <= b && b <= 57)  // '0'..='9'
    || (65 <= b && b <= 90)  // 'A'..='Z'
    || (97 <= b && b <= 122)  // 'a'..='z'
    || b == 42  // '*'
    || b == 45  // '-'
    || b == 46  // '.'
    || b == 95  // '_'
}

/// The uppercase hexadecimal digit for a value below sixteen.
pub open spec fn hex_digit_char(n: u8) -> char
    recommends
        n < 16,
{
    if n < 10 {
        ((n + 48) as u8) as char
    } else {
        ((n + 55) as u8) as char
    }
}

/// What one byte becomes under form urlencoding.
pub open spec fn encoded_byte(b: u8) -> Seq<char> {
    if is_unreserved_byte(b) {
        seq![b as char]
    } else if b == 32 {
        seq!['+']
    } else {
        seq!['%', hex_digit_char(b / 16), hex_digit_char(b % 16)]
    }
}

/// The form urlencoding of a byte sequence.
pub open spec fn urlencoded(bytes: Seq<u8>) -> Seq<char>
    decreases bytes.len(),
{
    if bytes.len() == 0 {
        Seq::<char>::empty()
    } else {
        encoded_byte(bytes[0]) + urlencoded(bytes.drop_first())
    }
}

/// The form urlencoding of one string component: its UTF-8 bytes,
/// encoded byte by byte.
pub open spec fn encoded_component(s: Seq<char>) -> Seq<char> {
    urlencoded(encode_utf8(s))
}

/// One `key=value` pair, both components encoded.
pub open spec fn encoded_pair(k: Seq<char>, v: Seq<char>) -> Seq<char> {
    encoded_component(k) + seq!['='] + encoded_component(v)
}

/// The whole query string: the pairs in the order given, joined with `&`.
pub open spec fn query_string_of(pairs: Seq<(String, String)>) -> Seq<char>
    decreases pairs.len(),
{
    if pairs.len() == 0 {
        Seq::<char>::empty()
    } else if pairs.len() == 1 {
        encoded_pair(pairs[0].0@, pairs[0].1@)
    } else {
        query_string_of(pairs.drop_last()) + seq!['&'] + encoded_pair(
            pairs.last().0@,
            pairs.last().1@,
        )
    }
}

/// True when `frag` occurs contiguously somewhere in `q`.
pub open spec fn contains_fragment(q: Seq<char>, frag: Seq<char>) -> bool {
    exists|i: int|
        0 <= i && i + frag.len() <= q.len() && #[trigger] q.subrange(i, i + frag.len()) == frag
}

/// Every pair given is rendered whole in the serialized query string:
/// wherever a pair stands in the order, its encoded `key=value`
/// fragment occurs contiguously in the result.
#[verifier::rlimit(30)]
pub proof fn lemma_query_contains_each_pair(pairs: Seq<(String, String)>, j: int)
    requires
        0 <= j < pairs.len(),
    ensures
        contains_fragment(query_string_of(pairs), encoded_pair(pairs[j].0@, pairs[j].1@)),
    decreases pairs.len(),
{
    let q = query_string_of(pairs);
    let frag = encoded_pair(pairs[j].0@, pairs[j].1@);
    if pairs.len() == 1 {
        assert(q == frag);
        let w: int = 0;
        assert(q.subrange(w, w + frag.len()) =~= frag);
        assert(contains_fragment(q, frag));
    } else {
        let head = query_string_of(pairs.drop_last());
        let tail = encoded_pair(pairs.last().0@, pairs.last().1@);
        assert(q == head + seq!['&'] + tail);
        if j == pairs.len() - 1 {
            let start: int = head.len() as int + 1;
            assert(start + frag.len() == q.len());
            assert forall|k: int| 0 <= k < frag.len() implies q[start + k] == frag[k] by {
                assert(q[start + k] == tail[k]);
            }
            assert(q.subrange(start, start + frag.len()) =~= frag);
            assert(contains_fragment(q, frag));
        } else {
            lemma_query_contains_each_pair(pairs.drop_last(), j);
            assert(pairs.drop_last()[j] == pairs[j]);
            let i = choose|i: int|
                0 <= i && i + frag.len() <= head.len() && #[trigger] head.subrange(
                    i,
                    i + frag.len(),
                ) == frag;
            assert forall|k: int| 0 <= k < frag.len() implies q[i + k] == frag[k] by {
                assert(q[i + k] == head[i + k]);
                assert(head[i + k] == head.subrange(i, i + frag.len())[k]);
            }
            assert(q.subrange(i, i + frag.len()) =~= frag);
            assert(contains_fragment(q, frag));
        }
    }
}

/// Relies on `String::push`: appends exactly the given character.
#[verifier::external_body]
pub(crate) fn push_char(s: &mut String, c: char)
    ensures
        final(s)@ == old(s)@.push(c),
{
    s.push(c);
}

/// The uppercase hexadecimal digit for a value below sixteen.
fn hex_digit(n: u8) -> (c: char)
    requires
        n < 16,
    ensures
        c == hex_digit_char(n),
{
    if n < 10 {
        (n + 48) as char
    } else {
        (n + 55) as char
    }
}

/// Concatenation distributes over the encoding.
proof fn lemma_urlencoded_concat(a: Seq<u8>, b: Seq<u8>)
    ensures
        urlencoded(a + b) == urlencoded(a) + urlencoded(b),
    decreases a.len(),
{
    if a.len() == 0 {
        assert(a + b =~= b);
        assert(urlencoded(a) + urlencoded(b) =~= urlencoded(b));
    } else {
        assert((a + b).drop_first() =~= a.drop_first() + b);
        lemma_urlencoded_concat(a.drop_first(), b);
        assert((a + b).len() != 0);
        assert((a + b)[0] == a[0]);
        assert(encoded_byte(a[0]) + (urlencoded(a.drop_first()) + urlencoded(b)) =~= (encoded_byte(
            a[0],
        ) + urlencoded(a.drop_first())) + urlencoded(b));
    }
}

/// The encoding of a single byte.
proof fn lemma_urlencoded_single(b: u8)
    ensures
        urlencoded(seq![b]) == encoded_byte(b),
{
    assert(seq![b].drop_first() =~= Seq::<u8>::empty());
    assert(encoded_byte(b) + urlencoded(Seq::<u8>::empty()) =~= encoded_byte(b));
}

/// Appends the form urlencoding of `bytes` to `out`.
fn append_encoded_bytes(out: &mut String, bytes: &[u8])
    ensures
        final(out)@ == old(out)@ + urlencoded(bytes@),
{
    let mut i: usize = 0;
    while i < bytes.len()
        invariant
            i <= bytes@.len(),
            out@ == old(out)@ + urlencoded(bytes@.take(i as int)),
        decreases bytes@.len() - i,
    {
        let b = bytes[i];
        let ghost prev = out@;
        if (48 <= b && b <= 57) || (65 <= b && b <= 90) || (97 <= b && b <= 122) || b == 42 || b
            == 45 || b == 46 || b == 95 {
            push_char(out, b as char);
            assert(out@ =~= prev + encoded_byte(b));
        } else if b == 32 {
            push_char(out, '+');
            assert(out@ =~= prev + encoded_byte(b));
        } else {
            push_char(out, '%');
            push_char(out, hex_digit(b / 16));
            push_char(out, hex_digit(b % 16));
            assert(out@ =~= prev + encoded_byte(b));
        }
        proof {
            assert(bytes@.take(i + 1) =~= bytes@.take(i as int) + seq![b]);
            lemma_urlencoded_concat(bytes@.take(i as int), seq![b]);
            lemma_urlencoded_single(b);
            assert(out@ =~= old(out)@ + urlencoded(bytes@.take(i + 1)));
        }
        i = i + 1;
    }
    assert(bytes@.take(i as int) =~= bytes@);
}

/// Serializes the pairs as a query string: each `key=value` form
/// urlencoded, joined with `&` in the order given.
pub fn encode_query(pairs: &Vec<(String, String)>) -> (r: String)
    ensures
        r@ == query_string_of(pairs@),
{
    let mut out = String::new();
    let mut i: usize = 0;
    while i < pairs.len()
        invariant
            i <= pairs@.len(),
            out@ == query_string_of(pairs@.take(i as int)),
        decreases pairs@.len() - i,
    {
        if i > 0 {
            push_char(&mut out, '&');
        }
        append_encoded_bytes(&mut out, pairs[i].0.as_str().as_bytes());
        push_char(&mut out, '=');
        append_encoded_bytes(&mut out, pairs[i].1.as_str().as_bytes());
        proof {
            assert(pairs@.take(i + 1).drop_last() =~= pairs@.take(i as int));
            assert(pairs@.take(i + 1).last() == pairs@[i as int]);
            if i == 0 {
                assert(out@ =~= encoded_pair(pairs@[0].0@, pairs@[0].1@));
                assert(out@ =~= query_string_of(pairs@.take(1)));
            } else {
                assert(out@ =~= query_string_of(pairs@.take(i as int)) + seq!['&'] + encoded_pair(
                    pairs@[i as int].0@,
                    pairs@[i as int].1@,
                ));
                assert(out@ =~= query_string_of(pairs@.take(i + 1)));
            }
        }
        i = i + 1;
    }
    assert(pairs@.take(i as int) =~= pairs@);
    out
}

} // verus!
