//! Parameter normalisation: comma-separated lists of resource IDs, location IDs
//! and paths, checked before any request is built.
use vstd::prelude::*;
use vstd::string::*;

use crate::outcome::{Report, Stream};
use crate::text::{decimal_text, digit_char, digit_value, is_digit, is_whitespace, is_whitespace_char};
use crate::EXIT_CODE_INVALID_INPUT;

verus! {

/// A CDN resource identifier.
pub type ResourceId = u64;

/// The pieces of `s` between its commas, in order: `"a,,b"` has three pieces
/// and the empty string has one empty piece.
pub open spec fn comma_pieces(s: Seq<char>) -> Seq<Seq<char>>
    decreases s.len(),
{
    if s.len() == 0 {
        seq![Seq::empty()]
    } else {
        let init = comma_pieces(s.drop_last());
        if s.last() == ',' {
            init.push(Seq::empty())
        } else {
            init.update(init.len() - 1, init.last().push(s.last()))
        }
    }
}

pub open spec fn trim_start(s: Seq<char>) -> Seq<char>
    decreases s.len(),
{
    if s.len() > 0 && is_whitespace(s[0]) {
        trim_start(s.drop_first())
    } else {
        s
    }
}

pub open spec fn trim_end(s: Seq<char>) -> Seq<char>
    decreases s.len(),
{
    if s.len() > 0 && is_whitespace(s.last()) {
        trim_end(s.drop_last())
    } else {
        s
    }
}

/// `str::trim`: leading and trailing whitespace removed.
pub open spec fn trim(s: Seq<char>) -> Seq<char> {
    trim_end(trim_start(s))
}

/// The trimmed pieces that are not empty, in order.
pub open spec fn kept_items(pieces: Seq<Seq<char>>) -> Seq<Seq<char>>
    decreases pieces.len(),
{
    if pieces.len() == 0 {
        Seq::empty()
    } else {
        let rest = kept_items(pieces.drop_last());
        let t = trim(pieces.last());
        if t.len() == 0 {
            rest
        } else {
            rest.push(t)
        }
    }
}

/// The items of a comma-separated list: split on `,`, trim each piece, drop the empty ones.
pub open spec fn list_items(s: Seq<char>) -> Seq<Seq<char>> {
    kept_items(comma_pieces(s))
}

/// Value of a string of decimal digits.
pub open spec fn digits_value(s: Seq<char>) -> nat
    decreases s.len(),
{
    if s.len() == 0 {
        0
    } else {
        digits_value(s.drop_last()) * 10 + digit_value(s.last())
    }
}

pub open spec fn all_digits(s: Seq<char>) -> bool {
    forall|i: int| 0 <= i < s.len() ==> is_digit(#[trigger] s[i])
}

/// The text after an optional leading `+`.
pub open spec fn unsigned_body(s: Seq<char>) -> Seq<char> {
    if s.len() > 0 && s[0] == '+' {
        s.drop_first()
    } else {
        s
    }
}

/// What `u64::from_str` accepts: an optional `+`, then one or more decimal
/// digits whose value fits in 64 bits.
pub open spec fn u64_of(s: Seq<char>) -> Option<u64> {
    let d = unsigned_body(s);
    if d.len() > 0 && all_digits(d) && digits_value(d) <= u64::MAX {
        Some(digits_value(d) as u64)
    } else {
        None
    }
}

/// Every item of the list is a valid unsigned integer.
pub open spec fn all_numeric(items: Seq<Seq<char>>) -> bool {
    forall|i: int| 0 <= i < items.len() ==> (#[trigger] u64_of(items[i])) is Some
}

/// The values of a list of numeric items, in order.
pub open spec fn values_of(items: Seq<Seq<char>>) -> Seq<u64> {
    items.map_values(|t: Seq<char>| u64_of(t)->0)
}

/// The message for a resource-ID list with a malformed item.
pub open spec fn malformed_ids_message() -> Seq<char> {
    "At least one resource id is malformed"@
}

/// The message for a path list without any path.
pub open spec fn no_paths_message() -> Seq<char> {
    "Please specify at least one path"@
}

proof fn lemma_digits_value_prefix(s: Seq<char>, k: int)
    requires
        0 <= k <= s.len(),
    ensures
        digits_value(s.subrange(0, k)) <= digits_value(s),
    decreases s.len(),
{
    if k < s.len() {
        assert(s.drop_last().subrange(0, k) =~= s.subrange(0, k));
        lemma_digits_value_prefix(s.drop_last(), k);
    } else {
        assert(s.subrange(0, k) =~= s);
    }
}

/// Bounds `[a, b)` of the trimmed text of `s[lo..hi]`.
fn trim_bounds(s: &str, lo: usize, hi: usize) -> (r: (usize, usize))
    requires
        lo <= hi <= s@.len(),
    ensures
        lo <= r.0 <= r.1 <= hi,
        s@.subrange(r.0 as int, r.1 as int) == trim(s@.subrange(lo as int, hi as int)),
{
    let mut a = lo;
    while a < hi && is_whitespace_char(s.get_char(a))
        invariant
            lo <= a <= hi,
            hi <= s@.len(),
            trim_start(s@.subrange(lo as int, hi as int)) == trim_start(
                s@.subrange(a as int, hi as int),
            ),
        decreases hi - a,
    {
        assert(s@.subrange(a as int, hi as int).drop_first() =~= s@.subrange(a + 1, hi as int));
        a = a + 1;
    }
    let mut b = hi;
    while a < b && is_whitespace_char(s.get_char(b - 1))
        invariant
            a <= b <= hi,
            hi <= s@.len(),
            trim_start(s@.subrange(lo as int, hi as int)) == s@.subrange(a as int, hi as int),
            trim_end(s@.subrange(a as int, hi as int)) == trim_end(
                s@.subrange(a as int, b as int),
            ),
        decreases b - a,
    {
        assert(s@.subrange(a as int, b as int).drop_last() =~= s@.subrange(a as int, b - 1));
        b = b - 1;
    }
    (a, b)
}

/// Pushes the trimmed text of `s[lo..hi]` onto `out`, unless it is empty.
fn push_trimmed(s: &str, lo: usize, hi: usize, out: &mut Vec<String>)
    requires
        lo <= hi <= s@.len(),
    ensures
        final(out).deep_view() == if trim(s@.subrange(lo as int, hi as int)).len() == 0 {
            old(out).deep_view()
        } else {
            old(out).deep_view().push(trim(s@.subrange(lo as int, hi as int)))
        },
{
    let (a, b) = trim_bounds(s, lo, hi);
    if a < b {
        let item = s.substring_char(a, b).to_owned();
        let ghost before = out.deep_view();
        out.push(item);
        assert(out.deep_view() =~= before.push(trim(s@.subrange(lo as int, hi as int))));
    }
}

/// Splits a comma-separated list, trims each piece and drops the empty ones.
pub fn split_list(s: &str) -> (r: Vec<String>)
    ensures
        r.deep_view() == list_items(s@),
{
    let n = s.unicode_len();
    let mut out: Vec<String> = Vec::new();
    let mut start: usize = 0;
    let mut i: usize = 0;
    let ghost mut done: Seq<Seq<char>> = Seq::empty();
    proof {
        assert(s@.subrange(0, 0) =~= Seq::<char>::empty());
        assert(done.push(s@.subrange(0, 0)) =~= seq![Seq::<char>::empty()]);
    }
    while i < n
        invariant
            n == s@.len(),
            start <= i <= n,
            comma_pieces(s@.subrange(0, i as int)) == done.push(s@.subrange(start as int, i as int)),
            out.deep_view() == kept_items(done),
        decreases n - i,
    {
        let c = s.get_char(i);
        proof {
            assert(s@.subrange(0, i + 1).drop_last() =~= s@.subrange(0, i as int));
            assert(s@.subrange(0, i + 1).last() == c);
        }
        if c == ',' {
            push_trimmed(s, start, i, &mut out);
            proof {
                let piece = s@.subrange(start as int, i as int);
                assert(done.push(piece).drop_last() =~= done);
                done = done.push(piece);
                assert(s@.subrange(i + 1, i + 1) =~= Seq::<char>::empty());
            }
            start = i + 1;
        } else {
            proof {
                let piece = s@.subrange(start as int, i as int);
                assert(s@.subrange(start as int, i + 1) =~= piece.push(c));
                assert(done.push(piece).update(done.len() as int, piece.push(c)) =~= done.push(
                    piece.push(c),
                ));
            }
        }
        i = i + 1;
    }
    push_trimmed(s, start, n, &mut out);
    proof {
        let piece = s@.subrange(start as int, n as int);
        assert(s@.subrange(0, n as int) =~= s@);
        assert(done.push(piece).drop_last() =~= done);
    }
    out
}

/// `u64::from_str` on a string.
pub fn parse_u64(t: &str) -> (r: Option<u64>)
    ensures
        r == u64_of(t@),
{
    let n = t.unicode_len();
    let mut start: usize = 0;
    if n > 0 && t.get_char(0) == '+' {
        start = 1;
    }
    let ghost d = unsigned_body(t@);
    proof {
        if start == 1 {
            assert(d =~= t@.subrange(1, n as int));
        } else {
            assert(d =~= t@.subrange(0, n as int));
        }
    }
    if start == n {
        return None;
    }
    let mut i: usize = start;
    let mut acc: u64 = 0;
    while i < n
        invariant
            start <= i <= n,
            n == t@.len(),
            d == t@.subrange(start as int, n as int),
            d == unsigned_body(t@),
            all_digits(t@.subrange(start as int, i as int)),
            acc == digits_value(t@.subrange(start as int, i as int)),
        decreases n - i,
    {
        let c = t.get_char(i);
        if !('0' <= c && c <= '9') {
            assert(d[i - start] == c);
            assert(!all_digits(d));
            return None;
        }
        let ghost prefix = t@.subrange(start as int, i + 1);
        proof {
            assert(prefix.drop_last() =~= t@.subrange(start as int, i as int));
            assert(d.subrange(0, i + 1 - start) =~= prefix);
        }
        let dv: u64 = ((c as u32) - ('0' as u32)) as u64;
        assert(digits_value(prefix) == acc * 10 + dv) by {
            assert(prefix.last() == c);
            assert(digit_value(c) == dv);
        }
        let next = match acc.checked_mul(10) {
            Some(m) => m.checked_add(dv),
            None => None,
        };
        match next {
            Some(v) => {
                acc = v;
            },
            None => {
                proof {
                    lemma_digits_value_prefix(d, i + 1 - start);
                }
                return None;
            },
        }
        proof {
            assert forall|j: int| 0 <= j < prefix.len() implies is_digit(#[trigger] prefix[j]) by {
                if j < prefix.len() - 1 {
                    assert(prefix[j] == t@.subrange(start as int, i as int)[j]);
                }
            }
        }
        i = i + 1;
    }
    Some(acc)
}

/// Parses every item of `items` as an unsigned integer, or fails on the first malformed one.
fn parse_all_u64(items: &Vec<String>) -> (r: Option<Vec<u64>>)
    ensures
        r is Some <==> all_numeric(items.deep_view()),
        r is Some ==> r->0@ == values_of(items.deep_view()),
{
    let mut out: Vec<u64> = Vec::new();
    let mut i: usize = 0;
    while i < items.len()
        invariant
            i <= items.len(),
            forall|j: int| 0 <= j < i ==> (#[trigger] u64_of(items.deep_view()[j])) is Some,
            out@ == values_of(items.deep_view()).subrange(0, i as int),
        decreases items.len() - i,
    {
        assert(items[i as int]@ == items.deep_view()[i as int]);
        match parse_u64(items[i].as_str()) {
            Some(v) => {
                out.push(v);
            },
            None => {
                return None;
            },
        }
        assert(out@ =~= values_of(items.deep_view()).subrange(0, i + 1));
        i = i + 1;
    }
    assert(out@ =~= values_of(items.deep_view()));
    Some(out)
}

/// Parses an optional comma-separated list of resource IDs (`"1, 2,,3"` gives
/// `[1, 2, 3]`); any item that is not an unsigned integer rejects the list.
pub fn parse_resource_ids_optional(input: &Option<String>) -> (r: Result<
    Option<Vec<ResourceId>>,
    Report,
>)
    ensures
        input is None ==> r == Ok::<Option<Vec<ResourceId>>, Report>(None),
        input is Some ==> (r is Ok <==> all_numeric(list_items(input->0@))),
        input is Some && r is Ok ==> r->Ok_0 is Some && r->Ok_0->0@ == values_of(
            list_items(input->0@),
        ),
        r is Err ==> r->Err_0.exit_code == EXIT_CODE_INVALID_INPUT && r->Err_0.stream
            == Stream::Stderr && r->Err_0.message@ == malformed_ids_message(),
{
    match input {
        None => Ok(None),
        Some(s) => {
            let items = split_list(s.as_str());
            match parse_all_u64(&items) {
                Some(ids) => Ok(Some(ids)),
                None => Err(
                    Report::invalid_input(String::from_str("At least one resource id is malformed")),
                ),
            }
        },
    }
}

/// Splits an optional comma-separated list of location IDs, kept as text.
pub fn parse_optional_location_ids(location_ids: &Option<String>) -> (r: Option<Vec<String>>)
    ensures
        location_ids is None ==> r is None,
        location_ids is Some ==> r is Some && r->0.deep_view() == list_items(location_ids->0@),
{
    match location_ids {
        None => None,
        Some(s) => Some(split_list(s.as_str())),
    }
}

/// Splits the comma-separated paths of a purge or prefetch; a list without any
/// path is rejected.
pub fn parse_paths(paths: &str) -> (r: Result<Vec<String>, Report>)
    ensures
        r is Ok <==> list_items(paths@).len() > 0,
        r is Ok ==> r->Ok_0.deep_view() == list_items(paths@),
        r is Err ==> r->Err_0.exit_code == EXIT_CODE_INVALID_INPUT && r->Err_0.stream
            == Stream::Stderr && r->Err_0.message@ == no_paths_message(),
{
    let items = split_list(paths);
    if items.len() == 0 {
        Err(Report::invalid_input(String::from_str("Please specify at least one path")))
    } else {
        Ok(items)
    }
}

/// Resource IDs written in decimal and joined with commas.
pub open spec fn joined_ids(vs: Seq<u64>) -> Seq<char>
    decreases vs.len(),
{
    if vs.len() == 0 {
        Seq::empty()
    } else if vs.len() == 1 {
        decimal_text(vs[0] as nat)
    } else {
        joined_ids(vs.drop_last()) + seq![','] + decimal_text(vs.last() as nat)
    }
}

pub open spec fn decimal_texts(vs: Seq<u64>) -> Seq<Seq<char>> {
    vs.map_values(|v: u64| decimal_text(v as nat))
}

/// Text made of commas and whitespace alone.
pub open spec fn is_blank_list(s: Seq<char>) -> bool {
    forall|i: int| 0 <= i < s.len() ==> (s[i] == ',' || is_whitespace(#[trigger] s[i]))
}

pub open spec fn all_whitespace(s: Seq<char>) -> bool {
    forall|i: int| 0 <= i < s.len() ==> is_whitespace(#[trigger] s[i])
}

pub open spec fn has_no_comma(s: Seq<char>) -> bool {
    forall|i: int| 0 <= i < s.len() ==> #[trigger] s[i] != ','
}

proof fn lemma_digit_char_value(d: nat)
    requires
        d < 10,
    ensures
        is_digit(digit_char(d)),
        digit_value(digit_char(d)) == d,
{
    assert(digit_value('0') == 0);
    assert(digit_value('9') == 9);
}

proof fn lemma_decimal_text_digits(n: nat)
    ensures
        decimal_text(n).len() > 0,
        all_digits(decimal_text(n)),
        digits_value(decimal_text(n)) == n,
    decreases n,
{
    let t = decimal_text(n);
    lemma_digit_char_value(n % 10);
    if n >= 10 {
        lemma_decimal_text_digits(n / 10);
        assert(t.drop_last() =~= decimal_text(n / 10));
        assert(t.last() == digit_char(n % 10));
        assert(n == (n / 10) * 10 + n % 10);
        assert(digits_value(t.drop_last()) == n / 10);
        assert(digits_value(t) == digits_value(t.drop_last()) * 10 + digit_value(t.last()));
        assert forall|i: int| 0 <= i < t.len() implies is_digit(#[trigger] t[i]) by {
            if i < t.len() - 1 {
                assert(t[i] == decimal_text(n / 10)[i]);
            }
        }
    } else {
        assert(t.drop_last() =~= Seq::<char>::empty());
        assert(t.last() == digit_char(n));
        assert(digits_value(Seq::<char>::empty()) == 0);
        assert(digits_value(t) == digits_value(t.drop_last()) * 10 + digit_value(t.last()));
    }
}

proof fn lemma_u64_of_decimal(v: u64)
    ensures
        u64_of(decimal_text(v as nat)) == Some(v),
{
    lemma_decimal_text_digits(v as nat);
    let t = decimal_text(v as nat);
    assert(is_digit(t[0]));
    assert(unsigned_body(t) == t);
}

proof fn lemma_trim_digits(t: Seq<char>)
    requires
        t.len() > 0,
        all_digits(t),
    ensures
        trim(t) == t,
{
    assert(is_digit(t[0]));
    assert(is_digit(t.last()));
    assert(trim_start(t) == t);
}

proof fn lemma_comma_pieces_nonempty(s: Seq<char>)
    ensures
        comma_pieces(s).len() >= 1,
    decreases s.len(),
{
    if s.len() > 0 {
        lemma_comma_pieces_nonempty(s.drop_last());
    }
}

/// Appending text without commas extends the last piece.
proof fn lemma_pieces_append_plain(x: Seq<char>, b: Seq<char>)
    requires
        has_no_comma(b),
    ensures
        comma_pieces(x + b) == comma_pieces(x).update(
            comma_pieces(x).len() - 1,
            comma_pieces(x).last() + b,
        ),
    decreases b.len(),
{
    lemma_comma_pieces_nonempty(x);
    let p = comma_pieces(x);
    let k = p.len() - 1;
    if b.len() == 0 {
        assert(x + b =~= x);
        assert(p.last() + b =~= p.last());
        assert(p.update(k, p[k]) =~= p);
    } else {
        let b0 = b.drop_last();
        assert(has_no_comma(b0)) by {
            assert forall|i: int| 0 <= i < b0.len() implies #[trigger] b0[i] != ',' by {
                assert(b0[i] == b[i]);
            }
        }
        lemma_pieces_append_plain(x, b0);
        assert((x + b).drop_last() =~= x + b0);
        assert((x + b).last() == b.last());
        assert(b.last() != ',');
        assert((p.last() + b0).push(b.last()) =~= p.last() + b);
        let q = p.update(k, p.last() + b0);
        assert(q.update(k, q[k].push(b.last())) =~= p.update(k, p.last() + b));
    }
}

proof fn lemma_pieces_of_joined(vs: Seq<u64>)
    requires
        vs.len() > 0,
    ensures
        comma_pieces(joined_ids(vs)) == decimal_texts(vs),
    decreases vs.len(),
{
    let b = decimal_text(vs.last() as nat);
    lemma_decimal_text_digits(vs.last() as nat);
    assert(has_no_comma(b)) by {
        assert forall|i: int| 0 <= i < b.len() implies #[trigger] b[i] != ',' by {
            assert(is_digit(b[i]));
        }
    }
    if vs.len() == 1 {
        lemma_pieces_append_plain(Seq::empty(), b);
        assert(Seq::<char>::empty() + b =~= b);
        assert(decimal_texts(vs) =~= seq![b]);
        assert(seq![Seq::<char>::empty()].update(0, Seq::<char>::empty() + b) =~= seq![b]);
    } else {
        let front = joined_ids(vs.drop_last());
        let x = front + seq![','];
        lemma_pieces_of_joined(vs.drop_last());
        assert(x.drop_last() =~= front);
        assert(x.last() == ',');
        lemma_pieces_append_plain(x, b);
        let p = comma_pieces(x);
        assert(p == decimal_texts(vs.drop_last()).push(Seq::empty()));
        assert(Seq::<char>::empty() + b =~= b);
        assert(p.update(p.len() - 1, p.last() + b) =~= decimal_texts(vs));
    }
}

proof fn lemma_kept_decimal_texts(vs: Seq<u64>)
    ensures
        kept_items(decimal_texts(vs)) == decimal_texts(vs),
    decreases vs.len(),
{
    if vs.len() > 0 {
        lemma_kept_decimal_texts(vs.drop_last());
        assert(decimal_texts(vs).drop_last() =~= decimal_texts(vs.drop_last()));
        lemma_decimal_text_digits(vs.last() as nat);
        lemma_trim_digits(decimal_text(vs.last() as nat));
        assert(decimal_texts(vs.drop_last()).push(decimal_text(vs.last() as nat)) =~= decimal_texts(
            vs,
        ));
    }
}

/// A list of resource IDs written in decimal and joined with commas parses
/// back to exactly those IDs, in the same order.
pub proof fn lemma_resource_ids_round_trip(vs: Seq<u64>)
    ensures
        all_numeric(list_items(joined_ids(vs))),
        values_of(list_items(joined_ids(vs))) == vs,
{
    if vs.len() == 0 {
        assert(joined_ids(vs) == Seq::<char>::empty());
        assert(comma_pieces(Seq::<char>::empty()) == seq![Seq::<char>::empty()]);
        assert(trim_end(Seq::<char>::empty()) == Seq::<char>::empty());
        assert(seq![Seq::<char>::empty()].drop_last() =~= Seq::<Seq<char>>::empty());
        assert(kept_items(Seq::<Seq<char>>::empty()) == Seq::<Seq<char>>::empty());
        assert(trim_start(Seq::<char>::empty()) == Seq::<char>::empty());
        assert(list_items(joined_ids(vs)) =~= Seq::<Seq<char>>::empty());
        assert(values_of(list_items(joined_ids(vs))) =~= vs);
    } else {
        lemma_pieces_of_joined(vs);
        lemma_kept_decimal_texts(vs);
        let items = list_items(joined_ids(vs));
        assert(items == decimal_texts(vs));
        assert forall|i: int| 0 <= i < items.len() implies (#[trigger] u64_of(items[i])) is Some
            && u64_of(items[i])->0 == vs[i] by {
            lemma_u64_of_decimal(vs[i]);
        }
        assert(values_of(items) =~= vs);
    }
}

proof fn lemma_trim_whitespace(t: Seq<char>)
    requires
        all_whitespace(t),
    ensures
        trim(t).len() == 0,
    decreases t.len(),
{
    if t.len() > 0 {
        assert(all_whitespace(t.drop_first())) by {
            assert forall|i: int| 0 <= i < t.drop_first().len() implies is_whitespace(
                #[trigger] t.drop_first()[i],
            ) by {
                assert(t.drop_first()[i] == t[i + 1]);
            }
        }
        lemma_trim_whitespace(t.drop_first());
        assert(is_whitespace(t[0]));
        assert(trim_start(t) == trim_start(t.drop_first()));
    }
}

proof fn lemma_blank_pieces(s: Seq<char>)
    requires
        is_blank_list(s),
    ensures
        forall|j: int| 0 <= j < comma_pieces(s).len() ==> all_whitespace(#[trigger] comma_pieces(s)[j]),
    decreases s.len(),
{
    if s.len() > 0 {
        let s0 = s.drop_last();
        assert(is_blank_list(s0)) by {
            assert forall|i: int| 0 <= i < s0.len() implies (s0[i] == ',' || is_whitespace(
                #[trigger] s0[i],
            )) by {
                assert(s0[i] == s[i]);
            }
        }
        lemma_blank_pieces(s0);
        lemma_comma_pieces_nonempty(s0);
        let p = comma_pieces(s0);
        if s.last() != ',' {
            assert(is_whitespace(s[s.len() - 1]));
            let q = p.last().push(s.last());
            assert(all_whitespace(p[p.len() - 1]));
            assert(all_whitespace(q)) by {
                assert forall|i: int| 0 <= i < q.len() implies is_whitespace(#[trigger] q[i]) by {
                    if i < q.len() - 1 {
                        assert(q[i] == p.last()[i]);
                    }
                }
            }
            assert forall|j: int| 0 <= j < comma_pieces(s).len() implies all_whitespace(
                #[trigger] comma_pieces(s)[j],
            ) by {
                if j < p.len() - 1 {
                    assert(comma_pieces(s)[j] == p[j]);
                }
            }
        } else {
            assert forall|j: int| 0 <= j < comma_pieces(s).len() implies all_whitespace(
                #[trigger] comma_pieces(s)[j],
            ) by {
                if j < p.len() {
                    assert(comma_pieces(s)[j] == p[j]);
                }
            }
        }
    }
}

proof fn lemma_kept_blank(pieces: Seq<Seq<char>>)
    requires
        forall|j: int| 0 <= j < pieces.len() ==> all_whitespace(#[trigger] pieces[j]),
    ensures
        kept_items(pieces).len() == 0,
    decreases pieces.len(),
{
    if pieces.len() > 0 {
        let p0 = pieces.drop_last();
        assert forall|j: int| 0 <= j < p0.len() implies all_whitespace(#[trigger] p0[j]) by {
            assert(p0[j] == pieces[j]);
        }
        lemma_kept_blank(p0);
        lemma_trim_whitespace(pieces[pieces.len() - 1]);
    }
}

/// A list made of commas and whitespace alone (the empty text included) has no item.
pub proof fn lemma_blank_list_has_no_items(s: Seq<char>)
    requires
        is_blank_list(s),
    ensures
        list_items(s).len() == 0,
{
    lemma_blank_pieces(s);
    lemma_kept_blank(comma_pieces(s));
}

proof fn lemma_pieces_plain(s: Seq<char>)
    requires
        has_no_comma(s),
    ensures
        comma_pieces(s) == seq![s],
{
    lemma_pieces_append_plain(Seq::empty(), s);
    assert(Seq::<char>::empty() + s =~= s);
    assert(seq![Seq::<char>::empty()].update(0, Seq::<char>::empty() + s) =~= seq![s]);
}

/// A single path without commas and without surrounding whitespace is a list of one item.
pub proof fn lemma_single_path(p: Seq<char>)
    requires
        p.len() > 0,
        has_no_comma(p),
        !is_whitespace(p[0]),
        !is_whitespace(p.last()),
    ensures
        list_items(p) == seq![p],
{
    lemma_pieces_plain(p);
    assert(trim_start(p) == p);
    assert(trim_end(p) == p);
    assert(trim(p) == p);
    assert(seq![p].last() == p);
    assert(seq![p].drop_last() =~= Seq::<Seq<char>>::empty());
    assert(kept_items(Seq::<Seq<char>>::empty()) == Seq::<Seq<char>>::empty());
    assert(Seq::<Seq<char>>::empty().push(p) =~= seq![p]);
}

} // verus!
