//! The configuration: a colon-separated list of the operations under test.
//!
//! Each token of the list is stripped of surrounding whitespace before it is
//! compared, and a name that occurs twice counts once: the list stands for a
//! set of names.

use vstd::prelude::*;

verus! {

/// The separator between two tokens of the list.
pub const SEPARATOR: char = ':';

/// The code points that carry Unicode's `White_Space` property.
pub open spec fn is_whitespace(c: char) -> bool {
    ||| '\u{9}' <= c <= '\u{d}'
    ||| c == ' '
    ||| c == '\u{85}'
    ||| c == '\u{a0}'
    ||| c == '\u{1680}'
    ||| '\u{2000}' <= c <= '\u{200a}'
    ||| c == '\u{2028}'
    ||| c == '\u{2029}'
    ||| c == '\u{202f}'
    ||| c == '\u{205f}'
    ||| c == '\u{3000}'
}

/// Tells whether `c` is whitespace.
pub fn is_space(c: char) -> (space: bool)
    ensures
        space == is_whitespace(c),
{
    ('\u{9}' <= c && c <= '\u{d}') || c == ' ' || c == '\u{85}' || c == '\u{a0}' || c
        == '\u{1680}' || ('\u{2000}' <= c && c <= '\u{200a}') || c == '\u{2028}' || c
        == '\u{2029}' || c == '\u{202f}' || c == '\u{205f}' || c == '\u{3000}'
}

/// `s` without its leading whitespace.
pub open spec fn trim_start(s: Seq<char>) -> Seq<char>
    decreases s.len(),
{
    if s.len() > 0 && is_whitespace(s.first()) {
        trim_start(s.drop_first())
    } else {
        s
    }
}

/// `s` without its trailing whitespace.
pub open spec fn trim_end(s: Seq<char>) -> Seq<char>
    decreases s.len(),
{
    if s.len() > 0 && is_whitespace(s.last()) {
        trim_end(s.drop_last())
    } else {
        s
    }
}

/// `s` without the whitespace that surrounds it.
pub open spec fn trim(s: Seq<char>) -> Seq<char> {
    trim_end(trim_start(s))
}

/// Whether every character of `s` is whitespace.
pub open spec fn is_blank(s: Seq<char>) -> bool {
    forall|k: int| 0 <= k < s.len() ==> is_whitespace(s[k])
}

/// Whether `s` holds no separator.
pub open spec fn is_plain(s: Seq<char>) -> bool {
    forall|k: int| 0 <= k < s.len() ==> s[k] != SEPARATOR
}

/// Whether `opts[from..to]` is one token of the list: it holds no separator,
/// begins at the start of the list or behind a separator, and ends at the
/// end of the list or before a separator.
pub open spec fn is_token(opts: Seq<char>, from: int, to: int) -> bool {
    &&& 0 <= from <= to <= opts.len()
    &&& from == 0 || opts[from - 1] == SEPARATOR
    &&& to == opts.len() || opts[to] == SEPARATOR
    &&& forall|k: int| from <= k < to ==> opts[k] != SEPARATOR
}

/// Whether the list `opts` names `symbol`: one of its tokens, trimmed, is
/// `symbol` itself.
pub open spec fn lists(opts: Seq<char>, symbol: Seq<char>) -> bool {
    exists|from: int, to: int| #[trigger]
        is_token(opts, from, to) && trim(opts.subrange(from, to)) == symbol
}

/// Whether injection is enabled for `symbol` under a configuration that may
/// be absent. An absent configuration enables nothing.
pub open spec fn enabled(symbol: Seq<char>, opts: Option<Seq<char>>) -> bool {
    match opts {
        Some(list) => lists(list, symbol),
        None => false,
    }
}

/// The view of a configuration that may be absent.
pub open spec fn view_of(opts: Option<&str>) -> Option<Seq<char>> {
    match opts {
        Some(list) => Some(list@),
        None => None,
    }
}

/// Leading whitespace goes, and nothing else: where the first `lead`
/// characters of `s` are whitespace and the next one is not, `trim_start`
/// drops exactly those.
pub proof fn lemma_trim_start(s: Seq<char>, lead: int)
    requires
        0 <= lead <= s.len(),
        forall|k: int| 0 <= k < lead ==> is_whitespace(s[k]),
        lead == s.len() || !is_whitespace(s[lead]),
    ensures
        trim_start(s) == s.skip(lead),
    decreases lead,
{
    if lead == 0 {
        assert(s.skip(0) =~= s);
    } else {
        let rest = s.drop_first();
        assert forall|k: int| 0 <= k < lead - 1 implies is_whitespace(rest[k]) by {
            assert(rest[k] == s[k + 1]);
        }
        lemma_trim_start(rest, lead - 1);
        assert(rest.skip(lead - 1) =~= s.skip(lead));
    }
}

/// Trailing whitespace goes, and nothing else: where the characters of `s`
/// from `keep` on are whitespace and the one before is not, `trim_end` keeps
/// exactly the first `keep`.
pub proof fn lemma_trim_end(s: Seq<char>, keep: int)
    requires
        0 <= keep <= s.len(),
        forall|k: int| keep <= k < s.len() ==> is_whitespace(s[k]),
        keep == 0 || !is_whitespace(s[keep - 1]),
    ensures
        trim_end(s) == s.take(keep),
    decreases s.len() - keep,
{
    if keep == s.len() {
        assert(s.take(keep) =~= s);
    } else {
        let rest = s.drop_last();
        lemma_trim_end(rest, keep);
        assert(rest.take(keep) =~= s.take(keep));
    }
}

/// What `trim` leaves of `s`, given the bounds of its core: whitespace
/// before `lo`, whitespace from `hi` on, and a core `s[lo..hi]` that is empty
/// or begins and ends with a character that is no whitespace. Then `trim`
/// leaves the core.
pub proof fn lemma_trim(s: Seq<char>, lo: int, hi: int)
    requires
        0 <= lo <= hi <= s.len(),
        forall|k: int| 0 <= k < lo ==> is_whitespace(s[k]),
        forall|k: int| hi <= k < s.len() ==> is_whitespace(s[k]),
        lo == hi || (!is_whitespace(s[lo]) && !is_whitespace(s[hi - 1])),
    ensures
        trim(s) == s.subrange(lo, hi),
{
    if lo == hi {
        // All of `s` is whitespace, and nothing is left of it.
        let end = s.len() as int;
        lemma_trim_start(s, end);
        assert(s.skip(end) =~= s.subrange(lo, hi));
    } else {
        lemma_trim_start(s, lo);
        let tail = s.skip(lo);
        assert forall|k: int| hi - lo <= k < tail.len() implies is_whitespace(tail[k]) by {
            assert(tail[k] == s[k + lo]);
        }
        lemma_trim_end(tail, hi - lo);
        assert(tail.take(hi - lo) =~= s.subrange(lo, hi));
    }
}

/// A list has one token at most that ends at a given place or begins at
/// one: two tokens that overlap or touch are the same token.
pub proof fn lemma_token_unique(opts: Seq<char>, from: int, to: int, a: int, b: int)
    requires
        is_token(opts, from, to),
        is_token(opts, a, b),
        from <= b <= to || from <= a <= to,
    ensures
        a == from,
        b == to,
{
    if a < from {
        assert(opts[from - 1] == SEPARATOR);
    }
    if from < a {
        assert(opts[a - 1] == SEPARATOR);
    }
    if b < to {
        assert(opts[b] == SEPARATOR);
    }
    if to < b {
        assert(opts[to] == SEPARATOR);
    }
}

/// The end of the token that begins at `from`: the place of the next
/// separator, or the end of the list.
fn token_end(opts: &Vec<char>, from: usize) -> (to: usize)
    requires
        from <= opts.len(),
    ensures
        from <= to <= opts.len(),
        to == opts.len() || opts[to as int] == SEPARATOR,
        forall|k: int| from <= k < to ==> opts[k] != SEPARATOR,
{
    let mut to: usize = from;
    while to < opts.len() && opts[to] != SEPARATOR
        invariant
            from <= to <= opts.len(),
            forall|k: int| from <= k < to ==> opts[k] != SEPARATOR,
        decreases opts.len() - to,
    {
        to += 1;
    }
    to
}

/// Whether `opts[from..to]`, trimmed, is `symbol`.
fn trimmed_is(opts: &Vec<char>, from: usize, to: usize, symbol: &Vec<char>) -> (same: bool)
    requires
        from <= to <= opts.len(),
    ensures
        same == (trim(opts@.subrange(from as int, to as int)) == symbol@),
{
    let ghost token = opts@.subrange(from as int, to as int);
    let mut lo: usize = from;
    while lo < to && is_space(opts[lo])
        invariant
            from <= lo <= to <= opts.len(),
            forall|k: int| from <= k < lo ==> is_whitespace(opts[k]),
        decreases to - lo,
    {
        lo += 1;
    }
    let mut hi: usize = to;
    while lo < hi && is_space(opts[hi - 1])
        invariant
            from <= lo <= hi <= to <= opts.len(),
            forall|k: int| hi <= k < to ==> is_whitespace(opts[k]),
        decreases hi - lo,
    {
        hi -= 1;
    }
    proof {
        lemma_trim(token, lo - from, hi - from);
        assert(token.subrange(lo - from, hi - from) =~= opts@.subrange(lo as int, hi as int));
    }
    let ghost core = opts@.subrange(lo as int, hi as int);
    if hi - lo != symbol.len() {
        return false;
    }
    let mut k: usize = 0;
    while k < symbol.len()
        invariant
            from <= lo <= hi <= to <= opts.len(),
            hi - lo == symbol.len(),
            k <= symbol.len(),
            core == opts@.subrange(lo as int, hi as int),
            core == trim(opts@.subrange(from as int, to as int)),
            forall|m: int| 0 <= m < k ==> core[m] == symbol[m],
        decreases symbol.len() - k,
    {
        if opts[lo + k] != symbol[k] {
            assert(core[k as int] != symbol[k as int]);
            return false;
        }
        k += 1;
    }
    assert(core =~= symbol@);
    true
}

/// Whether the list `opts` names `symbol`.
pub fn names(opts: &Vec<char>, symbol: &Vec<char>) -> (found: bool)
    ensures
        found == lists(opts@, symbol@),
{
    let mut from: usize = 0;
    loop
        invariant
            from <= opts.len(),
            from == 0 || opts[from - 1] == SEPARATOR,
            forall|a: int, b: int| #[trigger]
                is_token(opts@, a, b) && b < from ==> trim(opts@.subrange(a, b)) != symbol@,
        decreases opts.len() - from,
    {
        let to = token_end(opts, from);
        assert(is_token(opts@, from as int, to as int));
        if trimmed_is(opts, from, to, symbol) {
            return true;
        }
        assert forall|a: int, b: int| #[trigger]
            is_token(opts@, a, b) && b <= to implies trim(opts@.subrange(a, b)) != symbol@ by {
            if from <= b {
                lemma_token_unique(opts@, from as int, to as int, a, b);
            }
        }
        if to == opts.len() {
            return false;
        }
        from = to + 1;
    }
}

/// The characters of `s`, in order.
pub fn chars_of(s: &str) -> (chars: Vec<char>)
    ensures
        chars@ == s@,
{
    let mut chars: Vec<char> = Vec::new();
    for c in it: s.chars()
        invariant
            chars@ == it.seq().take(it.index()),
            it.seq() == s@,
    {
        chars.push(c);
    }
    chars
}

/// Tells whether fault injection is enabled for the operation `symbol` under
/// the configuration `opts`, which is absent where the process has none.
pub fn is_enabled(symbol: &str, opts: Option<&str>) -> (on: bool)
    ensures
        on == enabled(symbol@, view_of(opts)),
{
    match opts {
        None => false,
        Some(list) => {
            let list_chars = chars_of(list);
            let symbol_chars = chars_of(symbol);
            names(&list_chars, &symbol_chars)
        },
    }
}

/// Whitespace before a string does not show in what `trim_start` leaves.
pub proof fn lemma_trim_start_padding(pad: Seq<char>, s: Seq<char>)
    requires
        is_blank(pad),
    ensures
        trim_start(pad + s) == trim_start(s),
    decreases pad.len(),
{
    if pad.len() == 0 {
        assert(pad + s =~= s);
    } else {
        assert((pad + s).first() == pad[0]);
        assert((pad + s).drop_first() =~= pad.drop_first() + s);
        lemma_trim_start_padding(pad.drop_first(), s);
    }
}

/// Whitespace behind a string does not show in what `trim_end` leaves.
pub proof fn lemma_trim_end_padding(s: Seq<char>, pad: Seq<char>)
    requires
        is_blank(pad),
    ensures
        trim_end(s + pad) == trim_end(s),
    decreases pad.len(),
{
    if pad.len() == 0 {
        assert(s + pad =~= s);
    } else {
        assert((s + pad).last() == pad.last());
        assert((s + pad).drop_last() =~= s + pad.drop_last());
        lemma_trim_end_padding(s, pad.drop_last());
    }
}

/// Whitespace around a string does not show in what `trim` leaves.
pub proof fn lemma_trim_padding(before: Seq<char>, s: Seq<char>, after: Seq<char>)
    requires
        is_blank(before),
        is_blank(after),
    ensures
        trim(before + s + after) == trim(s),
    decreases s.len(),
{
    assert(before + s + after =~= before + (s + after));
    lemma_trim_start_padding(before, s + after);
    if s.len() == 0 {
        assert(s + after =~= after);
        lemma_trim_start(after, after.len() as int);
        assert(after.skip(after.len() as int) =~= s);
    } else if is_whitespace(s.first()) {
        let rest = s.drop_first();
        assert((s + after).first() == s.first());
        assert((s + after).drop_first() =~= rest + after);
        lemma_trim_padding(Seq::empty(), rest, after);
        assert(Seq::<char>::empty() + rest + after =~= rest + after);
    } else {
        assert((s + after).first() == s.first());
        lemma_trim_end_padding(s, after);
    }
}

/// A list without a separator is one token: it names what is left of it
/// after trimming, and nothing else.
pub proof fn lemma_single_token(opts: Seq<char>, symbol: Seq<char>)
    requires
        is_plain(opts),
    ensures
        lists(opts, symbol) <==> trim(opts) == symbol,
{
    let end = opts.len() as int;
    assert(is_token(opts, 0, end));
    assert(opts.subrange(0, end) =~= opts);
    if lists(opts, symbol) {
        let (a, b) = choose|a: int, b: int| #[trigger]
            is_token(opts, a, b) && trim(opts.subrange(a, b)) == symbol;
        lemma_token_unique(opts, 0, end, a, b);
    }
}

/// Two lists joined by a separator name what either of them names: the
/// list stands for a set of names, and joining is the union.
pub proof fn lemma_joined_lists(left: Seq<char>, right: Seq<char>, symbol: Seq<char>)
    ensures
        lists(left + seq![SEPARATOR] + right, symbol) <==> lists(left, symbol) || lists(
            right,
            symbol,
        ),
{
    let joined = left + seq![SEPARATOR] + right;
    let shift = left.len() + 1;
    assert(joined[left.len() as int] == SEPARATOR);
    if lists(left, symbol) {
        let (a, b) = choose|a: int, b: int| #[trigger]
            is_token(left, a, b) && trim(left.subrange(a, b)) == symbol;
        assert(joined.subrange(a, b) =~= left.subrange(a, b));
        assert(is_token(joined, a, b));
    }
    if lists(right, symbol) {
        let (a, b) = choose|a: int, b: int| #[trigger]
            is_token(right, a, b) && trim(right.subrange(a, b)) == symbol;
        assert(joined.subrange(a + shift, b + shift) =~= right.subrange(a, b));
        assert forall|k: int| a + shift <= k < b + shift implies joined[k] != SEPARATOR by {
            assert(joined[k] == right[k - shift]);
        }
        assert(is_token(joined, a + shift, b + shift));
    }
    if lists(joined, symbol) {
        let (a, b) = choose|a: int, b: int| #[trigger]
            is_token(joined, a, b) && trim(joined.subrange(a, b)) == symbol;
        if b < shift {
            assert(joined.subrange(a, b) =~= left.subrange(a, b));
            assert forall|k: int| a <= k < b implies left[k] != SEPARATOR by {
                assert(joined[k] == left[k]);
            }
            assert(is_token(left, a, b));
        } else {
            if a < shift {
                assert(joined[shift - 1] == SEPARATOR);
            }
            assert(joined.subrange(a, b) =~= right.subrange(a - shift, b - shift));
            assert forall|k: int| a - shift <= k < b - shift implies right[k] != SEPARATOR by {
                assert(joined[k + shift] == right[k]);
            }
            if a > shift {
                assert(joined[a - 1] == right[a - 1 - shift]);
            }
            if b < joined.len() {
                assert(joined[b] == right[b - shift]);
            }
            assert(is_token(right, a - shift, b - shift));
        }
    }
}

/// A name that the list holds twice counts once: a list joined to itself
/// names what the list names.
pub proof fn lemma_repeated_list(opts: Seq<char>, symbol: Seq<char>)
    ensures
        lists(opts + seq![SEPARATOR] + opts, symbol) <==> lists(opts, symbol),
{
    lemma_joined_lists(opts, opts, symbol);
}

/// The order of the names in a list does not matter.
pub proof fn lemma_order_is_immaterial(left: Seq<char>, right: Seq<char>, symbol: Seq<char>)
    ensures
        lists(left + seq![SEPARATOR] + right, symbol) <==> lists(
            right + seq![SEPARATOR] + left,
            symbol,
        ),
{
    lemma_joined_lists(left, right, symbol);
    lemma_joined_lists(right, left, symbol);
}

/// Whitespace around a token is ignored: a token with whitespace around it
/// names what the bare token names.
pub proof fn lemma_padded_token(
    before: Seq<char>,
    token: Seq<char>,
    after: Seq<char>,
    symbol: Seq<char>,
)
    requires
        is_blank(before),
        is_blank(after),
        is_plain(token),
    ensures
        lists(before + token + after, symbol) <==> lists(token, symbol),
{
    let padded = before + token + after;
    assert forall|k: int| 0 <= k < padded.len() implies padded[k] != SEPARATOR by {
        if k < before.len() {
            assert(padded[k] == before[k]);
        } else if k < before.len() + token.len() {
            assert(padded[k] == token[k - before.len()]);
        } else {
            assert(padded[k] == after[k - before.len() - token.len()]);
        }
    }
    lemma_single_token(padded, symbol);
    lemma_single_token(token, symbol);
    lemma_trim_padding(before, token, after);
}

} // verus!
