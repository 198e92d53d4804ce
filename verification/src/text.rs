//! Text normalization shared by the commands: trimming, the idempotency-key length rule, the
//! review-code vocabulary, and the "present" test for optional caller text.

use vstd::prelude::*;

verus! {

/// The Unicode `White_Space` property, the set `char::is_whitespace` answers for.
pub open spec fn is_white_space(c: char) -> bool {
    let u = c as u32;
    ||| 9 <= u <= 13
    ||| u == 32
    ||| u == 0x85
    ||| u == 0xa0
    ||| u == 0x1680
    ||| 0x2000 <= u <= 0x200a
    ||| u == 0x2028
    ||| u == 0x2029
    ||| u == 0x202f
    ||| u == 0x205f
    ||| u == 0x3000
}

/// Whether `c` is white space.
pub fn white_space(c: char) -> (r: bool)
    ensures
        r == is_white_space(c),
{
    let u = c as u32;
    (9 <= u && u <= 13) || u == 32 || u == 0x85 || u == 0xa0 || u == 0x1680 || (0x2000 <= u && u
        <= 0x200a) || u == 0x2028 || u == 0x2029 || u == 0x202f || u == 0x205f || u == 0x3000
}

/// The index of the first character at or after `i` that is not white space (`s.len()` if none).
pub open spec fn first_kept(s: Seq<char>, i: int) -> int
    decreases s.len() - i,
{
    if i < 0 || i >= s.len() {
        s.len() as int
    } else if is_white_space(s[i]) {
        first_kept(s, i + 1)
    } else {
        i
    }
}

/// One past the last character before `j` that is not white space (`0` if none).
pub open spec fn last_kept_end(s: Seq<char>, j: int) -> int
    decreases j,
{
    if j <= 0 || j > s.len() {
        0
    } else if is_white_space(s[j - 1]) {
        last_kept_end(s, j - 1)
    } else {
        j
    }
}

/// `s` with its leading and trailing white space removed, as `str::trim` answers it.
pub open spec fn trimmed(s: Seq<char>) -> Seq<char> {
    let a = first_kept(s, 0);
    let b = last_kept_end(s, s.len() as int);
    if a < b {
        s.subrange(a, b)
    } else {
        Seq::empty()
    }
}

proof fn lemma_first_kept_bounds(s: Seq<char>, i: int)
    requires
        0 <= i <= s.len(),
    ensures
        i <= first_kept(s, i) <= s.len(),
        first_kept(s, i) < s.len() ==> !is_white_space(s[first_kept(s, i)]),
        forall|k: int| i <= k < first_kept(s, i) ==> is_white_space(s[k]),
    decreases s.len() - i,
{
    if i < s.len() && is_white_space(s[i]) {
        lemma_first_kept_bounds(s, i + 1);
    }
}

proof fn lemma_last_kept_bounds(s: Seq<char>, j: int)
    requires
        0 <= j <= s.len(),
    ensures
        0 <= last_kept_end(s, j) <= j,
        last_kept_end(s, j) > 0 ==> !is_white_space(s[last_kept_end(s, j) - 1]),
        forall|k: int| last_kept_end(s, j) <= k < j ==> is_white_space(s[k]),
    decreases j,
{
    if j > 0 && is_white_space(s[j - 1]) {
        lemma_last_kept_bounds(s, j - 1);
    }
}

/// `s` without leading and trailing white space.
pub fn trim(s: &str) -> (r: &str)
    ensures
        r@ == trimmed(s@),
{
    let n = s.unicode_len();
    let mut a: usize = 0;
    while a < n && white_space(s.get_char(a))
        invariant
            n == s@.len(),
            a <= n,
            first_kept(s@, a as int) == first_kept(s@, 0),
        decreases n - a,
    {
        a = a + 1;
    }
    let mut b: usize = n;
    while b > a && white_space(s.get_char(b - 1))
        invariant
            n == s@.len(),
            a <= b <= n,
            last_kept_end(s@, b as int) == last_kept_end(s@, n as int),
        decreases b,
    {
        b = b - 1;
    }
    proof {
        lemma_first_kept_bounds(s@, 0);
        lemma_last_kept_bounds(s@, n as int);
        if a < n {
            assert(first_kept(s@, a as int) == a);
        }
        if a < b {
            assert(last_kept_end(s@, b as int) == b);
        } else {
            // Everything from `a` on is white space, so the last kept end is at most `a`.
            lemma_last_kept_bounds(s@, b as int);
        }
    }
    if a < b {
        s.substring_char(a, b)
    } else {
        s.substring_char(0, 0)
    }
}

/// Whether two strings hold the same characters.
pub fn str_equal(a: &str, b: &str) -> (r: bool)
    ensures
        r == (a@ == b@),
{
    let n = a.unicode_len();
    if n != b.unicode_len() {
        return false;
    }
    let mut i: usize = 0;
    while i < n
        invariant
            n == a@.len(),
            n == b@.len(),
            i <= n,
            forall|k: int| 0 <= k < i ==> a@[k] == b@[k],
        decreases n - i,
    {
        if a.get_char(i) != b.get_char(i) {
            return false;
        }
        i = i + 1;
    }
    assert(a@ =~= b@);
    true
}

/// An idempotency key is between 8 and 160 bytes long once trimmed (its UTF-8 length, as
/// `str::len` reports it).
pub open spec fn is_valid_key(value: Seq<char>) -> bool {
    let length = vstd::utf8::encode_utf8(trimmed(value)).len() as usize;
    8 <= length <= 160
}

/// Whether `value` is a usable idempotency key.
pub fn valid_key(value: &str) -> (r: bool)
    ensures
        r == is_valid_key(value@),
{
    let trimmed_value = trim(value);
    let length = trimmed_value.len();
    8 <= length && length <= 160
}

/// Caller text counts as present when anything but white space remains after trimming.
pub open spec fn is_present(value: Option<Seq<char>>) -> bool {
    match value {
        Some(text) => trimmed(text).len() > 0,
        None => false,
    }
}

/// Whether optional caller text is present.
pub fn present(value: Option<&str>) -> (r: bool)
    ensures
        r == is_present(
            match value {
                Some(text) => Some(text@),
                None => None,
            },
        ),
{
    match value {
        Some(text) => trim(text).unicode_len() > 0,
        None => false,
    }
}

/// The four review codes a decision's comment or rejection reason may carry.
pub open spec fn is_review_code(value: Seq<char>) -> bool {
    ||| value == "REVIEWED_CHANGE_SCOPE"@
    ||| value == "AUTHORIZATION_GRANTED"@
    ||| value == "UNACCEPTABLE_CHANGE_SCOPE"@
    ||| value == "CHANGE_SCOPE_NOT_APPROVED"@
}

/// What a stored review text projects to: the trimmed text when it is one of the review codes,
/// and nothing otherwise.
pub open spec fn review_projection(value: Option<Seq<char>>) -> Option<Seq<char>> {
    match value {
        Some(text) => if is_review_code(trimmed(text)) {
            Some(trimmed(text))
        } else {
            None
        },
        None => None,
    }
}

/// Keeps only the review-code vocabulary of a stored comment or rejection reason: free text a
/// predecessor row may hold is dropped rather than shown.
pub fn review_text(value: Option<String>) -> (r: Option<String>)
    ensures
        match r {
            Some(text) => review_projection(
                match value {
                    Some(v) => Some(v@),
                    None => None,
                },
            ) == Some(text@),
            None => review_projection(
                match value {
                    Some(v) => Some(v@),
                    None => None,
                },
            ) is None,
        },
{
    let value = match value {
        Some(v) => v,
        None => return None,
    };
    let normalized = trim(value.as_str());
    if str_equal(normalized, "REVIEWED_CHANGE_SCOPE") || str_equal(
        normalized,
        "AUTHORIZATION_GRANTED",
    ) || str_equal(normalized, "UNACCEPTABLE_CHANGE_SCOPE") || str_equal(
        normalized,
        "CHANGE_SCOPE_NOT_APPROVED",
    ) {
        Some(String::from_str(normalized))
    } else {
        None
    }
}

/// The decimal digit for a value below ten.
pub open spec fn digit_char(d: int) -> char {
    (48 + d) as char
}

/// The decimal digits of a natural number, most significant first, with no leading zero.
pub open spec fn natural_digits(n: nat) -> Seq<char>
    decreases n,
{
    if n < 10 {
        seq![digit_char(n as int)]
    } else {
        natural_digits(n / 10) + seq![digit_char((n % 10) as int)]
    }
}

/// The decimal text of an integer, as `Display` renders it: a minus sign before a negative one.
pub open spec fn decimal(n: int) -> Seq<char> {
    if n < 0 {
        seq!['-'] + natural_digits((-n) as nat)
    } else {
        natural_digits(n as nat)
    }
}

/// Every character of a number's digits is a decimal digit.
pub proof fn natural_digits_are_digits(n: nat)
    ensures
        natural_digits(n).len() >= 1,
        forall|i: int| 0 <= i < natural_digits(n).len() ==> '0' <= #[trigger] natural_digits(n)[i] <= '9',
    decreases n,
{
    if n >= 10 {
        natural_digits_are_digits(n / 10);
        let prefix = natural_digits(n / 10);
        assert forall|i: int| 0 <= i < natural_digits(n).len() implies '0' <= #[trigger] natural_digits(n)[i] <= '9' by {
            if i < prefix.len() {
                assert(natural_digits(n)[i] == prefix[i]);
            }
        }
    }
}

/// Different natural numbers have different digits.
pub proof fn natural_digits_injective(a: nat, b: nat)
    requires
        natural_digits(a) == natural_digits(b),
    ensures
        a == b,
    decreases a,
{
    natural_digits_are_digits(a);
    natural_digits_are_digits(b);
    if a < 10 && b < 10 {
        assert(natural_digits(a)[0] == digit_char(a as int));
        assert(natural_digits(b)[0] == digit_char(b as int));
    } else if a < 10 {
        natural_digits_are_digits(b / 10);
        assert(natural_digits(b).len() >= 2);
    } else if b < 10 {
        natural_digits_are_digits(a / 10);
        assert(natural_digits(a).len() >= 2);
    } else {
        let da = natural_digits(a);
        let db = natural_digits(b);
        assert(da.last() == digit_char((a % 10) as int));
        assert(db.last() == digit_char((b % 10) as int));
        assert(da.drop_last() =~= natural_digits(a / 10));
        assert(db.drop_last() =~= natural_digits(b / 10));
        natural_digits_injective(a / 10, b / 10);
    }
}

/// Different integers have different decimal texts, and no text holds a NUL.
pub proof fn decimal_injective(a: int, b: int)
    ensures
        decimal(a) == decimal(b) ==> a == b,
        forall|i: int| 0 <= i < decimal(a).len() ==> #[trigger] decimal(a)[i] != '\0',
{
    if a < 0 {
        natural_digits_are_digits((-a) as nat);
    } else {
        natural_digits_are_digits(a as nat);
    }
    if b < 0 {
        natural_digits_are_digits((-b) as nat);
    } else {
        natural_digits_are_digits(b as nat);
    }
    assert forall|i: int| 0 <= i < decimal(a).len() implies #[trigger] decimal(a)[i] != '\0' by {
        if a < 0 && i > 0 {
            assert(decimal(a)[i] == natural_digits((-a) as nat)[i - 1]);
        }
    }
    if decimal(a) == decimal(b) {
        if a < 0 && b < 0 {
            assert(decimal(a).drop_first() =~= natural_digits((-a) as nat));
            assert(decimal(b).drop_first() =~= natural_digits((-b) as nat));
            natural_digits_injective((-a) as nat, (-b) as nat);
        } else if a < 0 {
            assert(decimal(a)[0] == '-');
            assert('0' <= natural_digits(b as nat)[0] <= '9');
        } else if b < 0 {
            assert(decimal(b)[0] == '-');
            assert('0' <= natural_digits(a as nat)[0] <= '9');
        } else {
            natural_digits_injective(a as nat, b as nat);
        }
    }
}

/// The text of one decimal digit.
fn digit_text(d: u64) -> (r: &'static str)
    requires
        d < 10,
    ensures
        r@ == seq![digit_char(d as int)],
{
    proof {
        reveal_strlit("0");
        reveal_strlit("1");
        reveal_strlit("2");
        reveal_strlit("3");
        reveal_strlit("4");
        reveal_strlit("5");
        reveal_strlit("6");
        reveal_strlit("7");
        reveal_strlit("8");
        reveal_strlit("9");
    }
    match d {
        0 => "0",
        1 => "1",
        2 => "2",
        3 => "3",
        4 => "4",
        5 => "5",
        6 => "6",
        7 => "7",
        8 => "8",
        _ => "9",
    }
}

/// Appends the decimal digits of `n`.
fn append_digits(out: &mut String, n: u64)
    ensures
        final(out)@ == old(out)@ + natural_digits(n as nat),
    decreases n,
{
    if n >= 10 {
        append_digits(out, n / 10);
    }
    out.append(digit_text(n % 10));
    assert(final(out)@ =~= old(out)@ + natural_digits(n as nat));
}

/// The decimal text of an integer, as `Display` renders it.
pub fn decimal_text(n: i64) -> (r: String)
    ensures
        r@ == decimal(n as int),
{
    let mut out = String::new();
    if n < 0 {
        proof { reveal_strlit("-"); }
        out.append("-");
        let magnitude: u64 = (0i128 - n as i128) as u64;
        append_digits(&mut out, magnitude);
    } else {
        append_digits(&mut out, n as u64);
    }
    out
}

/// Whether a text begins with a prefix.
pub fn starts_with(text: &str, prefix: &str) -> (r: bool)
    ensures
        r == prefix@.is_prefix_of(text@),
{
    let n = prefix.unicode_len();
    if n > text.unicode_len() {
        return false;
    }
    let mut i: usize = 0;
    while i < n
        invariant
            n == prefix@.len(),
            n <= text@.len(),
            i <= n,
            forall|k: int| 0 <= k < i ==> prefix@[k] == text@[k],
        decreases n - i,
    {
        if prefix.get_char(i) != text.get_char(i) {
            return false;
        }
        i = i + 1;
    }
    true
}

/// The order of texts: lexicographic by their characters' code points, which is the order of
/// their UTF-8 bytes, a prefix first.
pub open spec fn text_le(a: Seq<char>, b: Seq<char>) -> bool
    decreases a.len(),
{
    if a.len() == 0 {
        true
    } else if b.len() == 0 {
        false
    } else if a[0] != b[0] {
        (a[0] as int) < (b[0] as int)
    } else {
        text_le(a.drop_first(), b.drop_first())
    }
}

/// Any two texts are ordered one way or the other.
pub proof fn text_le_total(a: Seq<char>, b: Seq<char>)
    ensures
        text_le(a, b) || text_le(b, a),
    decreases a.len(),
{
    if a.len() > 0 && b.len() > 0 && a[0] == b[0] {
        text_le_total(a.drop_first(), b.drop_first());
    }
}

/// The order is transitive.
pub proof fn text_le_transitive(a: Seq<char>, b: Seq<char>, c: Seq<char>)
    requires
        text_le(a, b),
        text_le(b, c),
    ensures
        text_le(a, c),
    decreases a.len(),
{
    if a.len() > 0 && b.len() > 0 && c.len() > 0 && a[0] == b[0] && b[0] == c[0] {
        text_le_transitive(a.drop_first(), b.drop_first(), c.drop_first());
    }
}

/// Whether one text comes no later than another.
pub fn text_less_eq(a: &str, b: &str) -> (r: bool)
    ensures
        r == text_le(a@, b@),
{
    let n = a.unicode_len();
    let m = b.unicode_len();
    let mut i: usize = 0;
    assert(a@.skip(0) =~= a@);
    assert(b@.skip(0) =~= b@);
    while i < n && i < m
        invariant
            n == a@.len(),
            m == b@.len(),
            i <= n,
            i <= m,
            text_le(a@, b@) == text_le(a@.skip(i as int), b@.skip(i as int)),
        decreases n - i,
    {
        let x = a.get_char(i);
        let y = b.get_char(i);
        assert(a@.skip(i as int)[0] == x);
        assert(b@.skip(i as int)[0] == y);
        if x != y {
            return (x as u32) < (y as u32);
        }
        assert(a@.skip(i as int).drop_first() =~= a@.skip(i as int + 1));
        assert(b@.skip(i as int).drop_first() =~= b@.skip(i as int + 1));
        i = i + 1;
    }
    i == n
}

/// Whether a list of texts is in text order.
pub open spec fn texts_sorted(texts: Seq<Seq<char>>) -> bool {
    forall|i: int, j: int| 0 <= i < j < texts.len() ==> text_le(texts[i], texts[j])
}

/// The views of a list of strings.
pub open spec fn views_of(values: Seq<String>) -> Seq<Seq<char>> {
    values.map_values(|value: String| value@)
}

/// Puts texts in text order, keeping equal texts in the order given.
pub fn sort_texts(texts: Vec<String>) -> (r: Vec<String>)
    ensures
        texts_sorted(views_of(r@)),
        views_of(r@).to_multiset() == views_of(texts@).to_multiset(),
{
    let ghost given = texts@;
    let mut source = texts;
    let mut sorted: Vec<String> = Vec::new();
    let n = source.len();
    let mut done: usize = 0;
    assert(views_of(sorted@) =~= Seq::<Seq<char>>::empty());
    assert(views_of(given.take(0)) =~= Seq::<Seq<char>>::empty());
    while done < n
        invariant
            n == given.len(),
            done <= n,
            source@ == given.skip(done as int),
            texts_sorted(views_of(sorted@)),
            views_of(sorted@).to_multiset() == views_of(given.take(done as int)).to_multiset(),
        decreases n - done,
    {
        let text = source.remove(0);
        assert(text == given[done as int]);
        assert(source@ =~= given.skip(done as int + 1));
        let ghost before = views_of(sorted@);
        let mut pos: usize = sorted.len();
        while pos > 0 && !text_less_eq(sorted[pos - 1].as_str(), text.as_str())
            invariant
                pos <= sorted@.len(),
                before == views_of(sorted@),
                texts_sorted(before),
                forall|k: int| pos <= k < before.len() ==> !text_le(#[trigger] before[k], text@),
            decreases pos,
        {
            pos = pos - 1;
        }
        proof {
            assert forall|k: int| 0 <= k < pos implies text_le(#[trigger] before[k], text@) by {
                assert(text_le(before[pos - 1], text@));
                if k < pos - 1 {
                    text_le_transitive(before[k], before[pos - 1], text@);
                }
            }
        }
        sorted.insert(pos, text);
        proof {
            let after = views_of(sorted@);
            assert(after =~= before.insert(pos as int, text@));
            vstd::seq_lib::to_multiset_insert(before, pos as int, text@);
            assert(views_of(given.take(done as int + 1)) =~= views_of(given.take(done as int)).push(text@));
            vstd::seq_lib::to_multiset_build(views_of(given.take(done as int)), text@);
            assert forall|i: int, j: int| 0 <= i < j < after.len() implies text_le(after[i], after[j]) by {
                if j < pos {
                    assert(after[i] == before[i] && after[j] == before[j]);
                } else if j == pos {
                    assert(after[i] == before[i]);
                } else if i < pos {
                    assert(after[i] == before[i] && after[j] == before[j - 1]);
                } else if i == pos {
                    assert(after[j] == before[j - 1]);
                    text_le_total(before[j - 1], text@);
                } else {
                    assert(after[i] == before[i - 1] && after[j] == before[j - 1]);
                }
            }
        }
        done = done + 1;
    }
    assert(given.take(n as int) =~= given);
    sorted
}

/// The fields of a text separated by `|`, as `str::split('|')` yields them: one more field than
/// there are separators, each possibly empty.
pub open spec fn split_bars(s: Seq<char>) -> Seq<Seq<char>>
    decreases s.len(),
{
    if s.len() == 0 {
        seq![Seq::empty()]
    } else {
        let init = split_bars(s.drop_last());
        if s.last() == '|' {
            init.push(Seq::empty())
        } else {
            init.update(init.len() - 1, init.last().push(s.last()))
        }
    }
}

/// A text holds no `|`.
pub open spec fn bar_free(s: Seq<char>) -> bool {
    forall|i: int| 0 <= i < s.len() ==> s[i] != '|'
}

/// Splitting always yields at least one field.
pub proof fn split_bars_nonempty(s: Seq<char>)
    ensures
        split_bars(s).len() >= 1,
    decreases s.len(),
{
    if s.len() > 0 {
        split_bars_nonempty(s.drop_last());
    }
}

/// A text with no separator is a single field, and a separator followed by such a text adds it
/// as one more field.
pub proof fn split_bars_append(x: Seq<char>, y: Seq<char>)
    requires
        bar_free(y),
    ensures
        split_bars(y) == seq![y],
        split_bars(x + seq!['|'] + y) == split_bars(x).push(y),
    decreases y.len(),
{
    split_bars_nonempty(x);
    if y.len() == 0 {
        assert(y =~= Seq::<char>::empty());
        assert((x + seq!['|'] + y).drop_last() =~= x);
        assert(x + seq!['|'] + y =~= x.push('|'));
    } else {
        let z = y.drop_last();
        assert forall|i: int| 0 <= i < z.len() implies z[i] != '|' by {
            assert(z[i] == y[i]);
        }
        split_bars_append(x, z);
        assert((x + seq!['|'] + y).drop_last() =~= x + seq!['|'] + z);
        assert((x + seq!['|'] + y).last() == y.last());
        assert(y.drop_last() =~= z);
        assert(z.push(y.last()) =~= y);
        assert(split_bars(x + seq!['|'] + y) =~= split_bars(x).push(y));
        assert(split_bars(y) =~= seq![y]);
    }
}

/// The fields of a text separated by `|`.
pub fn split_bar_fields(text: &str) -> (r: Vec<String>)
    ensures
        views_of(r@) == split_bars(text@),
{
    let n = text.unicode_len();
    let mut fields: Vec<String> = Vec::new();
    let mut start: usize = 0;
    let mut i: usize = 0;
    assert(text@.take(0) =~= Seq::<char>::empty());
    assert(views_of(fields@).push(text@.subrange(0, 0)) =~= split_bars(text@.take(0)));
    while i < n
        invariant
            n == text@.len(),
            start <= i <= n,
            views_of(fields@).push(text@.subrange(start as int, i as int)) == split_bars(text@.take(i as int)),
        decreases n - i,
    {
        let c = text.get_char(i);
        assert(text@.take(i as int + 1).drop_last() =~= text@.take(i as int));
        assert(text@.take(i as int + 1).last() == c);
        let ghost before = split_bars(text@.take(i as int));
        if c == '|' {
            let field = String::from_str(text.substring_char(start, i));
            let ghost prior = fields@;
            fields.push(field);
            assert(views_of(fields@) =~= views_of(prior).push(text@.subrange(start as int, i as int)));
            start = i + 1;
            assert(text@.subrange(start as int, i as int + 1) =~= Seq::<char>::empty());
            assert(views_of(fields@).push(text@.subrange(start as int, i as int + 1)) =~= before.push(Seq::empty()));
        } else {
            assert(text@.subrange(start as int, i as int + 1) =~= text@.subrange(start as int, i as int).push(c));
            assert(views_of(fields@).push(text@.subrange(start as int, i as int + 1)) =~= before.update(
                before.len() - 1,
                before.last().push(c),
            ));
        }
        i = i + 1;
    }
    assert(text@.take(n as int) =~= text@);
    let last = String::from_str(text.substring_char(start, n));
    let ghost prior = fields@;
    fields.push(last);
    assert(views_of(fields@) =~= views_of(prior).push(text@.subrange(start as int, n as int)));
    fields
}

} // verus!
