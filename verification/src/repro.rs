//! The garbage-collection reproduction harness.
//!
//! The harness hands a guest a batch of items whose ids and tags are long,
//! zero-padded strings, lets the guest check which items survived its calls
//! intact, and reports the result of the plain check against the fixed one.
use vstd::prelude::*;
use vstd::string::StringExecFns;
use vstd::utf8::{encode_utf8, is_ascii_chars};

use crate::engine::{all_digits, digits_value, is_digit};

verus! {

/// Length every id and tag is padded to, in bytes.
pub const PAD: usize = 500;

/// Tags per item.
pub const TAGS_PER: u32 = 5;

/// Items checked when no count is given.
pub const DEFAULT_ITEM_COUNT: u32 = 80;

/// `n` zero characters.
pub open spec fn zeros(n: nat) -> Seq<char> {
    Seq::new(n, |i: int| '0')
}

/// `s` followed by zeros up to `width` bytes of UTF-8; unchanged when it is
/// already that long.
pub open spec fn padded(s: Seq<char>, width: nat) -> Seq<char> {
    let len = encode_utf8(s).len();
    if len >= width { s } else { s + zeros((width - len) as nat) }
}

/// Pads `s` with `0` up to `width` bytes.
pub fn pad(s: String, width: usize) -> (r: String)
    requires
        encode_utf8(s@).len() <= usize::MAX,
    ensures
        r@ == padded(s@, width as nat),
{
    let len = s.as_str().len();
    if len >= width {
        return s;
    }
    let ghost s0 = s@;
    let mut r = s;
    let mut k: usize = 0;
    proof {
        reveal_strlit("0");
    }
    while k < width - len
        invariant
            len < width,
            len as nat == encode_utf8(s0).len(),
            k <= width - len,
            r@ == s0 + zeros(k as nat),
            "0"@ == seq!['0'],
        decreases width - len - k,
    {
        r.append("0");
        k = k + 1;
        assert(r@ =~= s0 + zeros(k as nat));
    }
    r
}

/// The UTF-8 encoding of two texts one after the other is the encoding of
/// the first followed by that of the second.
proof fn lemma_encode_concat(a: Seq<char>, b: Seq<char>)
    ensures
        encode_utf8(a + b) == encode_utf8(a) + encode_utf8(b),
    decreases a.len(),
{
    if a.len() == 0 {
        assert(a + b =~= b);
        assert(encode_utf8(a) + encode_utf8(b) =~= encode_utf8(b));
    } else {
        assert((a + b)[0] == a[0]);
        assert((a + b).drop_first() =~= a.drop_first() + b);
        lemma_encode_concat(a.drop_first(), b);
        let h = vstd::utf8::encode_scalar(a[0] as u32);
        assert(h + (encode_utf8(a.drop_first()) + encode_utf8(b)) =~= (h + encode_utf8(a.drop_first()))
            + encode_utf8(b));
    }
}

/// Padding gives a text of exactly `max(bytes of s, width)` UTF-8 bytes: `s`
/// itself, followed by nothing but `0`s; padding it again to the same width
/// leaves it as it is.
pub proof fn lemma_pad_law(s: Seq<char>, width: nat)
    ensures
        encode_utf8(padded(s, width)).len() == if encode_utf8(s).len() >= width {
            encode_utf8(s).len()
        } else {
            width
        },
        padded(s, width).len() >= s.len(),
        padded(s, width).subrange(0, s.len() as int) == s,
        forall|i: int| s.len() <= i < padded(s, width).len() ==> padded(s, width)[i] == '0',
        padded(padded(s, width), width) == padded(s, width),
{
    let len = encode_utf8(s).len();
    if len < width {
        let z = zeros((width - len) as nat);
        assert(is_ascii_chars(z));
        vstd::utf8::is_ascii_chars_encode_utf8(z);
        lemma_encode_concat(s, z);
        assert((s + z).subrange(0, s.len() as int) =~= s);
        assert forall|i: int| s.len() <= i < (s + z).len() implies (s + z)[i] == '0' by {
            assert((s + z)[i] == z[i - s.len()]);
        }
    } else {
        assert(s.subrange(0, s.len() as int) =~= s);
    }
}

/// The character of a decimal digit.
pub open spec fn digit_char(d: nat) -> char {
    (('0' as nat) + d) as char
}

/// The decimal numeral of `n`, without leading zeros.
pub open spec fn decimal_chars(n: nat) -> Seq<char>
    decreases n,
{
    if n < 10 {
        seq![digit_char(n)]
    } else {
        decimal_chars(n / 10).push(digit_char(n % 10))
    }
}

/// The decimal numeral of `n`, with leading zeros up to `width` digits.
pub open spec fn zero_padded(n: nat, width: nat) -> Seq<char> {
    let d = decimal_chars(n);
    if d.len() >= width { d } else { zeros((width - d.len()) as nat) + d }
}

/// Ten to the power `k`.
pub open spec fn pow10(k: nat) -> nat
    decreases k,
{
    if k == 0 { 1 } else { 10 * pow10((k - 1) as nat) }
}

proof fn lemma_decimal_len(n: nat, k: nat)
    requires
        k >= 1,
        n < pow10(k),
    ensures
        decimal_chars(n).len() <= k,
        is_ascii_chars(decimal_chars(n)),
    decreases n,
{
    if n >= 10 {
        assert(k >= 2) by {
            if k == 1 {
                assert(pow10(1) == 10 * pow10(0));
            }
        }
        let k1 = (k - 1) as nat;
        assert(pow10(k) == 10 * pow10(k1));
        assert(n / 10 < pow10(k1)) by (nonlinear_arith)
            requires
                n < 10 * pow10(k1),
        ;
        lemma_decimal_len(n / 10, k1);
        let d = decimal_chars(n / 10);
        let c = digit_char(n % 10);
        assert(decimal_chars(n) == d.push(c));
        assert forall|i: int| 0 <= i < d.push(c).len() implies '\0' <= #[trigger] d.push(c)[i] <= '\u{7f}' by {
            if i < d.len() {
                assert(d.push(c)[i] == d[i]);
            }
        }
    }
}

/// The decimal numeral of `n` is made of digits, denotes `n`, and has no
/// leading zero unless it is the single digit `0`.
proof fn lemma_decimal_denotes(n: nat)
    ensures
        decimal_chars(n).len() >= 1,
        all_digits(decimal_chars(n)),
        digits_value(decimal_chars(n)) == n,
        decimal_chars(n).len() > 1 ==> decimal_chars(n)[0] != '0',
    decreases n,
{
    let d = decimal_chars(n);
    if n < 10 {
        let c = digit_char(n);
        assert(c as nat == 48 + n);
        assert(d == seq![c]);
        assert(d.drop_last() =~= Seq::<char>::empty());
        assert(digits_value(Seq::<char>::empty()) == 0);
        assert(d.last() == c);
        assert(digits_value(d) == digits_value(d.drop_last()) * 10 + ((c as nat) - ('0' as nat)) as nat);
        assert(is_digit(d[0]));
    } else {
        let q = n / 10;
        let e = decimal_chars(q);
        let c = digit_char(n % 10);
        lemma_decimal_denotes(q);
        assert(d == e.push(c));
        assert(c as nat == 48 + n % 10);
        assert(d.drop_last() =~= e);
        assert(d.last() == c);
        assert(digits_value(d) == q * 10 + n % 10);
        assert forall|i: int| 0 <= i < d.len() implies is_digit(#[trigger] d[i]) by {
            if i < e.len() {
                assert(d[i] == e[i]);
            }
        }
        assert(d[0] == e[0]);
        if e.len() == 1 {
            assert(e.drop_last() =~= Seq::<char>::empty());
            assert(digits_value(Seq::<char>::empty()) == 0);
            assert(is_digit(e[0]));
            assert(e.last() == e[0]);
            assert(digits_value(e) == digits_value(e.drop_last()) * 10 + ((e.last() as nat) - ('0' as nat)) as nat);
        }
    }
}

/// Zeros in front of a numeral do not change the number it denotes.
proof fn lemma_leading_zeros(k: nat, d: Seq<char>)
    ensures
        digits_value(zeros(k) + d) == digits_value(d),
        all_digits(d) ==> all_digits(zeros(k) + d),
    decreases k + d.len(),
{
    let s = zeros(k) + d;
    if d.len() == 0 {
        assert(s =~= zeros(k));
        if k > 0 {
            let k1 = (k - 1) as nat;
            assert(s.drop_last() =~= zeros(k1) + d);
            lemma_leading_zeros(k1, d);
            assert(s.last() == '0');
        }
    } else {
        assert(s.drop_last() =~= zeros(k) + d.drop_last());
        assert(s.last() == d.last());
        lemma_leading_zeros(k, d.drop_last());
    }
    if all_digits(d) {
        assert forall|i: int| 0 <= i < s.len() implies is_digit(#[trigger] s[i]) by {
            if i >= k {
                assert(s[i] == d[i - k]);
            }
        }
    }
}

/// A zero-padded numeral is made of digits and denotes `n`; it is at least
/// `width` long, and longer only when `n` needs more digits, in which case it
/// has no leading zero. A number below `10^width` comes out exactly `width`
/// characters long.
pub proof fn lemma_zero_padded_numeral(n: nat, width: nat)
    ensures
        all_digits(zero_padded(n, width)),
        digits_value(zero_padded(n, width)) == n,
        zero_padded(n, width).len() >= width,
        zero_padded(n, width).len() > width && zero_padded(n, width).len() > 1 ==> zero_padded(n, width)[0]
            != '0',
        width >= 1 && n < pow10(width) ==> zero_padded(n, width).len() == width,
{
    let d = decimal_chars(n);
    lemma_decimal_denotes(n);
    if d.len() < width {
        lemma_leading_zeros((width - d.len()) as nat, d);
    }
    if width >= 1 && n < pow10(width) {
        lemma_decimal_len(n, width);
    }
}

/// The decimal numeral of a `u32` is ASCII and at most ten digits long.
proof fn lemma_decimal_small(n: nat)
    requires
        n <= u32::MAX,
    ensures
        decimal_chars(n).len() <= 10,
        is_ascii_chars(decimal_chars(n)),
{
    reveal_with_fuel(pow10, 11);
    assert(pow10(10) == 10000000000);
    lemma_decimal_len(n, 10);
}

/// A zero-padded numeral of a `u32` to four digits is ASCII and at most ten long.
proof fn lemma_zero_padded_small(n: nat)
    requires
        n <= u32::MAX,
    ensures
        zero_padded(n, 4).len() <= 10,
        is_ascii_chars(zero_padded(n, 4)),
{
    lemma_decimal_small(n);
    let d = decimal_chars(n);
    if d.len() < 4 {
        let z = zeros((4 - d.len()) as nat);
        assert forall|i: int| 0 <= i < (z + d).len() implies '\0' <= #[trigger] (z + d)[i] <= '\u{7f}' by {
            if i >= z.len() {
                assert((z + d)[i] == d[i - z.len()]);
            }
        }
    }
}

/// An ASCII text of at most a hundred characters has as many UTF-8 bytes.
proof fn lemma_short_ascii(s: Seq<char>)
    requires
        is_ascii_chars(s),
        s.len() <= 100,
    ensures
        encode_utf8(s).len() == s.len(),
        encode_utf8(s).len() <= usize::MAX,
{
    vstd::utf8::is_ascii_chars_encode_utf8(s);
}

proof fn lemma_ascii_concat(a: Seq<char>, b: Seq<char>)
    requires
        is_ascii_chars(a),
        is_ascii_chars(b),
    ensures
        is_ascii_chars(a + b),
{
    assert forall|i: int| 0 <= i < (a + b).len() implies '\0' <= #[trigger] (a + b)[i] <= '\u{7f}' by {
        if i < a.len() {
            assert((a + b)[i] == a[i]);
        } else {
            assert((a + b)[i] == b[i - a.len()]);
        }
    }
}

fn digit_str(d: u32) -> (s: &'static str)
    requires
        d < 10,
    ensures
        s@ == seq![digit_char(d as nat)],
{
    proof {
        reveal_strlit("0");
        reveal_strlit("1");
        reveal_strlit("2");
        reveal_strlit("3");
        reveal_strlit("4");
        reveal_strlit("5");
        reveal_strlit("6");
        reveal_strlit("7");
        reveal_strlit("8");
        reveal_strlit("9");
    }
    let s = match d {
        0 => "0",
        1 => "1",
        2 => "2",
        3 => "3",
        4 => "4",
        5 => "5",
        6 => "6",
        7 => "7",
        8 => "8",
        _ => "9",
    };
    assert(s@ =~= seq![digit_char(d as nat)]);
    s
}

/// The decimal numeral of `n`.
pub fn decimal(n: u32) -> (s: String)
    ensures
        s@ == decimal_chars(n as nat),
    decreases n,
{
    if n < 10 {
        digit_str(n).to_owned()
    } else {
        let mut s = decimal(n / 10);
        s.append(digit_str(n % 10));
        assert(s@ =~= decimal_chars(n as nat));
        s
    }
}

/// The decimal numeral of `n` zero-padded to `width` digits, as `{:0width}` writes it.
pub fn zero_padded_decimal(n: u32, width: usize) -> (s: String)
    ensures
        s@ == zero_padded(n as nat, width as nat),
        all_digits(s@),
        digits_value(s@) == n,
        s@.len() >= width,
        s@.len() > width && s@.len() > 1 ==> s@[0] != '0',
{
    proof {
        lemma_zero_padded_numeral(n as nat, width as nat);
    }
    let d = decimal(n);
    let len = d.unicode_len();
    if len >= width {
        return d;
    }
    let mut s = String::new();
    let mut k: usize = 0;
    proof {
        reveal_strlit("0");
    }
    while k < width - len
        invariant
            len < width,
            k <= width - len,
            s@ == zeros(k as nat),
            "0"@ == seq!['0'],
        decreases width - len - k,
    {
        s.append("0");
        k = k + 1;
        assert(s@ =~= zeros(k as nat));
    }
    s.append(d.as_str());
    s
}

/// The id of item `i`: `item-` and `i` in four digits, padded to `PAD` bytes.
pub open spec fn item_id(i: nat) -> Seq<char> {
    padded("item-"@ + zero_padded(i, 4), PAD as nat)
}

/// Tag `j` of item `i`: `tag-`, `i` in four digits, `-` and `j`, padded to `PAD` bytes.
pub open spec fn tag_id(i: nat, j: nat) -> Seq<char> {
    padded("tag-"@ + zero_padded(i, 4) + "-"@ + decimal_chars(j), PAD as nat)
}

/// One item handed to the guest.
pub struct Item {
    pub id: String,
    pub tags: Vec<String>,
}

/// The `n` items handed to the guest, each with `tags_per` tags.
pub fn get_items(n: u32, tags_per: u32) -> (items: Vec<Item>)
    ensures
        items@.len() == n,
        forall|i: int|
            0 <= i < n ==> {
                &&& (#[trigger] items@[i]).id@ == item_id(i as nat)
                &&& items@[i].tags@.len() == tags_per
                &&& forall|j: int| 0 <= j < tags_per ==> (#[trigger] items@[i].tags@[j])@ == tag_id(i as nat, j as nat)
            },
{
    let mut items: Vec<Item> = Vec::new();
    let mut i: u32 = 0;
    while i < n
        invariant
            i <= n,
            items@.len() == i,
            forall|a: int|
                0 <= a < i ==> {
                    &&& (#[trigger] items@[a]).id@ == item_id(a as nat)
                    &&& items@[a].tags@.len() == tags_per
                    &&& forall|j: int| 0 <= j < tags_per ==> (#[trigger] items@[a].tags@[j])@ == tag_id(a as nat, j as nat)
                },
        decreases n - i,
    {
        let num = zero_padded_decimal(i, 4);
        let mut id = "item-".to_owned();
        id.append(num.as_str());
        proof {
            reveal_strlit("item-");
            lemma_zero_padded_small(i as nat);
            lemma_ascii_concat("item-"@, num@);
            lemma_short_ascii(id@);
        }
        let id = pad(id, PAD);
        let mut tags: Vec<String> = Vec::new();
        let mut j: u32 = 0;
        while j < tags_per
            invariant
                j <= tags_per,
                num@ == zero_padded(i as nat, 4),
                tags@.len() == j,
                forall|b: int| 0 <= b < j ==> (#[trigger] tags@[b])@ == tag_id(i as nat, b as nat),
            decreases tags_per - j,
        {
            let mut tag = "tag-".to_owned();
            tag.append(num.as_str());
            tag.append("-");
            let jd = decimal(j);
            tag.append(jd.as_str());
            proof {
                reveal_strlit("tag-");
                reveal_strlit("-");
                lemma_zero_padded_small(i as nat);
                lemma_decimal_small(j as nat);
                lemma_ascii_concat("tag-"@, num@);
                lemma_ascii_concat("tag-"@ + num@, "-"@);
                lemma_ascii_concat("tag-"@ + num@ + "-"@, jd@);
                lemma_short_ascii(tag@);
            }
            tags.push(pad(tag, PAD));
            j = j + 1;
        }
        items.push(Item { id, tags });
        i = i + 1;
    }
    items
}

/// The positions of the items the guest reports as corrupted, in order.
pub open spec fn failed_indices(results: Seq<bool>) -> Seq<int>
    decreases results.len(),
{
    if results.len() == 0 {
        Seq::empty()
    } else {
        let before = failed_indices(results.drop_last());
        if results.last() { before } else { before.push(results.len() - 1) }
    }
}

/// The outcome of one check: whether every item was intact, the corrupted
/// positions, and the first ten of them for display (`truncated` when there
/// are more).
pub struct ReportSummary {
    pub passed: bool,
    pub corrupted: Vec<usize>,
    pub shown: Vec<usize>,
    pub truncated: bool,
}

/// Summarizes the guest's per-item results.
pub fn summarize(results: &Vec<bool>) -> (r: ReportSummary)
    ensures
        r.corrupted@.map_values(|k: usize| k as int) == failed_indices(results@),
        r.passed == (r.corrupted@.len() == 0),
        r.shown@ == r.corrupted@.take(if r.corrupted@.len() < 10 { r.corrupted@.len() as int } else { 10 }),
        r.truncated == (r.corrupted@.len() > 10),
{
    let mut corrupted: Vec<usize> = Vec::new();
    let mut i: usize = 0;
    while i < results.len()
        invariant
            i <= results@.len(),
            corrupted@.map_values(|k: usize| k as int) == failed_indices(results@.take(i as int)),
        decreases results@.len() - i,
    {
        assert(results@.take(i + 1).drop_last() =~= results@.take(i as int));
        if !results[i] {
            corrupted.push(i);
        }
        assert(corrupted@.map_values(|k: usize| k as int) =~= failed_indices(results@.take(i + 1)));
        i = i + 1;
    }
    assert(results@.take(results@.len() as int) =~= results@);
    let shown_len = if corrupted.len() < 10 { corrupted.len() } else { 10 };
    let mut shown: Vec<usize> = Vec::new();
    let mut k: usize = 0;
    while k < shown_len
        invariant
            shown_len <= corrupted@.len(),
            k <= shown_len,
            shown@ == corrupted@.take(k as int),
        decreases shown_len - k,
    {
        shown.push(corrupted[k]);
        k = k + 1;
        assert(shown@ =~= corrupted@.take(k as int));
    }
    let passed = corrupted.len() == 0;
    let truncated = corrupted.len() > 10;
    ReportSummary { passed, corrupted, shown, truncated }
}

/// What the harness concludes from the plain and the fixed check, and the
/// process exit code: 1 when the plain check fails and the fixed one passes
/// (bug and fix confirmed), 2 when the fixed check fails, 0 otherwise.
pub struct ReproVerdict {
    pub bug_confirmed: bool,
    pub gc_did_not_fire: bool,
    pub fixed_failed: bool,
    pub exit_code: i32,
}

/// The verdict on the two checks.
pub fn verdict(plain_ok: bool, fixed_ok: bool) -> (v: ReproVerdict)
    ensures
        v.bug_confirmed == (!plain_ok && fixed_ok),
        v.gc_did_not_fire == plain_ok,
        v.fixed_failed == !fixed_ok,
        v.exit_code == (if !plain_ok && fixed_ok { 1i32 } else if !fixed_ok { 2i32 } else { 0i32 }),
{
    let bug_confirmed = !plain_ok && fixed_ok;
    let exit_code = if bug_confirmed { 1 } else if !fixed_ok { 2 } else { 0 };
    ReproVerdict { bug_confirmed, gc_did_not_fire: plain_ok, fixed_failed: !fixed_ok, exit_code }
}

/// The number of items to check: the given count when it reads as a `u32`, 80 otherwise.
pub fn item_count(arg: Option<&str>) -> (n: u32)
    ensures
        n == crate::engine::knob_value(arg, DEFAULT_ITEM_COUNT),
{
    crate::engine::knob(arg, DEFAULT_ITEM_COUNT)
}

} // verus!
