//! Text as a sequence of characters: trimming, searching, ordering, file stems.

use vstd::prelude::*;

verus! {

/// `String::push` appends one character and changes nothing else.
pub assume_specification[ std::string::String::push ](s: &mut std::string::String, c: char)
    ensures
        final(s)@ == old(s)@.push(c),
;

/// The characters with the Unicode `White_Space` property.
pub open spec fn white_space(c: char) -> bool {
    let u = c as int;
    ||| 0x9 <= u <= 0xD
    ||| u == 0x20
    ||| u == 0x85
    ||| u == 0xA0
    ||| u == 0x1680
    ||| 0x2000 <= u <= 0x200A
    ||| u == 0x2028
    ||| u == 0x2029
    ||| u == 0x202F
    ||| u == 0x205F
    ||| u == 0x3000
}

/// `s` without its leading and trailing white space.
pub open spec fn trimmed(s: Seq<char>) -> Seq<char>
    decreases s.len(),
{
    if s.len() == 0 {
        s
    } else if white_space(s.first()) {
        trimmed(s.drop_first())
    } else if white_space(s.last()) {
        trimmed(s.drop_last())
    } else {
        s
    }
}

/// What lies outside `a..b` is white space, and `a..b` is empty or starts and
/// ends with something else.
spec fn trim_at(s: Seq<char>, a: int, b: int) -> bool {
    &&& 0 <= a <= b <= s.len()
    &&& forall|i: int| 0 <= i < a ==> white_space(#[trigger] s[i])
    &&& forall|i: int| b <= i < s.len() ==> white_space(#[trigger] s[i])
    &&& a < b ==> !white_space(s[a]) && !white_space(s[b - 1])
}

proof fn lemma_trim_at(s: Seq<char>, a: int, b: int)
    requires
        trim_at(s, a, b),
    ensures
        trimmed(s) == s.subrange(a, b),
    decreases s.len(),
{
    if s.len() == 0 {
        assert(s =~= s.subrange(a, b));
    } else if white_space(s.first()) {
        let t = s.drop_first();
        assert forall|i: int| 0 <= i < t.len() implies t[i] == s[i + 1] by {}
        if a == 0 {
            assert(b == 0);
            lemma_trim_at(t, 0, 0);
            assert(t.subrange(0, 0) =~= s.subrange(a, b));
        } else {
            lemma_trim_at(t, a - 1, b - 1);
            assert(t.subrange(a - 1, b - 1) =~= s.subrange(a, b));
        }
    } else {
        assert(a == 0);
        assert(b > 0) by {
            if b == 0 {
                assert(white_space(s[0]));
            }
        }
        if white_space(s.last()) {
            assert(b < s.len());
            let t = s.drop_last();
            assert forall|i: int| 0 <= i < t.len() implies t[i] == s[i] by {}
            lemma_trim_at(t, 0, b);
            assert(t.subrange(0, b) =~= s.subrange(a, b));
        } else {
            assert(b == s.len()) by {
                if b < s.len() {
                    assert(white_space(s[s.len() - 1]));
                }
            }
            assert(s =~= s.subrange(a, b));
        }
    }
}

/// Trimmed text starts and ends with something that is not white space.
pub proof fn lemma_trimmed_ends(s: Seq<char>)
    ensures
        trimmed(s).len() <= s.len(),
        trimmed(s).len() > 0 ==> !white_space(trimmed(s).first()) && !white_space(
            trimmed(s).last(),
        ),
        trimmed(s).len() == 0 <==> (forall|i: int|
            0 <= i < s.len() ==> white_space(#[trigger] s[i])),
    decreases s.len(),
{
    if s.len() == 0 {
    } else if white_space(s.first()) {
        let t = s.drop_first();
        lemma_trimmed_ends(t);
        if forall|i: int| 0 <= i < t.len() ==> white_space(#[trigger] t[i]) {
            assert forall|i: int| 0 <= i < s.len() implies white_space(#[trigger] s[i]) by {
                if i > 0 {
                    assert(white_space(t[i - 1]));
                }
            }
        }
        if forall|i: int| 0 <= i < s.len() ==> white_space(#[trigger] s[i]) {
            assert forall|i: int| 0 <= i < t.len() implies white_space(#[trigger] t[i]) by {
                assert(white_space(s[i + 1]));
            }
        }
    } else if white_space(s.last()) {
        let t = s.drop_last();
        lemma_trimmed_ends(t);
        assert(!white_space(s[0]));
        assert(t[0] == s[0]);
    } else {
        assert(!white_space(s[0]));
    }
}

/// Trimming twice is trimming once.
pub proof fn trimming_is_idempotent(s: Seq<char>)
    ensures
        trimmed(trimmed(s)) == trimmed(s),
{
    lemma_trimmed_ends(s);
}

/// The number of the character `c`.
pub fn code_point(c: char) -> (u: u32)
    ensures
        u == c as int,
{
    c as u32
}

/// Whether `c` has the Unicode `White_Space` property.
pub fn is_white_space(c: char) -> (r: bool)
    ensures
        r == white_space(c),
{
    let u: u32 = code_point(c);
    (0x9 <= u && u <= 0xD) || u == 0x20 || u == 0x85 || u == 0xA0 || u == 0x1680 || (0x2000 <= u
        && u <= 0x200A) || u == 0x2028 || u == 0x2029 || u == 0x202F || u == 0x205F || u == 0x3000
}

/// The characters of `s`, in order.
pub fn chars_of(s: &str) -> (v: Vec<char>)
    ensures
        v@ == s@,
{
    let mut v: Vec<char> = Vec::new();
    for c in it: s.chars()
        invariant
            it.seq() == s@,
            v@ == s@.take(it.index()),
    {
        proof {
            assert(s@.take(it.index()).push(c) =~= s@.take(it.index() + 1));
        }
        v.push(c);
    }
    proof {
        assert(s@.take(s@.len() as int) =~= s@);
    }
    v
}

/// The text made of the characters `v[a..b]`.
pub fn text_of(v: &Vec<char>, a: usize, b: usize) -> (s: String)
    requires
        a <= b <= v@.len(),
    ensures
        s@ == v@.subrange(a as int, b as int),
{
    let mut s: String = String::new();
    let mut i: usize = a;
    while i < b
        invariant
            a <= i <= b <= v@.len(),
            s@ == v@.subrange(a as int, i as int),
        decreases b - i,
    {
        proof {
            assert(v@.subrange(a as int, i as int).push(v@[i as int]) =~= v@.subrange(
                a as int,
                i + 1,
            ));
        }
        s.push(v[i]);
        i += 1;
    }
    s
}

/// `s` without its leading and trailing white space.
pub fn trim(s: &str) -> (r: String)
    ensures
        r@ == trimmed(s@),
{
    let v = chars_of(s);
    let n: usize = v.len();
    let mut a: usize = 0;
    while a < n && is_white_space(v[a])
        invariant
            a <= n == v@.len(),
            forall|i: int| 0 <= i < a ==> white_space(#[trigger] v@[i]),
        decreases n - a,
    {
        a += 1;
    }
    let mut b: usize = n;
    while a < b && is_white_space(v[b - 1])
        invariant
            a <= b <= n == v@.len(),
            forall|i: int| b <= i < n ==> white_space(#[trigger] v@[i]),
        decreases b,
    {
        b -= 1;
    }
    proof {
        lemma_trim_at(v@, a as int, b as int);
    }
    text_of(&v, a, b)
}

/// Whether the two texts hold the same characters.
pub fn same_text(a: &str, b: &str) -> (r: bool)
    ensures
        r == (a@ == b@),
{
    a.to_owned() == b.to_owned()
}

/// `pat` occurs in `s` starting at index `i`.
pub open spec fn occurs_at(s: Seq<char>, pat: Seq<char>, i: int) -> bool {
    0 <= i && i + pat.len() <= s.len() && s.subrange(i, i + pat.len()) == pat
}

/// `pat` occurs somewhere in `s`.
pub open spec fn occurs(s: Seq<char>, pat: Seq<char>) -> bool {
    exists|i: int| #[trigger] occurs_at(s, pat, i)
}

/// Whether `pat` occurs somewhere in `s`.
pub fn contains_text(s: &str, pat: &str) -> (r: bool)
    ensures
        r == occurs(s@, pat@),
{
    let v = chars_of(s);
    let p = chars_of(pat);
    let n: usize = v.len();
    let m: usize = p.len();
    if m > n {
        return false;
    }
    let mut i: usize = 0;
    while i <= n - m
        invariant
            v@ == s@,
            p@ == pat@,
            n == v@.len(),
            m == p@.len(),
            m <= n,
            i <= n - m + 1,
            forall|j: int| 0 <= j < i ==> !#[trigger] occurs_at(s@, pat@, j),
        decreases n - m + 1 - i,
    {
        let mut k: usize = 0;
        while k < m && v[i + k] == p[k]
            invariant
                v@ == s@,
                p@ == pat@,
                n == v@.len(),
                m == p@.len(),
                i + m <= n,
                k <= m,
                forall|j: int| 0 <= j < k ==> v@[i + j] == #[trigger] p@[j],
            decreases m - k,
        {
            k += 1;
        }
        if k == m {
            proof {
                assert(s@.subrange(i as int, i + m) =~= pat@);
                assert(occurs_at(s@, pat@, i as int));
            }
            return true;
        }
        proof {
            assert(s@.subrange(i as int, i + m)[k as int] != pat@[k as int]);
        }
        if i == n - m {
            proof {
                assert forall|j: int| !#[trigger] occurs_at(s@, pat@, j) by {}
            }
            return false;
        }
        i += 1;
    }
    false
}

/// `a` comes before `b` in dictionary order of code points.
pub open spec fn text_lt(a: Seq<char>, b: Seq<char>) -> bool
    decreases a.len(),
{
    if b.len() == 0 {
        false
    } else if a.len() == 0 {
        true
    } else if a[0] != b[0] {
        (a[0] as int) < (b[0] as int)
    } else {
        text_lt(a.drop_first(), b.drop_first())
    }
}

proof fn lemma_text_lt_skip(a: Seq<char>, b: Seq<char>, k: int)
    requires
        0 <= k <= a.len(),
        k <= b.len(),
        forall|i: int| 0 <= i < k ==> a[i] == b[i],
    ensures
        text_lt(a, b) == text_lt(a.skip(k), b.skip(k)),
    decreases k,
{
    if k == 0 {
        assert(a.skip(0) =~= a);
        assert(b.skip(0) =~= b);
    } else {
        let (x, y) = (a.drop_first(), b.drop_first());
        assert forall|i: int| 0 <= i < k - 1 implies x[i] == y[i] by {
            assert(a[i + 1] == b[i + 1]);
        }
        lemma_text_lt_skip(x, y, k - 1);
        assert(x.skip(k - 1) =~= a.skip(k));
        assert(y.skip(k - 1) =~= b.skip(k));
    }
}

/// Nothing comes before itself, and of two texts at most one comes first.
pub proof fn text_order_is_asymmetric(a: Seq<char>, b: Seq<char>)
    ensures
        text_lt(a, b) ==> !text_lt(b, a) && a != b,
    decreases a.len(),
{
    if a.len() > 0 && b.len() > 0 && a[0] == b[0] {
        text_order_is_asymmetric(a.drop_first(), b.drop_first());
    }
}

/// Of two different texts one comes first.
pub proof fn text_order_is_total(a: Seq<char>, b: Seq<char>)
    ensures
        text_lt(a, b) || text_lt(b, a) || a == b,
    decreases a.len(),
{
    if a.len() > 0 && b.len() > 0 && a[0] == b[0] {
        text_order_is_total(a.drop_first(), b.drop_first());
        if a.drop_first() == b.drop_first() {
            assert(a =~= seq![a[0]] + a.drop_first());
            assert(b =~= seq![b[0]] + b.drop_first());
        }
    } else if a.len() == 0 && b.len() == 0 {
        assert(a =~= b);
    } else if a.len() > 0 && b.len() > 0 {
        assert(a[0] as int != b[0] as int);
    }
}

/// Dictionary order is transitive.
pub proof fn text_order_is_transitive(a: Seq<char>, b: Seq<char>, c: Seq<char>)
    requires
        text_lt(a, b),
        text_lt(b, c),
    ensures
        text_lt(a, c),
    decreases a.len(),
{
    if a.len() > 0 && a[0] == b[0] && b[0] == c[0] {
        text_order_is_transitive(a.drop_first(), b.drop_first(), c.drop_first());
    }
}

/// Whether `a` comes before `b` in dictionary order of code points.
pub fn text_before(a: &str, b: &str) -> (r: bool)
    ensures
        r == text_lt(a@, b@),
{
    let x = chars_of(a);
    let y = chars_of(b);
    let mut i: usize = 0;
    while i < x.len() && i < y.len() && x[i] == y[i]
        invariant
            i <= x@.len(),
            i <= y@.len(),
            forall|j: int| 0 <= j < i ==> x@[j] == y@[j],
        decreases x@.len() - i,
    {
        i += 1;
    }
    proof {
        lemma_text_lt_skip(x@, y@, i as int);
    }
    if i == y.len() {
        false
    } else if i == x.len() {
        true
    } else {
        code_point(x[i]) < code_point(y[i])
    }
}

/// The lower-case form of a text, as `str::to_lowercase` gives it.
pub uninterp spec fn lower_cased(s: Seq<char>) -> Seq<char>;

/// Calls `str::to_lowercase`, which maps a text to its Unicode lower-case form.
/// The mapping is a function of the text alone; it is named, not spelled out.
#[verifier::external_body]
pub(crate) fn lower_case(s: &str) -> (r: String)
    ensures
        r@ == lower_cased(s@),
{
    s.to_lowercase()
}

/// The character of a decimal digit.
pub open spec fn digit_char(d: int) -> char {
    (d + 0x30) as char
}

/// A number in decimal notation.
pub open spec fn decimal(n: nat) -> Seq<char>
    decreases n,
{
    if n < 10 {
        seq![digit_char(n as int)]
    } else {
        decimal(n / 10).push(digit_char((n % 10) as int))
    }
}

fn digit(d: u8) -> (c: char)
    requires
        d < 10,
    ensures
        c == digit_char(d as int),
{
    (d + 0x30) as char
}

/// A number in decimal notation.
pub fn decimal_text(n: u64) -> (r: String)
    ensures
        r@ == decimal(n as nat),
    decreases n,
{
    if n < 10 {
        let mut r: String = String::new();
        r.push(digit(n as u8));
        assert(r@ =~= seq![digit_char(n as int)]);
        r
    } else {
        let mut r: String = decimal_text(n / 10);
        r.push(digit((n % 10) as u8));
        r
    }
}

/// `n` spaces.
pub open spec fn spaces(n: int) -> Seq<char> {
    Seq::new(if n > 0 { n as nat } else { 0 }, |i: int| ' ')
}

/// `s` at the left of a field of `width` characters; longer text stays whole.
pub open spec fn padded_right(s: Seq<char>, width: int) -> Seq<char> {
    s + spaces(width - s.len())
}

/// `s` at the right of a field of `width` characters; longer text stays whole.
pub open spec fn padded_left(s: Seq<char>, width: int) -> Seq<char> {
    spaces(width - s.len()) + s
}

fn space_text(n: usize) -> (r: String)
    ensures
        r@ == spaces(n as int),
{
    let mut r: String = String::new();
    let mut i: usize = 0;
    while i < n
        invariant
            i <= n,
            r@ == spaces(i as int),
        decreases n - i,
    {
        r.push(' ');
        i += 1;
        assert(r@ =~= spaces(i as int));
    }
    r
}

/// `s` at the left of a field of `width` characters; longer text stays whole.
pub fn pad_right(s: &str, width: usize) -> (r: String)
    ensures
        r@ == padded_right(s@, width as int),
{
    let n: usize = chars_of(s).len();
    let mut r: String = s.to_owned();
    if n < width {
        r.append(space_text(width - n).as_str());
    }
    assert(r@ =~= padded_right(s@, width as int));
    r
}

/// `s` at the right of a field of `width` characters; longer text stays whole.
pub fn pad_left(s: &str, width: usize) -> (r: String)
    ensures
        r@ == padded_left(s@, width as int),
{
    let n: usize = chars_of(s).len();
    let mut r: String = if n < width {
        space_text(width - n)
    } else {
        String::new()
    };
    r.append(s);
    assert(r@ =~= padded_left(s@, width as int));
    r
}

/// The character of a hexadecimal digit, in upper case.
pub open spec fn hex_char(d: int) -> char {
    if d < 10 {
        digit_char(d)
    } else {
        (d - 10 + 0x41) as char
    }
}

/// A byte as two hexadecimal digits.
pub open spec fn hex_byte(b: u8) -> Seq<char> {
    seq![hex_char(b as int / 16), hex_char(b as int % 16)]
}

fn hex_digit(d: u8) -> (c: char)
    requires
        d < 16,
    ensures
        c == hex_char(d as int),
{
    if d < 10 {
        digit(d)
    } else {
        (d - 10 + 0x41) as char
    }
}

/// A byte as two hexadecimal digits.
pub fn hex_text(b: u8) -> (r: String)
    ensures
        r@ == hex_byte(b),
{
    let mut r: String = String::new();
    r.push(hex_digit(b / 16));
    r.push(hex_digit(b % 16));
    assert(r@ =~= hex_byte(b));
    r
}

/// The number that decimal digits stand for.
pub open spec fn number_of(s: Seq<char>) -> int
    decreases s.len(),
{
    if s.len() == 0 {
        0
    } else {
        10 * number_of(s.drop_last()) + (s.last() as int - 0x30)
    }
}

/// A number is read back from its decimal notation, which holds digits alone, at least one,
/// and no more zeros in front than it needs.
pub proof fn decimals_read_back(n: nat)
    ensures
        number_of(decimal(n)) == n,
        decimal(n).len() > 0,
        forall|i: int| 0 <= i < decimal(n).len() ==> '0' <= #[trigger] decimal(n)[i] <= '9',
        n > 0 ==> decimal(n)[0] != '0',
    decreases n,
{
    if n < 10 {
        let s = decimal(n);
        assert(s.drop_last() =~= Seq::empty());
        assert(number_of(Seq::empty()) == 0);
        assert(number_of(s) == 10 * number_of(s.drop_last()) + (s.last() as int - 0x30));
    } else {
        decimals_read_back(n / 10);
        assert(decimal(n).drop_last() =~= decimal(n / 10));
        assert(decimal(n)[0] == decimal(n / 10)[0]);
    }
}

/// The number that a hexadecimal digit stands for.
pub open spec fn hex_value(c: char) -> int {
    if '0' <= c <= '9' {
        c as int - '0' as int
    } else {
        c as int - 'A' as int + 10
    }
}

/// A byte is read back from its two hexadecimal digits.
pub proof fn bytes_read_back(b: u8)
    ensures
        hex_byte(b).len() == 2,
        16 * hex_value(hex_byte(b)[0]) + hex_value(hex_byte(b)[1]) == b,
        forall|i: int|
            0 <= i < 2 ==> '0' <= (#[trigger] hex_byte(b)[i]) <= '9' || 'A' <= hex_byte(b)[i]
                <= 'F',
{
}

/// Padded text is as wide as asked, if it is not wider itself, and still holds the text: at
/// its left end or its right one, with spaces for the rest.
pub proof fn padding_keeps_the_text(s: Seq<char>, width: int, i: int)
    requires
        0 <= width,
    ensures
        s.len() <= width ==> padded_left(s, width).len() == width && padded_right(s, width).len()
            == width,
        s.len() >= width ==> padded_left(s, width) == s && padded_right(s, width) == s,
        0 <= i < s.len() ==> padded_right(s, width)[i] == s[i],
        s.len() <= i < width ==> padded_right(s, width)[i] == ' ',
        s.len() <= width && 0 <= i < s.len() ==> padded_left(s, width)[width - s.len() + i] == s[i],
        0 <= i < width - s.len() ==> padded_left(s, width)[i] == ' ',
{
    if s.len() >= width {
        assert(padded_left(s, width) =~= s);
        assert(padded_right(s, width) =~= s);
    }
}

/// Text comes before other text as in a dictionary: at the first place where they differ the
/// smaller character decides, and the start of a text comes before the text.
pub proof fn the_first_difference_decides(a: Seq<char>, b: Seq<char>, k: int)
    requires
        0 <= k <= a.len(),
        k <= b.len(),
        forall|i: int| 0 <= i < k ==> a[i] == b[i],
    ensures
        k < a.len() && k < b.len() && a[k] != b[k] ==> (text_lt(a, b) <==> (a[k] as int) < (
        b[k] as int)),
        k == a.len() && k < b.len() ==> text_lt(a, b),
        k == b.len() ==> !text_lt(a, b),
{
    lemma_text_lt_skip(a, b, k);
    assert(k < a.len() ==> a.skip(k)[0] == a[k]);
    assert(k < b.len() ==> b.skip(k)[0] == b[k]);
}

/// Trimmed text is a stretch of the text that neither starts nor ends in white space, and
/// what is cut off is white space.
pub proof fn trimming_cuts_white_space_alone(s: Seq<char>) -> (cut: (int, int))
    ensures
        0 <= cut.0 <= cut.1 <= s.len(),
        trimmed(s) == s.subrange(cut.0, cut.1),
        forall|i: int| 0 <= i < cut.0 ==> white_space(#[trigger] s[i]),
        forall|i: int| cut.1 <= i < s.len() ==> white_space(#[trigger] s[i]),
        trimmed(s).len() > 0 ==> !white_space(trimmed(s)[0]) && !white_space(
            trimmed(s)[trimmed(s).len() - 1],
        ),
    decreases s.len(),
{
    if s.len() == 0 {
        assert(s.subrange(0, 0) =~= s);
        (0, 0)
    } else if white_space(s.first()) {
        let (a, b) = trimming_cuts_white_space_alone(s.drop_first());
        assert(s.drop_first().subrange(a, b) =~= s.subrange(a + 1, b + 1));
        lemma_white_after_first(s, a, b);
        (a + 1, b + 1)
    } else if white_space(s.last()) {
        let (a, b) = trimming_cuts_white_space_alone(s.drop_last());
        assert(s.drop_last().subrange(a, b) =~= s.subrange(a, b));
        lemma_white_before_last(s, a, b);
        (a, b)
    } else {
        assert(s.subrange(0, s.len() as int) =~= s);
        (0, s.len() as int)
    }
}

proof fn lemma_white_after_first(s: Seq<char>, a: int, b: int)
    requires
        s.len() > 0,
        white_space(s[0]),
        forall|i: int| 0 <= i < a ==> white_space(#[trigger] s.drop_first()[i]),
        forall|i: int| b <= i < s.len() - 1 ==> white_space(#[trigger] s.drop_first()[i]),
        0 <= a <= b <= s.len() - 1,
    ensures
        forall|i: int| 0 <= i < a + 1 ==> white_space(#[trigger] s[i]),
        forall|i: int| b + 1 <= i < s.len() ==> white_space(#[trigger] s[i]),
{
    assert forall|i: int| 0 <= i < s.len() && (i < a + 1 || b + 1 <= i) implies white_space(
        #[trigger] s[i],
    ) by {
        if i > 0 {
            assert(s.drop_first()[i - 1] == s[i]);
        }
    }
}

proof fn lemma_white_before_last(s: Seq<char>, a: int, b: int)
    requires
        s.len() > 0,
        white_space(s[s.len() - 1]),
        forall|i: int| 0 <= i < a ==> white_space(#[trigger] s.drop_last()[i]),
        forall|i: int| b <= i < s.len() - 1 ==> white_space(#[trigger] s.drop_last()[i]),
        0 <= a <= b <= s.len() - 1,
    ensures
        forall|i: int| 0 <= i < a ==> white_space(#[trigger] s[i]),
        forall|i: int| b <= i < s.len() ==> white_space(#[trigger] s[i]),
{
    assert forall|i: int| 0 <= i < s.len() && (i < a || b <= i) implies white_space(
        #[trigger] s[i],
    ) by {
        if i < s.len() - 1 {
            assert(s.drop_last()[i] == s[i]);
        }
    }
}

/// Text put between other text occurs in the whole.
pub proof fn what_is_put_in_occurs(a: Seq<char>, b: Seq<char>, c: Seq<char>)
    ensures
        occurs(a + b + c, b),
{
    assert((a + b + c).subrange(a.len() as int, (a.len() + b.len()) as int) =~= b);
    assert(occurs_at(a + b + c, b, a.len() as int));
}

/// Text that occurs in other text stands there letter by letter.
pub proof fn what_occurs_stands_there(s: Seq<char>, pat: Seq<char>) -> (i: int)
    requires
        occurs(s, pat),
    ensures
        0 <= i <= s.len() - pat.len(),
        forall|k: int| 0 <= k < pat.len() ==> s[i + k] == #[trigger] pat[k],
{
    let i = choose|i: int| #[trigger] occurs_at(s, pat, i);
    assert forall|k: int| 0 <= k < pat.len() implies s[i + k] == #[trigger] pat[k] by {
        assert(s.subrange(i, i + pat.len())[k] == pat[k]);
    }
    i
}

} // verus!
