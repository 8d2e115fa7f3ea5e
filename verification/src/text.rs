//! Text building blocks: numerals, comparison, search and joining.
//!
//! Every function here is stated over the characters of the strings involved.

use vstd::prelude::*;
use vstd::string::*;

verus! {

// ---------------------------------------------------------------------------
// Numerals
// ---------------------------------------------------------------------------

/// `String::push` appends the character to the end of the string.
pub assume_specification[ String::push ](s: &mut String, c: char)
    ensures
        final(s)@ == old(s)@.push(c),
;

/// The character of a decimal digit.
pub open spec fn dec_digit(d: nat) -> char {
    (48 + d) as char
}

/// The decimal numeral of `n`, without leading zeros.
pub open spec fn dec(n: nat) -> Seq<char>
    decreases n,
{
    if n < 10 {
        seq![dec_digit(n)]
    } else {
        dec(n / 10).push(dec_digit(n % 10))
    }
}

/// A decimal numeral is made of digits, of one at least.
pub proof fn dec_has_only_digits(n: nat)
    ensures
        dec(n).len() > 0,
        forall|i: int| 0 <= i < dec(n).len() ==> 48 <= #[trigger] dec(n)[i] as int <= 57,
    decreases n,
{
    if n >= 10 {
        dec_has_only_digits(n / 10);
    }
}

/// Numbers with the same decimal text are the same.
pub proof fn dec_is_injective(n: nat, m: nat)
    ensures
        dec(n) == dec(m) ==> n == m,
    decreases n + m,
{
    if dec(n) == dec(m) {
        assert(dec(n).last() == dec_digit(n % 10));
        assert(dec(m).last() == dec_digit(m % 10));
        assert(n % 10 == m % 10);
        if n >= 10 && m >= 10 {
            assert(dec(n).drop_last() =~= dec(n / 10));
            assert(dec(m).drop_last() =~= dec(m / 10));
            dec_is_injective(n / 10, m / 10);
        } else if n >= 10 {
            dec_has_only_digits(n / 10);
            assert(dec(n).len() == dec(n / 10).len() + 1);
        } else if m >= 10 {
            dec_has_only_digits(m / 10);
            assert(dec(m).len() == dec(m / 10).len() + 1);
        }
    }
}

/// A text with a separator and another text behind it gives back both, where the separator
/// does not stand in the latter.
pub proof fn separated_is_injective(a: Seq<char>, x: Seq<char>, b: Seq<char>, y: Seq<char>, sep: char)
    requires
        !x.contains(sep),
        !y.contains(sep),
    ensures
        a + seq![sep] + x == b + seq![sep] + y ==> a == b && x == y,
{
    let s = a + seq![sep] + x;
    let t = b + seq![sep] + y;
    if s == t {
        assert(s.len() == a.len() + 1 + x.len());
        assert(t.len() == b.len() + 1 + y.len());
        assert(s[a.len() as int] == sep);
        assert(t[b.len() as int] == sep);
        if a.len() < b.len() {
            assert(s[b.len() as int] == x[b.len() - a.len() - 1]);
            assert(false);
        }
        if b.len() < a.len() {
            assert(t[a.len() as int] == y[a.len() - b.len() - 1]);
            assert(false);
        }
        assert(a =~= s.take(a.len() as int));
        assert(b =~= t.take(a.len() as int));
        assert(x =~= s.skip(a.len() + 1int));
        assert(y =~= t.skip(a.len() + 1int));
    }
}

/// A text with a colon and a number behind it gives back both.
pub proof fn numbered_is_injective(a: Seq<char>, n: nat, b: Seq<char>, m: nat)
    ensures
        a + ":"@ + dec(n) == b + ":"@ + dec(m) ==> a == b && n == m,
{
    reveal_strlit(":");
    assert(":"@ =~= seq![':']);
    dec_has_only_digits(n);
    dec_has_only_digits(m);
    separated_is_injective(a, dec(n), b, dec(m), ':');
    dec_is_injective(n, m);
}

/// The hexadecimal digit of `d`, in lower or in upper case.
pub open spec fn hex_digit(d: nat, upper: bool) -> char {
    if d < 10 {
        (48 + d) as char
    } else if upper {
        (55 + d) as char
    } else {
        (87 + d) as char
    }
}

/// The low `width` hexadecimal digits of `n`, most significant first.
pub open spec fn hex_cased(n: nat, width: nat, upper: bool) -> Seq<char>
    decreases width,
{
    if width == 0 {
        Seq::empty()
    } else {
        hex_cased(n / 16, (width - 1) as nat, upper).push(hex_digit(n % 16, upper))
    }
}

/// The low `width` hexadecimal digits of `n` in lower case.
pub open spec fn hex(n: nat, width: nat) -> Seq<char> {
    hex_cased(n, width, false)
}

/// The low `width` hexadecimal digits of `n` in lower case, after `0x`.
pub open spec fn hex0x(n: nat, width: nat) -> Seq<char> {
    "0x"@ + hex(n, width)
}

/// An unsigned machine integer that can be written as a numeral.
pub trait Unsigned: Sized + Copy {
    /// The number itself.
    spec fn value(self) -> nat;

    /// The number as a `u64`.
    fn widen(self) -> (r: u64)
        ensures
            r == self.value(),
    ;
}

impl Unsigned for u8 {
    open spec fn value(self) -> nat {
        self as nat
    }

    fn widen(self) -> (r: u64) {
        self as u64
    }
}

impl Unsigned for u16 {
    open spec fn value(self) -> nat {
        self as nat
    }

    fn widen(self) -> (r: u64) {
        self as u64
    }
}

impl Unsigned for u32 {
    open spec fn value(self) -> nat {
        self as nat
    }

    fn widen(self) -> (r: u64) {
        self as u64
    }
}

impl Unsigned for u64 {
    open spec fn value(self) -> nat {
        self as nat
    }

    fn widen(self) -> (r: u64) {
        self
    }
}

impl Unsigned for usize {
    open spec fn value(self) -> nat {
        self as nat
    }

    fn widen(self) -> (r: u64) {
        self as u64
    }
}

fn dec_u64(n: u64) -> (r: String)
    ensures
        r@ == dec(n as nat),
    decreases n,
{
    let d: u8 = (n % 10) as u8;
    let mut s = if n < 10 {
        String::new()
    } else {
        dec_u64(n / 10)
    };
    s.push((48 + d) as char);
    assert(n < 10 ==> s@ =~= seq![dec_digit(n as nat)]);
    s
}

/// The decimal numeral of `n`.
pub fn dec_text<N: Unsigned>(n: N) -> (r: String)
    ensures
        r@ == dec(n.value()),
{
    dec_u64(n.widen())
}

fn hex_u64(n: u64, width: usize, upper: bool) -> (r: String)
    ensures
        r@ == hex_cased(n as nat, width as nat, upper),
    decreases width,
{
    if width == 0 {
        String::new()
    } else {
        let mut s = hex_u64(n / 16, width - 1, upper);
        let d: u8 = (n % 16) as u8;
        s.push(
            if d < 10 {
                (48 + d) as char
            } else if upper {
                (55 + d) as char
            } else {
                (87 + d) as char
            },
        );
        s
    }
}

/// The low `width` hexadecimal digits of `n` in lower case.
pub fn hex_text<N: Unsigned>(n: N, width: usize) -> (r: String)
    ensures
        r@ == hex(n.value(), width as nat),
{
    hex_u64(n.widen(), width, false)
}

/// The low `width` hexadecimal digits of `n` in upper case.
pub fn hex_upper_text<N: Unsigned>(n: N, width: usize) -> (r: String)
    ensures
        r@ == hex_cased(n.value(), width as nat, true),
{
    hex_u64(n.widen(), width, true)
}

/// The low `width` hexadecimal digits of `n` in lower case, after `0x`.
pub fn hex0x_text<N: Unsigned>(n: N, width: usize) -> (r: String)
    ensures
        r@ == hex0x(n.value(), width as nat),
{
    cat("0x", hex_text(n, width).as_str())
}

/// The decimal numeral of an optional number.
pub open spec fn opt_dec<N: Unsigned>(n: Option<N>) -> Option<Seq<char>> {
    match n {
        Some(v) => Some(dec(v.value())),
        None => None,
    }
}

/// The decimal numeral of an optional number.
pub fn opt_dec_text<N: Unsigned>(n: Option<N>) -> (r: Option<String>)
    ensures
        opt_view(r) == opt_dec(n),
{
    match n {
        Some(v) => Some(dec_text(v)),
        None => None,
    }
}

/// The `0x` numeral of an optional number.
pub open spec fn opt_hex0x<N: Unsigned>(n: Option<N>, width: nat) -> Option<Seq<char>> {
    match n {
        Some(v) => Some(hex0x(v.value(), width)),
        None => None,
    }
}

// ---------------------------------------------------------------------------
// Views of optional strings and of lists of strings
// ---------------------------------------------------------------------------

/// The characters of an optional string.
pub open spec fn opt_view(s: Option<String>) -> Option<Seq<char>> {
    match s {
        Some(t) => Some(t@),
        None => None,
    }
}

/// The characters of an optional string slice.
pub open spec fn opt_str(s: Option<&str>) -> Option<Seq<char>> {
    match s {
        Some(t) => Some(t@),
        None => None,
    }
}

/// The characters of each string of a list.
pub open spec fn texts(v: Seq<String>) -> Seq<Seq<char>> {
    Seq::new(v.len(), |i: int| v[i]@)
}

/// An owned copy of an optional string slice.
pub fn opt_owned(s: Option<&str>) -> (r: Option<String>)
    ensures
        opt_view(r) == opt_str(s),
{
    match s {
        Some(t) => Some(t.to_owned()),
        None => None,
    }
}

/// A copy of an optional string.
pub fn opt_copy(s: &Option<String>) -> (r: Option<String>)
    ensures
        opt_view(r) == opt_view(*s),
{
    match s {
        Some(t) => Some(t.as_str().to_owned()),
        None => None,
    }
}

/// A borrowed optional string.
pub fn opt_as_str(s: &Option<String>) -> (r: Option<&str>)
    ensures
        opt_str(r) == opt_view(*s),
{
    match s {
        Some(t) => Some(t.as_str()),
        None => None,
    }
}

/// The empty list of strings.
pub fn no_texts() -> (r: Vec<String>)
    ensures
        texts(r@) == Seq::<Seq<char>>::empty(),
{
    let v: Vec<String> = Vec::new();
    assert(texts(v@) =~= Seq::<Seq<char>>::empty());
    v
}

/// The list that holds one string.
pub fn one_text(s: String) -> (r: Vec<String>)
    ensures
        texts(r@) == seq![s@],
{
    let mut v: Vec<String> = Vec::new();
    v.push(s);
    assert(texts(v@) =~= seq![s@]);
    v
}

/// Appends one string to a list.
pub fn push_text(v: &mut Vec<String>, s: String)
    ensures
        texts(final(v)@) == texts(old(v)@).push(s@),
{
    v.push(s);
    assert(texts(v@) =~= texts(old(v)@).push(s@));
}

/// A copy of a list of strings.
pub fn copy_texts(v: &Vec<String>) -> (r: Vec<String>)
    ensures
        texts(r@) == texts(v@),
{
    let mut out: Vec<String> = Vec::new();
    let mut i: usize = 0;
    while i < v.len()
        invariant
            i <= v.len(),
            out.len() == i,
            forall|j: int| 0 <= j < i ==> out@[j]@ == v@[j]@,
        decreases v.len() - i,
    {
        out.push(v[i].as_str().to_owned());
        i = i + 1;
    }
    assert(texts(out@) =~= texts(v@));
    out
}

// ---------------------------------------------------------------------------
// Joining
// ---------------------------------------------------------------------------

/// `a` followed by `b`.
pub fn cat(a: &str, b: &str) -> (r: String)
    ensures
        r@ == a@ + b@,
{
    let mut s = a.to_owned();
    s.append(b);
    s
}

/// The parts in order, with `sep` between neighbours.
pub open spec fn joined(parts: Seq<Seq<char>>, sep: Seq<char>) -> Seq<char>
    decreases parts.len(),
{
    if parts.len() == 0 {
        Seq::empty()
    } else if parts.len() == 1 {
        parts[0]
    } else {
        joined(parts.drop_last(), sep) + sep + parts.last()
    }
}

/// The parts in order, with `sep` between neighbours.
pub fn join_texts(parts: &Vec<String>, sep: &str) -> (r: String)
    ensures
        r@ == joined(texts(parts@), sep@),
{
    let mut s = String::new();
    let mut i: usize = 0;
    while i < parts.len()
        invariant
            i <= parts.len(),
            s@ == joined(texts(parts@).take(i as int), sep@),
        decreases parts.len() - i,
    {
        if i > 0 {
            s.append(sep);
        }
        s.append(parts[i].as_str());
        proof {
            let next = texts(parts@).take(i + 1);
            assert(next.drop_last() =~= texts(parts@).take(i as int));
            assert(next.last() == parts@[i as int]@);
            if i == 0 {
                assert(s@ =~= parts@[0]@);
            }
        }
        i = i + 1;
    }
    assert(texts(parts@).take(i as int) =~= texts(parts@));
    s
}

// ---------------------------------------------------------------------------
// Comparison and search
// ---------------------------------------------------------------------------

/// Whether two strings hold the same characters.
pub fn same_text(a: &str, b: &str) -> (r: bool)
    ensures
        r == (a@ == b@),
{
    a.to_owned() == b.to_owned()
}

/// The characters of a string.
pub fn chars_of(s: &str) -> (r: Vec<char>)
    ensures
        r@ == s@,
{
    let mut v: Vec<char> = Vec::new();
    for c in it: s.chars()
        invariant
            v@ == it.seq().take(it.index() as int),
            it.seq() == s@,
    {
        v.push(c);
    }
    v
}

/// Whether a text stands before another in lexicographic order.
pub open spec fn precedes(a: Seq<char>, b: Seq<char>) -> bool
    decreases a.len(),
{
    if a.len() == 0 || b.len() == 0 {
        a.len() < b.len()
    } else if a[0] != b[0] {
        a[0] < b[0]
    } else {
        precedes(a.drop_first(), b.drop_first())
    }
}

/// Whether a text stands before another in lexicographic order.
pub fn precedes_text(a: &str, b: &str) -> (r: bool)
    ensures
        r == precedes(a@, b@),
{
    let x = chars_of(a);
    let y = chars_of(b);
    let mut i: usize = 0;
    assert(a@.skip(0) =~= a@);
    assert(b@.skip(0) =~= b@);
    while i < x.len() && i < y.len()
        invariant
            i <= x.len(),
            i <= y.len(),
            x@ == a@,
            y@ == b@,
            precedes(a@, b@) == precedes(a@.skip(i as int), b@.skip(i as int)),
        decreases x.len() - i,
    {
        if x[i] != y[i] {
            return x[i] < y[i];
        }
        assert(a@.skip(i as int).drop_first() =~= a@.skip(i + 1));
        assert(b@.skip(i as int).drop_first() =~= b@.skip(i + 1));
        i = i + 1;
    }
    x.len() < y.len()
}

/// Of two texts that differ one stands before the other, and not the other way round; no text
/// stands before itself.
pub proof fn precedes_is_total(a: Seq<char>, b: Seq<char>)
    ensures
        a != b ==> precedes(a, b) != precedes(b, a),
        a == b ==> !precedes(a, b),
    decreases a.len(),
{
    if a.len() > 0 && b.len() > 0 && a[0] == b[0] {
        precedes_is_total(a.drop_first(), b.drop_first());
        if a.drop_first() == b.drop_first() {
            assert(a =~= seq![a[0]] + a.drop_first());
            assert(b =~= seq![b[0]] + b.drop_first());
        }
    } else if a.len() == 0 && b.len() == 0 {
        assert(a =~= b);
    }
}

/// What stands before a text stands before all that the text stands before.
pub proof fn precedes_is_transitive(a: Seq<char>, b: Seq<char>, c: Seq<char>)
    requires
        precedes(a, b),
        precedes(b, c),
    ensures
        precedes(a, c),
    decreases a.len(),
{
    if a.len() > 0 && b.len() > 0 && c.len() > 0 && a[0] == b[0] && b[0] == c[0] {
        precedes_is_transitive(a.drop_first(), b.drop_first(), c.drop_first());
    }
}

/// The string made of the given characters.
pub fn text_of(v: &[char]) -> (r: String)
    ensures
        r@ == v@,
{
    let mut s = String::new();
    let mut i: usize = 0;
    while i < v.len()
        invariant
            i <= v.len(),
            s@ == v@.take(i as int),
        decreases v.len() - i,
    {
        s.push(v[i]);
        assert(v@.take(i + 1) =~= v@.take(i as int).push(v@[i as int]));
        i = i + 1;
    }
    assert(v@.take(i as int) =~= v@);
    s
}

/// Whether `pat` stands in `s` at index `i`.
pub open spec fn occurs_at<T>(s: Seq<T>, pat: Seq<T>, i: int) -> bool {
    &&& 0 <= i
    &&& i + pat.len() <= s.len()
    &&& s.subrange(i, i + pat.len()) == pat
}

/// Whether `pat` stands somewhere in `s`.
pub open spec fn occurs<T>(s: Seq<T>, pat: Seq<T>) -> bool {
    exists|i: int| occurs_at(s, pat, i)
}

fn chars_at(s: &Vec<char>, pat: &Vec<char>, i: usize) -> (r: bool)
    requires
        i + pat.len() <= s.len(),
    ensures
        r == occurs_at(s@, pat@, i as int),
{
    let mut j: usize = 0;
    while j < pat.len()
        invariant
            i + pat.len() <= s.len(),
            j <= pat.len(),
            forall|k: int| 0 <= k < j ==> s@[i + k] == pat@[k],
        decreases pat.len() - j,
    {
        if s[i + j] != pat[j] {
            assert(s@.subrange(i as int, i + pat.len())[j as int] != pat@[j as int]);
            return false;
        }
        j = j + 1;
    }
    assert(s@.subrange(i as int, i + pat.len()) =~= pat@);
    true
}

/// The first index at which `pat` stands in `s`.
pub fn find_text(s: &Vec<char>, pat: &Vec<char>) -> (r: Option<usize>)
    ensures
        match r {
            Some(i) => occurs_at(s@, pat@, i as int) && forall|j: int|
                0 <= j < i ==> !#[trigger] occurs_at(s@, pat@, j),
            None => !occurs(s@, pat@),
        },
{
    let n = s.len();
    let m = pat.len();
    let mut i: usize = 0;
    while i <= n && m <= n - i
        invariant
            n == s.len(),
            m == pat.len(),
            i <= n + 1,
            forall|j: int| 0 <= j < i ==> !#[trigger] occurs_at(s@, pat@, j),
        decreases n + 1 - i,
    {
        if chars_at(s, pat, i) {
            return Some(i);
        }
        if i == n {
            return None;
        }
        i = i + 1;
    }
    None
}

/// Whether `pat` stands somewhere in `s`.
pub fn contains_text(s: &str, pat: &str) -> (r: bool)
    ensures
        r == occurs(s@, pat@),
{
    let r = find_text(&chars_of(s), &chars_of(pat));
    assert(r is Some ==> occurs_at(s@, pat@, r->0 as int));
    r.is_some()
}

/// Whether `s` begins with `pat`.
pub fn starts_with_text(s: &str, pat: &str) -> (r: bool)
    ensures
        r == occurs_at(s@, pat@, 0),
{
    let cs = chars_of(s);
    let ps = chars_of(pat);
    ps.len() <= cs.len() && chars_at(&cs, &ps, 0)
}

/// Whether the first two characters of `pat` stand nowhere together in `s` from `i` on with room
/// for the rest of `pat`.
pub open spec fn absent_from(s: Seq<char>, pat: Seq<char>, i: int) -> bool
    decreases s.len() - i,
{
    if i < 0 || i + pat.len() > s.len() || i >= s.len() {
        true
    } else {
        (s[i] != pat[0] || s[i + 1] != pat[1]) && absent_from(s, pat, i + 1)
    }
}

/// Where its first two characters are absent, a text does not occur.
pub proof fn absent_does_not_occur(s: Seq<char>, pat: Seq<char>)
    requires
        pat.len() >= 2,
        absent_from(s, pat, 0),
    ensures
        !occurs(s, pat),
{
    if occurs(s, pat) {
        let k = choose|k: int| occurs_at(s, pat, k);
        absent_later(s, pat, 0, k);
        assert(s.subrange(k, k + pat.len())[0] == s[k]);
        assert(s.subrange(k, k + pat.len())[1] == s[k + 1]);
    }
}

proof fn absent_later(s: Seq<char>, pat: Seq<char>, i: int, k: int)
    requires
        pat.len() >= 2,
        0 <= i <= k,
        k + pat.len() <= s.len(),
        absent_from(s, pat, i),
    ensures
        absent_from(s, pat, k),
    decreases k - i,
{
    if i < k {
        absent_later(s, pat, i + 1, k);
    }
}

/// The first place from `i` on where `pat` stands in `s`.
pub open spec fn first_from(s: Seq<char>, pat: Seq<char>, i: int) -> Option<int>
    decreases s.len() - i,
{
    if i < 0 || i >= s.len() {
        None
    } else if occurs_at(s, pat, i) {
        Some(i)
    } else {
        first_from(s, pat, i + 1)
    }
}

/// The part of `s` before the first `pat`, or all of it where `pat` does not stand in it.
pub open spec fn before(s: Seq<char>, pat: Seq<char>) -> Seq<char> {
    match first_from(s, pat, 0) {
        Some(i) => s.take(i),
        None => s,
    }
}

/// The part of `s` before the first `pat`, or all of it where `pat` does not stand in it.
pub fn before_text(s: &str, pat: &str) -> (r: String)
    ensures
        r@ == before(s@, pat@),
{
    let cs = chars_of(s);
    let ps = chars_of(pat);
    let mut i: usize = 0;
    while i < cs.len()
        invariant
            i <= cs.len(),
            cs@ == s@,
            ps@ == pat@,
            first_from(s@, pat@, 0) == first_from(s@, pat@, i as int),
        decreases cs.len() - i,
    {
        if cs.len() - i >= ps.len() && chars_at(&cs, &ps, i) {
            let r = text_of(vstd::slice::slice_subrange(cs.as_slice(), 0, i));
            assert(r@ =~= s@.take(i as int));
            return r;
        }
        i = i + 1;
    }
    s.to_owned()
}

/// Whether `s` ends with `pat`.
pub open spec fn ends_with(s: Seq<char>, pat: Seq<char>) -> bool {
    occurs_at(s, pat, s.len() - pat.len())
}

/// Whether `s` ends with `pat`.
pub fn ends_with_text(s: &str, pat: &str) -> (r: bool)
    ensures
        r == ends_with(s@, pat@),
{
    let cs = chars_of(s);
    let ps = chars_of(pat);
    if cs.len() < ps.len() {
        return false;
    }
    chars_at(&cs, &ps, cs.len() - ps.len())
}

// ---------------------------------------------------------------------------
// Text from bytes
// ---------------------------------------------------------------------------

/// What `String::from_utf8_lossy` makes of a byte sequence.
pub uninterp spec fn lossy(bytes: Seq<u8>) -> Seq<char>;

/// `String::from_utf8_lossy` is a function of the bytes alone, and gives valid UTF-8 back
/// unchanged. Each character stands for a valid sequence of the input or is the replacement
/// character, so bytes without a zero byte give no NUL. Where the replacement characters stand in
/// other input is left to its name.
#[verifier::external_body]
pub(crate) fn lossy_text(bytes: &[u8]) -> (r: String)
    ensures
        r@ == lossy(bytes@),
        vstd::utf8::valid_utf8(bytes@) ==> r@ == vstd::utf8::decode_utf8(bytes@),
        !bytes@.contains(0) ==> !r@.contains('\0'),
{
    String::from_utf8_lossy(bytes).into_owned()
}

/// Two lower-case hexadecimal digits for each byte, in order.
pub open spec fn hex_bytes(b: Seq<u8>) -> Seq<char>
    decreases b.len(),
{
    if b.len() == 0 {
        Seq::empty()
    } else {
        hex_bytes(b.drop_last()) + hex(b.last() as nat, 2)
    }
}

/// `hex::encode` writes each byte as two lower-case hexadecimal digits, in order.
#[verifier::external_body]
pub(crate) fn hex_encode(b: &[u8]) -> (r: String)
    ensures
        r@ == hex_bytes(b@),
{
    ::hex::encode(b)
}

/// The Unicode property `White_Space`.
pub open spec fn is_white_space(c: char) -> bool {
    let n = c as int;
    ||| 0x9 <= n <= 0xd
    ||| n == 0x20
    ||| n == 0x85
    ||| n == 0xa0
    ||| n == 0x1680
    ||| 0x2000 <= n <= 0x200a
    ||| n == 0x2028
    ||| n == 0x2029
    ||| n == 0x202f
    ||| n == 0x205f
    ||| n == 0x3000
}

/// `s` without the white space at its start.
pub open spec fn trim_front(s: Seq<char>) -> Seq<char>
    decreases s.len(),
{
    if s.len() > 0 && is_white_space(s[0]) {
        trim_front(s.drop_first())
    } else {
        s
    }
}

/// `s` without the white space at its end.
pub open spec fn trim_back(s: Seq<char>) -> Seq<char>
    decreases s.len(),
{
    if s.len() > 0 && is_white_space(s.last()) {
        trim_back(s.drop_last())
    } else {
        s
    }
}

/// `s` without the white space at its two ends.
pub open spec fn trimmed(s: Seq<char>) -> Seq<char> {
    trim_back(trim_front(s))
}

fn white_space(c: char) -> (r: bool)
    ensures
        r == is_white_space(c),
{
    let n: u32 = c as u32;
    (0x9 <= n && n <= 0xd) || n == 0x20 || n == 0x85 || n == 0xa0 || n == 0x1680 || (0x2000 <= n
        && n <= 0x200a) || n == 0x2028 || n == 0x2029 || n == 0x202f || n == 0x205f || n == 0x3000
}

/// The text without the white space at its two ends.
pub fn trim_text(s: &str) -> (r: String)
    ensures
        r@ == trimmed(s@),
{
    let cs = chars_of(s);
    let mut lo: usize = 0;
    assert(s@.skip(0) =~= s@);
    while lo < cs.len() && white_space(cs[lo])
        invariant
            lo <= cs.len(),
            cs@ == s@,
            trim_front(s@) == trim_front(s@.skip(lo as int)),
        decreases cs.len() - lo,
    {
        assert(s@.skip(lo as int).drop_first() =~= s@.skip(lo + 1));
        lo = lo + 1;
    }
    let mut hi: usize = cs.len();
    assert(s@.subrange(lo as int, hi as int) =~= s@.skip(lo as int));
    while hi > lo && white_space(cs[hi - 1])
        invariant
            lo <= hi <= cs.len(),
            cs@ == s@,
            trimmed(s@) == trim_back(s@.subrange(lo as int, hi as int)),
        decreases hi - lo,
    {
        assert(s@.subrange(lo as int, hi as int).drop_last() =~= s@.subrange(
            lo as int,
            hi - 1,
        ));
        hi = hi - 1;
    }
    text_of(vstd::slice::slice_subrange(cs.as_slice(), lo, hi))
}

proof fn trim_front_facts(s: Seq<char>)
    ensures
        trim_front(s).len() > 0 ==> !is_white_space(trim_front(s)[0]),
        forall|x: char| trim_front(s).contains(x) ==> s.contains(x),
    decreases s.len(),
{
    if s.len() > 0 && is_white_space(s[0]) {
        let d = s.drop_first();
        trim_front_facts(d);
        assert forall|x: char| trim_front(s).contains(x) implies s.contains(x) by {
            let k = choose|k: int| 0 <= k < d.len() && d[k] == x;
            assert(d.contains(x));
            assert(s[k + 1] == x);
        }
    }
}

proof fn trim_back_facts(s: Seq<char>)
    ensures
        trim_back(s).len() > 0 ==> !is_white_space(trim_back(s).last()) && trim_back(s)[0] == s[0],
        trim_back(s).len() <= s.len(),
        forall|x: char| trim_back(s).contains(x) ==> s.contains(x),
    decreases s.len(),
{
    if s.len() > 0 && is_white_space(s.last()) {
        let d = s.drop_last();
        trim_back_facts(d);
        assert forall|x: char| trim_back(s).contains(x) implies s.contains(x) by {
            let k = choose|k: int| 0 <= k < d.len() && d[k] == x;
            assert(d.contains(x));
            assert(s[k] == x);
        }
    }
}

/// A trimmed text has no white space at its ends, and no character that was not there before.
pub proof fn trimmed_text_has_bare_ends(s: Seq<char>)
    ensures
        trimmed(s).len() > 0 ==> !is_white_space(trimmed(s)[0]) && !is_white_space(
            trimmed(s).last(),
        ),
        forall|x: char| trimmed(s).contains(x) ==> s.contains(x),
{
    trim_front_facts(s);
    trim_back_facts(trim_front(s));
}

} // verus!
