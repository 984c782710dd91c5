//! The module parameter parser: splits a command line into `name[=value]`
//! tokens and hands each value to the typed setter of the parameter it names.
use vstd::prelude::*;
use vstd::string::{StrSliceExecFns, StringSliceAdditionalSpecFns};

verus! {

/// The whitespace that separates tokens.
pub open spec fn is_space(b: u8) -> bool {
    b == 0x20 || b == 0x09 || b == 0x0a || b == 0x0c || b == 0x0d
}

/// The first index from `pos` that holds no separating whitespace.
pub open spec fn skip_spaces_spec(s: Seq<u8>, pos: int) -> int
    decreases s.len() - pos,
{
    if pos < 0 || pos >= s.len() || !is_space(s[pos]) {
        pos
    } else {
        skip_spaces_spec(s, pos + 1)
    }
}

/// Where the token scan that starts at `i` stops: at a NUL, at the end, or
/// at whitespace outside double quotes.
pub open spec fn scan_end(s: Seq<u8>, i: int, in_quote: bool) -> int
    decreases s.len() - i,
{
    if i < 0 || i >= s.len() || s[i] == 0 || (is_space(s[i]) && !in_quote) {
        i
    } else {
        scan_end(s, i + 1, if s[i] == 0x22 { !in_quote } else { in_quote })
    }
}

/// The first `=` in `s[from..to]`.
pub open spec fn first_equals(s: Seq<u8>, from: int, to: int) -> Option<int>
    decreases to - from,
{
    if from >= to {
        None
    } else if s[from] == 0x3d {
        Some(from)
    } else {
        first_equals(s, from + 1, to)
    }
}

/// One token of the command line at `pos`: its name, its value if it has an
/// `=`, and where the next token starts.
pub open spec fn next_arg_spec(s: Seq<u8>, pos: int) -> (Seq<u8>, Option<Seq<u8>>, int) {
    let quoted = s[pos] == 0x22;
    let start = if quoted { pos + 1 } else { pos };
    let idx = scan_end(s, start, quoted);
    let equals = first_equals(s, start, idx);
    let val_start = match equals {
        Some(e) => if s[e + 1] == 0x22 { e + 2 } else { e + 1 },
        None => 0,
    };
    let val_quoted = match equals {
        Some(e) => s[e + 1] == 0x22,
        None => false,
    };
    let cut = idx > start && s[idx - 1] == 0x22 && (val_quoted || quoted);
    let name_end = match equals {
        Some(e) => e,
        None => if cut { idx - 1 } else { idx },
    };
    let val = match equals {
        Some(e) => Some(s.subrange(val_start, if cut && idx - 1 >= val_start { idx - 1 } else { idx })),
        None => None,
    };
    let next = if s[idx] != 0 { idx + 1 } else { idx };
    (s.subrange(start, name_end), val, skip_spaces_spec(s, next))
}

proof fn lemma_scan_end_ge(s: Seq<u8>, i: int, q: bool)
    ensures
        scan_end(s, i, q) >= i,
    decreases s.len() - i,
{
    if !(i < 0 || i >= s.len() || s[i] == 0 || (is_space(s[i]) && !q)) {
        lemma_scan_end_ge(s, i + 1, if s[i] == 0x22 { !q } else { q });
    }
}

proof fn lemma_skip_before_nul(s: Seq<u8>, p: int)
    requires
        nul_terminated(s),
        0 <= p < s.len(),
    ensures
        p <= skip_spaces_spec(s, p) < s.len(),
    decreases s.len() - p,
{
    if is_space(s[p]) {
        lemma_skip_before_nul(s, p + 1);
    }
}

/// A NUL-terminated buffer.
pub open spec fn nul_terminated(s: Seq<u8>) -> bool {
    s.len() > 0 && s.last() == 0
}

/// Skips separating whitespace from `pos`.
pub fn skip_spaces(args: &Vec<u8>, pos: usize) -> (r: usize)
    requires
        pos <= args@.len(),
    ensures
        r as int == skip_spaces_spec(args@, pos as int),
        pos <= r <= args@.len(),
{
    let mut i = pos;
    while i < args.len() && is_space_byte(args[i])
        invariant
            pos <= i <= args@.len(),
            skip_spaces_spec(args@, i as int) == skip_spaces_spec(args@, pos as int),
        decreases args@.len() - i,
    {
        i += 1;
    }
    i
}

pub fn is_space_byte(b: u8) -> (r: bool)
    ensures
        r == is_space(b),
{
    b == 0x20 || b == 0x09 || b == 0x0a || b == 0x0c || b == 0x0d
}

/// The bytes `s[from..to]`.
pub fn copy_range(s: &Vec<u8>, from: usize, to: usize) -> (r: Vec<u8>)
    requires
        from <= to <= s@.len(),
    ensures
        r@ == s@.subrange(from as int, to as int),
{
    let mut r: Vec<u8> = Vec::new();
    let mut i = from;
    while i < to
        invariant
            from <= i <= to <= s@.len(),
            r@ == s@.subrange(from as int, i as int),
        decreases to - i,
    {
        r.push(s[i]);
        i += 1;
        assert(r@ =~= s@.subrange(from as int, i as int));
    }
    r
}

/// Splits the token at `pos` of the NUL-terminated `args` into its name and
/// optional value, and gives where the next token starts. Double quotes
/// around the whole token or around the value are removed; they escape
/// nothing.
pub fn next_arg(args: &Vec<u8>, pos: usize) -> (r: (Vec<u8>, Option<Vec<u8>>, usize))
    requires
        nul_terminated(args@),
        pos < args@.len(),
    ensures
        r.0@ == next_arg_spec(args@, pos as int).0,
        r.1 is Some <==> next_arg_spec(args@, pos as int).1 is Some,
        r.1 matches Some(v) ==> next_arg_spec(args@, pos as int).1 == Some(v@),
        r.2 as int == next_arg_spec(args@, pos as int).2,
        pos <= r.2 < args@.len(),
{
    let len = args.len();
    let quoted = args[pos] == 0x22;
    let start = if quoted { pos + 1 } else { pos };
    proof {
        lemma_scan_end_ge(args@, start as int, quoted);
    }
    let mut in_quote = quoted;
    let mut equals: Option<usize> = None;
    let mut idx = start;
    while idx < len && args[idx] != 0 && !(is_space_byte(args[idx]) && !in_quote)
        invariant
            len == args@.len(),
            nul_terminated(args@),
            start <= idx < len,
            scan_end(args@, idx as int, in_quote) == scan_end(args@, start as int, quoted),
            first_equals(args@, start as int, scan_end(args@, start as int, quoted)) == match equals {
                Some(e) => Some(e as int),
                None => first_equals(args@, idx as int, scan_end(args@, start as int, quoted)),
            },
            equals matches Some(e) ==> start <= e < idx,
        decreases len - idx,
    {
        proof {
            lemma_scan_end_ge(args@, idx + 1, if args@[idx as int] == 0x22 { !in_quote } else { in_quote });
        }
        if equals.is_none() && args[idx] == 0x3d {
            equals = Some(idx);
        }
        if args[idx] == 0x22 {
            in_quote = !in_quote;
        }
        idx += 1;
    }
    assert(idx as int == scan_end(args@, start as int, quoted));
    assert(idx < len);
    let cut = idx > start && args[idx - 1] == 0x22 && (quoted || match equals {
        Some(e) => args[e + 1] == 0x22,
        None => false,
    });
    let (name_end, val) = match equals {
        Some(e) => {
            let val_start = if args[e + 1] == 0x22 { e + 2 } else { e + 1 };
            let val_end = if cut && idx - 1 >= val_start { idx - 1 } else { idx };
            (e, Some(copy_range(args, val_start, val_end)))
        },
        None => (if cut { idx - 1 } else { idx }, None),
    };
    let name = copy_range(args, start, name_end);
    let next = if args[idx] != 0 { idx + 1 } else { idx };
    proof {
        lemma_skip_before_nul(args@, next as int);
    }
    let next = skip_spaces(args, next);
    (name, val, next)
}

/// `-` and `_` stand for the same character in parameter names.
pub open spec fn dash_to_underscore(c: u8) -> u8 {
    if c == 0x2d { 0x5f } else { c }
}

pub fn dash2underscore(c: u8) -> (r: u8)
    ensures
        r == dash_to_underscore(c),
{
    if c == 0x2d { 0x5f } else { c }
}

/// The first `n` bytes of `a` and `b` agree, with `-` and `_` taken as equal.
pub open spec fn names_agree(a: Seq<u8>, b: Seq<u8>, n: int) -> bool {
    a.len() >= n && b.len() >= n && forall|i: int| 0 <= i < n ==> dash_to_underscore(#[trigger] a[i]) == dash_to_underscore(b[i])
}

/// Two parameter names are the same name.
pub open spec fn same_name(a: Seq<u8>, b: Seq<u8>) -> bool {
    a.len() == b.len() && names_agree(a, b, a.len() as int)
}

pub fn parameqn(a: &Vec<u8>, b: &Vec<u8>, n: usize) -> (r: bool)
    ensures
        r == names_agree(a@, b@, n as int),
{
    if a.len() < n || b.len() < n {
        return false;
    }
    let mut i: usize = 0;
    while i < n
        invariant
            i <= n <= a@.len(),
            n <= b@.len(),
            forall|j: int| 0 <= j < i ==> dash_to_underscore(#[trigger] a@[j]) == dash_to_underscore(b@[j]),
        decreases n - i,
    {
        if dash2underscore(a[i]) != dash2underscore(b[i]) {
            return false;
        }
        i += 1;
    }
    true
}

/// Whether two parameter names are equal, `-` and `_` being the same.
pub fn parameq(a: &Vec<u8>, b: &Vec<u8>) -> (r: bool)
    ensures
        r == same_name(a@, b@),
{
    a.len() == b.len() && parameqn(a, b, a.len())
}

/// Errors of the parameter surface, by their errno names.
#[derive(Debug, Clone, Copy, PartialEq, Eq, Structural)]
pub enum ParamError {
    /// A value is missing, malformed or out of range.
    EINVAL,
    /// No declared parameter has this name.
    ENOENT,
    /// A string value is too long.
    ENOSPC,
    /// A value is out of range.
    ERANGE,
}

/// Flags of a parameter's operations.
#[allow(non_camel_case_types)]
#[derive(Debug, Clone, Copy, PartialEq, Eq, Structural)]
pub enum ParamOpsFlags {
    /// The parameter may be given without a value (`foo` instead of `foo=1`).
    KERNEL_PARAM_OPS_FL_NOARG,
}

impl ParamOpsFlags {
    pub open spec fn spec_bits(self) -> u32 {
        1
    }

    pub fn bits(&self) -> (r: u32)
        ensures
            r == self.spec_bits(),
    {
        1
    }
}

/// The longest string value a `charp` parameter takes.
pub const MAX_CHARP_LEN: usize = 1024;

/// The whitespace that surrounding values may carry.
pub open spec fn is_trim_space(b: u8) -> bool {
    is_space(b) || b == 0x0b
}

/// The number of leading whitespace bytes.
pub open spec fn lead_len(s: Seq<u8>) -> int
    decreases s.len(),
{
    if s.len() > 0 && is_trim_space(s[0]) {
        1 + lead_len(s.skip(1))
    } else {
        0
    }
}

/// `s` without trailing whitespace.
pub open spec fn trim_end(s: Seq<u8>) -> Seq<u8>
    decreases s.len(),
{
    if s.len() > 0 && is_trim_space(s.last()) {
        trim_end(s.drop_last())
    } else {
        s
    }
}

/// `s` without leading and trailing whitespace.
pub open spec fn trim(s: Seq<u8>) -> Seq<u8> {
    trim_end(s.skip(lead_len(s)))
}

/// The value of a digit character in any base up to 36; 99 for others.
pub open spec fn digit_value(b: u8) -> int {
    if 0x30 <= b <= 0x39 {
        b - 0x30
    } else if 0x61 <= b <= 0x7a {
        b - 0x61 + 10
    } else if 0x41 <= b <= 0x5a {
        b - 0x41 + 10
    } else {
        99
    }
}

/// A non-empty run of digits of `radix`.
pub open spec fn all_digits(s: Seq<u8>, radix: int) -> bool {
    s.len() > 0 && forall|i: int| 0 <= i < s.len() ==> digit_value(#[trigger] s[i]) < radix
}

/// The number that digits of `radix` spell.
pub open spec fn digits_value(s: Seq<u8>, radix: int) -> int
    decreases s.len(),
{
    if s.len() == 0 {
        0
    } else {
        digits_value(s.drop_last(), radix) * radix + digit_value(s.last())
    }
}

/// Digits of `radix` with an optional leading sign.
pub open spec fn signed_value(s: Seq<u8>, radix: int) -> Option<int> {
    if s.len() > 0 && s[0] == 0x2d {
        if all_digits(s.skip(1), radix) { Some(-digits_value(s.skip(1), radix)) } else { None }
    } else if s.len() > 0 && s[0] == 0x2b {
        if all_digits(s.skip(1), radix) { Some(digits_value(s.skip(1), radix)) } else { None }
    } else if all_digits(s, radix) {
        Some(digits_value(s, radix))
    } else {
        None
    }
}

/// An integer value: `0x`/`0X` introduces hexadecimal, a leading `0` octal,
/// anything else is decimal; surrounding whitespace is ignored.
pub open spec fn parse_int_spec(s: Seq<u8>) -> Option<int> {
    let t = trim(s);
    if t.len() >= 2 && t[0] == 0x30 && (t[1] == 0x78 || t[1] == 0x58) {
        signed_value(t.skip(2), 16)
    } else if t.len() > 1 && t[0] == 0x30 {
        signed_value(t.skip(1), 8)
    } else {
        signed_value(t, 10)
    }
}

/// A boolean value: `y`, `Y`, `1` or nothing is true; `n`, `N`, `0` is false.
pub open spec fn parse_bool_spec(s: Seq<u8>) -> Option<bool> {
    let t = trim(s);
    if t.len() == 0 || (t.len() == 1 && (t[0] == 0x79 || t[0] == 0x59 || t[0] == 0x31)) {
        Some(true)
    } else if t.len() == 1 && (t[0] == 0x6e || t[0] == 0x4e || t[0] == 0x30) {
        Some(false)
    } else {
        None
    }
}

pub fn to_digit(b: u8) -> (r: u32)
    ensures
        r as int == digit_value(b),
{
    if 0x30 <= b && b <= 0x39 {
        (b - 0x30) as u32
    } else if 0x61 <= b && b <= 0x7a {
        (b - 0x61 + 10) as u32
    } else if 0x41 <= b && b <= 0x5a {
        (b - 0x41 + 10) as u32
    } else {
        99
    }
}

/// The bound beyond which no parameter type holds a value.
pub open spec fn big() -> int {
    0x1_0000_0000_0000_0000
}

proof fn lemma_digits_grow(s: Seq<u8>, radix: int)
    requires
        s.len() > 0,
        2 <= radix,
        0 <= digit_value(s.last()),
        digits_value(s.drop_last(), radix) >= 0,
    ensures
        digits_value(s, radix) >= digits_value(s.drop_last(), radix),
{
    let v = digits_value(s.drop_last(), radix);
    assert(v * radix >= v) by (nonlinear_arith)
        requires
            v >= 0,
            radix >= 2,
    ;
}

/// The value of the digits `s[from..to]` in `radix`: `Some` with the value
/// when all are digits and the value is at most 2^64 + 1, else `None`.
fn digits_in(s: &Vec<u8>, from: usize, to: usize, radix: u32) -> (r: Option<u128>)
    requires
        from <= to <= s@.len(),
        2 <= radix <= 16,
    ensures
        r matches Some(v) ==> all_digits(s@.subrange(from as int, to as int), radix as int) && v as int == digits_value(s@.subrange(from as int, to as int), radix as int) && v as int <= big(),
        r is None ==> !all_digits(s@.subrange(from as int, to as int), radix as int) || digits_value(s@.subrange(from as int, to as int), radix as int) > big(),
{
    if from == to {
        return None;
    }
    let mut acc: u128 = 0;
    let mut large = false;
    let mut i = from;
    while i < to
        invariant
            from <= i <= to <= s@.len(),
            2 <= radix <= 16,
            forall|j: int| from <= j < i ==> digit_value(#[trigger] s@[j]) < radix,
            !large ==> acc as int == digits_value(s@.subrange(from as int, i as int), radix as int) && acc as int <= big(),
            large ==> digits_value(s@.subrange(from as int, i as int), radix as int) > big(),
            digits_value(s@.subrange(from as int, i as int), radix as int) >= 0,
        decreases to - i,
    {
        let d = to_digit(s[i]);
        if d >= radix {
            assert(!all_digits(s@.subrange(from as int, to as int), radix as int)) by {
                assert(s@.subrange(from as int, to as int)[i - from] == s@[i as int]);
            }
            return None;
        }
        let ghost prev = s@.subrange(from as int, i as int);
        let ghost next = s@.subrange(from as int, i + 1);
        assert(next.drop_last() =~= prev);
        assert(next.last() == s@[i as int]);
        proof {
            lemma_digits_grow(next, radix as int);
        }
        if !large {
            assert(acc * (radix as u128) <= 0x10_0000_0000_0000_0000) by (nonlinear_arith)
                requires
                    acc <= 0x1_0000_0000_0000_0000u128,
                    radix <= 16,
            ;
            if acc * (radix as u128) + (d as u128) > 0x1_0000_0000_0000_0000 {
                large = true;
            } else {
                acc = acc * (radix as u128) + (d as u128);
            }
        }
        i += 1;
    }
    assert(all_digits(s@.subrange(from as int, to as int), radix as int));
    if large {
        None
    } else {
        Some(acc)
    }
}

/// The bytes of `s` without surrounding whitespace, as a range.
fn trim_range(s: &Vec<u8>) -> (r: (usize, usize))
    ensures
        r.0 <= r.1 <= s@.len(),
        s@.subrange(r.0 as int, r.1 as int) == trim(s@),
{
    let mut a: usize = 0;
    assert(s@.skip(0) =~= s@);
    while a < s.len() && (is_space_byte(s[a]) || s[a] == 0x0b)
        invariant
            a <= s@.len(),
            lead_len(s@) == a + lead_len(s@.skip(a as int)),
        decreases s@.len() - a,
    {
        assert(s@.skip(a as int).skip(1) =~= s@.skip(a + 1));
        a += 1;
    }
    assert(lead_len(s@.skip(a as int)) == 0);
    let mut b: usize = s.len();
    while b > a && (is_space_byte(s[b - 1]) || s[b - 1] == 0x0b)
        invariant
            a <= b <= s@.len(),
            trim(s@) == trim_end(s@.subrange(a as int, b as int)),
        decreases b,
    {
        assert(s@.subrange(a as int, b as int).drop_last() =~= s@.subrange(a as int, b - 1));
        b -= 1;
    }
    (a, b)
}

/// `digits_in` with an optional leading sign.
fn signed_in(s: &Vec<u8>, from: usize, to: usize, radix: u32) -> (r: Option<i128>)
    requires
        from <= to <= s@.len(),
        2 <= radix <= 16,
    ensures
        r matches Some(v) ==> signed_value(s@.subrange(from as int, to as int), radix as int) == Some(v as int),
        r is None ==> match signed_value(s@.subrange(from as int, to as int), radix as int) {
            Some(v) => v > big() || v < -big(),
            None => true,
        },
{
    let ghost t = s@.subrange(from as int, to as int);
    if from < to && (s[from] == 0x2d || s[from] == 0x2b) {
        assert(t.skip(1) =~= s@.subrange(from + 1, to as int));
        match digits_in(s, from + 1, to, radix) {
            Some(v) => if s[from] == 0x2d {
                Some(-(v as i128))
            } else {
                Some(v as i128)
            },
            None => None,
        }
    } else {
        match digits_in(s, from, to, radix) {
            Some(v) => Some(v as i128),
            None => None,
        }
    }
}

/// Parses an integer value as `parse_int_spec` reads it; `None` also for a
/// value beyond ±2^64, which no parameter type holds.
pub fn parse_integer(s: &Vec<u8>) -> (r: Option<i128>)
    ensures
        r matches Some(v) ==> parse_int_spec(s@) == Some(v as int),
        r is None ==> match parse_int_spec(s@) {
            Some(v) => v > big() || v < -big(),
            None => true,
        },
{
    let (a, b) = trim_range(s);
    let ghost t = s@.subrange(a as int, b as int);
    if b - a >= 2 && s[a] == 0x30 && (s[a + 1] == 0x78 || s[a + 1] == 0x58) {
        assert(t.skip(2) =~= s@.subrange(a + 2, b as int));
        signed_in(s, a + 2, b, 16)
    } else if b - a > 1 && s[a] == 0x30 {
        assert(t.skip(1) =~= s@.subrange(a + 1, b as int));
        signed_in(s, a + 1, b, 8)
    } else {
        signed_in(s, a, b, 10)
    }
}

/// Parses a boolean value as `parse_bool_spec` reads it.
pub fn parse_bool(s: &Vec<u8>) -> (r: Option<bool>)
    ensures
        r == parse_bool_spec(s@),
{
    let (a, b) = trim_range(s);
    if b == a {
        Some(true)
    } else if b - a == 1 && (s[a] == 0x79 || s[a] == 0x59 || s[a] == 0x31) {
        Some(true)
    } else if b - a == 1 && (s[a] == 0x6e || s[a] == 0x4e || s[a] == 0x30) {
        Some(false)
    } else {
        None
    }
}

/// The character of a digit below 16, lower case.
pub open spec fn digit_char(d: int) -> u8 {
    if d < 10 { (0x30 + d) as u8 } else { (0x57 + d) as u8 }
}

/// The digits of `n` in `radix`, most significant first, without leading zeros.
pub open spec fn radix_digits(n: nat, radix: nat) -> Seq<u8>
    decreases n
    via radix_digits_decreases
{
    if radix < 2 || n < radix {
        seq![digit_char(n as int)]
    } else {
        radix_digits(n / radix, radix) + seq![digit_char((n % radix) as int)]
    }
}

#[via_fn]
proof fn radix_digits_decreases(n: nat, radix: nat) {
    if !(radix < 2 || n < radix) {
        assert(n / radix < n) by (nonlinear_arith)
            requires
                radix >= 2,
                n >= radix,
        ;
    }
}

/// A signed number in decimal.
pub open spec fn dec_string(v: int) -> Seq<u8> {
    if v < 0 { seq![0x2d] + radix_digits((-v) as nat, 10) } else { radix_digits(v as nat, 10) }
}

/// A number as `{:#08x}` writes it: `0x`, then lower-case hex digits padded
/// with zeros to eight characters in all.
pub open spec fn hex_string(n: nat) -> Seq<u8> {
    let d = radix_digits(n, 16);
    seq![0x30u8, 0x78u8] + Seq::new(if d.len() < 6 { (6 - d.len()) as nat } else { 0 }, |i: int| 0x30u8) + d
}

/// Appends the digits of `n` in `radix`.
pub fn push_digits(out: &mut Vec<u8>, n: u64, radix: u64)
    requires
        2 <= radix <= 16,
    ensures
        final(out)@ == old(out)@ + radix_digits(n as nat, radix as nat),
    decreases n,
{
    if n >= radix {
        assert(n / radix < n) by (nonlinear_arith)
            requires
                radix >= 2,
                n >= radix,
        ;
        push_digits(out, n / radix, radix);
    }
    let d = n % radix;
    assert(n < radix ==> d == n) by (nonlinear_arith)
        requires
            d == n % radix,
            radix >= 2,
    ;
    let ghost mid = out@;
    out.push(if d < 10 { (0x30 + d) as u8 } else { (0x57 + d) as u8 });
    assert(out@ == mid.push(digit_char(d as int)));
    assert(out@ =~= old(out)@ + radix_digits(n as nat, radix as nat));
}

/// The value a parameter holds, by its type.
pub enum ParamValue {
    Byte(u8),
    Short(i16),
    Ushort(u16),
    Int(i32),
    Uint(u32),
    Long(i64),
    Ulong(u64),
    Ullong(u64),
    Hexint(u32),
    Bool(bool),
    /// A string; `None` before one is stored.
    Charp(Option<Vec<u8>>),
}

/// The mathematical value of a `ParamValue`.
pub enum ParamVal {
    Byte(u8),
    Short(i16),
    Ushort(u16),
    Int(i32),
    Uint(u32),
    Long(i64),
    Ulong(u64),
    Ullong(u64),
    Hexint(u32),
    Bool(bool),
    Charp(Option<Seq<u8>>),
}

impl View for ParamValue {
    type V = ParamVal;

    open spec fn view(&self) -> ParamVal {
        match self {
            ParamValue::Byte(v) => ParamVal::Byte(*v),
            ParamValue::Short(v) => ParamVal::Short(*v),
            ParamValue::Ushort(v) => ParamVal::Ushort(*v),
            ParamValue::Int(v) => ParamVal::Int(*v),
            ParamValue::Uint(v) => ParamVal::Uint(*v),
            ParamValue::Long(v) => ParamVal::Long(*v),
            ParamValue::Ulong(v) => ParamVal::Ulong(*v),
            ParamValue::Ullong(v) => ParamVal::Ullong(*v),
            ParamValue::Hexint(v) => ParamVal::Hexint(*v),
            ParamValue::Bool(v) => ParamVal::Bool(*v),
            ParamValue::Charp(v) => ParamVal::Charp(
                match v {
                    Some(b) => Some(b@),
                    None => None,
                },
            ),
        }
    }
}

/// What storing the text `s` into a parameter holding `v` gives.
pub open spec fn set_spec(v: ParamVal, s: Seq<u8>) -> Result<ParamVal, ParamError> {
    match v {
        ParamVal::Byte(_) => match parse_int_spec(s) {
            Some(n) => if 0 <= n <= 255 { Ok(ParamVal::Byte(n as u8)) } else { Err(ParamError::EINVAL) },
            None => Err(ParamError::EINVAL),
        },
        ParamVal::Short(_) => match parse_int_spec(s) {
            Some(n) => if -32768 <= n <= 32767 { Ok(ParamVal::Short(n as i16)) } else { Err(ParamError::EINVAL) },
            None => Err(ParamError::EINVAL),
        },
        ParamVal::Ushort(_) => match parse_int_spec(s) {
            Some(n) => if 0 <= n <= 65535 { Ok(ParamVal::Ushort(n as u16)) } else { Err(ParamError::EINVAL) },
            None => Err(ParamError::EINVAL),
        },
        ParamVal::Int(_) => match parse_int_spec(s) {
            Some(n) => if -2147483648 <= n <= 2147483647 { Ok(ParamVal::Int(n as i32)) } else { Err(ParamError::EINVAL) },
            None => Err(ParamError::EINVAL),
        },
        ParamVal::Uint(_) => match parse_int_spec(s) {
            Some(n) => if 0 <= n <= 4294967295 { Ok(ParamVal::Uint(n as u32)) } else { Err(ParamError::EINVAL) },
            None => Err(ParamError::EINVAL),
        },
        ParamVal::Long(_) => match parse_int_spec(s) {
            Some(n) => if -9223372036854775808 <= n <= 9223372036854775807 { Ok(ParamVal::Long(n as i64)) } else { Err(ParamError::EINVAL) },
            None => Err(ParamError::EINVAL),
        },
        ParamVal::Ulong(_) => match parse_int_spec(s) {
            Some(n) => if 0 <= n <= 18446744073709551615 { Ok(ParamVal::Ulong(n as u64)) } else { Err(ParamError::EINVAL) },
            None => Err(ParamError::EINVAL),
        },
        ParamVal::Ullong(_) => match parse_int_spec(s) {
            Some(n) => if 0 <= n <= 18446744073709551615 { Ok(ParamVal::Ullong(n as u64)) } else { Err(ParamError::EINVAL) },
            None => Err(ParamError::EINVAL),
        },
        ParamVal::Hexint(_) => match parse_int_spec(s) {
            Some(n) => if 0 <= n <= 4294967295 { Ok(ParamVal::Hexint(n as u32)) } else { Err(ParamError::EINVAL) },
            None => Err(ParamError::EINVAL),
        },
        ParamVal::Bool(_) => match parse_bool_spec(s) {
            Some(b) => Ok(ParamVal::Bool(b)),
            None => Err(ParamError::EINVAL),
        },
        ParamVal::Charp(_) => if s.len() > MAX_CHARP_LEN {
            Err(ParamError::ENOSPC)
        } else {
            Ok(ParamVal::Charp(Some(s)))
        },
    }
}

/// How a parameter's value reads back, newline-terminated.
pub open spec fn format_spec(v: ParamVal) -> Seq<u8> {
    match v {
        ParamVal::Byte(v) => dec_string(v as int) + seq![0x0au8],
        ParamVal::Short(v) => dec_string(v as int) + seq![0x0au8],
        ParamVal::Ushort(v) => dec_string(v as int) + seq![0x0au8],
        ParamVal::Int(v) => dec_string(v as int) + seq![0x0au8],
        ParamVal::Uint(v) => dec_string(v as int) + seq![0x0au8],
        ParamVal::Long(v) => dec_string(v as int) + seq![0x0au8],
        ParamVal::Ulong(v) => dec_string(v as int) + seq![0x0au8],
        ParamVal::Ullong(v) => dec_string(v as int) + seq![0x0au8],
        ParamVal::Hexint(v) => hex_string(v as nat) + seq![0x0au8],
        ParamVal::Bool(b) => if b { seq![0x31u8, 0x0au8] } else { seq![0x30u8, 0x0au8] },
        ParamVal::Charp(c) => match c {
            Some(t) => t + seq![0x0au8],
            None => seq![0x0au8],
        },
    }
}

/// Appends a signed number in decimal.
fn push_dec(out: &mut Vec<u8>, v: i128)
    requires
        -0x1_0000_0000_0000_0000 < v < 0x1_0000_0000_0000_0000,
    ensures
        final(out)@ == old(out)@ + dec_string(v as int),
{
    if v < 0 {
        out.push(0x2d);
        push_digits(out, (-v) as u64, 10);
        assert(out@ =~= old(out)@ + dec_string(v as int));
    } else {
        push_digits(out, v as u64, 10);
    }
}

impl ParamValue {
    /// Parses `s` as a new value of this value's type.
    pub fn parse(&self, s: &Vec<u8>) -> (r: Result<ParamValue, ParamError>)
        ensures
            match set_spec(self@, s@) {
                Ok(v) => r matches Ok(w) && w@ == v,
                Err(e) => r == Err::<ParamValue, _>(e),
            },
    {
        match self {
            ParamValue::Byte(_) => match parse_integer(s) {
                Some(n) => if 0 <= n && n <= 255 { Ok(ParamValue::Byte(n as u8)) } else { Err(ParamError::EINVAL) },
                None => Err(ParamError::EINVAL),
            },
            ParamValue::Short(_) => match parse_integer(s) {
                Some(n) => if -32768 <= n && n <= 32767 { Ok(ParamValue::Short(n as i16)) } else { Err(ParamError::EINVAL) },
                None => Err(ParamError::EINVAL),
            },
            ParamValue::Ushort(_) => match parse_integer(s) {
                Some(n) => if 0 <= n && n <= 65535 { Ok(ParamValue::Ushort(n as u16)) } else { Err(ParamError::EINVAL) },
                None => Err(ParamError::EINVAL),
            },
            ParamValue::Int(_) => match parse_integer(s) {
                Some(n) => if -2147483648 <= n && n <= 2147483647 { Ok(ParamValue::Int(n as i32)) } else { Err(ParamError::EINVAL) },
                None => Err(ParamError::EINVAL),
            },
            ParamValue::Uint(_) => match parse_integer(s) {
                Some(n) => if 0 <= n && n <= 4294967295 { Ok(ParamValue::Uint(n as u32)) } else { Err(ParamError::EINVAL) },
                None => Err(ParamError::EINVAL),
            },
            ParamValue::Long(_) => match parse_integer(s) {
                Some(n) => if -9223372036854775808 <= n && n <= 9223372036854775807 { Ok(ParamValue::Long(n as i64)) } else { Err(ParamError::EINVAL) },
                None => Err(ParamError::EINVAL),
            },
            ParamValue::Ulong(_) => match parse_integer(s) {
                Some(n) => if 0 <= n && n <= 18446744073709551615 { Ok(ParamValue::Ulong(n as u64)) } else { Err(ParamError::EINVAL) },
                None => Err(ParamError::EINVAL),
            },
            ParamValue::Ullong(_) => match parse_integer(s) {
                Some(n) => if 0 <= n && n <= 18446744073709551615 { Ok(ParamValue::Ullong(n as u64)) } else { Err(ParamError::EINVAL) },
                None => Err(ParamError::EINVAL),
            },
            ParamValue::Hexint(_) => match parse_integer(s) {
                Some(n) => if 0 <= n && n <= 4294967295 { Ok(ParamValue::Hexint(n as u32)) } else { Err(ParamError::EINVAL) },
                None => Err(ParamError::EINVAL),
            },
            ParamValue::Bool(_) => match parse_bool(s) {
                Some(b) => Ok(ParamValue::Bool(b)),
                None => Err(ParamError::EINVAL),
            },
            ParamValue::Charp(_) => if s.len() > MAX_CHARP_LEN {
                Err(ParamError::ENOSPC)
            } else {
                assert(s@.subrange(0, s@.len() as int) =~= s@);
                Ok(ParamValue::Charp(Some(copy_range(s, 0, s.len()))))
            },
        }
    }

    /// The value as its parameter reads back.
    pub fn format(&self) -> (r: Vec<u8>)
        ensures
            r@ == format_spec(self@),
    {
        let mut out: Vec<u8> = Vec::new();
        match self {
            ParamValue::Byte(v) => push_dec(&mut out, *v as i128),
            ParamValue::Short(v) => push_dec(&mut out, *v as i128),
            ParamValue::Ushort(v) => push_dec(&mut out, *v as i128),
            ParamValue::Int(v) => push_dec(&mut out, *v as i128),
            ParamValue::Uint(v) => push_dec(&mut out, *v as i128),
            ParamValue::Long(v) => push_dec(&mut out, *v as i128),
            ParamValue::Ulong(v) => push_dec(&mut out, *v as i128),
            ParamValue::Ullong(v) => push_dec(&mut out, *v as i128),
            ParamValue::Hexint(v) => {
                out.push(0x30);
                out.push(0x78);
                let mut digits: Vec<u8> = Vec::new();
                push_digits(&mut digits, *v as u64, 16);
                let mut k: usize = digits.len();
                while k < 6
                    invariant
                        digits@.len() <= k <= 6 || (k == digits@.len() && k >= 6),
                        out@ == seq![0x30u8, 0x78u8] + Seq::new((k - digits@.len()) as nat, |i: int| 0x30u8),
                    decreases 6 - k,
                {
                    out.push(0x30);
                    k += 1;
                    assert(out@ =~= seq![0x30u8, 0x78u8] + Seq::new((k - digits@.len()) as nat, |i: int| 0x30u8));
                }
                let mut j: usize = 0;
                let ghost pre = out@;
                while j < digits.len()
                    invariant
                        j <= digits@.len(),
                        out@ == pre + digits@.subrange(0, j as int),
                    decreases digits@.len() - j,
                {
                    out.push(digits[j]);
                    j += 1;
                    assert(out@ =~= pre + digits@.subrange(0, j as int));
                }
                assert(digits@.subrange(0, digits@.len() as int) =~= digits@);
            },
            ParamValue::Bool(b) => {
                out.push(if *b { 0x31 } else { 0x30 });
            },
            ParamValue::Charp(c) => {
                match c {
                    Some(t) => {
                        out = copy_range(t, 0, t.len());
                        assert(t@.subrange(0, t@.len() as int) =~= t@);
                    },
                    None => {},
                }
            },
        }
        out.push(0x0a);
        proof {
            if let ParamVal::Hexint(v) = self@ {
                assert(out@ =~= format_spec(self@));
            }
        }
        out
    }
}

/// A parameter that a module declares: its name, its level, the flags of its
/// operations and its current value.
pub struct KernelParam {
    pub name: Vec<u8>,
    pub level: i16,
    pub flags: u32,
    pub value: ParamValue,
}

/// The mathematical value of a `KernelParam`.
pub struct KParam {
    pub name: Seq<u8>,
    pub level: i16,
    pub flags: u32,
    pub value: ParamVal,
}

impl View for KernelParam {
    type V = KParam;

    open spec fn view(&self) -> KParam {
        KParam { name: self.name@, level: self.level, flags: self.flags, value: self.value@ }
    }
}

/// The flags that a value type brings: booleans may go without a value.
pub open spec fn flags_for(v: ParamVal) -> u32 {
    if v is Bool { 1 } else { 0 }
}

impl KernelParam {
    /// A parameter of level 0 whose flags follow from its type.
    pub fn new(name: &str, value: ParamValue) -> (r: KernelParam)
        ensures
            r@.name == name.spec_bytes(),
            r@.level == 0,
            r@.flags == flags_for(value@),
            r@.value == value@,
    {
        let flags: u32 = match &value {
            ParamValue::Bool(_) => ParamOpsFlags::KERNEL_PARAM_OPS_FL_NOARG.bits(),
            _ => 0,
        };
        KernelParam { name: name.as_bytes_vec(), level: 0, flags, value }
    }

    pub fn raw_name(&self) -> (r: &Vec<u8>)
        ensures
            r@ == self@.name,
    {
        &self.name
    }

    pub fn level(&self) -> (r: i16)
        ensures
            r == self@.level,
    {
        self.level
    }

    pub fn param_ops_flags(&self) -> (r: u32)
        ensures
            r == self@.flags,
    {
        self.flags
    }

    pub fn value(&self) -> (r: &ParamValue)
        ensures
            r@ == self@.value,
    {
        &self.value
    }
}

/// The views of a list of parameters.
pub open spec fn param_views(ps: Seq<KernelParam>) -> Seq<KParam> {
    ps.map_values(|p: KernelParam| p@)
}

/// The first parameter from `i` whose name is `name`.
pub open spec fn find_param(ps: Seq<KParam>, name: Seq<u8>, i: int) -> Option<int>
    decreases ps.len() - i,
{
    if i < 0 || i >= ps.len() {
        None
    } else if same_name(ps[i].name, name) {
        Some(i)
    } else {
        find_param(ps, name, i + 1)
    }
}

/// One `name[=value]` handed to the declared parameters.
pub open spec fn parse_one_spec(ps: Seq<KParam>, param: Seq<u8>, val: Option<Seq<u8>>, min_level: i16, max_level: i16) -> Result<Seq<KParam>, ParamError> {
    match find_param(ps, param, 0) {
        None => Err(ParamError::ENOENT),
        Some(i) => {
            let kp = ps[i];
            if kp.level < min_level || kp.level > max_level {
                Ok(ps)
            } else if val is None && kp.flags & 1 == 0 {
                Err(ParamError::EINVAL)
            } else {
                match set_spec(kp.value, match val { Some(v) => v, None => Seq::empty() }) {
                    Ok(nv) => Ok(ps.update(i, KParam { value: nv, ..kp })),
                    Err(e) => Err(e),
                }
            }
        },
    }
}

/// Parsing the NUL-terminated `s` from `pos` with the parameters `ps`: the
/// result and the parameters after it.
pub open spec fn parse_from(s: Seq<u8>, pos: int, ps: Seq<KParam>, min_level: i16, max_level: i16) -> (Result<Seq<u8>, ParamError>, Seq<KParam>)
    decreases s.len() - pos,
{
    if pos < 0 || pos >= s.len() || s[pos] == 0 {
        (Ok(Seq::empty()), ps)
    } else {
        let (p, v, next) = next_arg_spec(s, pos);
        if next <= pos || next > s.len() {
            (Ok(Seq::empty()), ps)
        } else if v is None && p == seq![0x2du8, 0x2du8] {
            (Ok(s.subrange(next, s.len() - 1)), ps)
        } else {
            match parse_one_spec(ps, p, v, min_level, max_level) {
                Err(e) => (Err(e), ps),
                Ok(ps2) => parse_from(s, next, ps2, min_level, max_level),
            }
        }
    }
}

/// Parsing a whole command line.
pub open spec fn parse_args_spec(args: Seq<u8>, ps: Seq<KParam>, min_level: i16, max_level: i16) -> (Result<Seq<u8>, ParamError>, Seq<KParam>) {
    let s = args.push(0);
    parse_from(s, skip_spaces_spec(s, 0), ps, min_level, max_level)
}

/// Hands `param` and its value to the first declared parameter of that name.
/// A parameter outside the levels is left alone; one that needs a value and
/// has none fails with `EINVAL`; an unknown name fails with `ENOENT`.
pub fn parse_one(param: &Vec<u8>, val: &Option<Vec<u8>>, params: &mut Vec<KernelParam>, min_level: i16, max_level: i16) -> (r: Result<(), ParamError>)
    ensures
        match parse_one_spec(param_views(old(params)@), param@, match val { Some(v) => Some(v@), None => None }, min_level, max_level) {
            Ok(ps) => r is Ok && param_views(final(params)@) == ps,
            Err(e) => r == Err::<(), _>(e) && param_views(final(params)@) == param_views(old(params)@),
        },
{
    let ghost vs = param_views(params@);
    let ghost sval: Option<Seq<u8>> = match val { Some(v) => Some(v@), None => None };
    let mut i: usize = 0;
    while i < params.len()
        invariant
            i <= params@.len(),
            vs == param_views(params@),
            params@ == old(params)@,
            find_param(vs, param@, 0) == find_param(vs, param@, i as int),
        decreases params@.len() - i,
    {
        if parameq(&params[i].name, param) {
            assert(vs[i as int] == params@[i as int]@);
            if params[i].level < min_level || params[i].level > max_level {
                return Ok(());
            }
            if val.is_none() && params[i].flags & ParamOpsFlags::KERNEL_PARAM_OPS_FL_NOARG.bits() == 0 {
                return Err(ParamError::EINVAL);
            }
            let empty: Vec<u8> = Vec::new();
            assert(empty@ =~= Seq::<u8>::empty());
            let parsed = match val {
                Some(v) => params[i].value.parse(v),
                None => params[i].value.parse(&empty),
            };
            let nv = match parsed {
                Ok(v) => v,
                Err(e) => return Err(e),
            };
            let mut kp = params.remove(i);
            kp.value = nv;
            params.insert(i, kp);
            assert(param_views(params@) =~= vs.update(i as int, KParam { value: nv@, ..vs[i as int] }));
            return Ok(());
        }
        assert(vs[i as int] == params@[i as int]@);
        i += 1;
    }
    Err(ParamError::ENOENT)
}

/// Binds the `name[=value]` tokens of the command line `args` to the declared
/// parameters, in order. Returns what follows a `--` token, or an empty
/// string; stops at the first failing token. `doing` names the caller.
pub fn parse_args(doing: &str, mut args: Vec<u8>, params: &mut Vec<KernelParam>, min_level: i16, max_level: i16) -> (r: Result<Vec<u8>, ParamError>)
    ensures
        match parse_args_spec(args@, param_views(old(params)@), min_level, max_level) {
            (Ok(left), ps) => r matches Ok(v) && v@ == left && param_views(final(params)@) == ps,
            (Err(e), ps) => r == Err::<Vec<u8>, _>(e) && param_views(final(params)@) == ps,
        },
{
    let ghost args0 = args@;
    args.push(0);
    let buf = args;
    proof {
        lemma_skip_before_nul(buf@, 0);
    }
    let mut pos = skip_spaces(&buf, 0);
    let mut leftover: Option<Vec<u8>> = None;
    let mut failure: Option<ParamError> = None;
    while leftover.is_none() && failure.is_none() && buf[pos] != 0
        invariant
            nul_terminated(buf@),
            buf@ == args0.push(0),
            pos < buf@.len(),
            failure matches Some(e) ==> leftover is None && parse_args_spec(args0, param_views(old(params)@), min_level, max_level) == (Err::<Seq<u8>, ParamError>(e), param_views(params@)),
            leftover is None && failure is None ==> parse_from(buf@, pos as int, param_views(params@), min_level, max_level) == parse_args_spec(args0, param_views(old(params)@), min_level, max_level),
            leftover matches Some(left) ==> parse_args_spec(args0, param_views(old(params)@), min_level, max_level) == (Ok::<Seq<u8>, ParamError>(left@), param_views(params@)),
        decreases buf@.len() - pos, if leftover is None && failure is None { 1int } else { 0int },
    {
        let (param, val, next) = next_arg(&buf, pos);
        let ghost na = next_arg_spec(buf@, pos as int);
        assert(param@ == na.0 && next == na.2 && (val is None <==> na.1 is None));
        if next <= pos {
            let e: Vec<u8> = Vec::new();
            assert(e@ =~= Seq::<u8>::empty());
            leftover = Some(e);
        } else if val.is_none() && param.len() == 2 && param[0] == 0x2d && param[1] == 0x2d {
            assert(param@ =~= seq![0x2du8, 0x2du8]);
            let left = copy_range(&buf, next, buf.len() - 1);
            leftover = Some(left);
        } else {
            assert(!(val.is_none() && param@ == seq![0x2du8, 0x2du8]));
            let ghost before = param_views(params@);
            assert(parse_from(buf@, pos as int, before, min_level, max_level) == match parse_one_spec(before, na.0, na.1, min_level, max_level) {
                Err(e) => (Err(e), before),
                Ok(ps2) => parse_from(buf@, next as int, ps2, min_level, max_level),
            });
            match parse_one(&param, &val, params, min_level, max_level) {
                Ok(()) => {
                    pos = next;
                },
                Err(e) => {
                    failure = Some(e);
                },
            }
        }
    }
    if let Some(e) = failure {
        return Err(e);
    }
    match leftover {
        Some(left) => Ok(left),
        None => {
            let e: Vec<u8> = Vec::new();
            assert(e@ =~= Seq::<u8>::empty());
            Ok(e)
        },
    }
}

/// `s1` is `s2` with `n` bytes in front.
pub open spec fn shifted_by(s1: Seq<u8>, s2: Seq<u8>, n: int) -> bool {
    n >= 0 && s1.len() == s2.len() + n && forall|i: int| 0 <= i < s2.len() ==> #[trigger] s1[i + n] == s2[i]
}

proof fn lemma_scan_end_shift(s1: Seq<u8>, s2: Seq<u8>, n: int, i: int, q: bool)
    requires
        shifted_by(s1, s2, n),
        0 <= i,
    ensures
        scan_end(s1, i + n, q) == scan_end(s2, i, q) + n,
    decreases s2.len() - i,
{
    if i < s2.len() {
        assert(s1[i + n] == s2[i]);
        if !(s2[i] == 0 || (is_space(s2[i]) && !q)) {
            lemma_scan_end_shift(s1, s2, n, i + 1, if s2[i] == 0x22 { !q } else { q });
            assert(i + 1 + n == i + n + 1);
        }
    }
}

proof fn lemma_first_equals_shift(s1: Seq<u8>, s2: Seq<u8>, n: int, from: int, to: int)
    requires
        shifted_by(s1, s2, n),
        0 <= from,
        to <= s2.len(),
    ensures
        first_equals(s1, from + n, to + n) == match first_equals(s2, from, to) {
            Some(e) => Some(e + n),
            None => None::<int>,
        },
    decreases to - from,
{
    if from < to {
        assert(s1[from + n] == s2[from]);
        lemma_first_equals_shift(s1, s2, n, from + 1, to);
        assert(from + 1 + n == from + n + 1);
    }
}

proof fn lemma_skip_shift(s1: Seq<u8>, s2: Seq<u8>, n: int, p: int)
    requires
        shifted_by(s1, s2, n),
        0 <= p,
    ensures
        skip_spaces_spec(s1, p + n) == skip_spaces_spec(s2, p) + n,
    decreases s2.len() - p,
{
    if p < s2.len() {
        assert(s1[p + n] == s2[p]);
        if is_space(s2[p]) {
            lemma_skip_shift(s1, s2, n, p + 1);
            assert(p + 1 + n == p + n + 1);
        }
    }
}

proof fn lemma_scan_end_bounds(s: Seq<u8>, i: int, q: bool)
    requires
        0 <= i <= s.len(),
    ensures
        i <= scan_end(s, i, q) <= s.len(),
    decreases s.len() - i,
{
    if i < s.len() && !(s[i] == 0 || (is_space(s[i]) && !q)) {
        lemma_scan_end_bounds(s, i + 1, if s[i] == 0x22 { !q } else { q });
    }
}

proof fn lemma_first_equals_bounds(s: Seq<u8>, from: int, to: int)
    ensures
        first_equals(s, from, to) matches Some(e) ==> from <= e < to && s[e] == 0x3d,
    decreases to - from,
{
    if from < to && s[from] != 0x3d {
        lemma_first_equals_bounds(s, from + 1, to);
    }
}

proof fn lemma_subrange_shift(s1: Seq<u8>, s2: Seq<u8>, n: int, a: int, b: int)
    requires
        shifted_by(s1, s2, n),
        0 <= a <= b <= s2.len(),
    ensures
        s1.subrange(a + n, b + n) == s2.subrange(a, b),
{
    assert forall|k: int| 0 <= k < b - a implies s1.subrange(a + n, b + n)[k] == s2.subrange(a, b)[k] by {
        assert(s1[(a + k) + n] == s2[a + k]);
        assert(a + n + k == (a + k) + n);
    }
    assert(s1.subrange(a + n, b + n) =~= s2.subrange(a, b));
}

proof fn lemma_scan_end_before_nul(s: Seq<u8>, i: int, q: bool)
    requires
        nul_terminated(s),
        0 <= i < s.len(),
    ensures
        scan_end(s, i, q) < s.len(),
    decreases s.len() - i,
{
    if !(s[i] == 0 || (is_space(s[i]) && !q)) {
        assert(i != s.len() - 1);
        lemma_scan_end_before_nul(s, i + 1, if s[i] == 0x22 { !q } else { q });
    }
}

proof fn lemma_scan_end_stop(s: Seq<u8>, i: int, q: bool)
    requires
        0 <= i,
    ensures
        scan_end(s, i, q) < s.len() ==> s[scan_end(s, i, q)] == 0 || is_space(s[scan_end(s, i, q)]),
    decreases s.len() - i,
{
    if i < s.len() && !(s[i] == 0 || (is_space(s[i]) && !q)) {
        lemma_scan_end_stop(s, i + 1, if s[i] == 0x22 { !q } else { q });
    }
}

proof fn lemma_next_arg_shift(s1: Seq<u8>, s2: Seq<u8>, n: int, pos: int)
    requires
        shifted_by(s1, s2, n),
        nul_terminated(s2),
        0 <= pos < s2.len(),
    ensures
        next_arg_spec(s1, pos + n).0 == next_arg_spec(s2, pos).0,
        next_arg_spec(s1, pos + n).1 == next_arg_spec(s2, pos).1,
        next_arg_spec(s1, pos + n).2 == next_arg_spec(s2, pos).2 + n,
{
    assert(s1[pos + n] == s2[pos]);
    let quoted = s2[pos] == 0x22;
    let start = if quoted { pos + 1 } else { pos };
    lemma_scan_end_shift(s1, s2, n, start, quoted);
    assert((if quoted { pos + n + 1 } else { pos + n }) == start + n);
    assert(quoted ==> pos != s2.len() - 1);
    lemma_scan_end_before_nul(s2, start, quoted);
    let idx = scan_end(s2, start, quoted);
    if start <= s2.len() {
        lemma_scan_end_bounds(s2, start, quoted);
    }
    lemma_first_equals_shift(s1, s2, n, start, if idx <= s2.len() { idx } else { s2.len() as int });
    lemma_first_equals_bounds(s2, start, idx);
    lemma_scan_end_ge(s2, start, quoted);
    if idx < s2.len() {
        assert(s1[idx + n] == s2[idx]);
        if idx > start {
            assert(s1[idx - 1 + n] == s2[idx - 1]);
        }
        match first_equals(s2, start, idx) {
            Some(e) => {
                assert(s1[e + 1 + n] == s2[e + 1]);
                lemma_subrange_shift(s1, s2, n, start, e);
                let vs = if s2[e + 1] == 0x22 { e + 2 } else { e + 1 };
                let cut = idx > start && s2[idx - 1] == 0x22 && (s2[e + 1] == 0x22 || quoted);
                let ve = if cut && idx - 1 >= vs { idx - 1 } else { idx };
                lemma_scan_end_stop(s2, start, quoted);
                assert(vs <= ve);
                lemma_subrange_shift(s1, s2, n, vs, ve);
            },
            None => {
                let cut = idx > start && s2[idx - 1] == 0x22 && quoted;
                let ne = if cut { idx - 1 } else { idx };
                lemma_subrange_shift(s1, s2, n, start, ne);
            },
        }
        let next = if s2[idx] != 0 { idx + 1 } else { idx };
        lemma_skip_shift(s1, s2, n, next);
    }
}

proof fn lemma_parse_from_shift(s1: Seq<u8>, s2: Seq<u8>, n: int, pos: int, ps: Seq<KParam>, min_level: i16, max_level: i16)
    requires
        shifted_by(s1, s2, n),
        nul_terminated(s2),
        0 <= pos,
    ensures
        parse_from(s1, pos + n, ps, min_level, max_level) == parse_from(s2, pos, ps, min_level, max_level),
    decreases s2.len() - pos,
{
    if pos < s2.len() {
        assert(s1[pos + n] == s2[pos]);
        if s2[pos] != 0 {
            lemma_next_arg_shift(s1, s2, n, pos);
            let (p, v, next) = next_arg_spec(s2, pos);
            lemma_skip_before_nul_spec(s2, pos);
            if next > pos && next <= s2.len() {
                lemma_subrange_shift(s1, s2, n, next, s2.len() - 1);
                if !(v is None && p == seq![0x2du8, 0x2du8]) {
                    match parse_one_spec(ps, p, v, min_level, max_level) {
                        Ok(ps2) => lemma_parse_from_shift(s1, s2, n, next, ps2, min_level, max_level),
                        Err(_) => {},
                    }
                }
            }
        }
    }
}

proof fn lemma_skip_before_nul_spec(s: Seq<u8>, pos: int)
    requires
        nul_terminated(s),
        0 <= pos < s.len(),
    ensures
        next_arg_spec(s, pos).2 < s.len(),
{
    let quoted = s[pos] == 0x22;
    let start = if quoted { pos + 1 } else { pos };
    assert(quoted ==> pos != s.len() - 1);
    lemma_scan_end_before_nul(s, start, quoted);
    lemma_scan_end_ge(s, start, quoted);
    let idx = scan_end(s, start, quoted);
    if idx < s.len() {
        let next = if s[idx] != 0 { idx + 1 } else { idx };
        if next < s.len() {
            lemma_skip_before_nul(s, next);
        }
    }
}

/// Whitespace before the first token changes neither the result of a parse
/// nor the values it binds.
pub proof fn lemma_leading_whitespace(ws: Seq<u8>, args: Seq<u8>, ps: Seq<KParam>, min_level: i16, max_level: i16)
    requires
        forall|i: int| 0 <= i < ws.len() ==> is_space(#[trigger] ws[i]),
    ensures
        parse_args_spec(ws + args, ps, min_level, max_level) == parse_args_spec(args, ps, min_level, max_level),
{
    let s1 = (ws + args).push(0);
    let s2 = args.push(0);
    let n = ws.len() as int;
    assert forall|i: int| 0 <= i < s2.len() implies #[trigger] s1[i + n] == s2[i] by {
        if i < args.len() {
            assert(s1[i + n] == (ws + args)[i + n]);
        }
    }
    assert(shifted_by(s1, s2, n));
    assert forall|j: int| 0 <= j <= n implies skip_spaces_spec(s1, j) == skip_spaces_spec(s1, n) by {
        lemma_skip_prefix(s1, ws, j, n);
    }
    lemma_skip_shift(s1, s2, n, 0);
    lemma_skip_before_nul(s2, 0);
    lemma_parse_from_shift(s1, s2, n, skip_spaces_spec(s2, 0), ps, min_level, max_level);
}

proof fn lemma_skip_prefix(s1: Seq<u8>, ws: Seq<u8>, j: int, n: int)
    requires
        n == ws.len(),
        s1.len() >= n,
        forall|i: int| 0 <= i < n ==> s1[i] == ws[i],
        forall|i: int| 0 <= i < ws.len() ==> is_space(#[trigger] ws[i]),
        0 <= j <= n,
    ensures
        skip_spaces_spec(s1, j) == skip_spaces_spec(s1, n),
    decreases n - j,
{
    if j < n {
        assert(s1[j] == ws[j]);
        assert(is_space(ws[j]));
        lemma_skip_prefix(s1, ws, j + 1, n);
    }
}

} // verus!
