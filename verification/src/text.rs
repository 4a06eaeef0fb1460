use vstd::prelude::*;

verus! {

/// The ASCII digit of a value below ten.
pub open spec fn digit_char(n: int) -> u8 {
    (0x30 + n) as u8
}

/// The decimal digits of a number, most significant first.
pub open spec fn dec_str(n: int) -> Seq<u8>
    decreases n,
{
    if n < 10 {
        seq![digit_char(if n < 0 {
            0
        } else {
            n
        })]
    } else {
        dec_str(n / 10) + seq![digit_char(n % 10)]
    }
}

/// The decimal digits of a number, left-padded with zeros to a width.
pub open spec fn dec_str_padded(n: int, width: int) -> Seq<u8>
    decreases width,
{
    if width <= 1 {
        seq![digit_char(if 0 <= n < 10 {
            n
        } else {
            0
        })]
    } else {
        dec_str_padded(n / 10, width - 1) + seq![digit_char(n % 10)]
    }
}

/// The text of a fixed-point value: the sign, the whole part, a point, and
/// the fractional part padded to its width.
pub open spec fn fixed_text(v: int, scale: int, width: int) -> Seq<u8> {
    let m = if v < 0 {
        -v
    } else {
        v
    };
    (if v < 0 {
        seq![0x2Du8]
    } else {
        Seq::<u8>::empty()
    }) + dec_str(m / scale) + seq![0x2Eu8] + dec_str_padded(m % scale, width)
}

/// Appends the decimal digits of `n`.
pub fn push_dec(n: u64, out: &mut Vec<u8>)
    ensures
        final(out)@ == old(out)@ + dec_str(n as int),
    decreases n,
{
    let ghost pre = out@;
    if n >= 10 {
        push_dec(n / 10, out);
    }
    out.push(0x30 + (n % 10) as u8);
    proof {
        assert(out@ =~= pre + dec_str(n as int));
    }
}

/// Appends exactly `width` decimal digits of `n`, zero-padded.
pub fn push_dec_padded(n: u64, width: u64, out: &mut Vec<u8>)
    requires
        width >= 1,
    ensures
        final(out)@ == old(out)@ + dec_str_padded(n as int, width as int),
    decreases width,
{
    let ghost pre = out@;
    if width > 1 {
        push_dec_padded(n / 10, width - 1, out);
        out.push(0x30 + (n % 10) as u8);
        proof {
            assert(out@ =~= pre + dec_str_padded(n as int, width as int));
        }
    } else {
        if n < 10 {
            out.push(0x30 + n as u8);
        } else {
            out.push(0x30);
        }
        proof {
            assert(out@ =~= pre + dec_str_padded(n as int, width as int));
        }
    }
}

/// Appends the fixed-point text of `v` with the given scale and fractional
/// width.
pub fn push_fixed(v: i64, scale: u64, width: u64, out: &mut Vec<u8>)
    requires
        width >= 1,
        scale >= 1,
        v > i64::MIN,
    ensures
        final(out)@ == old(out)@ + fixed_text(v as int, scale as int, width as int),
{
    let ghost pre = out@;
    let m: u64 = if v < 0 {
        out.push(0x2D);
        (-v) as u64
    } else {
        v as u64
    };
    push_dec(m / scale, out);
    out.push(0x2E);
    push_dec_padded(m % scale, width, out);
    proof {
        assert(out@ =~= pre + fixed_text(v as int, scale as int, width as int));
    }
}

/// All bytes the formatters emit are ASCII.
pub proof fn lemma_dec_str_ascii(n: int)
    ensures
        forall|i: int| 0 <= i < dec_str(n).len() ==> #[trigger] dec_str(n)[i] < 128,
    decreases n,
{
    if n >= 10 {
        lemma_dec_str_ascii(n / 10);
        let a = dec_str(n / 10);
        let w = dec_str(n);
        assert(w == a + seq![digit_char(n % 10)]);
        assert(forall|i: int| 0 <= i < a.len() ==> #[trigger] w[i] == a[i]);
        assert(w[w.len() - 1] == digit_char(n % 10));
    } else {
        assert(dec_str(n).len() == 1);
    }
}

pub proof fn lemma_dec_str_padded_ascii(n: int, width: int)
    ensures
        forall|i: int|
            0 <= i < dec_str_padded(n, width).len() ==> #[trigger] dec_str_padded(n, width)[i]
                < 128,
    decreases width,
{
    if width > 1 {
        lemma_dec_str_padded_ascii(n / 10, width - 1);
        let a = dec_str_padded(n / 10, width - 1);
        let w = dec_str_padded(n, width);
        assert(w == a + seq![digit_char(n % 10)]);
        assert(forall|i: int| 0 <= i < a.len() ==> #[trigger] w[i] == a[i]);
        assert(w[w.len() - 1] == digit_char(n % 10));
    } else {
        assert(dec_str_padded(n, width).len() == 1);
    }
}

/// The characters an ASCII byte string denotes.
pub open spec fn ascii_view(v: Seq<u8>) -> Seq<char> {
    Seq::new(v.len(), |i: int| v[i] as char)
}

/// Relies on `String::from_utf8`: a vector of ASCII bytes is valid UTF-8 and
/// converts to the string of exactly those characters.
#[verifier::external_body]
pub fn string_from_ascii(v: Vec<u8>) -> (s: String)
    requires
        forall|i: int| 0 <= i < v@.len() ==> #[trigger] v@[i] < 128,
    ensures
        s@ == ascii_view(v@),
{
    match String::from_utf8(v) {
        Ok(s) => s,
        Err(_) => String::new(),
    }
}

/// The decimal text of a number, as a string.
pub fn u64_to_string(n: u64) -> (s: String)
    ensures
        s@ == ascii_view(dec_str(n as int)),
{
    let mut out: Vec<u8> = Vec::new();
    push_dec(n, &mut out);
    proof {
        lemma_dec_str_ascii(n as int);
    }
    string_from_ascii(out)
}

/// The fixed-point text of a value, as a string.
pub fn fixed_to_string(v: i64, scale: u64, width: u64) -> (s: String)
    requires
        width >= 1,
        scale >= 1,
        v > i64::MIN,
    ensures
        s@ == ascii_view(fixed_text(v as int, scale as int, width as int)),
{
    let mut out: Vec<u8> = Vec::new();
    push_fixed(v, scale, width, &mut out);
    proof {
        lemma_dec_str_ascii((if v < 0 {
            -v
        } else {
            v as int
        }) / scale as int);
        lemma_dec_str_padded_ascii((if v < 0 {
            -v
        } else {
            v as int
        }) % scale as int, width as int);
    }
    string_from_ascii(out)
}

/// The timestamp text the writers embed, for a split timestamp. Named after
/// the formatting that the calendar library performs.
pub uninterp spec fn timestamp_text(secs: u64, millis: u64) -> Seq<char>;

/// Relies on chrono's `DateTime::from_timestamp` and date formatting: the
/// text is a function of the given seconds and milliseconds alone, in the
/// form YYYY-MM-DDTHH:MM:SS.mmmZ. Seconds within this bound lie far inside
/// chrono's representable years, so `from_timestamp` yields a date.
#[verifier::external_body]
pub fn format_timestamp_parts(secs: u64, millis: u64) -> (s: String)
    requires
        secs <= 2_000_000_000_000,
    ensures
        s@ == timestamp_text(secs, millis),
{
    match chrono::DateTime::from_timestamp(secs as i64, 0) {
        Some(dt) => format!("{}.{:03}Z", dt.format("%Y-%m-%dT%H:%M:%S"), millis),
        None => String::new(),
    }
}

/// The timestamp text of a millisecond timestamp.
pub open spec fn ts_text(ms: u64) -> Seq<char> {
    timestamp_text((ms / 1000) as u64, (ms % 1000) as u64)
}

/// Formats a millisecond timestamp.
pub fn format_timestamp(t: u64) -> (s: String)
    requires
        t <= crate::statistics::TIME_LIMIT_MS,
    ensures
        s@ == ts_text(t),
{
    let sec = t / 1000;
    let ms = t % 1000;
    format_timestamp_parts(sec, ms)
}

/// The code point a character compares as under ASCII case folding: the
/// letters A through Z fold onto their lowercase forms, everything else
/// onto itself.
pub open spec fn lower_code(c: char) -> int {
    if 65 <= c as int <= 90 {
        c as int + 32
    } else {
        c as int
    }
}

/// Whether two tags are the same up to ASCII case.
pub open spec fn tag_matches(s: Seq<char>, t: Seq<char>) -> bool {
    s.len() == t.len() && forall|i: int|
        0 <= i < s.len() ==> #[trigger] lower_code(s[i]) == lower_code(t[i])
}

/// Compares two tags, ignoring ASCII case.
pub fn tag_eq_ignore_case(s: &str, t: &str) -> (r: bool)
    ensures
        r == tag_matches(s@, t@),
{
    let n = s.unicode_len();
    let m = t.unicode_len();
    if n != m {
        return false;
    }
    let mut i: usize = 0;
    while i < n
        invariant
            0 <= i <= n,
            n == s@.len(),
            n == t@.len(),
            forall|j: int| 0 <= j < i ==> #[trigger] lower_code(s@[j]) == lower_code(t@[j]),
        decreases n - i,
    {
        let a = s.get_char(i) as u32;
        let b = t.get_char(i) as u32;
        let la = if 65 <= a && a <= 90 {
            a + 32
        } else {
            a
        };
        let lb = if 65 <= b && b <= 90 {
            b + 32
        } else {
            b
        };
        if la != lb {
            proof {
                assert(la as int == lower_code(s@[i as int]));
                assert(lb as int == lower_code(t@[i as int]));
                assert(!tag_matches(s@, t@));
            }
            return false;
        }
        i = i + 1;
    }
    true
}

/// The ASCII-lowercased copy of a tag; a tag holding characters beyond
/// ASCII is handed back unchanged.
pub fn ascii_lower(s: &str) -> (r: String)
    ensures
        vstd::string::is_ascii(s) ==> r@.len() == s@.len() && forall|i: int|
            0 <= i < r@.len() ==> #[trigger] r@[i] as int == lower_code(s@[i]),
        !vstd::string::is_ascii(s) ==> r@ == s@,
{
    if !s.is_ascii() {
        return s.to_owned();
    }
    let n = s.unicode_len();
    let mut out: Vec<u8> = Vec::new();
    let mut i: usize = 0;
    while i < n
        invariant
            0 <= i <= n,
            n == s@.len(),
            vstd::string::is_ascii(s),
            out@.len() == i,
            forall|j: int|
                0 <= j < i ==> #[trigger] out@[j] < 128 && out@[j] as int == lower_code(s@[j]),
        decreases n - i,
    {
        let b = s.get_ascii(i);
        proof {
            assert('\0' <= s@[i as int] <= '\u{7f}');
        }
        let lb = if 65 <= b && b <= 90 {
            b + 32
        } else {
            b
        };
        out.push(lb);
        i = i + 1;
    }
    string_from_ascii(out)
}

} // verus!
